//! The signed-in user: profile fields and, once loaded, the user's saved
//! incomes and expenses.
use vstd::prelude::*;
use crate::expense::Expense;
use crate::income::Income;

verus! {

/// A user as the login query returns one; incomes and expenses start absent
/// and arrive with their own load messages.
#[derive(Clone, Debug)]
pub struct User {
    pub id: i32,
    pub last_name: Option<String>,
    pub first_name: Option<String>,
    pub nickname: String,
    pub incomes: Option<Vec<Income>>,
    pub expenses: Option<Vec<Expense>>,
}

impl User {
    pub fn new(id: i32, last_name: Option<String>, first_name: Option<String>, nickname: String) -> (r: Self)
        ensures
            r == (User { id, last_name, first_name, nickname, incomes: None, expenses: None }),
    {
        User { id, last_name, first_name, nickname, incomes: None, expenses: None }
    }

    pub fn get_id(&self) -> (r: i32)
        ensures
            r == self.id,
    {
        self.id
    }

    pub fn add_incomes_to_user(&mut self, incomes: Vec<Income>)
        ensures
            *final(self) == (User { incomes: Some(incomes), ..*old(self) }),
    {
        self.incomes = Some(incomes)
    }

    pub fn add_expenses_to_user(&mut self, expenses: Vec<Expense>)
        ensures
            *final(self) == (User { expenses: Some(expenses), ..*old(self) }),
    {
        self.expenses = Some(expenses)
    }
}

} // verus!
