//! One expense record, as a row of the expenses table reads once decoded.
use vstd::prelude::*;
use crate::date::Date;

verus! {

/// An expense row: its key, its creator's key, and what was spent when.
#[derive(Clone, Debug)]
pub struct Expense {
    pub expenses_id: i32,
    pub expenses_creator: i32,
    pub expenses_name: String,
    pub expenses_price: u32,
    pub expenses_category: i32,
    pub expenses_date: Date,
}

impl Expense {
    pub fn new(
        expenses_id: i32,
        expenses_creator: i32,
        expenses_name: String,
        expenses_price: u32,
        expenses_category: i32,
        expenses_date: Date,
    ) -> (r: Self)
        ensures
            r.expenses_id == expenses_id,
            r.expenses_creator == expenses_creator,
            r.expenses_name == expenses_name,
            r.expenses_price == expenses_price,
            r.expenses_category == expenses_category,
            r.expenses_date == expenses_date,
    {
        Self { expenses_id, expenses_creator, expenses_name, expenses_price, expenses_category, expenses_date }
    }
}

} // verus!
