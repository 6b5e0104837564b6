//! One income record, as a row of the incomes table reads once decoded.
use vstd::prelude::*;
use crate::date::Date;

verus! {

/// An income row: its key, its creator's key, and what was earned when.
#[derive(Clone, Debug)]
pub struct Income {
    pub incomes_id: i32,
    pub incomes_creator: i32,
    pub incomes_name: String,
    pub incomes_price: u32,
    pub incomes_category: i32,
    pub incomes_date: Date,
}

impl Income {
    pub fn new(
        incomes_id: i32,
        incomes_creator: i32,
        incomes_name: String,
        incomes_price: u32,
        incomes_category: i32,
        incomes_date: Date,
    ) -> (r: Self)
        ensures
            r.incomes_id == incomes_id,
            r.incomes_creator == incomes_creator,
            r.incomes_name == incomes_name,
            r.incomes_price == incomes_price,
            r.incomes_category == incomes_category,
            r.incomes_date == incomes_date,
    {
        Self { incomes_id, incomes_creator, incomes_name, incomes_price, incomes_category, incomes_date }
    }
}

} // verus!
