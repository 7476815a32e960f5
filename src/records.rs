//! The three kinds of record that the ledger stores.

use crate::timestamp::Timestamp;
use vstd::prelude::*;

verus! {

/// A named spending ceiling, in the smallest unit of the currency.
#[derive(Clone, Debug, PartialEq, Eq)]
pub struct Budget {
    pub name: String,
    pub id: u32,
    pub amount: u64,
}

/// A dated amount that belongs to one budget: money spent (an expense) or
/// money received (an income).
#[derive(Clone, Debug, PartialEq, Eq)]
pub struct Entry {
    pub id: u32,
    pub name: String,
    pub time: Timestamp,
    pub budget_id: u32,
    pub amount: u64,
}

pub type Expense = Entry;

pub type Income = Entry;

} // verus!
