//! A budget ledger kept in an embedded SQLite store: budgets, the expenses
//! and incomes that belong to them, and per-budget totals.

pub mod sqlite;
pub mod timestamp;
pub mod records;
pub mod rows;
pub mod sql;
pub mod budgman;
