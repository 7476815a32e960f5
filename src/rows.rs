//! Reading records and totals out of result rows, and telling apart the
//! failures that the store reports.

use crate::records::{Budget, Entry};
use crate::sqlite::{self, Cell};
use crate::timestamp::{parse_rfc3339, timestamp_of_text};
use vstd::prelude::*;

verus! {

/// Why an operation of the store did not complete.
#[derive(Debug)]
pub enum StoreError {
    /// No record has the identifier asked for.
    NotFound,
    /// A record would refer to a budget that does not exist.
    ForeignKey,
    /// A record breaks a rule of the schema (an empty budget name, a missing
    /// column).
    Constraint,
    /// An amount is larger than the store's integers can hold.
    AmountOutOfRange,
    /// A moment lies outside the calendar's range or its offset is no time zone.
    InvalidTime,
    /// The store answered with a row that does not read as the record asked for.
    InvalidRow,
    /// Any other failure of SQLite.
    Sqlite(rusqlite::Error),
}

/// SQLite's primary result code for a broken constraint.
pub const SQLITE_CONSTRAINT: i32 = 19;

/// SQLite's extended result code for a broken foreign key.
pub const SQLITE_CONSTRAINT_FOREIGNKEY: i32 = 787;

pub open spec fn error_for_code(code: Option<i32>, e: rusqlite::Error) -> StoreError {
    match code {
        Some(c) => if c == SQLITE_CONSTRAINT_FOREIGNKEY {
            StoreError::ForeignKey
        } else if c >= 0 && c % 256 == SQLITE_CONSTRAINT {
            StoreError::Constraint
        } else {
            StoreError::Sqlite(e)
        },
        None => StoreError::Sqlite(e),
    }
}

/// Classifies a failure by the extended result code that SQLite gave for it.
pub fn error_from_code(code: Option<i32>, e: rusqlite::Error) -> (r: StoreError)
    ensures
        r == error_for_code(code, e),
{
    match code {
        Some(c) => if c == SQLITE_CONSTRAINT_FOREIGNKEY {
            StoreError::ForeignKey
        } else if c >= 0 && c % 256 == SQLITE_CONSTRAINT {
            StoreError::Constraint
        } else {
            StoreError::Sqlite(e)
        },
        None => StoreError::Sqlite(e),
    }
}

/// Classifies a failure that the store reported.
pub fn store_error(e: rusqlite::Error) -> (r: StoreError)
    ensures
        r is ForeignKey || r is Constraint || r is Sqlite,
{
    let code = sqlite::extended_code(&e);
    error_from_code(code, e)
}

pub open spec fn id_of_cell(c: Cell) -> Option<u32> {
    match c {
        Cell::Integer(i) => if 0 <= i <= u32::MAX {
            Some(i as u32)
        } else {
            None
        },
        _ => None,
    }
}

pub open spec fn amount_of_cell(c: Cell) -> Option<u64> {
    match c {
        Cell::Integer(i) => if 0 <= i {
            Some(i as u64)
        } else {
            None
        },
        _ => None,
    }
}

pub open spec fn text_of_cell(c: Cell) -> Option<String> {
    match c {
        Cell::Text(s) => Some(s),
        _ => None,
    }
}

fn id_from_cell(c: &Cell) -> (r: Option<u32>)
    ensures
        r == id_of_cell(*c),
{
    match c {
        Cell::Integer(i) => if 0 <= *i && *i <= u32::MAX as i64 {
            Some(*i as u32)
        } else {
            None
        },
        _ => None,
    }
}

fn amount_from_cell(c: &Cell) -> (r: Option<u64>)
    ensures
        r == amount_of_cell(*c),
{
    match c {
        Cell::Integer(i) => if 0 <= *i {
            Some(*i as u64)
        } else {
            None
        },
        _ => None,
    }
}

fn text_from_cell(c: &Cell) -> (r: Option<String>)
    ensures
        r == text_of_cell(*c),
{
    match c {
        Cell::Text(s) => Some(s.clone()),
        _ => None,
    }
}

/// A row `(id, name, amount)` of the budget table.
pub open spec fn budget_of_row(row: Seq<Cell>) -> Option<Budget> {
    if row.len() == 3 && id_of_cell(row[0]) is Some && text_of_cell(row[1]) is Some
        && amount_of_cell(row[2]) is Some {
        Some(
            Budget {
                id: id_of_cell(row[0])->Some_0,
                name: text_of_cell(row[1])->Some_0,
                amount: amount_of_cell(row[2])->Some_0,
            },
        )
    } else {
        None
    }
}

/// A row `(id, name, amount, time, budget_id)` of the expense or income table.
pub open spec fn entry_of_row(row: Seq<Cell>) -> Option<Entry> {
    if row.len() == 5 && id_of_cell(row[0]) is Some && text_of_cell(row[1]) is Some
        && amount_of_cell(row[2]) is Some && text_of_cell(row[3]) is Some && timestamp_of_text(
        text_of_cell(row[3])->Some_0@,
    ) is Some && id_of_cell(row[4]) is Some {
        Some(
            Entry {
                id: id_of_cell(row[0])->Some_0,
                name: text_of_cell(row[1])->Some_0,
                amount: amount_of_cell(row[2])->Some_0,
                time: timestamp_of_text(text_of_cell(row[3])->Some_0@)->Some_0,
                budget_id: id_of_cell(row[4])->Some_0,
            },
        )
    } else {
        None
    }
}

pub open spec fn read_as<T>(o: Option<T>) -> Result<T, StoreError> {
    match o {
        Some(v) => Ok(v),
        None => Err(StoreError::InvalidRow),
    }
}

/// Reads a budget out of a row `(id, name, amount)`.
pub fn budget_from_row(row: &Vec<Cell>) -> (r: Result<Budget, StoreError>)
    ensures
        r == read_as(budget_of_row(row@)),
{
    if row.len() != 3 {
        return Err(StoreError::InvalidRow);
    }
    let id = id_from_cell(&row[0]);
    let name = text_from_cell(&row[1]);
    let amount = amount_from_cell(&row[2]);
    match (id, name, amount) {
        (Some(id), Some(name), Some(amount)) => Ok(Budget { id, name, amount }),
        _ => Err(StoreError::InvalidRow),
    }
}

/// Reads an expense or income out of a row `(id, name, amount, time, budget_id)`.
pub fn entry_from_row(row: &Vec<Cell>) -> (r: Result<Entry, StoreError>)
    ensures
        r == read_as(entry_of_row(row@)),
{
    if row.len() != 5 {
        return Err(StoreError::InvalidRow);
    }
    let id = id_from_cell(&row[0]);
    let name = text_from_cell(&row[1]);
    let amount = amount_from_cell(&row[2]);
    let time = match &row[3] {
        Cell::Text(s) => parse_rfc3339(s.as_str()),
        _ => None,
    };
    let budget_id = id_from_cell(&row[4]);
    match (id, name, amount, time, budget_id) {
        (Some(id), Some(name), Some(amount), Some(time), Some(budget_id)) => Ok(
            Entry { id, name, amount, time, budget_id },
        ),
        _ => Err(StoreError::InvalidRow),
    }
}

/// Every row reads as a budget.
pub open spec fn all_budgets(rows: Seq<Vec<Cell>>) -> bool {
    forall|i: int| 0 <= i < rows.len() ==> (#[trigger] budget_of_row(rows[i]@)) is Some
}

/// Reads every row `(id, name, amount)` as a budget, in order; an empty
/// answer is an empty list.
pub fn budgets_from_rows(rows: &Vec<Vec<Cell>>) -> (r: Result<Vec<Budget>, StoreError>)
    ensures
        r is Ok <==> all_budgets(rows@),
        r is Err ==> r->Err_0 is InvalidRow,
        r is Ok ==> r->Ok_0@.len() == rows@.len() && forall|i: int|
            0 <= i < rows@.len() ==> #[trigger] r->Ok_0@[i] == budget_of_row(rows@[i]@)->Some_0,
{
    let mut out: Vec<Budget> = Vec::new();
    let mut k: usize = 0;
    while k < rows.len()
        invariant
            k <= rows@.len(),
            out@.len() == k,
            forall|i: int| 0 <= i < k ==> (#[trigger] budget_of_row(rows@[i]@)) is Some,
            forall|i: int| 0 <= i < k ==> #[trigger] out@[i] == budget_of_row(rows@[i]@)->Some_0,
        decreases rows@.len() - k,
    {
        match budget_from_row(&rows[k]) {
            Ok(b) => out.push(b),
            Err(e) => return Err(e),
        }
        k = k + 1;
    }
    Ok(out)
}

/// Every row reads as an entry of the budget `budget_id`.
pub open spec fn all_entries_of(rows: Seq<Vec<Cell>>, budget_id: u32) -> bool {
    forall|i: int|
        0 <= i < rows.len() ==> (#[trigger] entry_of_row(rows[i]@)) is Some && entry_of_row(
            rows[i]@,
        )->Some_0.budget_id == budget_id
}

/// Reads every row `(id, name, amount, time, budget_id)` as an entry of the
/// budget `budget_id`, in order. A row of another budget is no answer to the
/// question asked, and fails as an unreadable one does.
pub fn entries_from_rows(rows: &Vec<Vec<Cell>>, budget_id: u32) -> (r: Result<
    Vec<Entry>,
    StoreError,
>)
    ensures
        r is Ok <==> all_entries_of(rows@, budget_id),
        r is Err ==> r->Err_0 is InvalidRow,
        r is Ok ==> r->Ok_0@.len() == rows@.len() && forall|i: int|
            0 <= i < rows@.len() ==> #[trigger] r->Ok_0@[i] == entry_of_row(rows@[i]@)->Some_0,
{
    let mut out: Vec<Entry> = Vec::new();
    let mut k: usize = 0;
    while k < rows.len()
        invariant
            k <= rows@.len(),
            out@.len() == k,
            forall|i: int|
                0 <= i < k ==> (#[trigger] entry_of_row(rows@[i]@)) is Some && entry_of_row(
                    rows@[i]@,
                )->Some_0.budget_id == budget_id,
            forall|i: int| 0 <= i < k ==> #[trigger] out@[i] == entry_of_row(rows@[i]@)->Some_0,
        decreases rows@.len() - k,
    {
        match entry_from_row(&rows[k]) {
            Ok(e) => {
                if e.budget_id != budget_id {
                    return Err(StoreError::InvalidRow);
                }
                out.push(e);
            },
            Err(e) => return Err(e),
        }
        k = k + 1;
    }
    Ok(out)
}

/// The answer to a lookup of the budget `id`: no row means no such budget.
pub open spec fn budget_lookup(rows: Seq<Vec<Cell>>, id: u32) -> Result<Budget, StoreError> {
    if rows.len() == 0 {
        Err(StoreError::NotFound)
    } else if rows.len() == 1 && budget_of_row(rows[0]@) is Some && budget_of_row(
        rows[0]@,
    )->Some_0.id == id {
        Ok(budget_of_row(rows[0]@)->Some_0)
    } else {
        Err(StoreError::InvalidRow)
    }
}

/// Reads the answer to a lookup of the budget `id`.
pub fn budget_from_lookup(rows: &Vec<Vec<Cell>>, id: u32) -> (r: Result<Budget, StoreError>)
    ensures
        r == budget_lookup(rows@, id),
{
    if rows.len() == 0 {
        return Err(StoreError::NotFound);
    }
    if rows.len() != 1 {
        return Err(StoreError::InvalidRow);
    }
    match budget_from_row(&rows[0]) {
        Ok(b) => if b.id == id {
            Ok(b)
        } else {
            Err(StoreError::InvalidRow)
        },
        Err(e) => Err(e),
    }
}

/// The answer to a lookup of the expense or income `id`.
pub open spec fn entry_lookup(rows: Seq<Vec<Cell>>, id: u32) -> Result<Entry, StoreError> {
    if rows.len() == 0 {
        Err(StoreError::NotFound)
    } else if rows.len() == 1 && entry_of_row(rows[0]@) is Some && entry_of_row(
        rows[0]@,
    )->Some_0.id == id {
        Ok(entry_of_row(rows[0]@)->Some_0)
    } else {
        Err(StoreError::InvalidRow)
    }
}

/// Reads the answer to a lookup of the expense or income `id`.
pub fn entry_from_lookup(rows: &Vec<Vec<Cell>>, id: u32) -> (r: Result<Entry, StoreError>)
    ensures
        r == entry_lookup(rows@, id),
{
    if rows.len() == 0 {
        return Err(StoreError::NotFound);
    }
    if rows.len() != 1 {
        return Err(StoreError::InvalidRow);
    }
    match entry_from_row(&rows[0]) {
        Ok(e) => if e.id == id {
            Ok(e)
        } else {
            Err(StoreError::InvalidRow)
        },
        Err(e) => Err(e),
    }
}

/// The single cell of a one-row, one-column answer.
pub open spec fn only_cell(rows: Seq<Vec<Cell>>) -> Option<Cell> {
    if rows.len() == 1 && rows[0]@.len() == 1 {
        Some(rows[0]@[0])
    } else {
        None
    }
}

/// The total that an aggregate `sum(amount)` answered: SQL's sum over no
/// rows is NULL, which is a total of zero.
pub open spec fn total_of(rows: Seq<Vec<Cell>>) -> Result<u64, StoreError> {
    match only_cell(rows) {
        Some(Cell::Null) => Ok(0),
        Some(c) => read_as(amount_of_cell(c)),
        None => Err(StoreError::InvalidRow),
    }
}

/// Reads the answer to an aggregate `sum(amount)`.
pub fn total_from_rows(rows: &Vec<Vec<Cell>>) -> (r: Result<u64, StoreError>)
    ensures
        r == total_of(rows@),
{
    if rows.len() != 1 || rows[0].len() != 1 {
        return Err(StoreError::InvalidRow);
    }
    match &rows[0][0] {
        Cell::Null => Ok(0),
        c => match amount_from_cell(c) {
            Some(a) => Ok(a),
            None => Err(StoreError::InvalidRow),
        },
    }
}

/// The identifier that an `insert ... returning id` answered.
pub open spec fn inserted_id_of(rows: Seq<Vec<Cell>>) -> Result<u32, StoreError> {
    match only_cell(rows) {
        Some(c) => read_as(id_of_cell(c)),
        None => Err(StoreError::InvalidRow),
    }
}

/// Reads the answer to an `insert ... returning id`.
pub fn inserted_id(rows: &Vec<Vec<Cell>>) -> (r: Result<u32, StoreError>)
    ensures
        r == inserted_id_of(rows@),
{
    if rows.len() != 1 || rows[0].len() != 1 {
        return Err(StoreError::InvalidRow);
    }
    match id_from_cell(&rows[0][0]) {
        Some(id) => Ok(id),
        None => Err(StoreError::InvalidRow),
    }
}

/// A lookup of a budget that the store answers with the row
/// `(id, name, amount)` that `create_budget` wrote for it gives back that
/// same budget: name and amount go in and come out unchanged under the
/// identifier that the store gave.
pub proof fn lemma_budget_lookup_round_trip(b: Budget, row: Vec<Cell>)
    requires
        b.amount <= i64::MAX,
        row@ == seq![Cell::Integer(b.id as i64), Cell::Text(b.name), Cell::Integer(b.amount as i64)],
    ensures
        budget_lookup(seq![row], b.id) == Ok::<Budget, StoreError>(b),
{
    assert(id_of_cell(row@[0]) == Some(b.id));
    assert(amount_of_cell(row@[2]) == Some(b.amount));
    assert(seq![row][0] == row);
}

} // verus!
