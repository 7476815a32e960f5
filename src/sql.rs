//! The store: a SQLite database with a budget table and, beside it, expense
//! and income tables whose rows belong to a budget and go with it.

use crate::records::{Budget, Entry, Expense, Income};
use crate::rows::{
    budget_from_lookup, budgets_from_rows, entries_from_rows, entry_from_lookup, inserted_id,
    store_error, total_from_rows, StoreError,
};
use crate::sqlite::{self, Cell, Param};
use crate::timestamp::{stored_text, storable_text};
use vstd::prelude::*;

verus! {

/// A handle on the store, held for as long as the ledger is in use.
pub struct DB {
    conn: rusqlite::Connection,
    schema_ready: Ghost<bool>,
}

/// Creates the budget table.
pub const BUDGET_TABLE: &'static str = "CREATE TABLE IF NOT EXISTS budget (
    id INTEGER PRIMARY KEY,
    name TEXT NOT NULL CHECK (name <> ''),
    amount INTEGER NOT NULL DEFAULT 0 CHECK (amount >= 0)
)";

/// Creates the expense table, whose rows go with their budget.
pub const EXPENSE_TABLE: &'static str = "CREATE TABLE IF NOT EXISTS expense (
    id INTEGER PRIMARY KEY,
    reason TEXT NOT NULL,
    time TEXT NOT NULL,
    amount INTEGER NOT NULL DEFAULT 0 CHECK (amount >= 0),
    budget_id INTEGER NOT NULL,
    FOREIGN KEY (budget_id) REFERENCES budget (id) ON DELETE CASCADE
)";

/// Creates the income table, whose rows go with their budget.
pub const INCOME_TABLE: &'static str = "CREATE TABLE IF NOT EXISTS income (
    id INTEGER PRIMARY KEY,
    reason TEXT NOT NULL,
    time TEXT NOT NULL,
    amount INTEGER NOT NULL DEFAULT 0 CHECK (amount >= 0),
    budget_id INTEGER NOT NULL,
    FOREIGN KEY (budget_id) REFERENCES budget (id) ON DELETE CASCADE
)";

/// The statements that create the schema, in the order in which they run:
/// the budget table first, since the other two refer to it.
pub fn schema_statements() -> (r: Vec<&'static str>)
    ensures
        r@ == seq![BUDGET_TABLE, EXPENSE_TABLE, INCOME_TABLE],
{
    vec![BUDGET_TABLE, EXPENSE_TABLE, INCOME_TABLE]
}

/// The parameter under which an amount is stored, where the store's
/// integers can hold it.
pub open spec fn amount_param_of(amount: u64) -> Result<Param, StoreError> {
    if amount <= i64::MAX {
        Ok(Param::Integer(amount as i64))
    } else {
        Err(StoreError::AmountOutOfRange)
    }
}

fn amount_param(amount: u64) -> (r: Result<Param, StoreError>)
    ensures
        r == amount_param_of(amount),
{
    if amount <= i64::MAX as u64 {
        Ok(Param::Integer(amount as i64))
    } else {
        Err(StoreError::AmountOutOfRange)
    }
}

/// The parameter `(id)` of a statement about one record or one budget.
pub fn id_params(id: u32) -> (r: Vec<Param>)
    ensures
        r@ == seq![Param::Integer(id as i64)],
{
    vec![Param::Integer(id as i64)]
}

/// The parameters `(name, amount)` under which a budget is inserted.
pub fn budget_params(b: &Budget) -> (r: Result<Vec<Param>, StoreError>)
    ensures
        b.amount > i64::MAX ==> r == Err::<Vec<Param>, StoreError>(StoreError::AmountOutOfRange),
        b.amount <= i64::MAX ==> r is Ok && r->Ok_0@ == seq![
            Param::Text(b.name),
            Param::Integer(b.amount as i64),
        ],
{
    let amount = amount_param(b.amount)?;
    Ok(vec![Param::Text(b.name.clone()), amount])
}

/// The parameters `(name, amount, id)` under which a budget is updated.
pub fn budget_update_params(b: &Budget) -> (r: Result<Vec<Param>, StoreError>)
    ensures
        b.amount > i64::MAX ==> r == Err::<Vec<Param>, StoreError>(StoreError::AmountOutOfRange),
        b.amount <= i64::MAX ==> r is Ok && r->Ok_0@ == seq![
            Param::Text(b.name),
            Param::Integer(b.amount as i64),
            Param::Integer(b.id as i64),
        ],
{
    let mut params = budget_params(b)?;
    params.push(Param::Integer(b.id as i64));
    Ok(params)
}

/// `ps` are the parameters `(name, time, amount, budget_id)` of `e`, with
/// its moment in its stored text.
pub open spec fn entry_params_hold(ps: Seq<Param>, e: Entry) -> bool {
    &&& ps.len() == 4
    &&& ps[0] == Param::Text(e.name)
    &&& ps[1] is Text && storable_text(e.time) == Some(ps[1]->Text_0@)
    &&& ps[2] == Param::Integer(e.amount as i64)
    &&& ps[3] == Param::Integer(e.budget_id as i64)
}

/// The parameters `(name, time, amount, budget_id)` under which an expense
/// or income is inserted.
pub fn entry_params(e: &Entry) -> (r: Result<Vec<Param>, StoreError>)
    ensures
        e.amount > i64::MAX ==> r == Err::<Vec<Param>, StoreError>(StoreError::AmountOutOfRange),
        e.amount <= i64::MAX && storable_text(e.time) is None ==> r == Err::<Vec<Param>, StoreError>(
            StoreError::InvalidTime,
        ),
        e.amount <= i64::MAX && storable_text(e.time) is Some ==> r is Ok && entry_params_hold(
            r->Ok_0@,
            *e,
        ),
{
    let amount = amount_param(e.amount)?;
    let time = match stored_text(&e.time) {
        Some(t) => t,
        None => return Err(StoreError::InvalidTime),
    };
    Ok(vec![Param::Text(e.name.clone()), Param::Text(time), amount, Param::Integer(e.budget_id as i64)])
}

/// The parameters `(name, time, amount, budget_id, id)` under which an
/// expense or income is updated.
pub fn entry_update_params(e: &Entry) -> (r: Result<Vec<Param>, StoreError>)
    ensures
        e.amount > i64::MAX ==> r == Err::<Vec<Param>, StoreError>(StoreError::AmountOutOfRange),
        e.amount <= i64::MAX && storable_text(e.time) is None ==> r == Err::<Vec<Param>, StoreError>(
            StoreError::InvalidTime,
        ),
        e.amount <= i64::MAX && storable_text(e.time) is Some ==> r is Ok && r->Ok_0@.len() == 5
            && entry_params_hold(r->Ok_0@.subrange(0, 4), *e) && r->Ok_0@[4] == Param::Integer(
            e.id as i64,
        ),
{
    let mut params = entry_params(e)?;
    let ghost before = params@;
    params.push(Param::Integer(e.id as i64));
    assert(params@.subrange(0, 4) =~= before);
    Ok(params)
}

/// An update or delete that changed no row found nothing to change.
pub open spec fn changed_of(n: usize) -> Result<(), StoreError> {
    if n == 0 {
        Err(StoreError::NotFound)
    } else {
        Ok(())
    }
}

fn require_changed(n: usize) -> (r: Result<(), StoreError>)
    ensures
        r == changed_of(n),
{
    if n == 0 {
        Err(StoreError::NotFound)
    } else {
        Ok(())
    }
}

/// A failure that the store itself reported, as opposed to one that the
/// ledger decides before asking it.
pub open spec fn from_store(e: StoreError) -> bool {
    e is ForeignKey || e is Constraint || e is Sqlite
}

/// The same fields, apart from the identifier.
pub open spec fn same_entry_fields(a: Entry, b: Entry) -> bool {
    a.name == b.name && a.time == b.time && a.budget_id == b.budget_id && a.amount == b.amount
}

impl DB {
    /// `init` has completed on this handle: the store has its three tables.
    pub closed spec fn has_schema(&self) -> bool {
        self.schema_ready@
    }

    /// Opens the store in `file` (`":memory:"` for a private in-memory one)
    /// and has it enforce the links from expenses and incomes to budgets.
    pub fn new(file: &str) -> (r: Result<DB, StoreError>)
        ensures
            r is Ok ==> !r->Ok_0.has_schema(),
            r is Err ==> from_store(r->Err_0),
    {
        let conn = match sqlite::open_connection(file) {
            Ok(c) => c,
            Err(e) => return Err(store_error(e)),
        };
        let db = DB { conn, schema_ready: Ghost(false) };
        let none: Vec<Param> = Vec::new();
        db.run("PRAGMA foreign_keys = ON", &none)?;
        Ok(db)
    }

    fn run(&self, sql: &str, params: &Vec<Param>) -> (r: Result<usize, StoreError>)
        ensures
            r is Err ==> from_store(r->Err_0),
    {
        match sqlite::execute(&self.conn, sql, params) {
            Ok(n) => Ok(n),
            Err(e) => Err(store_error(e)),
        }
    }

    fn rows(&self, sql: &str, params: &Vec<Param>, width: usize) -> (r: Result<
        Vec<Vec<Cell>>,
        StoreError,
    >)
        ensures
            r is Err ==> from_store(r->Err_0),
            r is Ok ==> forall|i: int|
                0 <= i < r->Ok_0.len() ==> #[trigger] r->Ok_0[i].len() == width,
    {
        match sqlite::query(&self.conn, sql, params, width) {
            Ok(rows) => Ok(rows),
            Err(e) => Err(store_error(e)),
        }
    }

    /// Runs the statements of `schema_statements`, in order: the three
    /// tables are created where they do not exist yet, and running it on a
    /// store that has them changes nothing.
    pub fn init(&mut self) -> (r: Result<(), StoreError>)
        ensures
            r is Ok ==> final(self).has_schema(),
            r is Err ==> from_store(r->Err_0) && final(self).has_schema() == old(self).has_schema(),
    {
        let statements = schema_statements();
        let none: Vec<Param> = Vec::new();
        let mut k: usize = 0;
        while k < statements.len()
            invariant
                k <= statements@.len(),
                self.has_schema() == old(self).has_schema(),
            decreases statements@.len() - k,
        {
            self.run(statements[k], &none)?;
            k = k + 1;
        }
        self.schema_ready = Ghost(true);
        Ok(())
    }

    /// Every budget, in the order in which the store keeps them.
    pub fn get_all_budgets(&self) -> (r: Result<Vec<Budget>, StoreError>)
        ensures
            r is Err ==> from_store(r->Err_0) || r->Err_0 is InvalidRow,
    {
        let none: Vec<Param> = Vec::new();
        let rows = self.rows("select id, name, amount from budget", &none, 3)?;
        budgets_from_rows(&rows)
    }

    /// Stores a new budget with the name and amount of `budget` and returns
    /// it under the identifier that the store gave it (the `id` passed in is
    /// not used). An empty name is refused.
    pub fn create_budget(&self, budget: Budget) -> (r: Result<Budget, StoreError>)
        ensures
            budget.name@.len() == 0 ==> r == Err::<Budget, StoreError>(StoreError::Constraint),
            budget.name@.len() > 0 && budget.amount > i64::MAX ==> r == Err::<Budget, StoreError>(
                StoreError::AmountOutOfRange,
            ),
            r is Ok ==> r->Ok_0.name == budget.name && r->Ok_0.amount == budget.amount,
            r is Err ==> budget.name@.len() == 0 || budget.amount > i64::MAX || from_store(
                r->Err_0,
            ) || r->Err_0 is InvalidRow,
    {
        if budget.name.as_str().is_empty() {
            return Err(StoreError::Constraint);
        }
        let params = budget_params(&budget)?;
        let rows = self.rows(
            "insert into budget (name, amount) values (?1, ?2) returning id",
            &params,
            1,
        )?;
        let id = inserted_id(&rows)?;
        Ok(Budget { id, name: budget.name, amount: budget.amount })
    }

    /// The budget `id`; `NotFound` where there is none.
    pub fn get_budget_by_id(&self, id: u32) -> (r: Result<Budget, StoreError>)
        ensures
            r is Ok ==> r->Ok_0.id == id,
            r is Err ==> r->Err_0 is NotFound || from_store(r->Err_0) || r->Err_0 is InvalidRow,
    {
        let params = id_params(id);
        let rows = self.rows("select id, name, amount from budget where id = ?1", &params, 3)?;
        budget_from_lookup(&rows, id)
    }

    /// Gives the budget `budget.id` the name and amount of `budget`;
    /// `NotFound` where there is no such budget. An empty name is refused.
    pub fn update_budget_by_id(&self, budget: Budget) -> (r: Result<(), StoreError>)
        ensures
            budget.name@.len() == 0 ==> r == Err::<(), StoreError>(StoreError::Constraint),
            budget.name@.len() > 0 && budget.amount > i64::MAX ==> r == Err::<(), StoreError>(
                StoreError::AmountOutOfRange,
            ),
            r is Err ==> budget.name@.len() == 0 || budget.amount > i64::MAX || r->Err_0 is NotFound
                || from_store(r->Err_0),
    {
        if budget.name.as_str().is_empty() {
            return Err(StoreError::Constraint);
        }
        let params = budget_update_params(&budget)?;
        let n = self.run("update budget set name = ?1, amount = ?2 where id = ?3", &params)?;
        require_changed(n)
    }

    /// Removes the budget `id` together with its expenses and incomes.
    /// Removing a budget that does not exist changes nothing.
    pub fn delete_budget_by_id(&self, id: u32) -> (r: Result<(), StoreError>)
        ensures
            r is Err ==> from_store(r->Err_0),
    {
        self.delete_row("delete from budget where id = ?1", id)
    }

    fn add_entry(&self, sql: &str, entry: Entry) -> (r: Result<Entry, StoreError>)
        ensures
            entry.amount > i64::MAX ==> r == Err::<Entry, StoreError>(
                StoreError::AmountOutOfRange,
            ),
            entry.amount <= i64::MAX && storable_text(entry.time) is None ==> r == Err::<
                Entry,
                StoreError,
            >(StoreError::InvalidTime),
            r is Ok ==> same_entry_fields(r->Ok_0, entry),
            r is Err ==> entry.amount > i64::MAX || r->Err_0 is InvalidTime || from_store(r->Err_0)
                || r->Err_0 is InvalidRow,
    {
        let params = entry_params(&entry)?;
        let rows = self.rows(sql, &params, 1)?;
        let id = inserted_id(&rows)?;
        Ok(Entry { id, ..entry })
    }

    fn entries_of(&self, sql: &str, budget_id: u32) -> (r: Result<Vec<Entry>, StoreError>)
        ensures
            r is Ok ==> forall|i: int|
                0 <= i < r->Ok_0@.len() ==> (#[trigger] r->Ok_0@[i]).budget_id == budget_id,
            r is Err ==> from_store(r->Err_0) || r->Err_0 is InvalidRow,
    {
        let params = id_params(budget_id);
        let rows = self.rows(sql, &params, 5)?;
        let r = entries_from_rows(&rows, budget_id);
        proof {
            if r is Ok {
                assert forall|i: int| 0 <= i < r->Ok_0@.len() implies (#[trigger] r->Ok_0@[
                    i
                ]).budget_id == budget_id by {
                    assert(crate::rows::entry_of_row(rows@[i]@) is Some);
                }
            }
        }
        r
    }

    fn entry_by_id(&self, sql: &str, id: u32) -> (r: Result<Entry, StoreError>)
        ensures
            r is Ok ==> r->Ok_0.id == id,
            r is Err ==> r->Err_0 is NotFound || from_store(r->Err_0) || r->Err_0 is InvalidRow,
    {
        let params = id_params(id);
        let rows = self.rows(sql, &params, 5)?;
        entry_from_lookup(&rows, id)
    }

    fn total_of_entries(&self, sql: &str, budget_id: u32) -> (r: Result<u64, StoreError>)
        ensures
            r is Err ==> from_store(r->Err_0) || r->Err_0 is InvalidRow,
    {
        let params = id_params(budget_id);
        let rows = self.rows(sql, &params, 1)?;
        total_from_rows(&rows)
    }

    fn update_entry(&self, sql: &str, entry: Entry) -> (r: Result<(), StoreError>)
        ensures
            entry.amount > i64::MAX ==> r == Err::<(), StoreError>(StoreError::AmountOutOfRange),
            entry.amount <= i64::MAX && storable_text(entry.time) is None ==> r == Err::<
                (),
                StoreError,
            >(StoreError::InvalidTime),
            r is Err ==> entry.amount > i64::MAX || r->Err_0 is InvalidTime || r->Err_0 is NotFound
                || from_store(r->Err_0),
    {
        let params = entry_update_params(&entry)?;
        let n = self.run(sql, &params)?;
        require_changed(n)
    }

    fn delete_row(&self, sql: &str, id: u32) -> (r: Result<(), StoreError>)
        ensures
            r is Err ==> from_store(r->Err_0),
    {
        let params = id_params(id);
        self.run(sql, &params)?;
        Ok(())
    }

    /// Stores a new expense with the fields of `expense` and returns it under
    /// the identifier that the store gave it (the `id` passed in is not
    /// used). `ForeignKey` where its budget does not exist, and then nothing
    /// is stored. A moment that cannot be stored exactly is refused.
    pub fn add_expense_for_budget(&self, expense: Expense) -> (r: Result<Expense, StoreError>)
        ensures
            expense.amount > i64::MAX ==> r == Err::<Expense, StoreError>(
                StoreError::AmountOutOfRange,
            ),
            expense.amount <= i64::MAX && storable_text(expense.time) is None ==> r == Err::<
                Expense,
                StoreError,
            >(StoreError::InvalidTime),
            r is Ok ==> same_entry_fields(r->Ok_0, expense),
            r is Err ==> expense.amount > i64::MAX || r->Err_0 is InvalidTime || from_store(r->Err_0)
                || r->Err_0 is InvalidRow,
    {
        self.add_entry(
            "insert into expense (reason, time, amount, budget_id) values (?1, ?2, ?3, ?4) returning id",
            expense,
        )
    }

    /// The expenses of the budget `budget_id`, in the order in which the
    /// store keeps them.
    pub fn get_expenses_for_budget(&self, budget_id: u32) -> (r: Result<Vec<Expense>, StoreError>)
        ensures
            r is Ok ==> forall|i: int|
                0 <= i < r->Ok_0@.len() ==> (#[trigger] r->Ok_0@[i]).budget_id == budget_id,
            r is Err ==> from_store(r->Err_0) || r->Err_0 is InvalidRow,
    {
        self.entries_of(
            "select id, reason, amount, time, budget_id from expense where budget_id = ?1",
            budget_id,
        )
    }

    /// The expense `id`; `NotFound` where there is none.
    pub fn get_expense_by_id(&self, id: u32) -> (r: Result<Expense, StoreError>)
        ensures
            r is Ok ==> r->Ok_0.id == id,
            r is Err ==> r->Err_0 is NotFound || from_store(r->Err_0) || r->Err_0 is InvalidRow,
    {
        self.entry_by_id(
            "select id, reason, amount, time, budget_id from expense where id = ?1",
            id,
        )
    }

    /// The sum of the amounts of the expenses of the budget `budget_id`:
    /// zero where it has none.
    pub fn sum_of_expense_for_budget(&self, budget_id: u32) -> (r: Result<u64, StoreError>)
        ensures
            r is Err ==> from_store(r->Err_0) || r->Err_0 is InvalidRow,
    {
        self.total_of_entries("select sum(amount) from expense where budget_id = ?1", budget_id)
    }

    /// Gives the expense `expense.id` the other fields of `expense`; `NotFound`
    /// where there is no such expense.
    pub fn update_expense_by_id(&self, expense: Expense) -> (r: Result<(), StoreError>)
        ensures
            expense.amount > i64::MAX ==> r == Err::<(), StoreError>(StoreError::AmountOutOfRange),
            expense.amount <= i64::MAX && storable_text(expense.time) is None ==> r == Err::<
                (),
                StoreError,
            >(StoreError::InvalidTime),
            r is Err ==> expense.amount > i64::MAX || r->Err_0 is InvalidTime || r->Err_0 is NotFound
                || from_store(r->Err_0),
    {
        self.update_entry(
            "update expense set reason = ?1, time = ?2, amount = ?3, budget_id = ?4 where id = ?5",
            expense,
        )
    }

    /// Removes the expense `id`. Removing one that does not exist changes
    /// nothing.
    pub fn delete_expense_by_id(&self, id: u32) -> (r: Result<(), StoreError>)
        ensures
            r is Err ==> from_store(r->Err_0),
    {
        self.delete_row("delete from expense where id = ?1", id)
    }

    /// Stores a new income with the fields of `income` and returns it under
    /// the identifier that the store gave it (the `id` passed in is not
    /// used). `ForeignKey` where its budget does not exist, and then nothing
    /// is stored. A moment that cannot be stored exactly is refused.
    pub fn add_income_for_budget(&self, income: Income) -> (r: Result<Income, StoreError>)
        ensures
            income.amount > i64::MAX ==> r == Err::<Income, StoreError>(
                StoreError::AmountOutOfRange,
            ),
            income.amount <= i64::MAX && storable_text(income.time) is None ==> r == Err::<
                Income,
                StoreError,
            >(StoreError::InvalidTime),
            r is Ok ==> same_entry_fields(r->Ok_0, income),
            r is Err ==> income.amount > i64::MAX || r->Err_0 is InvalidTime || from_store(r->Err_0)
                || r->Err_0 is InvalidRow,
    {
        self.add_entry(
            "insert into income (reason, time, amount, budget_id) values (?1, ?2, ?3, ?4) returning id",
            income,
        )
    }

    /// The incomes of the budget `budget_id`, in the order in which the
    /// store keeps them.
    pub fn get_incomes_for_budget(&self, budget_id: u32) -> (r: Result<Vec<Income>, StoreError>)
        ensures
            r is Ok ==> forall|i: int|
                0 <= i < r->Ok_0@.len() ==> (#[trigger] r->Ok_0@[i]).budget_id == budget_id,
            r is Err ==> from_store(r->Err_0) || r->Err_0 is InvalidRow,
    {
        self.entries_of(
            "select id, reason, amount, time, budget_id from income where budget_id = ?1",
            budget_id,
        )
    }

    /// The income `id`; `NotFound` where there is none.
    pub fn get_income_by_id(&self, id: u32) -> (r: Result<Income, StoreError>)
        ensures
            r is Ok ==> r->Ok_0.id == id,
            r is Err ==> r->Err_0 is NotFound || from_store(r->Err_0) || r->Err_0 is InvalidRow,
    {
        self.entry_by_id(
            "select id, reason, amount, time, budget_id from income where id = ?1",
            id,
        )
    }

    /// The sum of the amounts of the incomes of the budget `budget_id`:
    /// zero where it has none.
    pub fn get_sum_of_income_for_budget(&self, budget_id: u32) -> (r: Result<u64, StoreError>)
        ensures
            r is Err ==> from_store(r->Err_0) || r->Err_0 is InvalidRow,
    {
        self.total_of_entries("select sum(amount) from income where budget_id = ?1", budget_id)
    }

    /// Gives the income `income.id` the other fields of `income`; `NotFound`
    /// where there is no such income.
    pub fn update_income_by_id(&self, income: Income) -> (r: Result<(), StoreError>)
        ensures
            income.amount > i64::MAX ==> r == Err::<(), StoreError>(StoreError::AmountOutOfRange),
            income.amount <= i64::MAX && storable_text(income.time) is None ==> r == Err::<
                (),
                StoreError,
            >(StoreError::InvalidTime),
            r is Err ==> income.amount > i64::MAX || r->Err_0 is InvalidTime || r->Err_0 is NotFound
                || from_store(r->Err_0),
    {
        self.update_entry(
            "update income set reason = ?1, time = ?2, amount = ?3, budget_id = ?4 where id = ?5",
            income,
        )
    }

    /// Removes the income `id`. Removing one that does not exist changes
    /// nothing.
    pub fn delete_income_by_id(&self, id: u32) -> (r: Result<(), StoreError>)
        ensures
            r is Err ==> from_store(r->Err_0),
    {
        self.delete_row("delete from income where id = ?1", id)
    }
}

} // verus!
