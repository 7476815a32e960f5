//! The ledger as its user sees it: resolving which budget is active, the
//! report on that budget, and the creation of records.

use crate::records::{Budget, Entry, Expense, Income};
use crate::rows::StoreError;
use crate::sql::{from_store, DB};
use crate::timestamp::{storable_text, Timestamp};
use vstd::prelude::*;

verus! {

/// Why an action of the ledger did not complete.
#[derive(Debug)]
pub enum BudgManError {
    /// The store failed, or refused the record.
    DBError(StoreError),
    /// A budget identifier that was supplied is no unsigned decimal integer.
    InvalidBudgetId(String),
}

pub open spec fn is_digit(c: char) -> bool {
    '0' <= c <= '9'
}

pub open spec fn all_digits(d: Seq<char>) -> bool {
    forall|i: int| 0 <= i < d.len() ==> is_digit(#[trigger] d[i])
}

/// The number that a string of decimal digits writes, most significant first.
pub open spec fn digits_value(d: Seq<char>) -> nat
    decreases d.len(),
{
    if d.len() == 0 {
        0
    } else {
        digits_value(d.drop_last()) * 10 + (d.last() as nat - '0' as nat) as nat
    }
}

/// The digits of a text with its optional leading `+` taken off.
pub open spec fn unsigned_digits(s: Seq<char>) -> Seq<char> {
    if s.len() > 0 && s[0] == '+' {
        s.drop_first()
    } else {
        s
    }
}

/// The budget identifier that a text writes: an optional `+`, then one or
/// more decimal digits, whose value fits in 32 bits. Nothing else (no sign,
/// no space) is allowed.
pub open spec fn id_of_text(s: Seq<char>) -> Option<u32> {
    let d = unsigned_digits(s);
    if d.len() > 0 && all_digits(d) && digits_value(d) <= u32::MAX {
        Some(digits_value(d) as u32)
    } else {
        None
    }
}

proof fn lemma_prefix_value_le(d: Seq<char>, k: int)
    requires
        0 <= k <= d.len(),
        all_digits(d),
    ensures
        digits_value(d.subrange(0, k)) <= digits_value(d),
    decreases d.len(),
{
    if k < d.len() {
        let p = d.drop_last();
        assert(all_digits(p)) by {
            assert forall|i: int| 0 <= i < p.len() implies is_digit(#[trigger] p[i]) by {
                assert(p[i] == d[i]);
            }
        }
        lemma_prefix_value_le(p, k);
        assert(p.subrange(0, k) =~= d.subrange(0, k));
    } else {
        assert(d.subrange(0, k) =~= d);
    }
}

/// Reads a budget identifier from text, as an unsigned 32-bit integer in
/// decimal.
pub fn parse_budget_id(s: &str) -> (r: Option<u32>)
    ensures
        r == id_of_text(s@),
{
    let n = s.unicode_len();
    let mut start: usize = 0;
    if n > 0 && s.get_char(0) == '+' {
        start = 1;
    }
    proof {
        assert(unsigned_digits(s@) =~= s@.subrange(start as int, n as int));
    }
    if start == n {
        return None;
    }
    let ghost d = s@.subrange(start as int, n as int);
    let mut value: u64 = 0;
    let mut k: usize = start;
    while k < n
        invariant
            start <= k <= n,
            n == s@.len(),
            d == s@.subrange(start as int, n as int),
            d == unsigned_digits(s@),
            d.len() > 0,
            value == digits_value(d.subrange(0, k - start)),
            value <= u32::MAX,
            all_digits(d.subrange(0, k - start)),
        decreases n - k,
    {
        let c = s.get_char(k);
        assert(c == d[k - start]);
        if c < '0' || c > '9' {
            assert(!all_digits(d)) by {
                assert(!is_digit(d[k - start]));
            }
            return None;
        }
        let ghost pre = d.subrange(0, k - start);
        let ghost next = d.subrange(0, k + 1 - start);
        assert(next.drop_last() =~= pre);
        assert(next.last() == c);
        value = value * 10 + (c as u64 - '0' as u64);
        assert(value == digits_value(next));
        assert(all_digits(next)) by {
            assert forall|i: int| 0 <= i < next.len() implies is_digit(#[trigger] next[i]) by {
                if i < pre.len() {
                    assert(next[i] == pre[i]);
                }
            }
        }
        if value > u32::MAX as u64 {
            proof {
                if all_digits(d) {
                    lemma_prefix_value_le(d, k + 1 - start);
                }
            }
            return None;
        }
        k = k + 1;
    }
    assert(d.subrange(0, n - start) =~= d);
    Some(value as u32)
}

/// A line as the user typed it, without the line ending.
pub open spec fn line_body(s: Seq<char>) -> Seq<char> {
    if s.len() >= 2 && s[s.len() - 2] == '\r' && s[s.len() - 1] == '\n' {
        s.subrange(0, s.len() - 2)
    } else if s.len() >= 1 && s[s.len() - 1] == '\n' {
        s.subrange(0, s.len() - 1)
    } else {
        s
    }
}

/// Reads the budget identifier that the user typed on a line, which may
/// still end in its line ending.
pub fn parse_choice(line: &str) -> (r: Option<u32>)
    ensures
        r == id_of_text(line_body(line@)),
{
    let n = line.unicode_len();
    let mut end: usize = n;
    if n >= 2 && line.get_char(n - 2) == '\r' && line.get_char(n - 1) == '\n' {
        end = n - 2;
    } else if n >= 1 && line.get_char(n - 1) == '\n' {
        end = n - 1;
    }
    let body = line.substring_char(0, end);
    proof {
        assert(body@ =~= line_body(line@));
    }
    parse_budget_id(body)
}

/// Where the search for the active budget stands.
#[derive(Debug)]
pub enum ActiveBudget {
    /// The budget to report on; whether it exists is known only when it is
    /// fetched.
    Resolved(u32),
    /// No identifier was supplied: the user picks one of these budgets, which
    /// are never none.
    AwaitingUserChoice(Vec<Budget>),
    /// No identifier was supplied and there is no budget to pick: the user is
    /// to create one first.
    Aborted,
}

impl ActiveBudget {
    /// The state after the user typed `line`: a choice that reads as an
    /// identifier resolves it; any other line leaves the choice awaited, as
    /// does every other state.
    pub fn on_user_input(self, line: &str) -> (r: ActiveBudget)
        ensures
            self is AwaitingUserChoice && id_of_text(line_body(line@)) is Some ==> r
                == ActiveBudget::Resolved(id_of_text(line_body(line@))->Some_0),
            !(self is AwaitingUserChoice && id_of_text(line_body(line@)) is Some) ==> r == self,
    {
        match self {
            ActiveBudget::AwaitingUserChoice(budgets) => match parse_choice(line) {
                Some(id) => ActiveBudget::Resolved(id),
                None => ActiveBudget::AwaitingUserChoice(budgets),
            },
            other => other,
        }
    }
}

/// What the report on a budget shows.
#[derive(Debug, PartialEq, Eq)]
pub struct BudgetStats {
    pub name: String,
    pub amount: u64,
    pub total_expense: u64,
    pub total_income: u64,
}

/// The report on `budget`, given the totals of its expenses and incomes.
pub fn stats_of(budget: Budget, total_expense: u64, total_income: u64) -> (r: BudgetStats)
    ensures
        r == (BudgetStats { name: budget.name, amount: budget.amount, total_expense, total_income }),
{
    BudgetStats { name: budget.name, amount: budget.amount, total_expense, total_income }
}

/// Where the search for the active budget goes when no identifier was
/// supplied and `budgets` are all the budgets there are: the user chooses
/// among them, or, where there are none, the search is given up.
pub fn choice_among(budgets: Vec<Budget>) -> (r: ActiveBudget)
    ensures
        budgets@.len() == 0 ==> r is Aborted,
        budgets@.len() > 0 ==> r == ActiveBudget::AwaitingUserChoice(budgets),
{
    if budgets.len() == 0 {
        ActiveBudget::Aborted
    } else {
        ActiveBudget::AwaitingUserChoice(budgets)
    }
}

/// The ledger, over the store that it owns.
pub struct BudgMan {
    db: DB,
}

impl BudgMan {
    /// The store under the ledger has had its tables created through it.
    pub closed spec fn has_schema(&self) -> bool {
        self.db.has_schema()
    }

    /// The ledger over `db`. A store that was just created (`fresh`) is
    /// given its tables first; one that already existed is used as it is.
    pub fn new(db: DB, fresh: bool) -> (r: Result<BudgMan, BudgManError>)
        ensures
            !fresh ==> r is Ok && r->Ok_0.has_schema() == db.has_schema(),
            fresh && r is Ok ==> r->Ok_0.has_schema(),
            r is Err ==> fresh && r->Err_0 is DBError && from_store(r->Err_0->DBError_0),
    {
        let mut db = db;
        if fresh {
            if let Err(e) = db.init() {
                return Err(BudgManError::DBError(e));
            }
        }
        Ok(BudgMan { db })
    }

    /// Starts the search for the active budget. An identifier supplied from
    /// outside is read as it stands, without asking the store: it resolves
    /// the search, or fails with `InvalidBudgetId` carrying the text. Without
    /// one, the user is to choose among all the budgets (`choice_among`),
    /// unless there are none.
    pub fn resolve_active_budget(&self, supplied: Option<String>) -> (r: Result<
        ActiveBudget,
        BudgManError,
    >)
        ensures
            supplied is Some && id_of_text(supplied->Some_0@) is Some ==> r == Ok::<
                ActiveBudget,
                BudgManError,
            >(ActiveBudget::Resolved(id_of_text(supplied->Some_0@)->Some_0)),
            supplied is Some && id_of_text(supplied->Some_0@) is None ==> r == Err::<
                ActiveBudget,
                BudgManError,
            >(BudgManError::InvalidBudgetId(supplied->Some_0)),
            supplied is None && r is Ok ==> r->Ok_0 is Aborted || (r->Ok_0 is AwaitingUserChoice
                && r->Ok_0->AwaitingUserChoice_0@.len() > 0),
            supplied is None && r is Err ==> r->Err_0 is DBError && (from_store(
                r->Err_0->DBError_0,
            ) || r->Err_0->DBError_0 is InvalidRow),
    {
        match supplied {
            Some(text) => match parse_budget_id(text.as_str()) {
                Some(id) => Ok(ActiveBudget::Resolved(id)),
                None => Err(BudgManError::InvalidBudgetId(text)),
            },
            None => match self.db.get_all_budgets() {
                Ok(budgets) => Ok(choice_among(budgets)),
                Err(e) => Err(BudgManError::DBError(e)),
            },
        }
    }

    /// The report on the budget `budget_id` (`stats_of`): its name and
    /// amount, and the totals of its expenses and of its incomes. `NotFound`
    /// where there is no such budget.
    pub fn budget_stats(&self, budget_id: u32) -> (r: Result<BudgetStats, BudgManError>)
        ensures
            r is Err ==> r->Err_0 is DBError && (r->Err_0->DBError_0 is NotFound || from_store(
                r->Err_0->DBError_0,
            ) || r->Err_0->DBError_0 is InvalidRow),
    {
        let budget = match self.db.get_budget_by_id(budget_id) {
            Ok(b) => b,
            Err(e) => return Err(BudgManError::DBError(e)),
        };
        let total_expense = match self.db.sum_of_expense_for_budget(budget_id) {
            Ok(t) => t,
            Err(e) => return Err(BudgManError::DBError(e)),
        };
        let total_income = match self.db.get_sum_of_income_for_budget(budget_id) {
            Ok(t) => t,
            Err(e) => return Err(BudgManError::DBError(e)),
        };
        Ok(stats_of(budget, total_expense, total_income))
    }

    /// Creates a budget; the store's errors pass through unchanged.
    pub fn create_budget(&self, name: String, amount: u64) -> (r: Result<Budget, BudgManError>)
        ensures
            name@.len() == 0 ==> r == Err::<Budget, BudgManError>(
                BudgManError::DBError(StoreError::Constraint),
            ),
            name@.len() > 0 && amount > i64::MAX ==> r == Err::<Budget, BudgManError>(
                BudgManError::DBError(StoreError::AmountOutOfRange),
            ),
            r is Ok ==> r->Ok_0.name == name && r->Ok_0.amount == amount,
            r is Err ==> r->Err_0 is DBError && (name@.len() == 0 || amount > i64::MAX || from_store(
                r->Err_0->DBError_0,
            ) || r->Err_0->DBError_0 is InvalidRow),
    {
        let budget = Budget { id: 0, name, amount };
        match self.db.create_budget(budget) {
            Ok(b) => Ok(b),
            Err(e) => Err(BudgManError::DBError(e)),
        }
    }

    /// Records an expense of the budget `budget_id`; the store's errors pass
    /// through unchanged (`ForeignKey` where there is no such budget).
    pub fn create_expense(&self, budget_id: u32, name: String, amount: u64, time: Timestamp) -> (r:
        Result<Expense, BudgManError>)
        ensures
            amount > i64::MAX ==> r == Err::<Expense, BudgManError>(
                BudgManError::DBError(StoreError::AmountOutOfRange),
            ),
            amount <= i64::MAX && storable_text(time) is None ==> r == Err::<Expense, BudgManError>(
                BudgManError::DBError(StoreError::InvalidTime),
            ),
            r is Ok ==> r->Ok_0.budget_id == budget_id && r->Ok_0.name == name && r->Ok_0.amount
                == amount && r->Ok_0.time == time,
            r is Err ==> r->Err_0 is DBError && (amount > i64::MAX || r->Err_0->DBError_0 is InvalidTime
                || from_store(r->Err_0->DBError_0) || r->Err_0->DBError_0 is InvalidRow),
    {
        let expense = Entry { id: 0, name, amount, budget_id, time };
        match self.db.add_expense_for_budget(expense) {
            Ok(e) => Ok(e),
            Err(e) => Err(BudgManError::DBError(e)),
        }
    }

    /// Records an income of the budget `budget_id`; the store's errors pass
    /// through unchanged (`ForeignKey` where there is no such budget).
    pub fn create_income(&self, budget_id: u32, name: String, amount: u64, time: Timestamp) -> (r:
        Result<Income, BudgManError>)
        ensures
            amount > i64::MAX ==> r == Err::<Income, BudgManError>(
                BudgManError::DBError(StoreError::AmountOutOfRange),
            ),
            amount <= i64::MAX && storable_text(time) is None ==> r == Err::<Income, BudgManError>(
                BudgManError::DBError(StoreError::InvalidTime),
            ),
            r is Ok ==> r->Ok_0.budget_id == budget_id && r->Ok_0.name == name && r->Ok_0.amount
                == amount && r->Ok_0.time == time,
            r is Err ==> r->Err_0 is DBError && (amount > i64::MAX || r->Err_0->DBError_0 is InvalidTime
                || from_store(r->Err_0->DBError_0) || r->Err_0->DBError_0 is InvalidRow),
    {
        let income = Entry { id: 0, name, amount, budget_id, time };
        match self.db.add_income_for_budget(income) {
            Ok(e) => Ok(e),
            Err(e) => Err(BudgManError::DBError(e)),
        }
    }
}

} // verus!
