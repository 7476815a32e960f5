use budgman::budgman::{
    choice_among, parse_budget_id, parse_choice, stats_of, ActiveBudget, BudgMan, BudgManError,
    BudgetStats,
};
use budgman::records::Budget;
use budgman::rows::{
    budget_from_lookup, budget_from_row, budgets_from_rows, entries_from_rows, entry_from_row,
    error_from_code, inserted_id, total_from_rows, StoreError,
};
use budgman::sqlite::Cell;
use budgman::sql::DB;
use budgman::timestamp::Timestamp;

fn ledger() -> BudgMan {
    BudgMan::new(DB::new(":memory:").unwrap(), true).unwrap()
}

fn at(seconds: i64) -> Timestamp {
    Timestamp { seconds, nanos: 0, offset_seconds: 0 }
}

#[test]
fn groceries_report() {
    let man = ledger();
    let b = man.create_budget("Groceries".to_string(), 50000).unwrap();
    assert_eq!(b.id, 1);
    let e = man.create_expense(1, "milk".to_string(), 300, at(1_000)).unwrap();
    assert_eq!(e.budget_id, 1);
    let i = man.create_income(1, "refund".to_string(), 100, at(2_000)).unwrap();
    assert_eq!(i.amount, 100);
    let stats = man.budget_stats(1).unwrap();
    assert_eq!(
        stats,
        BudgetStats {
            name: "Groceries".to_string(),
            amount: 50000,
            total_expense: 300,
            total_income: 100,
        }
    );
}

#[test]
fn non_numeric_supplied_id_aborts_without_the_store() {
    // a store without tables: any call into it would fail with a store error
    let man = BudgMan::new(DB::new(":memory:").unwrap(), false).unwrap();
    let r = man.resolve_active_budget(Some("abc".to_string()));
    assert!(matches!(r, Err(BudgManError::InvalidBudgetId(ref s)) if s == "abc"));
}

#[test]
fn numeric_supplied_id_resolves_without_the_store() {
    let man = BudgMan::new(DB::new(":memory:").unwrap(), false).unwrap();
    assert!(matches!(man.resolve_active_budget(Some("12".to_string())), Ok(ActiveBudget::Resolved(12))));
}

#[test]
fn no_budgets_means_abort() {
    let man = ledger();
    assert!(matches!(man.resolve_active_budget(None), Ok(ActiveBudget::Aborted)));
}

#[test]
fn budgets_to_choose_from() {
    let man = ledger();
    let b = man.create_budget("rent".to_string(), 7).unwrap();
    match man.resolve_active_budget(None) {
        Ok(ActiveBudget::AwaitingUserChoice(list)) => assert_eq!(list, vec![b]),
        other => panic!("unexpected {:?}", other),
    }
}

#[test]
fn user_choice_loops_until_an_identifier() {
    let list = vec![Budget { name: "a".to_string(), id: 3, amount: 1 }];
    let state = ActiveBudget::AwaitingUserChoice(list);
    let state = state.on_user_input("three\n");
    assert!(matches!(state, ActiveBudget::AwaitingUserChoice(_)));
    let state = state.on_user_input("\n");
    assert!(matches!(state, ActiveBudget::AwaitingUserChoice(_)));
    let state = state.on_user_input("3\n");
    assert!(matches!(state, ActiveBudget::Resolved(3)));
    let state = state.on_user_input("5\n");
    assert!(matches!(state, ActiveBudget::Resolved(3)));
}

#[test]
fn stats_of_missing_budget_is_not_found() {
    let man = ledger();
    assert!(matches!(man.budget_stats(4), Err(BudgManError::DBError(StoreError::NotFound))));
}

#[test]
fn creating_for_missing_budget_is_a_foreign_key_error() {
    let man = ledger();
    let r = man.create_expense(8, "x".to_string(), 1, at(0));
    assert!(matches!(r, Err(BudgManError::DBError(StoreError::ForeignKey))));
    let r = man.create_income(8, "x".to_string(), 1, at(0));
    assert!(matches!(r, Err(BudgManError::DBError(StoreError::ForeignKey))));
    let r = man.create_budget(String::new(), 1);
    assert!(matches!(r, Err(BudgManError::DBError(StoreError::Constraint))));
}

#[test]
fn budget_ids_in_decimal() {
    assert_eq!(parse_budget_id("0"), Some(0));
    assert_eq!(parse_budget_id("42"), Some(42));
    assert_eq!(parse_budget_id("+7"), Some(7));
    assert_eq!(parse_budget_id("007"), Some(7));
    assert_eq!(parse_budget_id("4294967295"), Some(4294967295));
    assert_eq!(parse_budget_id("4294967296"), None);
    assert_eq!(parse_budget_id("99999999999999999999"), None);
    assert_eq!(parse_budget_id(""), None);
    assert_eq!(parse_budget_id("+"), None);
    assert_eq!(parse_budget_id("-1"), None);
    assert_eq!(parse_budget_id(" 1"), None);
    assert_eq!(parse_budget_id("1a"), None);
    assert_eq!(parse_budget_id("abc"), None);
    assert_eq!(parse_budget_id("١"), None);
}

#[test]
fn typed_choices() {
    assert_eq!(parse_choice("12\n"), Some(12));
    assert_eq!(parse_choice("12\r\n"), Some(12));
    assert_eq!(parse_choice("12"), Some(12));
    assert_eq!(parse_choice("12 \n"), None);
    assert_eq!(parse_choice("\n"), None);
    assert_eq!(parse_choice("x\n"), None);
}

#[test]
fn failures_by_sqlite_code() {
    let e = || rusqlite::Error::QueryReturnedNoRows;
    assert!(matches!(error_from_code(Some(787), e()), StoreError::ForeignKey));
    assert!(matches!(error_from_code(Some(19), e()), StoreError::Constraint));
    assert!(matches!(error_from_code(Some(2067), e()), StoreError::Constraint));
    assert!(matches!(error_from_code(Some(275), e()), StoreError::Constraint));
    assert!(matches!(error_from_code(Some(1), e()), StoreError::Sqlite(_)));
    assert!(matches!(error_from_code(Some(-19), e()), StoreError::Sqlite(_)));
    assert!(matches!(error_from_code(None, e()), StoreError::Sqlite(_)));
}

fn text(s: &str) -> Cell {
    Cell::Text(s.to_string())
}

#[test]
fn budget_rows() {
    let row = vec![Cell::Integer(4), text("car"), Cell::Integer(900)];
    let b = budget_from_row(&row).unwrap();
    assert_eq!(b, Budget { name: "car".to_string(), id: 4, amount: 900 });
    let bad = vec![Cell::Integer(4), text("car"), Cell::Integer(-1)];
    assert!(matches!(budget_from_row(&bad), Err(StoreError::InvalidRow)));
    let bad = vec![Cell::Integer(4_294_967_296), text("car"), Cell::Integer(1)];
    assert!(matches!(budget_from_row(&bad), Err(StoreError::InvalidRow)));
    let bad = vec![Cell::Integer(4), Cell::Null, Cell::Integer(1)];
    assert!(matches!(budget_from_row(&bad), Err(StoreError::InvalidRow)));
    let short = vec![Cell::Integer(4), text("car")];
    assert!(matches!(budget_from_row(&short), Err(StoreError::InvalidRow)));
    assert_eq!(budgets_from_rows(&Vec::new()).unwrap(), Vec::new());
    let two = vec![row.clone(), vec![Cell::Integer(5), text("bus"), Cell::Integer(0)]];
    let list = budgets_from_rows(&two).unwrap();
    assert_eq!(list.len(), 2);
    assert_eq!(list[1].name, "bus");
    assert!(matches!(budgets_from_rows(&vec![row.clone(), bad]), Err(StoreError::InvalidRow)));
    assert!(matches!(budget_from_lookup(&Vec::new(), 4), Err(StoreError::NotFound)));
    assert_eq!(budget_from_lookup(&vec![row.clone()], 4).unwrap().id, 4);
    assert!(matches!(budget_from_lookup(&vec![row], 5), Err(StoreError::InvalidRow)));
}

#[test]
fn entry_rows() {
    let row = vec![
        Cell::Integer(2),
        text("tea"),
        Cell::Integer(3),
        text("2023-11-14T22:13:20+00:00"),
        Cell::Integer(1),
    ];
    let e = entry_from_row(&row).unwrap();
    assert_eq!(e.time, Timestamp { seconds: 1_700_000_000, nanos: 0, offset_seconds: 0 });
    assert_eq!(e.budget_id, 1);
    let mut bad = row.clone();
    bad[3] = text("yesterday");
    assert!(matches!(entry_from_row(&bad), Err(StoreError::InvalidRow)));
    assert_eq!(entries_from_rows(&vec![row.clone()], 1).unwrap().len(), 1);
    assert!(matches!(entries_from_rows(&vec![row], 2), Err(StoreError::InvalidRow)));
}

#[test]
fn totals_and_inserted_ids() {
    assert_eq!(total_from_rows(&vec![vec![Cell::Null]]).unwrap(), 0);
    assert_eq!(total_from_rows(&vec![vec![Cell::Integer(455)]]).unwrap(), 455);
    assert!(matches!(total_from_rows(&vec![vec![Cell::Integer(-5)]]), Err(StoreError::InvalidRow)));
    assert!(matches!(total_from_rows(&vec![vec![Cell::Real]]), Err(StoreError::InvalidRow)));
    assert!(matches!(total_from_rows(&Vec::new()), Err(StoreError::InvalidRow)));
    assert_eq!(inserted_id(&vec![vec![Cell::Integer(9)]]).unwrap(), 9);
    assert!(matches!(inserted_id(&vec![vec![Cell::Integer(-9)]]), Err(StoreError::InvalidRow)));
}

#[test]
fn report_is_built_from_the_budget_and_its_totals() {
    let b = Budget { name: "car".to_string(), id: 2, amount: 800 };
    assert_eq!(
        stats_of(b, 120, 45),
        BudgetStats { name: "car".to_string(), amount: 800, total_expense: 120, total_income: 45 }
    );
}

#[test]
fn choosing_among_budgets() {
    assert!(matches!(choice_among(Vec::new()), ActiveBudget::Aborted));
    let list = vec![Budget { name: "a".to_string(), id: 1, amount: 1 }];
    match choice_among(list.clone()) {
        ActiveBudget::AwaitingUserChoice(l) => assert_eq!(l, list),
        other => panic!("unexpected {:?}", other),
    }
}

#[test]
fn ledger_creation_errors_pass_through() {
    let man = ledger();
    let r = man.create_budget("big".to_string(), u64::MAX);
    assert!(matches!(r, Err(BudgManError::DBError(StoreError::AmountOutOfRange))));
    let b = man.create_budget("b".to_string(), 1).unwrap();
    let r = man.create_expense(b.id, "x".to_string(), u64::MAX, at(0));
    assert!(matches!(r, Err(BudgManError::DBError(StoreError::AmountOutOfRange))));
    let odd = Timestamp { seconds: 0, nanos: 0, offset_seconds: 45 };
    let r = man.create_income(b.id, "x".to_string(), 1, odd);
    assert!(matches!(r, Err(BudgManError::DBError(StoreError::InvalidTime))));
}
