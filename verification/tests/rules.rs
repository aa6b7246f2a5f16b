use zenmoney_mcp::amount::{Amount, NEGATIVE_ZERO_BITS, POSITIVE_INFINITY_BITS};
use zenmoney_mcp::calendar::{month_start, parse_date, parse_optional_date, Date, Timestamp};
use zenmoney_mcp::classify::classify_transaction;
use zenmoney_mcp::create::assemble_transaction;
use zenmoney_mcp::error::LedgerError;
use zenmoney_mcp::lookup::{build_lookup_maps, LookupMaps};
use zenmoney_mcp::model::{Account, AccountType, Transaction, TransactionType};
use zenmoney_mcp::params::{CreateTransactionParams, UpdateTransactionParams};
use zenmoney_mcp::patch::{apply_patch, apply_update};
use zenmoney_mcp::resolve::{resolve_instrument, resolve_sides};

fn amount(value: f64) -> Amount {
    Amount::from_bits(value.to_bits())
}

fn value(amount: Amount) -> f64 {
    f64::from_bits(amount.to_bits())
}

fn account(id: &str, instrument: Option<i32>) -> Account {
    Account {
        id: id.to_owned(),
        title: id.to_uppercase(),
        kind: AccountType::Cash,
        instrument,
        balance: None,
        archive: false,
        in_balance: true,
    }
}

fn maps() -> LookupMaps {
    build_lookup_maps(
        &vec![account("a", Some(1)), account("b", Some(2)), account("bare", None)],
        &vec![],
        &vec![],
    )
}

fn stamp() -> Timestamp {
    Timestamp { seconds: 1_700_000_000, nanos: 0 }
}

fn transaction(outcome_account: &str, outcome: f64, income_account: &str, income: f64) -> Transaction {
    Transaction {
        id: "tx".to_owned(),
        changed: stamp(),
        created: stamp(),
        user: 1,
        deleted: false,
        hold: None,
        income_instrument: 1,
        income_account: income_account.to_owned(),
        income: amount(income),
        outcome_instrument: 1,
        outcome_account: outcome_account.to_owned(),
        outcome: amount(outcome),
        tag: Some(vec!["old".to_owned()]),
        merchant: None,
        payee: Some("Payee".to_owned()),
        original_payee: None,
        comment: None,
        date: Date { year: 2024, month: 6, day: 15 },
        mcc: None,
        reminder_marker: None,
        op_income: None,
        op_income_instrument: None,
        op_outcome: None,
        op_outcome_instrument: None,
        latitude: None,
        longitude: None,
        income_bank_id: None,
        outcome_bank_id: None,
        qr_code: None,
        source: None,
        viewed: None,
    }
}

fn create(kind: TransactionType) -> CreateTransactionParams {
    CreateTransactionParams {
        transaction_type: kind,
        date: "2024-06-15".to_owned(),
        account_id: "a".to_owned(),
        amount: amount(500.0),
        to_account_id: None,
        to_amount: None,
        instrument_id: None,
        to_instrument_id: None,
        tag_ids: None,
        payee: None,
        comment: None,
    }
}

fn patch() -> UpdateTransactionParams {
    UpdateTransactionParams {
        id: "tx".to_owned(),
        date: None,
        amount: None,
        to_amount: None,
        account_id: None,
        to_account_id: None,
        tag_ids: None,
        payee: None,
        comment: None,
    }
}

#[test]
fn positive_amounts_follow_the_number_line() {
    assert!(amount(500.0).is_positive());
    assert!(amount(f64::MIN_POSITIVE).is_positive());
    assert!(amount(5e-324).is_positive());
    assert!(amount(f64::MAX).is_positive());
    assert!(amount(f64::INFINITY).is_positive());
    assert!(!amount(0.0).is_positive());
    assert!(!amount(-0.0).is_positive());
    assert!(!amount(-1.0).is_positive());
    assert!(!amount(f64::NEG_INFINITY).is_positive());
    assert!(!amount(f64::NAN).is_positive());
    assert!(!Amount::from_bits(0x7FF0_0000_0000_0001).is_positive());
    assert_eq!(POSITIVE_INFINITY_BITS, f64::INFINITY.to_bits());
    assert_eq!(NEGATIVE_ZERO_BITS, (-0.0_f64).to_bits());
}

#[test]
fn zero_amounts_ignore_the_sign() {
    assert!(amount(0.0).is_zero());
    assert!(amount(-0.0).is_zero());
    assert!(Amount::zero().is_zero());
    assert_eq!(Amount::zero().to_bits(), 0);
    assert!(!amount(5e-324).is_zero());
    assert!(!amount(-1.0).is_zero());
    assert!(!amount(f64::NAN).is_zero());
    assert_eq!(value(amount(123.456)), 123.456);
}

#[test]
fn both_sides_positive_is_transfer_or_income() {
    for (outcome, income) in [(1.0, 1.0), (500.0, 15.0), (5e-324, f64::MAX)] {
        let apart = transaction("a", outcome, "b", income);
        assert_eq!(classify_transaction(&apart), TransactionType::Transfer);
        let together = transaction("a", outcome, "a", income);
        assert_eq!(classify_transaction(&together), TransactionType::Income);
    }
}

#[test]
fn one_side_positive_is_income_or_expense() {
    for accounts in [("a", "a"), ("a", "b")] {
        let income = transaction(accounts.0, 0.0, accounts.1, 10.0);
        assert_eq!(classify_transaction(&income), TransactionType::Income);
        let signed_zero = transaction(accounts.0, -0.0, accounts.1, 10.0);
        assert_eq!(classify_transaction(&signed_zero), TransactionType::Income);
        let expense = transaction(accounts.0, 10.0, accounts.1, 0.0);
        assert_eq!(classify_transaction(&expense), TransactionType::Expense);
    }
}

#[test]
fn empty_and_odd_transactions_are_expenses() {
    assert_eq!(classify_transaction(&transaction("a", 0.0, "a", 0.0)), TransactionType::Expense);
    assert_eq!(classify_transaction(&transaction("a", 0.0, "b", 0.0)), TransactionType::Expense);
    assert_eq!(
        classify_transaction(&transaction("a", 5.0, "b", f64::NAN)),
        TransactionType::Expense
    );
    assert_eq!(
        classify_transaction(&transaction("a", -5.0, "b", 5.0)),
        TransactionType::Expense
    );
    assert_eq!(
        classify_transaction(&transaction("a", f64::NAN, "a", 5.0)),
        TransactionType::Income
    );
}

#[test]
fn explicit_instrument_always_wins() {
    let maps = maps();
    for account_id in ["a", "b", "bare", "nowhere"] {
        assert_eq!(resolve_instrument(&maps, account_id, Some(42)).expect("explicit"), 42);
        assert_eq!(resolve_instrument(&maps, account_id, Some(-1)).expect("explicit"), -1);
    }
    assert_eq!(resolve_instrument(&maps, "b", None).expect("mapped"), 2);
    for account_id in ["bare", "nowhere"] {
        match resolve_instrument(&maps, account_id, None) {
            Err(LedgerError::UnresolvedInstrument { account_id: named }) => {
                assert_eq!(named, account_id)
            },
            other => panic!("unexpected outcome: {:?}", other),
        }
    }
}

#[test]
fn single_account_sides_share_account_and_instrument() {
    let maps = maps();
    for kind in [TransactionType::Expense, TransactionType::Income] {
        for explicit in [None, Some(9)] {
            let mut params = create(kind);
            params.instrument_id = explicit;
            params.to_account_id = Some("b".to_owned());
            params.to_amount = Some(amount(3.0));
            params.to_instrument_id = Some(77);
            let sides = resolve_sides(&params, &maps).expect("should resolve");
            assert_eq!(sides.outcome_instrument, sides.income_instrument);
            assert_eq!(sides.outcome_instrument, explicit.unwrap_or(1));
            assert_eq!(sides.outcome_account, "a");
            assert_eq!(sides.income_account, "a");
            if kind == TransactionType::Expense {
                assert_eq!(value(sides.outcome), 500.0);
                assert_eq!(sides.income.to_bits(), 0);
            } else {
                assert_eq!(value(sides.income), 500.0);
                assert_eq!(sides.outcome.to_bits(), 0);
            }
        }
    }
}

#[test]
fn transfer_amount_defaults_to_what_was_sent() {
    let maps = maps();
    let mut params = create(TransactionType::Transfer);
    params.to_account_id = Some("b".to_owned());
    let sides = resolve_sides(&params, &maps).expect("should resolve");
    assert_eq!(sides.income, sides.outcome);
    assert_eq!(sides.outcome_instrument, 1);
    assert_eq!(sides.income_instrument, 2);
    for (sent, arriving) in [(1000.0, 15.0), (1.0, 0.0), (7.0, 7.0)] {
        params.amount = amount(sent);
        params.to_amount = Some(amount(arriving));
        let sides = resolve_sides(&params, &maps).expect("should resolve");
        assert_eq!(value(sides.outcome), sent);
        assert_eq!(value(sides.income), arriving);
    }
}

#[test]
fn transfer_errors_come_in_order() {
    let maps = maps();
    let mut params = create(TransactionType::Transfer);
    params.account_id = "bare".to_owned();
    assert!(matches!(
        resolve_sides(&params, &maps),
        Err(LedgerError::MissingDestinationAccount)
    ));
    params.to_account_id = Some("nowhere".to_owned());
    match resolve_sides(&params, &maps) {
        Err(LedgerError::UnresolvedInstrument { account_id }) => assert_eq!(account_id, "bare"),
        other => panic!("unexpected outcome: {:?}", other),
    }
    params.instrument_id = Some(5);
    match resolve_sides(&params, &maps) {
        Err(LedgerError::UnresolvedInstrument { account_id }) => assert_eq!(account_id, "nowhere"),
        other => panic!("unexpected outcome: {:?}", other),
    }
    params.to_instrument_id = Some(6);
    let sides = resolve_sides(&params, &maps).expect("should resolve");
    assert_eq!((sides.outcome_instrument, sides.income_instrument), (5, 6));
}

#[test]
fn assembled_transaction_carries_what_it_was_given() {
    let maps = maps();
    let mut params = create(TransactionType::Expense);
    params.date = "ignored".to_owned();
    params.tag_ids = Some(vec!["t1".to_owned(), "t2".to_owned()]);
    params.payee = Some(String::new());
    let date = Date { year: 2001, month: 2, day: 3 };
    let now = Timestamp { seconds: 77, nanos: 5 };
    let tx = assemble_transaction(params, date, &maps, "the-id".to_owned(), now)
        .expect("should assemble");
    assert_eq!(tx.id, "the-id");
    assert_eq!(tx.created, now);
    assert_eq!(tx.changed, now);
    assert_eq!(tx.date, date);
    assert_eq!(tx.user, 0);
    assert!(!tx.deleted);
    assert_eq!(tx.hold, None);
    assert_eq!(tx.tag, Some(vec!["t1".to_owned(), "t2".to_owned()]));
    assert_eq!(tx.payee.as_deref(), Some(""));
    assert_eq!(tx.comment, None);
    assert_eq!(tx.merchant, None);
    assert_eq!(tx.mcc, None);
    assert_eq!(tx.latitude, None);
    assert_eq!(tx.source, None);
}

#[test]
fn amount_patch_on_expense_leaves_income_at_zero() {
    let maps = maps();
    let mut tx = transaction("a", 500.0, "a", 0.0);
    let mut params = patch();
    params.amount = Some(amount(750.0));
    apply_update(&mut tx, params, &maps).expect("should update");
    assert_eq!(value(tx.outcome), 750.0);
    assert_eq!(value(tx.income), 0.0);
    assert_eq!(tx.tag, Some(vec!["old".to_owned()]));
    assert_eq!(tx.payee.as_deref(), Some("Payee"));
    assert!(tx.changed != stamp());
    assert_eq!(tx.created, stamp());
}

#[test]
fn patch_stamps_the_time_it_is_given() {
    let maps = maps();
    let mut tx = transaction("a", 500.0, "a", 0.0);
    let now = Timestamp { seconds: 9, nanos: 1 };
    let mut params = patch();
    params.date = Some("never read".to_owned());
    apply_patch(&mut tx, params, Some(Date { year: 1999, month: 12, day: 31 }), &maps, now)
        .expect("should patch");
    assert_eq!(tx.changed, now);
    assert_eq!(tx.date, Date { year: 1999, month: 12, day: 31 });
    let mut untouched = transaction("a", 500.0, "a", 0.0);
    apply_patch(&mut untouched, patch(), None, &maps, now).expect("should patch");
    assert_eq!(untouched.changed, now);
    assert_eq!(untouched.date, Date { year: 2024, month: 6, day: 15 });
    assert_eq!(value(untouched.outcome), 500.0);
}

#[test]
fn patch_derives_the_kind_anew_for_each_field() {
    let maps = maps();
    // A transfer whose destination moves onto the source account counts as
    // an income by the time the amount is set.
    let mut tx = transaction("a", 500.0, "b", 300.0);
    let mut params = patch();
    params.to_account_id = Some("a".to_owned());
    params.amount = Some(amount(40.0));
    apply_update(&mut tx, params, &maps).expect("should update");
    assert_eq!(tx.income_account, "a");
    assert_eq!(value(tx.income), 40.0);
    assert_eq!(value(tx.outcome), 500.0);

    // The destination amount is set last and on the income side, whatever
    // the amount did.
    let mut tx = transaction("a", 0.0, "a", 10.0);
    let mut params = patch();
    params.amount = Some(amount(20.0));
    params.to_amount = Some(amount(30.0));
    apply_update(&mut tx, params, &maps).expect("should update");
    assert_eq!(value(tx.income), 30.0);
    assert_eq!(value(tx.outcome), 0.0);
}

#[test]
fn patch_with_account_moves_one_or_both_sides() {
    let maps = maps();
    let mut transfer = transaction("a", 500.0, "b", 300.0);
    transfer.income_instrument = 2;
    let mut params = patch();
    params.account_id = Some("b".to_owned());
    apply_update(&mut transfer, params, &maps).expect("should update");
    assert_eq!((transfer.outcome_account.as_str(), transfer.outcome_instrument), ("b", 2));
    assert_eq!((transfer.income_account.as_str(), transfer.income_instrument), ("b", 2));

    let mut expense = transaction("a", 500.0, "a", 0.0);
    let mut params = patch();
    params.to_account_id = Some("b".to_owned());
    apply_update(&mut expense, params, &maps).expect("should update");
    assert_eq!((expense.outcome_account.as_str(), expense.outcome_instrument), ("a", 1));
    assert_eq!((expense.income_account.as_str(), expense.income_instrument), ("b", 2));
}

#[test]
fn failed_patch_keeps_what_was_applied_before() {
    let maps = maps();
    let mut tx = transaction("a", 500.0, "a", 0.0);
    let mut params = patch();
    params.payee = Some(String::new());
    params.tag_ids = Some(vec![]);
    params.account_id = Some("bare".to_owned());
    params.amount = Some(amount(1.0));
    match apply_update(&mut tx, params, &maps) {
        Err(LedgerError::UnresolvedInstrument { account_id }) => assert_eq!(account_id, "bare"),
        other => panic!("unexpected outcome: {:?}", other),
    }
    assert_eq!(tx.payee, None);
    assert_eq!(tx.tag, Some(vec![]));
    assert_eq!(tx.outcome_account, "bare");
    assert_eq!(tx.income_account, "bare");
    assert_eq!(tx.outcome_instrument, 1);
    assert_eq!(value(tx.outcome), 500.0);
    assert_eq!(tx.changed, stamp());

    let mut tx = transaction("a", 500.0, "a", 0.0);
    let mut params = patch();
    params.date = Some("2024-02-30".to_owned());
    params.payee = Some("New".to_owned());
    match apply_update(&mut tx, params, &maps) {
        Err(LedgerError::InvalidDate { input }) => assert_eq!(input, "2024-02-30"),
        other => panic!("unexpected outcome: {:?}", other),
    }
    assert_eq!(tx.payee.as_deref(), Some("Payee"));
    assert_eq!(tx.changed, stamp());
}

#[test]
fn dates_are_read_by_the_calendar() {
    assert_eq!(parse_date("2024-02-29").expect("leap day"), Date { year: 2024, month: 2, day: 29 });
    assert!(parse_date("2023-02-29").is_err());
    assert!(parse_date("").is_err());
    assert!(parse_date("2024-06-15T00:00:00").is_err());
    match parse_date("15-06-2024") {
        Err(LedgerError::InvalidDate { input }) => assert_eq!(input, "15-06-2024"),
        other => panic!("unexpected outcome: {:?}", other),
    }
    assert_eq!(parse_optional_date(&None).expect("nothing to read"), None);
    assert_eq!(
        parse_optional_date(&Some("1999-12-31".to_owned())).expect("a date"),
        Some(Date { year: 1999, month: 12, day: 31 })
    );
    assert!(parse_optional_date(&Some("soon".to_owned())).is_err());
    assert_eq!(month_start("2024-06").expect("a month"), Date { year: 2024, month: 6, day: 1 });
    match month_start("2024-13") {
        Err(LedgerError::InvalidDate { input }) => assert_eq!(input, "2024-13-01"),
        other => panic!("unexpected outcome: {:?}", other),
    }
}
