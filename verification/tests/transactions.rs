use zenmoney_mcp::amount::Amount;
use zenmoney_mcp::bulk::process_bulk_operations;
use zenmoney_mcp::calendar::{parse_date, Date, Timestamp};
use zenmoney_mcp::classify::{classify_transaction, filter_by_transaction_type, is_uncategorized};
use zenmoney_mcp::create::build_transaction;
use zenmoney_mcp::error::LedgerError;
use zenmoney_mcp::listing::account_type_label;
use zenmoney_mcp::lookup::{build_lookup_maps, LookupMaps};
use zenmoney_mcp::model::{Account, AccountType, Instrument, Tag, Transaction, TransactionType};
use zenmoney_mcp::params::{
    BulkOperation, CreateTagParams, CreateTransactionParams, DeleteTransactionParams,
    UpdateTransactionParams,
};
use zenmoney_mcp::patch::apply_update;
use zenmoney_mcp::resolve::{resolve_instrument, resolve_sides};
use zenmoney_mcp::tags::{build_tag, find_tag_by_title_case_insensitive, normalize_tag_title};

fn amount(value: f64) -> Amount {
    Amount::from_bits(value.to_bits())
}

fn value(amount: Amount) -> f64 {
    f64::from_bits(amount.to_bits())
}

fn test_timestamp() -> Timestamp {
    Timestamp { seconds: 1_700_000_000, nanos: 0 }
}

fn test_date() -> Date {
    Date { year: 2024, month: 6, day: 15 }
}

fn sample_account(id: &str, title: &str, kind: AccountType, instrument: i32, balance: f64) -> Account {
    Account {
        id: id.to_owned(),
        title: title.to_owned(),
        kind,
        instrument: Some(instrument),
        balance: Some(amount(balance)),
        archive: false,
        in_balance: true,
    }
}

fn sample_tag(id: &str, title: &str) -> Tag {
    Tag {
        id: id.to_owned(),
        changed: test_timestamp(),
        user: 1,
        title: title.to_owned(),
        parent: None,
        icon: None,
        picture: None,
        color: None,
        show_income: false,
        show_outcome: true,
        budget_income: false,
        budget_outcome: true,
        required: None,
        static_id: None,
        archive: None,
    }
}

fn sample_maps() -> LookupMaps {
    let accounts = vec![
        sample_account("acc-1", "Main Account", AccountType::Checking, 1, 50_000.0),
        sample_account("acc-2", "USD Account", AccountType::Cash, 2, 1_000.0),
    ];
    let tags = vec![sample_tag("tag-1", "Groceries")];
    let instruments = vec![
        Instrument {
            id: 1,
            title: "Russian Ruble".to_owned(),
            short_title: "RUB".to_owned(),
            symbol: "\u{20bd}".to_owned(),
            rate: 1.0_f64.to_bits(),
        },
        Instrument {
            id: 2,
            title: "US Dollar".to_owned(),
            short_title: "USD".to_owned(),
            symbol: "$".to_owned(),
            rate: 90.0_f64.to_bits(),
        },
    ];
    build_lookup_maps(&accounts, &tags, &instruments)
}

fn sample_transaction(id: &str, outcome: f64, income: f64) -> Transaction {
    Transaction {
        id: id.to_owned(),
        changed: test_timestamp(),
        created: test_timestamp(),
        user: 1,
        deleted: false,
        hold: None,
        income_instrument: 1,
        income_account: "acc-1".to_owned(),
        income: amount(income),
        outcome_instrument: 1,
        outcome_account: "acc-1".to_owned(),
        outcome: amount(outcome),
        tag: None,
        merchant: None,
        payee: None,
        original_payee: None,
        comment: None,
        date: test_date(),
        mcc: None,
        reminder_marker: None,
        op_income: None,
        op_income_instrument: None,
        op_outcome: None,
        op_outcome_instrument: None,
        latitude: None,
        longitude: None,
        income_bank_id: None,
        outcome_bank_id: None,
        qr_code: None,
        source: None,
        viewed: None,
    }
}

fn sample_transfer(id: &str, outcome: f64, income: f64) -> Transaction {
    let mut tx = sample_transaction(id, outcome, income);
    tx.outcome_account = "acc-1".to_owned();
    tx.income_account = "acc-2".to_owned();
    tx.income_instrument = 2;
    tx
}

fn sample_create_params(tx_type: TransactionType) -> CreateTransactionParams {
    CreateTransactionParams {
        transaction_type: tx_type,
        date: "2024-06-15".to_owned(),
        account_id: "acc-1".to_owned(),
        amount: amount(500.0),
        to_account_id: None,
        to_amount: None,
        instrument_id: None,
        to_instrument_id: None,
        tag_ids: None,
        payee: None,
        comment: None,
    }
}

fn sample_create_tag_params(title: &str) -> CreateTagParams {
    CreateTagParams {
        title: title.to_owned(),
        parent_tag_id: None,
        icon: None,
        color: None,
        show_income: None,
        show_outcome: None,
        budget_income: None,
        budget_outcome: None,
        required: None,
    }
}

fn empty_update(id: &str) -> UpdateTransactionParams {
    UpdateTransactionParams {
        id: id.to_owned(),
        date: None,
        amount: None,
        to_amount: None,
        account_id: None,
        to_account_id: None,
        tag_ids: None,
        payee: None,
        comment: None,
    }
}

// parse_date

#[test]
fn parse_date_valid() {
    let date = parse_date("2024-06-15").expect("valid date");
    assert_eq!(date, Date { year: 2024, month: 6, day: 15 });
}

#[test]
fn parse_date_invalid_format() {
    let result = parse_date("15-06-2024");
    assert!(result.is_err());
}

#[test]
fn parse_date_invalid_date() {
    let result = parse_date("2024-13-40");
    assert!(result.is_err());
}

// tag helpers

#[test]
fn normalize_tag_title_trims_text() {
    let normalized = normalize_tag_title("  Rent an apartment  ").expect("valid title");
    assert_eq!(normalized, "Rent an apartment");
}

#[test]
fn normalize_tag_title_blank_errors() {
    let result = normalize_tag_title("   ");
    assert!(result.is_err());
}

#[test]
fn find_tag_by_title_case_insensitive_matches_existing() {
    let tags = vec![sample_tag("tag-1", "Groceries")];
    let key = "gRoCeRiEs";
    let tag = find_tag_by_title_case_insensitive(&tags, key);
    assert!(tag.is_some());
}

#[test]
fn build_tag_uses_expense_defaults() {
    let params = sample_create_tag_params("Utilities");
    let tag = build_tag(params, 5, "Utilities".to_owned());
    assert_eq!(tag.title, "Utilities");
    assert_eq!(tag.user, 5);
    assert!(!tag.show_income);
    assert!(tag.show_outcome);
    assert!(!tag.budget_income);
    assert!(tag.budget_outcome);
    assert_eq!(tag.archive, Some(false));
}

// account_type_label

#[test]
fn account_type_label_all_variants() {
    assert_eq!(account_type_label(AccountType::Cash), "Cash");
    assert_eq!(account_type_label(AccountType::CreditCard), "CreditCard");
    assert_eq!(account_type_label(AccountType::Checking), "Checking");
    assert_eq!(account_type_label(AccountType::Loan), "Loan");
    assert_eq!(account_type_label(AccountType::Deposit), "Deposit");
    assert_eq!(account_type_label(AccountType::EMoney), "EMoney");
    assert_eq!(account_type_label(AccountType::Debt), "Debt");
}

// resolve_instrument

#[test]
fn resolve_instrument_explicit_overrides() {
    let maps = sample_maps();
    let result = resolve_instrument(&maps, "acc-1", Some(42)).expect("should resolve");
    assert_eq!(result, 42);
}

#[test]
fn resolve_instrument_from_maps() {
    let maps = sample_maps();
    let result = resolve_instrument(&maps, "acc-1", None).expect("should resolve");
    assert_eq!(result, 1);
}

#[test]
fn resolve_instrument_unknown_account_errors() {
    let maps = sample_maps();
    let result = resolve_instrument(&maps, "unknown", None);
    assert!(result.is_err());
}

// classify_transaction

#[test]
fn classify_expense() {
    let tx = sample_transaction("tx-1", 500.0, 0.0);
    assert!(matches!(classify_transaction(&tx), TransactionType::Expense));
}

#[test]
fn classify_income() {
    let tx = sample_transaction("tx-1", 0.0, 1000.0);
    assert!(matches!(classify_transaction(&tx), TransactionType::Income));
}

#[test]
fn classify_transfer() {
    let tx = sample_transfer("tx-1", 500.0, 500.0);
    assert!(matches!(classify_transaction(&tx), TransactionType::Transfer));
}

#[test]
fn classify_same_account_both_positive_is_income() {
    let tx = sample_transaction("tx-1", 100.0, 200.0);
    assert!(matches!(classify_transaction(&tx), TransactionType::Income));
}

// filter_by_transaction_type

#[test]
fn filter_expense_retains_only_expenses() {
    let mut txs = vec![
        sample_transaction("tx-1", 500.0, 0.0),
        sample_transaction("tx-2", 0.0, 1000.0),
        sample_transfer("tx-3", 300.0, 300.0),
    ];
    filter_by_transaction_type(&mut txs, Some(&TransactionType::Expense));
    assert_eq!(txs.len(), 1);
    assert_eq!(txs[0].id, "tx-1");
}

#[test]
fn filter_income_retains_only_income() {
    let mut txs = vec![
        sample_transaction("tx-1", 500.0, 0.0),
        sample_transaction("tx-2", 0.0, 1000.0),
    ];
    filter_by_transaction_type(&mut txs, Some(&TransactionType::Income));
    assert_eq!(txs.len(), 1);
    assert_eq!(txs[0].id, "tx-2");
}

#[test]
fn filter_transfer_retains_only_transfers() {
    let mut txs = vec![
        sample_transaction("tx-1", 500.0, 0.0),
        sample_transfer("tx-2", 300.0, 300.0),
    ];
    filter_by_transaction_type(&mut txs, Some(&TransactionType::Transfer));
    assert_eq!(txs.len(), 1);
    assert_eq!(txs[0].id, "tx-2");
}

#[test]
fn filter_none_keeps_all() {
    let mut txs = vec![
        sample_transaction("tx-1", 500.0, 0.0),
        sample_transaction("tx-2", 0.0, 1000.0),
    ];
    filter_by_transaction_type(&mut txs, None);
    assert_eq!(txs.len(), 2);
}

// is_uncategorized

#[test]
fn is_uncategorized_no_tags() {
    let tx = sample_transaction("tx-1", 500.0, 0.0);
    assert!(is_uncategorized(&tx));
}

#[test]
fn is_uncategorized_empty_vec() {
    let mut tx = sample_transaction("tx-1", 500.0, 0.0);
    tx.tag = Some(vec![]);
    assert!(is_uncategorized(&tx));
}

#[test]
fn is_uncategorized_with_tags() {
    let mut tx = sample_transaction("tx-1", 500.0, 0.0);
    tx.tag = Some(vec!["tag-1".to_owned()]);
    assert!(!is_uncategorized(&tx));
}

// resolve_sides

#[test]
fn resolve_sides_expense() {
    let maps = sample_maps();
    let params = sample_create_params(TransactionType::Expense);
    let sides = resolve_sides(&params, &maps).expect("should resolve");
    assert!((value(sides.outcome) - 500.0).abs() < f64::EPSILON);
    assert!((value(sides.income) - 0.0).abs() < f64::EPSILON);
    assert_eq!(sides.outcome_account, "acc-1");
}

#[test]
fn resolve_sides_income() {
    let maps = sample_maps();
    let params = sample_create_params(TransactionType::Income);
    let sides = resolve_sides(&params, &maps).expect("should resolve");
    assert!((value(sides.income) - 500.0).abs() < f64::EPSILON);
    assert!((value(sides.outcome) - 0.0).abs() < f64::EPSILON);
}

#[test]
fn resolve_sides_transfer() {
    let maps = sample_maps();
    let mut params = sample_create_params(TransactionType::Transfer);
    params.to_account_id = Some("acc-2".to_owned());
    params.to_amount = Some(amount(7.0));
    let sides = resolve_sides(&params, &maps).expect("should resolve");
    assert!((value(sides.outcome) - 500.0).abs() < f64::EPSILON);
    assert!((value(sides.income) - 7.0).abs() < f64::EPSILON);
    assert_eq!(sides.income_account, "acc-2");
    assert_eq!(sides.income_instrument, 2);
}

#[test]
fn resolve_sides_transfer_defaults_to_amount() {
    let maps = sample_maps();
    let mut params = sample_create_params(TransactionType::Transfer);
    params.to_account_id = Some("acc-2".to_owned());
    let sides = resolve_sides(&params, &maps).expect("should resolve");
    assert!((value(sides.income) - 500.0).abs() < f64::EPSILON);
}

#[test]
fn resolve_sides_transfer_missing_to_account_errors() {
    let maps = sample_maps();
    let params = sample_create_params(TransactionType::Transfer);
    let result = resolve_sides(&params, &maps);
    assert!(result.is_err());
}

// build_transaction

#[test]
fn build_transaction_expense_with_optional_fields() {
    let maps = sample_maps();
    let mut params = sample_create_params(TransactionType::Expense);
    params.tag_ids = Some(vec!["tag-1".to_owned()]);
    params.payee = Some("Coffee Shop".to_owned());
    params.comment = Some("Morning coffee".to_owned());

    let tx = build_transaction(params, &maps).expect("should build");
    assert!((value(tx.outcome) - 500.0).abs() < f64::EPSILON);
    assert!((value(tx.income) - 0.0).abs() < f64::EPSILON);
    assert_eq!(tx.tag.as_ref().expect("should have tags").len(), 1);
    assert_eq!(tx.payee.as_deref(), Some("Coffee Shop"));
    assert_eq!(tx.comment.as_deref(), Some("Morning coffee"));
    assert_eq!(tx.date, test_date());
}

#[test]
fn build_transaction_income_minimal() {
    let maps = sample_maps();
    let params = sample_create_params(TransactionType::Income);
    let tx = build_transaction(params, &maps).expect("should build");
    assert!((value(tx.income) - 500.0).abs() < f64::EPSILON);
    assert!((value(tx.outcome) - 0.0).abs() < f64::EPSILON);
    assert!(tx.tag.is_none());
    assert!(tx.payee.is_none());
}

#[test]
fn build_transaction_invalid_date_errors() {
    let maps = sample_maps();
    let mut params = sample_create_params(TransactionType::Expense);
    params.date = "not-a-date".to_owned();
    let result = build_transaction(params, &maps);
    assert!(result.is_err());
}

// apply_update

#[test]
fn apply_update_date() {
    let maps = sample_maps();
    let mut tx = sample_transaction("tx-1", 500.0, 0.0);
    let mut params = empty_update("tx-1");
    params.date = Some("2025-01-01".to_owned());
    apply_update(&mut tx, params, &maps).expect("should update");
    assert_eq!(tx.date, Date { year: 2025, month: 1, day: 1 });
}

#[test]
fn apply_update_payee_empty_clears() {
    let maps = sample_maps();
    let mut tx = sample_transaction("tx-1", 500.0, 0.0);
    tx.payee = Some("Old Payee".to_owned());
    let mut params = empty_update("tx-1");
    params.payee = Some(String::new());
    apply_update(&mut tx, params, &maps).expect("should update");
    assert!(tx.payee.is_none());
}

#[test]
fn apply_update_comment_empty_clears() {
    let maps = sample_maps();
    let mut tx = sample_transaction("tx-1", 500.0, 0.0);
    tx.comment = Some("Old comment".to_owned());
    let mut params = empty_update("tx-1");
    params.comment = Some(String::new());
    apply_update(&mut tx, params, &maps).expect("should update");
    assert!(tx.comment.is_none());
}

#[test]
fn apply_update_tag_ids() {
    let maps = sample_maps();
    let mut tx = sample_transaction("tx-1", 500.0, 0.0);
    let mut params = empty_update("tx-1");
    params.tag_ids = Some(vec!["tag-1".to_owned(), "tag-2".to_owned()]);
    apply_update(&mut tx, params, &maps).expect("should update");
    let tags = tx.tag.expect("should have tags");
    assert_eq!(tags.len(), 2);
}

#[test]
fn apply_update_amount_on_expense() {
    let maps = sample_maps();
    let mut tx = sample_transaction("tx-1", 500.0, 0.0);
    let mut params = empty_update("tx-1");
    params.amount = Some(amount(750.0));
    apply_update(&mut tx, params, &maps).expect("should update");
    assert!((value(tx.outcome) - 750.0).abs() < f64::EPSILON);
}

#[test]
fn apply_update_account_on_transfer() {
    let maps = sample_maps();
    let mut tx = sample_transfer("tx-1", 500.0, 500.0);
    let mut params = empty_update("tx-1");
    params.account_id = Some("acc-2".to_owned());
    apply_update(&mut tx, params, &maps).expect("should update");
    assert_eq!(tx.outcome_account, "acc-2");
    assert_eq!(tx.outcome_instrument, 2);
}

#[test]
fn apply_update_comment_sets_value() {
    let maps = sample_maps();
    let mut tx = sample_transaction("tx-1", 500.0, 0.0);
    let mut params = empty_update("tx-1");
    params.comment = Some("New comment".to_owned());
    apply_update(&mut tx, params, &maps).expect("should update");
    assert_eq!(tx.comment.as_deref(), Some("New comment"));
}

#[test]
fn apply_update_account_on_expense() {
    let maps = sample_maps();
    let mut tx = sample_transaction("tx-1", 500.0, 0.0);
    let mut params = empty_update("tx-1");
    params.account_id = Some("acc-2".to_owned());
    apply_update(&mut tx, params, &maps).expect("should update");
    assert_eq!(tx.outcome_account, "acc-2");
    assert_eq!(tx.income_account, "acc-2");
    assert_eq!(tx.outcome_instrument, 2);
    assert_eq!(tx.income_instrument, 2);
}

#[test]
fn apply_update_account_on_income() {
    let maps = sample_maps();
    let mut tx = sample_transaction("tx-1", 0.0, 1000.0);
    let mut params = empty_update("tx-1");
    params.account_id = Some("acc-2".to_owned());
    apply_update(&mut tx, params, &maps).expect("should update");
    assert_eq!(tx.income_account, "acc-2");
    assert_eq!(tx.outcome_account, "acc-2");
    assert_eq!(tx.income_instrument, 2);
    assert_eq!(tx.outcome_instrument, 2);
}

#[test]
fn apply_update_to_account_id() {
    let maps = sample_maps();
    let mut tx = sample_transfer("tx-1", 500.0, 500.0);
    let mut params = empty_update("tx-1");
    params.to_account_id = Some("acc-1".to_owned());
    apply_update(&mut tx, params, &maps).expect("should update");
    assert_eq!(tx.income_account, "acc-1");
    assert_eq!(tx.income_instrument, 1);
}

#[test]
fn apply_update_amount_on_income() {
    let maps = sample_maps();
    let mut tx = sample_transaction("tx-1", 0.0, 1000.0);
    let mut params = empty_update("tx-1");
    params.amount = Some(amount(2000.0));
    apply_update(&mut tx, params, &maps).expect("should update");
    assert!((value(tx.income) - 2000.0).abs() < f64::EPSILON);
}

#[test]
fn apply_update_to_amount() {
    let maps = sample_maps();
    let mut tx = sample_transfer("tx-1", 500.0, 500.0);
    let mut params = empty_update("tx-1");
    params.to_amount = Some(amount(750.0));
    apply_update(&mut tx, params, &maps).expect("should update");
    assert!((value(tx.income) - 750.0).abs() < f64::EPSILON);
}

// process_bulk_operations

#[test]
fn process_bulk_create_update_delete_mix() {
    let maps = sample_maps();
    let existing = vec![sample_transaction("tx-existing", 100.0, 0.0)];
    let mut update = empty_update("tx-existing");
    update.amount = Some(amount(200.0));
    let operations = vec![
        BulkOperation::Create(sample_create_params(TransactionType::Expense)),
        BulkOperation::Update(update),
        BulkOperation::Delete(DeleteTransactionParams { id: "tx-existing".to_owned() }),
    ];
    let (to_push, to_delete, created, updated) =
        process_bulk_operations(operations, &existing, &maps).expect("should process");
    assert_eq!(created, 1);
    assert_eq!(updated, 1);
    assert_eq!(to_push.len(), 2);
    assert_eq!(to_delete.len(), 1);
}

#[test]
fn process_bulk_update_nonexistent_errors() {
    let maps = sample_maps();
    let existing: Vec<Transaction> = vec![];
    let mut update = empty_update("no-such-tx");
    update.amount = Some(amount(100.0));
    let operations = vec![BulkOperation::Update(update)];
    let result = process_bulk_operations(operations, &existing, &maps);
    assert!(result.is_err());
}

#[test]
fn process_bulk_delete_nonexistent_errors() {
    let maps = sample_maps();
    let existing: Vec<Transaction> = vec![];
    let operations =
        vec![BulkOperation::Delete(DeleteTransactionParams { id: "no-such-tx".to_owned() })];
    let result = process_bulk_operations(operations, &existing, &maps);
    assert!(result.is_err());
}

#[test]
fn process_bulk_empty_operations() {
    let maps = sample_maps();
    let existing: Vec<Transaction> = vec![];
    let (to_push, to_delete, created, updated) =
        process_bulk_operations(vec![], &existing, &maps).expect("should process");
    assert!(to_push.is_empty());
    assert!(to_delete.is_empty());
    assert_eq!(created, 0);
    assert_eq!(updated, 0);
}

#[test]
fn process_bulk_all_deletes() {
    let maps = sample_maps();
    let existing = vec![
        sample_transaction("tx-1", 100.0, 0.0),
        sample_transaction("tx-2", 200.0, 0.0),
    ];
    let operations = vec![
        BulkOperation::Delete(DeleteTransactionParams { id: "tx-1".to_owned() }),
        BulkOperation::Delete(DeleteTransactionParams { id: "tx-2".to_owned() }),
    ];
    let (to_push, to_delete, created, updated) =
        process_bulk_operations(operations, &existing, &maps).expect("should process");
    assert!(to_push.is_empty());
    assert_eq!(to_delete.len(), 2);
    assert_eq!(created, 0);
    assert_eq!(updated, 0);
}

// errors by variant

#[test]
fn build_transaction_reports_the_refused_date() {
    let maps = sample_maps();
    let mut params = sample_create_params(TransactionType::Expense);
    params.date = "2024-02-30".to_owned();
    match build_transaction(params, &maps) {
        Err(LedgerError::InvalidDate { input }) => assert_eq!(input, "2024-02-30"),
        other => panic!("unexpected outcome: {:?}", other),
    }
}
