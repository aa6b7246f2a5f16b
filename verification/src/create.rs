//! New transactions.

use crate::calendar::{current_time, parse_date, ymd_parse, Date, Timestamp};
use crate::error::{ErrorView, LedgerError};
use crate::ident::{fresh_id, is_hyphenated_id};
use crate::lookup::{LookupMaps, LookupView};
use crate::model::{Transaction, TransactionView};
use crate::params::{CreateTransactionParams, CreateView};
use crate::resolve::{resolve_sides, sides_of, SidesView};
use vstd::prelude::*;

verus! {

/// The reason for which no transaction is built from a description: its
/// date was refused, or else its sides cannot be resolved. `None` where one
/// is built.
pub open spec fn build_failure(params: CreateView, date: Option<Date>, maps: LookupView) -> Option<
    ErrorView,
> {
    match date {
        None => Some(ErrorView::InvalidDate { input: params.date }),
        Some(_) => match sides_of(params, maps) {
            Err(reason) => Some(reason),
            Ok(_) => None,
        },
    }
}

/// The new transaction for a description, a date, two sides, an identifier
/// and the time of creation. It belongs to no user yet, is neither deleted
/// nor on hold, and carries the tags, payee and comment of the description
/// and nothing else.
pub open spec fn built(
    params: CreateView,
    date: Date,
    sides: SidesView,
    id: Seq<char>,
    now: Timestamp,
) -> TransactionView {
    TransactionView {
        id,
        changed: now,
        created: now,
        user: 0,
        deleted: false,
        hold: None,
        income_instrument: sides.income_instrument,
        income_account: sides.income_account,
        income: sides.income,
        outcome_instrument: sides.outcome_instrument,
        outcome_account: sides.outcome_account,
        outcome: sides.outcome,
        tag: params.tag_ids,
        merchant: None,
        payee: params.payee,
        original_payee: None,
        comment: params.comment,
        date,
        mcc: None,
        reminder_marker: None,
        op_income: None,
        op_income_instrument: None,
        op_outcome: None,
        op_outcome_instrument: None,
        latitude: None,
        longitude: None,
        income_bank_id: None,
        outcome_bank_id: None,
        qr_code: None,
        source: None,
        viewed: None,
    }
}

/// The transaction built from a description whose date reads as `date`,
/// under the given identifier and time of creation.
pub open spec fn built_from(
    params: CreateView,
    date: Option<Date>,
    maps: LookupView,
    id: Seq<char>,
    now: Timestamp,
) -> TransactionView
    recommends
        build_failure(params, date, maps) is None,
{
    built(params, date->0, sides_of(params, maps)->Ok_0, id, now)
}

/// Builds a transaction from a description whose date has been read
/// already, under the identifier and the time of creation given. The text of
/// the date in the description is not looked at.
pub fn assemble_transaction(
    params: CreateTransactionParams,
    date: Date,
    maps: &LookupMaps,
    id: String,
    now: Timestamp,
) -> (assembled: Result<Transaction, LedgerError>)
    ensures
        match sides_of(params@, maps@) {
            Err(reason) => assembled matches Err(error) && error@ == reason,
            Ok(sides) => assembled matches Ok(tx) && tx@ == built(params@, date, sides, id@, now),
        },
{
    let sides = resolve_sides(&params, maps)?;
    Ok(
        Transaction {
            id,
            changed: now,
            created: now,
            user: 0,
            deleted: false,
            hold: None,
            income_instrument: sides.income_instrument,
            income_account: sides.income_account,
            income: sides.income,
            outcome_instrument: sides.outcome_instrument,
            outcome_account: sides.outcome_account,
            outcome: sides.outcome,
            tag: params.tag_ids,
            merchant: None,
            payee: params.payee,
            original_payee: None,
            comment: params.comment,
            date,
            mcc: None,
            reminder_marker: None,
            op_income: None,
            op_income_instrument: None,
            op_outcome: None,
            op_outcome_instrument: None,
            latitude: None,
            longitude: None,
            income_bank_id: None,
            outcome_bank_id: None,
            qr_code: None,
            source: None,
            viewed: None,
        },
    )
}

/// Builds a transaction from the description of a new one.
///
/// The date is read as `YYYY-MM-DD`, the sides are resolved against the
/// tables, and the record gets a fresh identifier and the current time as
/// its time of creation and of last change.
pub fn build_transaction(params: CreateTransactionParams, maps: &LookupMaps) -> (outcome: Result<
    Transaction,
    LedgerError,
>)
    ensures
        match build_failure(params@, ymd_parse(params@.date), maps@) {
            Some(reason) => outcome matches Err(error) && error@ == reason,
            None => outcome matches Ok(tx) && is_hyphenated_id(tx@.id) && tx@ == built_from(
                params@,
                ymd_parse(params@.date),
                maps@,
                tx@.id,
                tx@.created,
            ),
        },
{
    let date = parse_date(params.date.as_str())?;
    let now = current_time();
    let id = fresh_id();
    assemble_transaction(params, date, maps, id, now)
}

} // verus!
