//! Changes to an existing transaction.

use crate::amount::Amount;
use crate::calendar::{current_time, parse_optional_date, ymd_parse, Date, Timestamp};
use crate::classify::{classify_transaction, kind_of};
use crate::error::{ErrorView, LedgerError};
use crate::lookup::{LookupMaps, LookupView};
use crate::model::{Transaction, TransactionType, TransactionView};
use crate::params::{UpdateTransactionParams, UpdateView};
use crate::resolve::{instrument_for, resolve_instrument, unresolved};
use vstd::prelude::*;

verus! {

/// A transaction after a patch was applied as far as it went, and the
/// reason for which it went no further, if there is one.
pub ghost struct PatchOutcome {
    pub tx: TransactionView,
    pub failure: Option<ErrorView>,
}

/// A payee or comment as it is stored: the empty text stands for none.
pub open spec fn stored_text(text: Seq<char>) -> Option<Seq<char>> {
    if text.len() == 0 {
        None
    } else {
        Some(text)
    }
}

/// The transaction with the date of the patch, where it has one.
pub open spec fn with_date(tx: TransactionView, date: Option<Date>) -> TransactionView {
    match date {
        Some(date) => TransactionView { date, ..tx },
        None => tx,
    }
}

/// The transaction with new tags in place of its own, where there are any.
pub open spec fn with_tags(tx: TransactionView, tag_ids: Option<Seq<Seq<char>>>) -> TransactionView {
    match tag_ids {
        Some(tags) => TransactionView { tag: Some(tags), ..tx },
        None => tx,
    }
}

/// The transaction with a new payee, where there is one.
pub open spec fn with_payee(tx: TransactionView, payee: Option<Seq<char>>) -> TransactionView {
    match payee {
        Some(payee) => TransactionView { payee: stored_text(payee), ..tx },
        None => tx,
    }
}

/// The transaction with a new comment, where there is one.
pub open spec fn with_comment(tx: TransactionView, comment: Option<Seq<char>>) -> TransactionView {
    match comment {
        Some(comment) => TransactionView { comment: stored_text(comment), ..tx },
        None => tx,
    }
}

/// The transaction with the date, tags, payee and comment of a patch, as far
/// as the patch has them.
pub open spec fn described(tx: TransactionView, patch: UpdateView, date: Option<Date>) ->
    TransactionView {
    with_comment(
        with_payee(with_tags(with_date(tx, date), patch.tag_ids), patch.payee),
        patch.comment,
    )
}

/// The transaction moved to a new primary account, where there is one. A
/// transfer changes its outcome side only; an expense or an income changes
/// both sides, and so stays on one account. The accounts change first and
/// the instruments follow, so an account without an instrument leaves the
/// new accounts beside the old instruments.
pub open spec fn with_account(
    tx: TransactionView,
    account_id: Option<Seq<char>>,
    maps: LookupView,
) -> PatchOutcome {
    match account_id {
        None => PatchOutcome { tx, failure: None },
        Some(account_id) => {
            let transfer = kind_of(tx) == TransactionType::Transfer;
            let moved = if transfer {
                TransactionView { outcome_account: account_id, ..tx }
            } else {
                TransactionView { outcome_account: account_id, income_account: account_id, ..tx }
            };
            match instrument_for(maps, account_id, None) {
                None => PatchOutcome { tx: moved, failure: Some(unresolved(account_id)) },
                Some(instrument) => PatchOutcome {
                    tx: if transfer {
                        TransactionView { outcome_instrument: instrument, ..moved }
                    } else {
                        TransactionView {
                            outcome_instrument: instrument,
                            income_instrument: instrument,
                            ..moved
                        }
                    },
                    failure: None,
                },
            }
        },
    }
}

/// The transaction with its income side moved to a new destination account,
/// where there is one, whatever the kind of the transaction.
pub open spec fn with_to_account(
    tx: TransactionView,
    to_account_id: Option<Seq<char>>,
    maps: LookupView,
) -> PatchOutcome {
    match to_account_id {
        None => PatchOutcome { tx, failure: None },
        Some(to_account_id) => {
            let moved = TransactionView { income_account: to_account_id, ..tx };
            match instrument_for(maps, to_account_id, None) {
                None => PatchOutcome { tx: moved, failure: Some(unresolved(to_account_id)) },
                Some(instrument) => PatchOutcome {
                    tx: TransactionView { income_instrument: instrument, ..moved },
                    failure: None,
                },
            }
        },
    }
}

/// The transaction with a new amount, where there is one: on the income
/// side of an income, on the outcome side of an expense or a transfer.
pub open spec fn with_amount(tx: TransactionView, amount: Option<Amount>) -> TransactionView {
    match amount {
        Some(amount) => if kind_of(tx) == TransactionType::Income {
            TransactionView { income: amount, ..tx }
        } else {
            TransactionView { outcome: amount, ..tx }
        },
        None => tx,
    }
}

/// The transaction with a new destination amount on its income side, where
/// there is one.
pub open spec fn with_to_amount(tx: TransactionView, to_amount: Option<Amount>) -> TransactionView {
    match to_amount {
        Some(to_amount) => TransactionView { income: to_amount, ..tx },
        None => tx,
    }
}

/// The transaction with the amounts of a patch, as far as the patch has
/// them, changed at the time given.
pub open spec fn settled(tx: TransactionView, patch: UpdateView, now: Timestamp) -> TransactionView {
    TransactionView { changed: now, ..with_to_amount(with_amount(tx, patch.amount), patch.to_amount) }
}

/// What the date, the texts and the accounts of a patch make of a
/// transaction, once the date has been read: everything that can fail.
pub open spec fn relocated(
    tx: TransactionView,
    patch: UpdateView,
    date: Option<Date>,
    maps: LookupView,
) -> PatchOutcome {
    let moved = with_account(described(tx, patch, date), patch.account_id, maps);
    if moved.failure is Some {
        moved
    } else {
        with_to_account(moved.tx, patch.to_account_id, maps)
    }
}

/// What a patch makes of a transaction once its date has been read.
///
/// The fields are taken in a fixed order: date, tags, payee, comment,
/// primary account, destination account, amount, destination amount. Each
/// rule sees the transaction as the rules before it left it, so the kind is
/// derived anew for the account and for the amount. A patch that runs to its
/// end stamps the time of the change; one that fails stops where it failed.
pub open spec fn patched(
    tx: TransactionView,
    patch: UpdateView,
    date: Option<Date>,
    maps: LookupView,
    now: Timestamp,
) -> PatchOutcome {
    let reached = relocated(tx, patch, date, maps);
    if reached.failure is Some {
        reached
    } else {
        PatchOutcome { tx: settled(reached.tx, patch, now), failure: None }
    }
}

/// What a patch makes of a transaction. A date that is refused leaves the
/// transaction as it was.
pub open spec fn update_outcome(
    tx: TransactionView,
    patch: UpdateView,
    maps: LookupView,
    now: Timestamp,
) -> PatchOutcome {
    match patch.date {
        None => patched(tx, patch, None, maps, now),
        Some(text) => match ymd_parse(text) {
            None => PatchOutcome { tx, failure: Some(ErrorView::InvalidDate { input: text }) },
            Some(date) => patched(tx, patch, Some(date), maps, now),
        },
    }
}

/// The reason for which a patch fails on a transaction, or `None` where it
/// runs to its end. The time of the change has no part in it.
pub open spec fn update_failure(tx: TransactionView, patch: UpdateView, maps: LookupView) -> Option<
    ErrorView,
> {
    match patch.date {
        None => relocated(tx, patch, None, maps).failure,
        Some(text) => match ymd_parse(text) {
            None => Some(ErrorView::InvalidDate { input: text }),
            Some(date) => relocated(tx, patch, Some(date), maps).failure,
        },
    }
}

/// The text as it is stored: `None` for the empty text.
fn store_text(text: String) -> (stored: Option<String>)
    ensures
        stored.deep_view() == stored_text(text@),
{
    if text.as_str().is_empty() {
        None
    } else {
        Some(text)
    }
}

/// Replaces the date, tags, payee and comment, as far as each is given.
fn change_description(
    tx: &mut Transaction,
    date: Option<Date>,
    tag_ids: Option<Vec<String>>,
    payee: Option<String>,
    comment: Option<String>,
)
    ensures
        final(tx)@ == with_comment(
            with_payee(with_tags(with_date(old(tx)@, date), tag_ids.deep_view()), payee.deep_view()),
            comment.deep_view(),
        ),
{
    if let Some(date) = date {
        tx.date = date;
    }
    if let Some(tag_ids) = tag_ids {
        tx.tag = Some(tag_ids);
    }
    if let Some(payee) = payee {
        tx.payee = store_text(payee);
    }
    if let Some(comment) = comment {
        tx.comment = store_text(comment);
    }
}

/// Moves the transaction to a new primary account, where one is given.
fn change_account(tx: &mut Transaction, account_id: Option<String>, maps: &LookupMaps) -> (moved:
    Result<(), LedgerError>)
    ensures
        final(tx)@ == with_account(old(tx)@, account_id.deep_view(), maps@).tx,
        match with_account(old(tx)@, account_id.deep_view(), maps@).failure {
            Some(reason) => moved matches Err(error) && error@ == reason,
            None => moved is Ok,
        },
{
    if let Some(account_id) = account_id {
        match classify_transaction(tx) {
            TransactionType::Transfer => {
                tx.outcome_account = account_id.clone();
                let instrument = resolve_instrument(maps, account_id.as_str(), None)?;
                tx.outcome_instrument = instrument;
            },
            _ => {
                tx.outcome_account = account_id.clone();
                tx.income_account = account_id.clone();
                let instrument = resolve_instrument(maps, account_id.as_str(), None)?;
                tx.outcome_instrument = instrument;
                tx.income_instrument = instrument;
            },
        }
    }
    Ok(())
}

/// Moves the income side to a new destination account, where one is given.
fn change_to_account(tx: &mut Transaction, to_account_id: Option<String>, maps: &LookupMaps) -> (moved:
    Result<(), LedgerError>)
    ensures
        final(tx)@ == with_to_account(old(tx)@, to_account_id.deep_view(), maps@).tx,
        match with_to_account(old(tx)@, to_account_id.deep_view(), maps@).failure {
            Some(reason) => moved matches Err(error) && error@ == reason,
            None => moved is Ok,
        },
{
    if let Some(to_account_id) = to_account_id {
        tx.income_account = to_account_id.clone();
        let instrument = resolve_instrument(maps, to_account_id.as_str(), None)?;
        tx.income_instrument = instrument;
    }
    Ok(())
}

/// Replaces the amounts, as far as each is given, and stamps the change.
fn change_amounts(
    tx: &mut Transaction,
    amount: Option<Amount>,
    to_amount: Option<Amount>,
    now: Timestamp,
)
    ensures
        final(tx)@ == (TransactionView {
            changed: now,
            ..with_to_amount(with_amount(old(tx)@, amount), to_amount)
        }),
{
    if let Some(amount) = amount {
        match classify_transaction(tx) {
            TransactionType::Income => {
                tx.income = amount;
            },
            _ => {
                tx.outcome = amount;
            },
        }
    }
    if let Some(to_amount) = to_amount {
        tx.income = to_amount;
    }
    tx.changed = now;
}

/// Applies a patch whose date has been read already, at the time given.
///
/// `date` is the new date, where the patch has one; the text of the date in
/// the patch is not looked at.
pub fn apply_patch(
    tx: &mut Transaction,
    params: UpdateTransactionParams,
    date: Option<Date>,
    maps: &LookupMaps,
    now: Timestamp,
) -> (applied: Result<(), LedgerError>)
    ensures
        final(tx)@ == patched(old(tx)@, params@, date, maps@, now).tx,
        match patched(old(tx)@, params@, date, maps@, now).failure {
            Some(reason) => applied matches Err(error) && error@ == reason,
            None => applied is Ok,
        },
{
    change_description(tx, date, params.tag_ids, params.payee, params.comment);
    change_account(tx, params.account_id, maps)?;
    change_to_account(tx, params.to_account_id, maps)?;
    change_amounts(tx, params.amount, params.to_amount, now);
    Ok(())
}

/// Applies a patch to a transaction, in place.
///
/// Only the fields that the patch holds change, and the time of the last
/// change, which becomes the current time. Where the patch fails, the
/// transaction keeps what was applied before the failure.
pub fn apply_update(tx: &mut Transaction, params: UpdateTransactionParams, maps: &LookupMaps) -> (applied:
    Result<(), LedgerError>)
    ensures
        final(tx)@ == update_outcome(old(tx)@, params@, maps@, final(tx)@.changed).tx,
        match update_failure(old(tx)@, params@, maps@) {
            Some(reason) => applied matches Err(error) && error@ == reason,
            None => applied is Ok,
        },
{
    let date = parse_optional_date(&params.date)?;
    let now = current_time();
    apply_patch(tx, params, date, maps, now)
}

} // verus!
