//! From one account and one amount to the two sides of a transaction.

use crate::amount::Amount;
use crate::error::{ErrorView, LedgerError};
use crate::lookup::{LookupMaps, LookupView};
use crate::model::TransactionType;
use crate::params::{CreateTransactionParams, CreateView};
use vstd::prelude::*;

verus! {

/// The instrument for an account: the one that the caller forces, else the
/// one that the tables hold for the account, else none.
pub open spec fn instrument_for(
    maps: LookupView,
    account_id: Seq<char>,
    explicit: Option<i32>,
) -> Option<i32> {
    match explicit {
        Some(instrument) => Some(instrument),
        None => if maps.account_instruments.contains_key(account_id) {
            Some(maps.account_instruments[account_id])
        } else {
            None
        },
    }
}

/// Resolves the instrument of an account.
///
/// An instrument given by the caller wins, whatever the account has on
/// record. Without one the account's own instrument is taken. Where the
/// tables have none either, the call fails and names the account.
pub fn resolve_instrument(maps: &LookupMaps, account_id: &str, explicit: Option<i32>) -> (resolved:
    Result<i32, LedgerError>)
    ensures
        match instrument_for(maps@, account_id@, explicit) {
            Some(instrument) => resolved == Ok::<i32, LedgerError>(instrument),
            None => resolved matches Err(error) && error@ == (ErrorView::UnresolvedInstrument {
                account_id: account_id@,
            }),
        },
{
    if let Some(instrument) = explicit {
        return Ok(instrument);
    }
    match maps.account_instrument(account_id) {
        Some(instrument) => Ok(instrument),
        None => Err(LedgerError::UnresolvedInstrument { account_id: account_id.to_owned() }),
    }
}

/// The two sides of a transaction that is about to be built.
#[derive(Debug)]
pub struct ResolvedSides {
    /// The account that money leaves.
    pub outcome_account: String,
    pub outcome: Amount,
    pub outcome_instrument: i32,
    /// The account that money reaches.
    pub income_account: String,
    pub income: Amount,
    pub income_instrument: i32,
}

/// A [`ResolvedSides`] with each text as a sequence of characters.
pub ghost struct SidesView {
    pub outcome_account: Seq<char>,
    pub outcome: Amount,
    pub outcome_instrument: i32,
    pub income_account: Seq<char>,
    pub income: Amount,
    pub income_instrument: i32,
}

impl View for ResolvedSides {
    type V = SidesView;

    open spec fn view(&self) -> SidesView {
        SidesView {
            outcome_account: self.outcome_account@,
            outcome: self.outcome,
            outcome_instrument: self.outcome_instrument,
            income_account: self.income_account@,
            income: self.income,
            income_instrument: self.income_instrument,
        }
    }
}

/// The error for an account whose instrument cannot be resolved.
pub open spec fn unresolved(account_id: Seq<char>) -> ErrorView {
    ErrorView::UnresolvedInstrument { account_id }
}

/// The sides of an expense or an income: both on the one account and in its
/// instrument, with the amount on the side that the kind names and positive
/// zero on the other.
pub open spec fn single_account_sides(params: CreateView, maps: LookupView) -> Result<
    SidesView,
    ErrorView,
> {
    match instrument_for(maps, params.account_id, params.instrument_id) {
        None => Err(unresolved(params.account_id)),
        Some(instrument) => Ok(
            SidesView {
                outcome_account: params.account_id,
                outcome: if params.transaction_type == TransactionType::Income {
                    Amount { bits: 0 }
                } else {
                    params.amount
                },
                outcome_instrument: instrument,
                income_account: params.account_id,
                income: if params.transaction_type == TransactionType::Income {
                    params.amount
                } else {
                    Amount { bits: 0 }
                },
                income_instrument: instrument,
            },
        ),
    }
}

/// The sides of a transfer: the primary account and the amount on the
/// outcome side, the destination account on the income side with the
/// destination amount, or the amount sent where none is given. Each side has
/// the instrument resolved for its own account. A transfer without a
/// destination account is refused before any instrument is looked up.
pub open spec fn transfer_sides(params: CreateView, maps: LookupView) -> Result<
    SidesView,
    ErrorView,
> {
    match params.to_account_id {
        None => Err(ErrorView::MissingDestinationAccount),
        Some(to_account_id) => match instrument_for(
            maps,
            params.account_id,
            params.instrument_id,
        ) {
            None => Err(unresolved(params.account_id)),
            Some(from_instrument) => match instrument_for(
                maps,
                to_account_id,
                params.to_instrument_id,
            ) {
                None => Err(unresolved(to_account_id)),
                Some(to_instrument) => Ok(
                    SidesView {
                        outcome_account: params.account_id,
                        outcome: params.amount,
                        outcome_instrument: from_instrument,
                        income_account: to_account_id,
                        income: match params.to_amount {
                            Some(to_amount) => to_amount,
                            None => params.amount,
                        },
                        income_instrument: to_instrument,
                    },
                ),
            },
        },
    }
}

/// The sides that a description of a new transaction stands for, or the
/// reason for which it stands for none.
pub open spec fn sides_of(params: CreateView, maps: LookupView) -> Result<SidesView, ErrorView> {
    if params.transaction_type == TransactionType::Transfer {
        transfer_sides(params, maps)
    } else {
        single_account_sides(params, maps)
    }
}

/// Expands the description of a new transaction into its two sides.
pub fn resolve_sides(params: &CreateTransactionParams, maps: &LookupMaps) -> (resolved: Result<
    ResolvedSides,
    LedgerError,
>)
    ensures
        match sides_of(params@, maps@) {
            Ok(sides) => resolved matches Ok(found) && found@ == sides,
            Err(reason) => resolved matches Err(error) && error@ == reason,
        },
{
    match params.transaction_type {
        TransactionType::Expense => {
            let instrument = resolve_instrument(
                maps,
                params.account_id.as_str(),
                params.instrument_id,
            )?;
            Ok(
                ResolvedSides {
                    outcome_account: params.account_id.clone(),
                    outcome: params.amount,
                    outcome_instrument: instrument,
                    income_account: params.account_id.clone(),
                    income: Amount::zero(),
                    income_instrument: instrument,
                },
            )
        },
        TransactionType::Income => {
            let instrument = resolve_instrument(
                maps,
                params.account_id.as_str(),
                params.instrument_id,
            )?;
            Ok(
                ResolvedSides {
                    outcome_account: params.account_id.clone(),
                    outcome: Amount::zero(),
                    outcome_instrument: instrument,
                    income_account: params.account_id.clone(),
                    income: params.amount,
                    income_instrument: instrument,
                },
            )
        },
        TransactionType::Transfer => {
            let to_account_id = match &params.to_account_id {
                Some(to_account_id) => to_account_id,
                None => {
                    return Err(LedgerError::MissingDestinationAccount);
                },
            };
            let from_instrument = resolve_instrument(
                maps,
                params.account_id.as_str(),
                params.instrument_id,
            )?;
            let to_instrument = resolve_instrument(
                maps,
                to_account_id.as_str(),
                params.to_instrument_id,
            )?;
            let to_amount = match params.to_amount {
                Some(to_amount) => to_amount,
                None => params.amount,
            };
            Ok(
                ResolvedSides {
                    outcome_account: params.account_id.clone(),
                    outcome: params.amount,
                    outcome_instrument: from_instrument,
                    income_account: to_account_id.clone(),
                    income: to_amount,
                    income_instrument: to_instrument,
                },
            )
        },
    }
}

} // verus!
