//! Why a request is refused.

use crate::bulk::MAX_BULK_OPERATIONS;
use crate::text::{decimal_text, join3, usize_text};
use vstd::prelude::*;

verus! {

/// The reasons for which the library refuses a request.
#[derive(Debug)]
pub enum LedgerError {
    /// The text is no date of the form `YYYY-MM-DD`, or names a day that the
    /// calendar lacks.
    InvalidDate { input: String },
    /// A transfer names no destination account.
    MissingDestinationAccount,
    /// No instrument was given and the account has none on record.
    UnresolvedInstrument { account_id: String },
    /// The batch holds more operations than one call may carry.
    TooManyOperations { count: usize },
    /// An update or a delete names a transaction that the ledger lacks.
    TransactionNotFound { id: String },
    /// No batch is staged under the key: it never was, or it was consumed.
    PreparationNotFound { id: String },
    /// A tag title is empty once the space around it is removed.
    BlankTitle,
    /// A new tag names a parent that the ledger lacks.
    ParentTagNotFound { id: String },
}

/// A [`LedgerError`] with each text as a sequence of characters.
pub ghost enum ErrorView {
    InvalidDate { input: Seq<char> },
    MissingDestinationAccount,
    UnresolvedInstrument { account_id: Seq<char> },
    TooManyOperations { count: nat },
    TransactionNotFound { id: Seq<char> },
    PreparationNotFound { id: Seq<char> },
    BlankTitle,
    ParentTagNotFound { id: Seq<char> },
}

impl View for LedgerError {
    type V = ErrorView;

    open spec fn view(&self) -> ErrorView {
        match self {
            LedgerError::InvalidDate { input } => ErrorView::InvalidDate { input: input@ },
            LedgerError::MissingDestinationAccount => ErrorView::MissingDestinationAccount,
            LedgerError::UnresolvedInstrument { account_id } => ErrorView::UnresolvedInstrument {
                account_id: account_id@,
            },
            LedgerError::TooManyOperations { count } => ErrorView::TooManyOperations {
                count: *count as nat,
            },
            LedgerError::TransactionNotFound { id } => ErrorView::TransactionNotFound { id: id@ },
            LedgerError::PreparationNotFound { id } => ErrorView::PreparationNotFound { id: id@ },
            LedgerError::BlankTitle => ErrorView::BlankTitle,
            LedgerError::ParentTagNotFound { id } => ErrorView::ParentTagNotFound { id: id@ },
        }
    }
}

/// The message for an error, as a caller reads it.
pub open spec fn message_text(error: ErrorView) -> Seq<char> {
    match error {
        ErrorView::InvalidDate { input } => "invalid date '"@ + input + "'"@,
        ErrorView::MissingDestinationAccount => "to_account_id is required for transfer transactions"@,
        ErrorView::UnresolvedInstrument { account_id } => "cannot resolve instrument for account '"@
            + account_id + "'; provide instrument_id explicitly"@,
        ErrorView::TooManyOperations { count } => "too many operations ("@ + decimal_text(
            count as int,
        ) + "); limit is "@ + decimal_text(MAX_BULK_OPERATIONS as int)
            + " per call \u{2014} split into smaller batches"@,
        ErrorView::TransactionNotFound { id } => "transaction '"@ + id + "' not found"@,
        ErrorView::PreparationNotFound { id } => "preparation '"@ + id
            + "' not found or already executed"@,
        ErrorView::BlankTitle => "title must not be empty or blank"@,
        ErrorView::ParentTagNotFound { id } => "parent_tag_id '"@ + id + "' not found"@,
    }
}

impl LedgerError {
    /// The message for the error, as a caller reads it.
    pub fn message(&self) -> (message: String)
        ensures
            message@ == message_text(self@),
    {
        match self {
            LedgerError::InvalidDate { input } => join3("invalid date '", input.as_str(), "'"),
            LedgerError::MissingDestinationAccount => {
                "to_account_id is required for transfer transactions".to_owned()
            },
            LedgerError::UnresolvedInstrument { account_id } => join3(
                "cannot resolve instrument for account '",
                account_id.as_str(),
                "'; provide instrument_id explicitly",
            ),
            LedgerError::TooManyOperations { count } => {
                let found = join3("too many operations (", usize_text(*count).as_str(), "); limit is ");
                let allowed = usize_text(MAX_BULK_OPERATIONS);
                let message = join3(
                    found.as_str(),
                    allowed.as_str(),
                    " per call \u{2014} split into smaller batches",
                );
                assert(message@ =~= message_text(self@));
                message
            },
            LedgerError::TransactionNotFound { id } => join3(
                "transaction '",
                id.as_str(),
                "' not found",
            ),
            LedgerError::PreparationNotFound { id } => join3(
                "preparation '",
                id.as_str(),
                "' not found or already executed",
            ),
            LedgerError::BlankTitle => "title must not be empty or blank".to_owned(),
            LedgerError::ParentTagNotFound { id } => join3(
                "parent_tag_id '",
                id.as_str(),
                "' not found",
            ),
        }
    }

    /// Whether the error is about the state of the workflow rather than
    /// about the request: no batch waits under the key.
    pub fn is_not_found(&self) -> (yes: bool)
        ensures
            yes == (self@ is PreparationNotFound),
    {
        match self {
            LedgerError::PreparationNotFound { .. } => true,
            _ => false,
        }
    }
}

} // verus!
