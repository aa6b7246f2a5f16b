//! What a caller asks for: new transactions, changes to existing ones,
//! deletions, and batches of these.

use crate::amount::Amount;
use crate::model::TransactionType;
use vstd::prelude::*;

verus! {

/// A new transaction, described by one account and one amount.
#[derive(Debug)]
pub struct CreateTransactionParams {
    /// Expense, income or transfer.
    pub transaction_type: TransactionType,
    /// Date of the transaction, written `YYYY-MM-DD`.
    pub date: String,
    /// The account spent from, received into, or transferred from.
    pub account_id: String,
    /// The amount spent, received, or sent.
    pub amount: Amount,
    /// The account transferred to.
    pub to_account_id: Option<String>,
    /// The amount that arrives, where it differs from the amount sent.
    pub to_amount: Option<Amount>,
    /// Instrument of the primary account, where the caller forces one.
    pub instrument_id: Option<i32>,
    /// Instrument of the destination account, where the caller forces one.
    pub to_instrument_id: Option<i32>,
    pub tag_ids: Option<Vec<String>>,
    pub payee: Option<String>,
    pub comment: Option<String>,
}

/// A [`CreateTransactionParams`] with each text as a sequence of characters.
pub ghost struct CreateView {
    pub transaction_type: TransactionType,
    pub date: Seq<char>,
    pub account_id: Seq<char>,
    pub amount: Amount,
    pub to_account_id: Option<Seq<char>>,
    pub to_amount: Option<Amount>,
    pub instrument_id: Option<i32>,
    pub to_instrument_id: Option<i32>,
    pub tag_ids: Option<Seq<Seq<char>>>,
    pub payee: Option<Seq<char>>,
    pub comment: Option<Seq<char>>,
}

impl View for CreateTransactionParams {
    type V = CreateView;

    open spec fn view(&self) -> CreateView {
        CreateView {
            transaction_type: self.transaction_type,
            date: self.date@,
            account_id: self.account_id@,
            amount: self.amount,
            to_account_id: self.to_account_id.deep_view(),
            to_amount: self.to_amount,
            instrument_id: self.instrument_id,
            to_instrument_id: self.to_instrument_id,
            tag_ids: self.tag_ids.deep_view(),
            payee: self.payee.deep_view(),
            comment: self.comment.deep_view(),
        }
    }
}

/// Changes to an existing transaction. A field that is absent stays as it
/// is.
#[derive(Debug)]
pub struct UpdateTransactionParams {
    /// The transaction to change.
    pub id: String,
    /// New date, written `YYYY-MM-DD`.
    pub date: Option<String>,
    /// New amount, for the side that the kind of the transaction names.
    pub amount: Option<Amount>,
    /// New amount of the income side.
    pub to_amount: Option<Amount>,
    /// New primary account.
    pub account_id: Option<String>,
    /// New destination account.
    pub to_account_id: Option<String>,
    /// New set of tags, in place of the old one.
    pub tag_ids: Option<Vec<String>>,
    /// New payee; the empty text removes the payee.
    pub payee: Option<String>,
    /// New comment; the empty text removes the comment.
    pub comment: Option<String>,
}

/// An [`UpdateTransactionParams`] with each text as a sequence of
/// characters.
pub ghost struct UpdateView {
    pub id: Seq<char>,
    pub date: Option<Seq<char>>,
    pub amount: Option<Amount>,
    pub to_amount: Option<Amount>,
    pub account_id: Option<Seq<char>>,
    pub to_account_id: Option<Seq<char>>,
    pub tag_ids: Option<Seq<Seq<char>>>,
    pub payee: Option<Seq<char>>,
    pub comment: Option<Seq<char>>,
}

impl View for UpdateTransactionParams {
    type V = UpdateView;

    open spec fn view(&self) -> UpdateView {
        UpdateView {
            id: self.id@,
            date: self.date.deep_view(),
            amount: self.amount,
            to_amount: self.to_amount,
            account_id: self.account_id.deep_view(),
            to_account_id: self.to_account_id.deep_view(),
            tag_ids: self.tag_ids.deep_view(),
            payee: self.payee.deep_view(),
            comment: self.comment.deep_view(),
        }
    }
}

/// The transaction to delete.
#[derive(Debug)]
pub struct DeleteTransactionParams {
    pub id: String,
}

/// One operation of a batch.
#[derive(Debug)]
pub enum BulkOperation {
    /// Create a new transaction.
    Create(CreateTransactionParams),
    /// Change an existing transaction.
    Update(UpdateTransactionParams),
    /// Delete an existing transaction.
    Delete(DeleteTransactionParams),
}

/// A [`BulkOperation`] with each text as a sequence of characters. A
/// deletion is the identifier it names.
pub ghost enum OperationView {
    Create(CreateView),
    Update(UpdateView),
    Delete(Seq<char>),
}

impl View for BulkOperation {
    type V = OperationView;

    open spec fn view(&self) -> OperationView {
        match self {
            BulkOperation::Create(params) => OperationView::Create(params@),
            BulkOperation::Update(params) => OperationView::Update(params@),
            BulkOperation::Delete(params) => OperationView::Delete(params.id@),
        }
    }
}

impl DeepView for BulkOperation {
    type V = OperationView;

    open spec fn deep_view(&self) -> OperationView {
        self@
    }
}

/// A new category tag.
#[derive(Debug)]
pub struct CreateTagParams {
    /// Title of the tag; white space around it does not count.
    pub title: String,
    /// The tag that the new one is nested under.
    pub parent_tag_id: Option<String>,
    pub icon: Option<String>,
    /// Colour, as one ARGB number.
    pub color: Option<i64>,
    /// Whether the tag shows in income reports; it does not unless asked.
    pub show_income: Option<bool>,
    /// Whether the tag shows in outcome reports; it does unless told not to.
    pub show_outcome: Option<bool>,
    /// Whether the tag counts in income budgets; it does not unless asked.
    pub budget_income: Option<bool>,
    /// Whether the tag counts in outcome budgets; it does unless told not
    /// to.
    pub budget_outcome: Option<bool>,
    pub required: Option<bool>,
}

/// A [`CreateTagParams`] with each text as a sequence of characters.
pub ghost struct CreateTagView {
    pub title: Seq<char>,
    pub parent_tag_id: Option<Seq<char>>,
    pub icon: Option<Seq<char>>,
    pub color: Option<i64>,
    pub show_income: Option<bool>,
    pub show_outcome: Option<bool>,
    pub budget_income: Option<bool>,
    pub budget_outcome: Option<bool>,
    pub required: Option<bool>,
}

impl View for CreateTagParams {
    type V = CreateTagView;

    open spec fn view(&self) -> CreateTagView {
        CreateTagView {
            title: self.title@,
            parent_tag_id: self.parent_tag_id.deep_view(),
            icon: self.icon.deep_view(),
            color: self.color,
            show_income: self.show_income,
            show_outcome: self.show_outcome,
            budget_income: self.budget_income,
            budget_outcome: self.budget_outcome,
            required: self.required,
        }
    }
}

} // verus!
