//! The ledger's records, as far as the library reads and writes them.

use crate::amount::Amount;
use crate::calendar::{Date, Timestamp};
use vstd::prelude::*;

verus! {

/// What a transaction is, read off its two sides.
#[derive(Clone, Copy, Debug, PartialEq, Eq, Structural)]
pub enum TransactionType {
    /// Money spent from an account.
    Expense,
    /// Money received into an account.
    Income,
    /// Money moved between two accounts.
    Transfer,
}

/// A double-entry record of the ledger: an outcome side that money leaves
/// and an income side that it reaches, each with its account, amount and
/// instrument.
#[derive(Debug)]
pub struct Transaction {
    pub id: String,
    pub changed: Timestamp,
    pub created: Timestamp,
    pub user: i64,
    pub deleted: bool,
    pub hold: Option<bool>,
    pub income_instrument: i32,
    pub income_account: String,
    pub income: Amount,
    pub outcome_instrument: i32,
    pub outcome_account: String,
    pub outcome: Amount,
    pub tag: Option<Vec<String>>,
    pub merchant: Option<String>,
    pub payee: Option<String>,
    pub original_payee: Option<String>,
    pub comment: Option<String>,
    pub date: Date,
    pub mcc: Option<i32>,
    pub reminder_marker: Option<String>,
    pub op_income: Option<Amount>,
    pub op_income_instrument: Option<i32>,
    pub op_outcome: Option<Amount>,
    pub op_outcome_instrument: Option<i32>,
    /// Latitude, as the bit pattern of a binary64 number.
    pub latitude: Option<u64>,
    /// Longitude, as the bit pattern of a binary64 number.
    pub longitude: Option<u64>,
    pub income_bank_id: Option<String>,
    pub outcome_bank_id: Option<String>,
    pub qr_code: Option<String>,
    pub source: Option<String>,
    pub viewed: Option<bool>,
}

/// A [`Transaction`] with each text as a sequence of characters.
pub ghost struct TransactionView {
    pub id: Seq<char>,
    pub changed: Timestamp,
    pub created: Timestamp,
    pub user: i64,
    pub deleted: bool,
    pub hold: Option<bool>,
    pub income_instrument: i32,
    pub income_account: Seq<char>,
    pub income: Amount,
    pub outcome_instrument: i32,
    pub outcome_account: Seq<char>,
    pub outcome: Amount,
    pub tag: Option<Seq<Seq<char>>>,
    pub merchant: Option<Seq<char>>,
    pub payee: Option<Seq<char>>,
    pub original_payee: Option<Seq<char>>,
    pub comment: Option<Seq<char>>,
    pub date: Date,
    pub mcc: Option<i32>,
    pub reminder_marker: Option<Seq<char>>,
    pub op_income: Option<Amount>,
    pub op_income_instrument: Option<i32>,
    pub op_outcome: Option<Amount>,
    pub op_outcome_instrument: Option<i32>,
    pub latitude: Option<u64>,
    pub longitude: Option<u64>,
    pub income_bank_id: Option<Seq<char>>,
    pub outcome_bank_id: Option<Seq<char>>,
    pub qr_code: Option<Seq<char>>,
    pub source: Option<Seq<char>>,
    pub viewed: Option<bool>,
}

impl View for Transaction {
    type V = TransactionView;

    open spec fn view(&self) -> TransactionView {
        TransactionView {
            id: self.id@,
            changed: self.changed,
            created: self.created,
            user: self.user,
            deleted: self.deleted,
            hold: self.hold,
            income_instrument: self.income_instrument,
            income_account: self.income_account@,
            income: self.income,
            outcome_instrument: self.outcome_instrument,
            outcome_account: self.outcome_account@,
            outcome: self.outcome,
            tag: self.tag.deep_view(),
            merchant: self.merchant.deep_view(),
            payee: self.payee.deep_view(),
            original_payee: self.original_payee.deep_view(),
            comment: self.comment.deep_view(),
            date: self.date,
            mcc: self.mcc,
            reminder_marker: self.reminder_marker.deep_view(),
            op_income: self.op_income,
            op_income_instrument: self.op_income_instrument,
            op_outcome: self.op_outcome,
            op_outcome_instrument: self.op_outcome_instrument,
            latitude: self.latitude,
            longitude: self.longitude,
            income_bank_id: self.income_bank_id.deep_view(),
            outcome_bank_id: self.outcome_bank_id.deep_view(),
            qr_code: self.qr_code.deep_view(),
            source: self.source.deep_view(),
            viewed: self.viewed,
        }
    }
}

impl DeepView for Transaction {
    type V = TransactionView;

    open spec fn deep_view(&self) -> TransactionView {
        self@
    }
}

/// The kind of an account.
#[derive(Clone, Copy, Debug, PartialEq, Eq, Structural)]
pub enum AccountType {
    Cash,
    CreditCard,
    Checking,
    Loan,
    Deposit,
    EMoney,
    Debt,
}

/// An account of the ledger, as far as the library reads it.
#[derive(Debug)]
pub struct Account {
    pub id: String,
    pub title: String,
    pub kind: AccountType,
    /// The instrument that the account is kept in, where the ledger knows
    /// it.
    pub instrument: Option<i32>,
    pub balance: Option<Amount>,
    pub archive: bool,
    pub in_balance: bool,
}

/// An [`Account`] with each text as a sequence of characters.
pub ghost struct AccountView {
    pub id: Seq<char>,
    pub title: Seq<char>,
    pub kind: AccountType,
    pub instrument: Option<i32>,
    pub balance: Option<Amount>,
    pub archive: bool,
    pub in_balance: bool,
}

impl View for Account {
    type V = AccountView;

    open spec fn view(&self) -> AccountView {
        AccountView {
            id: self.id@,
            title: self.title@,
            kind: self.kind,
            instrument: self.instrument,
            balance: self.balance,
            archive: self.archive,
            in_balance: self.in_balance,
        }
    }
}

impl DeepView for Account {
    type V = AccountView;

    open spec fn deep_view(&self) -> AccountView {
        self@
    }
}

/// A category tag of the ledger.
#[derive(Debug)]
pub struct Tag {
    pub id: String,
    pub changed: Timestamp,
    pub user: i64,
    pub title: String,
    pub parent: Option<String>,
    pub icon: Option<String>,
    pub picture: Option<String>,
    pub color: Option<i64>,
    pub show_income: bool,
    pub show_outcome: bool,
    pub budget_income: bool,
    pub budget_outcome: bool,
    pub required: Option<bool>,
    pub static_id: Option<String>,
    pub archive: Option<bool>,
}

/// A [`Tag`] with each text as a sequence of characters.
pub ghost struct TagView {
    pub id: Seq<char>,
    pub changed: Timestamp,
    pub user: i64,
    pub title: Seq<char>,
    pub parent: Option<Seq<char>>,
    pub icon: Option<Seq<char>>,
    pub picture: Option<Seq<char>>,
    pub color: Option<i64>,
    pub show_income: bool,
    pub show_outcome: bool,
    pub budget_income: bool,
    pub budget_outcome: bool,
    pub required: Option<bool>,
    pub static_id: Option<Seq<char>>,
    pub archive: Option<bool>,
}

impl View for Tag {
    type V = TagView;

    open spec fn view(&self) -> TagView {
        TagView {
            id: self.id@,
            changed: self.changed,
            user: self.user,
            title: self.title@,
            parent: self.parent.deep_view(),
            icon: self.icon.deep_view(),
            picture: self.picture.deep_view(),
            color: self.color,
            show_income: self.show_income,
            show_outcome: self.show_outcome,
            budget_income: self.budget_income,
            budget_outcome: self.budget_outcome,
            required: self.required,
            static_id: self.static_id.deep_view(),
            archive: self.archive,
        }
    }
}

impl DeepView for Tag {
    type V = TagView;

    open spec fn deep_view(&self) -> TagView {
        self@
    }
}

/// A currency of the ledger.
#[derive(Debug)]
pub struct Instrument {
    pub id: i32,
    /// Full name, such as "US Dollar".
    pub title: String,
    /// Short code, such as "USD".
    pub short_title: String,
    /// Currency symbol, such as "$".
    pub symbol: String,
    /// Exchange rate, as the bit pattern of a binary64 number.
    pub rate: u64,
}

/// An [`Instrument`] with each text as a sequence of characters.
pub ghost struct InstrumentView {
    pub id: i32,
    pub title: Seq<char>,
    pub short_title: Seq<char>,
    pub symbol: Seq<char>,
    pub rate: u64,
}

impl View for Instrument {
    type V = InstrumentView;

    open spec fn view(&self) -> InstrumentView {
        InstrumentView {
            id: self.id,
            title: self.title@,
            short_title: self.short_title@,
            symbol: self.symbol@,
            rate: self.rate,
        }
    }
}

impl DeepView for Instrument {
    type V = InstrumentView;

    open spec fn deep_view(&self) -> InstrumentView {
        self@
    }
}

/// A copy of an optional text.
pub fn clone_text(text: &Option<String>) -> (copy: Option<String>)
    ensures
        copy.deep_view() == text.deep_view(),
{
    match text {
        Some(inner) => Some(inner.clone()),
        None => None,
    }
}

/// A copy of a list of texts.
pub fn clone_texts(texts: &Vec<String>) -> (copy: Vec<String>)
    ensures
        copy.deep_view() == texts.deep_view(),
{
    let mut copy: Vec<String> = Vec::new();
    let mut i: usize = 0;
    while i < texts.len()
        invariant
            i <= texts.len(),
            copy.len() == i,
            forall|j: int| 0 <= j < i ==> copy[j]@ == texts[j]@,
        decreases texts.len() - i,
    {
        copy.push(texts[i].clone());
        i += 1;
    }
    assert(copy.deep_view() =~= texts.deep_view());
    copy
}

impl Clone for Transaction {
    fn clone(&self) -> (copy: Transaction)
        ensures
            copy@ == self@,
    {
        let tag = match &self.tag {
            Some(tags) => Some(clone_texts(tags)),
            None => None,
        };
        Transaction {
            id: self.id.clone(),
            changed: self.changed,
            created: self.created,
            user: self.user,
            deleted: self.deleted,
            hold: self.hold,
            income_instrument: self.income_instrument,
            income_account: self.income_account.clone(),
            income: self.income,
            outcome_instrument: self.outcome_instrument,
            outcome_account: self.outcome_account.clone(),
            outcome: self.outcome,
            tag,
            merchant: clone_text(&self.merchant),
            payee: clone_text(&self.payee),
            original_payee: clone_text(&self.original_payee),
            comment: clone_text(&self.comment),
            date: self.date,
            mcc: self.mcc,
            reminder_marker: clone_text(&self.reminder_marker),
            op_income: self.op_income,
            op_income_instrument: self.op_income_instrument,
            op_outcome: self.op_outcome,
            op_outcome_instrument: self.op_outcome_instrument,
            latitude: self.latitude,
            longitude: self.longitude,
            income_bank_id: clone_text(&self.income_bank_id),
            outcome_bank_id: clone_text(&self.outcome_bank_id),
            qr_code: clone_text(&self.qr_code),
            source: clone_text(&self.source),
            viewed: self.viewed,
        }
    }
}

} // verus!
