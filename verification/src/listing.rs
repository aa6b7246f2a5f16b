//! The ledger's other records as they are shown to a caller.

use crate::amount::Amount;
use crate::calendar::Date;
use crate::lookup::{LookupMaps, LookupView};
use crate::model::{clone_text, Account, AccountType, Instrument, Tag};
use crate::response::{name_in, symbol_in, tag_names, tag_titles_of, TransactionResponse};
use vstd::prelude::*;

verus! {

/// The unit of the interval at which a reminder recurs.
#[derive(Clone, Copy, Debug, PartialEq, Eq, Structural)]
pub enum Interval {
    Day,
    Week,
    Month,
    Year,
}

/// A merchant of the ledger, as far as the library reads it.
#[derive(Debug)]
pub struct Merchant {
    pub id: String,
    pub title: String,
}

/// A monthly budget of the ledger, as far as the library reads it.
#[derive(Debug)]
pub struct Budget {
    /// The tag that the budget is for; none for the budget of the month as
    /// a whole.
    pub tag: Option<String>,
    /// First day of the month.
    pub date: Date,
    pub income: Amount,
    pub outcome: Amount,
}

/// A [`Budget`] with its tag as a sequence of characters.
pub ghost struct BudgetView {
    pub tag: Option<Seq<char>>,
    pub date: Date,
    pub income: Amount,
    pub outcome: Amount,
}

impl View for Budget {
    type V = BudgetView;

    open spec fn view(&self) -> BudgetView {
        BudgetView {
            tag: self.tag.deep_view(),
            date: self.date,
            income: self.income,
            outcome: self.outcome,
        }
    }
}

impl DeepView for Budget {
    type V = BudgetView;

    open spec fn deep_view(&self) -> BudgetView {
        self@
    }
}

/// The budgets of a month, in their order; all budgets where no month is
/// given.
pub open spec fn in_month(budgets: Seq<BudgetView>, month: Option<Date>) -> Seq<BudgetView>
    decreases budgets.len(),
{
    if budgets.len() == 0 {
        Seq::empty()
    } else if month is Some && budgets.last().date != month->0 {
        in_month(budgets.drop_last(), month)
    } else {
        in_month(budgets.drop_last(), month).push(budgets.last())
    }
}

/// Keeps the budgets of the month that starts on the given day; keeps all
/// where no month is given.
pub fn budgets_of_month(budgets: Vec<Budget>, month: Option<Date>) -> (kept: Vec<Budget>)
    ensures
        kept.deep_view() == in_month(budgets.deep_view(), month),
{
    let ghost all = budgets.deep_view();
    let mut kept: Vec<Budget> = Vec::new();
    proof {
        assert(all.take(0) =~= Seq::empty());
        assert(kept.deep_view() =~= Seq::empty());
    }
    for budget in it: budgets
        invariant
            it.seq().len() == all.len(),
            forall|k: int| 0 <= k < all.len() ==> (#[trigger] it.seq()[k])@ == all[k],
            kept.deep_view() == in_month(all.take(it.index() as int), month),
    {
        let ghost n = it.index() as int;
        let ghost before = kept.deep_view();
        proof {
            assert(all.take(n + 1).drop_last() =~= all.take(n));
            assert(all.take(n + 1).last() == budget@);
        }
        let wanted = match month {
            Some(date) => budget.date == date,
            None => true,
        };
        if wanted {
            kept.push(budget);
            proof {
                assert(kept.deep_view() =~= before.push(budget@));
            }
        }
    }
    proof {
        assert(all.take(all.len() as int) =~= all);
    }
    kept
}

/// A reminder of a recurring transaction, as far as the library reads it.
#[derive(Debug)]
pub struct Reminder {
    pub id: String,
    pub income_account: String,
    pub income: Amount,
    pub outcome_account: String,
    pub outcome: Amount,
    pub tag: Option<Vec<String>>,
    pub payee: Option<String>,
    pub comment: Option<String>,
    pub interval: Option<Interval>,
    pub start_date: Date,
    pub end_date: Option<Date>,
}

/// What the ledger suggests for a payee or a comment.
#[derive(Debug)]
pub struct Suggestion {
    pub payee: Option<String>,
    pub merchant: Option<String>,
    pub tag: Option<Vec<String>>,
}

/// The name of a kind of account.
pub open spec fn kind_label(kind: AccountType) -> Seq<char> {
    match kind {
        AccountType::Cash => "Cash"@,
        AccountType::CreditCard => "CreditCard"@,
        AccountType::Checking => "Checking"@,
        AccountType::Loan => "Loan"@,
        AccountType::Deposit => "Deposit"@,
        AccountType::EMoney => "EMoney"@,
        AccountType::Debt => "Debt"@,
    }
}

/// Names a kind of account.
pub fn account_type_label(kind: AccountType) -> (label: &'static str)
    ensures
        label@ == kind_label(kind),
{
    match kind {
        AccountType::Cash => "Cash",
        AccountType::CreditCard => "CreditCard",
        AccountType::Checking => "Checking",
        AccountType::Loan => "Loan",
        AccountType::Deposit => "Deposit",
        AccountType::EMoney => "EMoney",
        AccountType::Debt => "Debt",
    }
}

/// The name of an interval.
pub open spec fn interval_name(interval: Interval) -> Seq<char> {
    match interval {
        Interval::Day => "Day"@,
        Interval::Week => "Week"@,
        Interval::Month => "Month"@,
        Interval::Year => "Year"@,
    }
}

/// Names an interval.
pub fn interval_label(interval: Interval) -> (label: String)
    ensures
        label@ == interval_name(interval),
{
    match interval {
        Interval::Day => "Day".to_owned(),
        Interval::Week => "Week".to_owned(),
        Interval::Month => "Month".to_owned(),
        Interval::Year => "Year".to_owned(),
    }
}

/// An account with its kind and currency by name.
#[derive(Debug)]
pub struct AccountResponse {
    pub id: String,
    pub title: String,
    /// Name of the kind of account.
    pub account_type: String,
    pub balance: Option<Amount>,
    /// Symbol of the account's instrument; empty where it has none.
    pub currency: String,
    pub archive: bool,
    pub in_balance: bool,
}

impl AccountResponse {
    /// Shows an account under the given tables.
    pub fn from_account(account: &Account, maps: &LookupMaps) -> (shown: AccountResponse)
        ensures
            shown.id@ == account@.id,
            shown.title@ == account@.title,
            shown.account_type@ == kind_label(account@.kind),
            shown.balance == account@.balance,
            shown.currency@ == match account@.instrument {
                Some(instrument) => symbol_in(maps@.instruments, instrument),
                None => Seq::empty(),
            },
            shown.archive == account@.archive,
            shown.in_balance == account@.in_balance,
    {
        let currency = match account.instrument {
            Some(instrument) => maps.instrument_symbol(instrument),
            None => String::new(),
        };
        AccountResponse {
            id: account.id.clone(),
            title: account.title.clone(),
            account_type: account_type_label(account.kind).to_owned(),
            balance: account.balance,
            currency,
            archive: account.archive,
            in_balance: account.in_balance,
        }
    }
}

/// The title of an optional tag; none where there is no tag.
pub open spec fn optional_tag_name(tag: Option<Seq<char>>, maps: LookupView) -> Option<Seq<char>> {
    match tag {
        Some(id) => Some(name_in(maps.tags, id)),
        None => None,
    }
}

/// The title of an optional tag.
fn optional_tag_title(tag: &Option<String>, maps: &LookupMaps) -> (title: Option<String>)
    ensures
        title.deep_view() == optional_tag_name(tag.deep_view(), maps@),
{
    match tag {
        Some(id) => Some(maps.tag_name(id.as_str())),
        None => None,
    }
}

/// A tag with its parent by name.
#[derive(Debug)]
pub struct TagResponse {
    pub id: String,
    pub title: String,
    /// Title of the parent tag.
    pub parent: Option<String>,
}

impl TagResponse {
    /// Shows a tag under the given tables.
    pub fn from_tag(tag: &Tag, maps: &LookupMaps) -> (shown: TagResponse)
        ensures
            shown.id@ == tag@.id,
            shown.title@ == tag@.title,
            shown.parent.deep_view() == optional_tag_name(tag@.parent, maps@),
    {
        TagResponse {
            id: tag.id.clone(),
            title: tag.title.clone(),
            parent: optional_tag_title(&tag.parent, maps),
        }
    }
}

/// A merchant as it is shown.
#[derive(Debug)]
pub struct MerchantResponse {
    pub id: String,
    pub title: String,
}

impl MerchantResponse {
    /// Shows a merchant.
    pub fn from_merchant(merchant: &Merchant) -> (shown: MerchantResponse)
        ensures
            shown.id@ == merchant.id@,
            shown.title@ == merchant.title@,
    {
        MerchantResponse { id: merchant.id.clone(), title: merchant.title.clone() }
    }
}

/// A budget with its tag by name.
#[derive(Debug)]
pub struct BudgetResponse {
    pub date: Date,
    /// Title of the tag.
    pub tag: Option<String>,
    pub income: Amount,
    pub outcome: Amount,
}

impl BudgetResponse {
    /// Shows a budget under the given tables.
    pub fn from_budget(budget: &Budget, maps: &LookupMaps) -> (shown: BudgetResponse)
        ensures
            shown.date == budget.date,
            shown.tag.deep_view() == optional_tag_name(budget@.tag, maps@),
            shown.income == budget.income,
            shown.outcome == budget.outcome,
    {
        BudgetResponse {
            date: budget.date,
            tag: optional_tag_title(&budget.tag, maps),
            income: budget.income,
            outcome: budget.outcome,
        }
    }
}

/// A reminder with its accounts, tags and interval by name.
#[derive(Debug)]
pub struct ReminderResponse {
    pub id: String,
    pub income: Amount,
    /// Title of the income account.
    pub income_account: String,
    pub outcome: Amount,
    /// Title of the outcome account.
    pub outcome_account: String,
    /// Titles of the tags.
    pub tags: Vec<String>,
    pub payee: Option<String>,
    pub comment: Option<String>,
    pub start_date: Date,
    pub end_date: Option<Date>,
    /// Name of the interval.
    pub interval: Option<String>,
}

impl ReminderResponse {
    /// Shows a reminder under the given tables.
    pub fn from_reminder(reminder: &Reminder, maps: &LookupMaps) -> (shown: ReminderResponse)
        ensures
            shown.id@ == reminder.id@,
            shown.income == reminder.income,
            shown.income_account@ == name_in(maps@.accounts, reminder.income_account@),
            shown.outcome == reminder.outcome,
            shown.outcome_account@ == name_in(maps@.accounts, reminder.outcome_account@),
            shown.tags.deep_view() == tag_names(reminder.tag.deep_view(), maps@),
            shown.payee.deep_view() == reminder.payee.deep_view(),
            shown.comment.deep_view() == reminder.comment.deep_view(),
            shown.start_date == reminder.start_date,
            shown.end_date == reminder.end_date,
            shown.interval.deep_view() == match reminder.interval {
                Some(interval) => Some(interval_name(interval)),
                None => None,
            },
    {
        let interval = match reminder.interval {
            Some(interval) => Some(interval_label(interval)),
            None => None,
        };
        ReminderResponse {
            id: reminder.id.clone(),
            income: reminder.income,
            income_account: maps.account_name(reminder.income_account.as_str()),
            outcome: reminder.outcome,
            outcome_account: maps.account_name(reminder.outcome_account.as_str()),
            tags: tag_titles_of(&reminder.tag, maps),
            payee: clone_text(&reminder.payee),
            comment: clone_text(&reminder.comment),
            start_date: reminder.start_date,
            end_date: reminder.end_date,
            interval,
        }
    }
}

/// An instrument as it is shown.
#[derive(Debug)]
pub struct InstrumentResponse {
    pub id: i32,
    pub title: String,
    pub short_title: String,
    pub symbol: String,
    /// Exchange rate, as the bit pattern of a binary64 number.
    pub rate: u64,
}

impl InstrumentResponse {
    /// Shows an instrument.
    pub fn from_instrument(instrument: &Instrument) -> (shown: InstrumentResponse)
        ensures
            shown.id == instrument@.id,
            shown.title@ == instrument@.title,
            shown.short_title@ == instrument@.short_title,
            shown.symbol@ == instrument@.symbol,
            shown.rate == instrument@.rate,
    {
        InstrumentResponse {
            id: instrument.id,
            title: instrument.title.clone(),
            short_title: instrument.short_title.clone(),
            symbol: instrument.symbol.clone(),
            rate: instrument.rate,
        }
    }
}

/// What is told of a transaction that was deleted.
#[derive(Debug)]
pub struct DeletedTransactionResponse {
    pub message: String,
    /// The transaction as it was.
    pub transaction: TransactionResponse,
}

impl DeletedTransactionResponse {
    /// The response with the given message and transaction.
    pub fn new(message: String, transaction: TransactionResponse) -> (told: DeletedTransactionResponse)
        ensures
            told.message@ == message@,
            told.transaction@ == transaction@,
    {
        DeletedTransactionResponse { message, transaction }
    }
}

/// A suggestion with its tags by name.
#[derive(Debug)]
pub struct SuggestResponse {
    pub payee: Option<String>,
    pub merchant: Option<String>,
    /// Titles of the suggested tags.
    pub tags: Vec<String>,
}

impl SuggestResponse {
    /// Shows a suggestion under the given tables.
    pub fn from_suggest(suggestion: &Suggestion, maps: &LookupMaps) -> (shown: SuggestResponse)
        ensures
            shown.payee.deep_view() == suggestion.payee.deep_view(),
            shown.merchant.deep_view() == suggestion.merchant.deep_view(),
            shown.tags.deep_view() == tag_names(suggestion.tag.deep_view(), maps@),
    {
        SuggestResponse {
            payee: clone_text(&suggestion.payee),
            merchant: clone_text(&suggestion.merchant),
            tags: tag_titles_of(&suggestion.tag, maps),
        }
    }
}

} // verus!
