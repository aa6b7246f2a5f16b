//! Records as they are shown to a caller: identifiers resolved to names.

use crate::amount::Amount;
use crate::bulk::find_by_id;
use crate::bulk::find_transaction;
use crate::calendar::Date;
use crate::lookup::{LookupMaps, LookupView};
use crate::model::{Transaction, TransactionView};
use crate::text::decimal_text;
use vstd::prelude::*;

verus! {

/// The title that a table holds for an id, or the id itself where the table
/// holds none.
pub open spec fn name_in(table: Map<Seq<char>, Seq<char>>, id: Seq<char>) -> Seq<char> {
    if table.contains_key(id) {
        table[id]
    } else {
        id
    }
}

/// The symbol that a table holds for an instrument, or the id in decimal
/// notation where the table holds none.
pub open spec fn symbol_in(table: Map<i32, Seq<char>>, id: i32) -> Seq<char> {
    if table.contains_key(id) {
        table[id]
    } else {
        decimal_text(id as int)
    }
}

/// A transaction with its accounts, instruments and tags by name.
#[derive(Debug)]
pub struct TransactionResponse {
    pub id: String,
    pub date: Date,
    pub income: Amount,
    /// Title of the income account.
    pub income_account: String,
    /// Symbol of the income instrument.
    pub income_currency: String,
    pub outcome: Amount,
    /// Title of the outcome account.
    pub outcome_account: String,
    /// Symbol of the outcome instrument.
    pub outcome_currency: String,
    /// Titles of the tags.
    pub tags: Vec<String>,
    pub payee: Option<String>,
    pub comment: Option<String>,
}

/// A [`TransactionResponse`] with each text as a sequence of characters.
pub ghost struct PreviewView {
    pub id: Seq<char>,
    pub date: Date,
    pub income: Amount,
    pub income_account: Seq<char>,
    pub income_currency: Seq<char>,
    pub outcome: Amount,
    pub outcome_account: Seq<char>,
    pub outcome_currency: Seq<char>,
    pub tags: Seq<Seq<char>>,
    pub payee: Option<Seq<char>>,
    pub comment: Option<Seq<char>>,
}

impl View for TransactionResponse {
    type V = PreviewView;

    open spec fn view(&self) -> PreviewView {
        PreviewView {
            id: self.id@,
            date: self.date,
            income: self.income,
            income_account: self.income_account@,
            income_currency: self.income_currency@,
            outcome: self.outcome,
            outcome_account: self.outcome_account@,
            outcome_currency: self.outcome_currency@,
            tags: self.tags.deep_view(),
            payee: self.payee.deep_view(),
            comment: self.comment.deep_view(),
        }
    }
}

impl DeepView for TransactionResponse {
    type V = PreviewView;

    open spec fn deep_view(&self) -> PreviewView {
        self@
    }
}

/// The titles of the tags of a transaction, in order; none where it has no
/// list of tags.
pub open spec fn tag_names(tag: Option<Seq<Seq<char>>>, maps: LookupView) -> Seq<Seq<char>> {
    match tag {
        Some(ids) => Seq::new(ids.len(), |i: int| name_in(maps.tags, ids[i])),
        None => Seq::empty(),
    }
}

/// How a transaction is shown under the given tables.
pub open spec fn preview_of(tx: TransactionView, maps: LookupView) -> PreviewView {
    PreviewView {
        id: tx.id,
        date: tx.date,
        income: tx.income,
        income_account: name_in(maps.accounts, tx.income_account),
        income_currency: symbol_in(maps.instruments, tx.income_instrument),
        outcome: tx.outcome,
        outcome_account: name_in(maps.accounts, tx.outcome_account),
        outcome_currency: symbol_in(maps.instruments, tx.outcome_instrument),
        tags: tag_names(tx.tag, maps),
        payee: tx.payee,
        comment: tx.comment,
    }
}

/// How a list of transactions is shown, one by one.
pub open spec fn previews_of(transactions: Seq<TransactionView>, maps: LookupView) -> Seq<
    PreviewView,
> {
    Seq::new(transactions.len(), |i: int| preview_of(transactions[i], maps))
}

/// How the transactions behind a list of identifiers are shown: for each
/// identifier, in order, the first transaction of the ledger that has it.
/// An identifier that the ledger lacks is passed over.
pub open spec fn previews_by_id(
    ids: Seq<Seq<char>>,
    existing: Seq<TransactionView>,
    maps: LookupView,
) -> Seq<PreviewView>
    decreases ids.len(),
{
    if ids.len() == 0 {
        Seq::empty()
    } else {
        let earlier = previews_by_id(ids.drop_last(), existing, maps);
        match find_by_id(existing, ids.last()) {
            Some(found) => earlier.push(preview_of(found, maps)),
            None => earlier,
        }
    }
}

/// The titles of a list of tags, in order; none where there is no list.
pub fn tag_titles_of(tag: &Option<Vec<String>>, maps: &LookupMaps) -> (titles: Vec<String>)
    ensures
        titles.deep_view() == tag_names(tag.deep_view(), maps@),
{
    let mut titles: Vec<String> = Vec::new();
    if let Some(ids) = tag {
        let mut i: usize = 0;
        while i < ids.len()
            invariant
                i <= ids.len(),
                titles.len() == i,
                forall|j: int| 0 <= j < i ==> titles[j]@ == name_in(maps@.tags, ids[j]@),
            decreases ids.len() - i,
        {
            titles.push(maps.tag_name(ids[i].as_str()));
            i += 1;
        }
    }
    assert(titles.deep_view() =~= tag_names(tag.deep_view(), maps@));
    titles
}

impl TransactionResponse {
    /// Shows a transaction under the given tables.
    pub fn from_transaction(tx: &Transaction, maps: &LookupMaps) -> (shown: TransactionResponse)
        ensures
            shown@ == preview_of(tx@, maps@),
    {
        let tags = tag_titles_of(&tx.tag, maps);
        TransactionResponse {
            id: tx.id.clone(),
            date: tx.date,
            income: tx.income,
            income_account: maps.account_name(tx.income_account.as_str()),
            income_currency: maps.instrument_symbol(tx.income_instrument),
            outcome: tx.outcome,
            outcome_account: maps.account_name(tx.outcome_account.as_str()),
            outcome_currency: maps.instrument_symbol(tx.outcome_instrument),
            tags,
            payee: crate::model::clone_text(&tx.payee),
            comment: crate::model::clone_text(&tx.comment),
        }
    }
}

/// Shows each transaction of a list.
pub fn preview_transactions(transactions: &Vec<Transaction>, maps: &LookupMaps) -> (shown: Vec<
    TransactionResponse,
>)
    ensures
        shown.deep_view() == previews_of(transactions.deep_view(), maps@),
{
    let mut shown: Vec<TransactionResponse> = Vec::new();
    let mut i: usize = 0;
    while i < transactions.len()
        invariant
            i <= transactions.len(),
            shown.len() == i,
            forall|j: int| 0 <= j < i ==> shown[j]@ == preview_of(transactions[j]@, maps@),
        decreases transactions.len() - i,
    {
        shown.push(TransactionResponse::from_transaction(&transactions[i], maps));
        i += 1;
    }
    assert(shown.deep_view() =~= previews_of(transactions.deep_view(), maps@));
    shown
}

/// Shows the transactions that a list of identifiers names, as far as the
/// ledger has them.
pub fn preview_by_id(ids: &Vec<String>, all_transactions: &Vec<Transaction>, maps: &LookupMaps) -> (shown:
    Vec<TransactionResponse>)
    ensures
        shown.deep_view() == previews_by_id(
            ids.deep_view(),
            all_transactions.deep_view(),
            maps@,
        ),
{
    let mut shown: Vec<TransactionResponse> = Vec::new();
    let mut i: usize = 0;
    assert(ids.deep_view().take(0) =~= Seq::empty());
    assert(shown.deep_view() =~= Seq::empty());
    while i < ids.len()
        invariant
            i <= ids.len(),
            shown.deep_view() == previews_by_id(
                ids.deep_view().take(i as int),
                all_transactions.deep_view(),
                maps@,
            ),
        decreases ids.len() - i,
    {
        let ghost before = shown.deep_view();
        proof {
            assert(ids.deep_view().take(i + 1).drop_last() =~= ids.deep_view().take(i as int));
            assert(ids.deep_view().take(i + 1).last() == ids[i as int]@);
        }
        if let Some(index) = find_transaction(all_transactions, &ids[i]) {
            let preview = TransactionResponse::from_transaction(&all_transactions[index], maps);
            shown.push(preview);
            assert(shown.deep_view() =~= before.push(preview@));
        }
        i += 1;
    }
    assert(ids.deep_view().take(ids.len() as int) =~= ids.deep_view());
    shown
}

} // verus!
