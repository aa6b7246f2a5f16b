//! Batches that wait between their preparation and their execution.

use crate::error::{ErrorView, LedgerError};
use crate::ident::{fresh_id, is_hyphenated_id};
use crate::model::{clone_texts, Transaction, TransactionView};
use vstd::hash_map::StringHashMap;
use vstd::prelude::*;

verus! {

/// A batch that has been checked and is ready to be written.
#[derive(Debug)]
pub struct PreparedBulk {
    /// Transactions to create or update.
    pub to_push: Vec<Transaction>,
    /// Identifiers of the transactions to delete.
    pub to_delete: Vec<String>,
    /// Number of creates among the transactions to push.
    pub created_count: usize,
    /// Number of updates among the transactions to push.
    pub updated_count: usize,
}

/// A [`PreparedBulk`] with each text as a sequence of characters.
pub ghost struct PreparedView {
    pub to_push: Seq<TransactionView>,
    pub to_delete: Seq<Seq<char>>,
    pub created_count: nat,
    pub updated_count: nat,
}

impl View for PreparedBulk {
    type V = PreparedView;

    open spec fn view(&self) -> PreparedView {
        PreparedView {
            to_push: self.to_push.deep_view(),
            to_delete: self.to_delete.deep_view(),
            created_count: self.created_count as nat,
            updated_count: self.updated_count as nat,
        }
    }
}

impl DeepView for PreparedBulk {
    type V = PreparedView;

    open spec fn deep_view(&self) -> PreparedView {
        self@
    }
}

/// A copy of a list of transactions.
pub fn clone_transactions(transactions: &Vec<Transaction>) -> (copy: Vec<Transaction>)
    ensures
        copy.deep_view() == transactions.deep_view(),
{
    let mut copy: Vec<Transaction> = Vec::new();
    let mut i: usize = 0;
    while i < transactions.len()
        invariant
            i <= transactions.len(),
            copy.len() == i,
            forall|j: int| 0 <= j < i ==> copy[j]@ == transactions[j]@,
        decreases transactions.len() - i,
    {
        copy.push(transactions[i].clone());
        i += 1;
    }
    assert(copy.deep_view() =~= transactions.deep_view());
    copy
}

impl Clone for PreparedBulk {
    fn clone(&self) -> (copy: PreparedBulk)
        ensures
            copy@ == self@,
    {
        PreparedBulk {
            to_push: clone_transactions(&self.to_push),
            to_delete: clone_texts(&self.to_delete),
            created_count: self.created_count,
            updated_count: self.updated_count,
        }
    }
}

/// The batches that have been prepared and not yet executed, each under the
/// key that was handed out for it. A key serves once: taking a batch out
/// removes it.
pub struct PreparationStore {
    entries: StringHashMap<PreparedBulk>,
}

impl View for PreparationStore {
    type V = Map<Seq<char>, PreparedView>;

    closed spec fn view(&self) -> Map<Seq<char>, PreparedView> {
        self.entries@.map_values(|batch: PreparedBulk| batch@)
    }
}

/// What taking the batch under a key out of a store gives: the batch, or
/// the failure to find one.
pub open spec fn taken_from(store: Map<Seq<char>, PreparedView>, key: Seq<char>) -> Result<
    PreparedView,
    ErrorView,
> {
    if store.contains_key(key) {
        Ok(store[key])
    } else {
        Err(ErrorView::PreparationNotFound { id: key })
    }
}

impl PreparationStore {
    /// A store that holds no batch.
    pub fn new() -> (store: PreparationStore)
        ensures
            store@ == Map::<Seq<char>, PreparedView>::empty(),
    {
        let store = PreparationStore { entries: StringHashMap::new() };
        assert(store@ =~= Map::<Seq<char>, PreparedView>::empty());
        store
    }

    /// Whether a batch waits under the key.
    pub fn is_staged(&self, key: &str) -> (yes: bool)
        ensures
            yes == self@.contains_key(key@),
    {
        self.entries.contains_key(key)
    }

    /// Puts a batch under the key given. A batch that waited under the same
    /// key is replaced.
    pub fn stage_as(&mut self, key: String, batch: PreparedBulk)
        ensures
            final(self)@ == old(self)@.insert(key@, batch@),
    {
        self.entries.insert(key, batch);
        assert(self@ =~= old(self)@.insert(key@, batch@));
    }

    /// Puts a batch under a fresh key and returns the key.
    pub fn stage(&mut self, batch: PreparedBulk) -> (key: String)
        ensures
            is_hyphenated_id(key@),
            final(self)@ == old(self)@.insert(key@, batch@),
    {
        let key = fresh_id();
        self.stage_as(key.clone(), batch);
        key
    }

    /// Takes the batch under the key out of the store.
    ///
    /// Fails, and leaves the store as it is, where no batch waits under the
    /// key: none was ever staged under it, or it has been taken out before.
    pub fn consume(&mut self, key: &str) -> (taken: Result<PreparedBulk, LedgerError>)
        ensures
            match taken_from(old(self)@, key@) {
                Ok(batch) => taken matches Ok(found) && found@ == batch,
                Err(reason) => taken matches Err(error) && error@ == reason,
            },
            final(self)@ == old(self)@.remove(key@),
    {
        let found = match self.entries.get(key) {
            Some(batch) => Some(batch.clone()),
            None => None,
        };
        match found {
            Some(batch) => {
                self.entries.remove(key);
                assert(self@ =~= old(self)@.remove(key@));
                Ok(batch)
            },
            None => {
                assert(self@ =~= old(self)@.remove(key@));
                Err(LedgerError::PreparationNotFound { id: key.to_owned() })
            },
        }
    }
}

} // verus!
