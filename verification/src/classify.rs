//! The kind of a transaction, derived from its two sides.

use crate::model::{Transaction, TransactionType, TransactionView};
use vstd::prelude::*;

verus! {

/// The kind of a transaction.
///
/// It is a transfer where both amounts are greater than zero and the two
/// accounts differ. Else it is an income where the income amount is greater
/// than zero and either the outcome amount is zero or the two accounts are
/// one. Everything else is an expense.
pub open spec fn kind_of(tx: TransactionView) -> TransactionType {
    let different_accounts = tx.outcome_account != tx.income_account;
    if tx.outcome.is_positive() && tx.income.is_positive() && different_accounts {
        TransactionType::Transfer
    } else if tx.income.is_positive() && (tx.outcome.is_zero() || !different_accounts) {
        TransactionType::Income
    } else {
        TransactionType::Expense
    }
}

/// Tells whether a transaction is an expense, an income or a transfer.
pub fn classify_transaction(tx: &Transaction) -> (kind: TransactionType)
    ensures
        kind == kind_of(tx@),
{
    let different_accounts = !(tx.outcome_account == tx.income_account);
    if tx.outcome.is_positive() && tx.income.is_positive() && different_accounts {
        TransactionType::Transfer
    } else if tx.income.is_positive() && (tx.outcome.is_zero() || !different_accounts) {
        TransactionType::Income
    } else {
        TransactionType::Expense
    }
}

/// A transaction carries no tag: it has no list of tags, or an empty one.
pub open spec fn untagged(tx: TransactionView) -> bool {
    match tx.tag {
        Some(tags) => tags.len() == 0,
        None => true,
    }
}

/// Tells whether a transaction carries no tag.
pub fn is_uncategorized(tx: &Transaction) -> (yes: bool)
    ensures
        yes == untagged(tx@),
{
    match &tx.tag {
        Some(tags) => tags.len() == 0,
        None => true,
    }
}

/// The transactions of the given kind, in their order; all of them where no
/// kind is given.
pub open spec fn of_kind(transactions: Seq<TransactionView>, kind: Option<TransactionType>) -> Seq<
    TransactionView,
>
    decreases transactions.len(),
{
    if transactions.len() == 0 {
        Seq::empty()
    } else {
        let earlier = of_kind(transactions.drop_last(), kind);
        if kind is Some && kind_of(transactions.last()) != kind->0 {
            earlier
        } else {
            earlier.push(transactions.last())
        }
    }
}

/// Without a kind to look for, every transaction stays.
pub proof fn of_any_kind_is_all(transactions: Seq<TransactionView>)
    ensures
        of_kind(transactions, None) == transactions,
    decreases transactions.len(),
{
    if transactions.len() > 0 {
        of_any_kind_is_all(transactions.drop_last());
        assert(transactions.drop_last().push(transactions.last()) =~= transactions);
    } else {
        assert(transactions =~= Seq::empty());
    }
}

/// Keeps the transactions of the given kind and drops the others; keeps all
/// where no kind is given.
pub fn filter_by_transaction_type(
    transactions: &mut Vec<Transaction>,
    filter_type: Option<&TransactionType>,
)
    ensures
        final(transactions).deep_view() == of_kind(
            old(transactions).deep_view(),
            match filter_type {
                Some(kind) => Some(*kind),
                None => None,
            },
        ),
{
    let wanted = match filter_type {
        Some(kind) => *kind,
        None => {
            proof {
                of_any_kind_is_all(transactions.deep_view());
            }
            return ;
        },
    };
    let ghost all = transactions.deep_view();
    let mut taken: Vec<Transaction> = Vec::new();
    core::mem::swap(transactions, &mut taken);
    proof {
        assert(all.take(0) =~= Seq::empty());
        assert(transactions.deep_view() =~= Seq::empty());
    }
    for tx in it: taken
        invariant
            it.seq().len() == all.len(),
            forall|k: int| 0 <= k < all.len() ==> (#[trigger] it.seq()[k])@ == all[k],
            transactions.deep_view() == of_kind(all.take(it.index() as int), Some(wanted)),
    {
        let ghost n = it.index() as int;
        let ghost kept = transactions.deep_view();
        proof {
            assert(all.take(n + 1).drop_last() =~= all.take(n));
            assert(all.take(n + 1).last() == tx@);
        }
        if classify_transaction(&tx) == wanted {
            transactions.push(tx);
            proof {
                assert(transactions.deep_view() =~= kept.push(tx@));
            }
        }
    }
    proof {
        assert(all.take(all.len() as int) =~= all);
    }
}

} // verus!
