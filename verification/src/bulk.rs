//! Batches of operations, checked against the ledger before anything is
//! written.

use crate::calendar::ymd_parse;
use crate::create::{build_failure, build_transaction, built_from};
use crate::error::{ErrorView, LedgerError};
use crate::ident::is_hyphenated_id;
use crate::lookup::{LookupMaps, LookupView};
use crate::model::{Transaction, TransactionView};
use crate::params::{BulkOperation, OperationView};
use crate::patch::{apply_update, update_failure, update_outcome};
use vstd::prelude::*;

verus! {

/// The most operations that one batch may hold.
pub const MAX_BULK_OPERATIONS: usize = 20;

/// The place of the first transaction with the given id at or after `from`,
/// or the length of the list where there is none.
pub open spec fn position_from(existing: Seq<TransactionView>, id: Seq<char>, from: int) -> int
    decreases existing.len() - from,
{
    if from < 0 || from >= existing.len() {
        existing.len() as int
    } else if existing[from].id == id {
        from
    } else {
        position_from(existing, id, from + 1)
    }
}

/// The first transaction with the given id, if the ledger has one.
pub open spec fn find_by_id(existing: Seq<TransactionView>, id: Seq<char>) -> Option<
    TransactionView,
> {
    let position = position_from(existing, id, 0);
    if position < existing.len() {
        Some(existing[position])
    } else {
        None
    }
}

/// The reason for which one operation is refused, or `None` where it is
/// accepted. An update or a delete must name a transaction of the ledger; a
/// create and an update must succeed as they would alone.
pub open spec fn operation_failure(
    operation: OperationView,
    existing: Seq<TransactionView>,
    maps: LookupView,
) -> Option<ErrorView> {
    match operation {
        OperationView::Create(params) => build_failure(params, ymd_parse(params.date), maps),
        OperationView::Update(params) => match find_by_id(existing, params.id) {
            None => Some(ErrorView::TransactionNotFound { id: params.id }),
            Some(found) => update_failure(found, params, maps),
        },
        OperationView::Delete(id) => if find_by_id(existing, id) is None {
            Some(ErrorView::TransactionNotFound { id })
        } else {
            None
        },
    }
}

/// The failure of the first operation that is refused, in the order of the
/// batch, or `None` where every operation is accepted.
pub open spec fn first_failure(
    operations: Seq<OperationView>,
    existing: Seq<TransactionView>,
    maps: LookupView,
) -> Option<ErrorView>
    decreases operations.len(),
{
    if operations.len() == 0 {
        None
    } else {
        match first_failure(operations.drop_last(), existing, maps) {
            Some(reason) => Some(reason),
            None => operation_failure(operations.last(), existing, maps),
        }
    }
}

/// The reason for which a batch is refused as a whole: it is too long, or
/// else one of its operations is refused. `None` where the batch is
/// accepted.
pub open spec fn bulk_failure(
    operations: Seq<OperationView>,
    existing: Seq<TransactionView>,
    maps: LookupView,
) -> Option<ErrorView> {
    if operations.len() > MAX_BULK_OPERATIONS {
        Some(ErrorView::TooManyOperations { count: operations.len() })
    } else {
        first_failure(operations, existing, maps)
    }
}

/// The creates and updates of a batch, in order.
pub open spec fn pushing(operations: Seq<OperationView>) -> Seq<OperationView>
    decreases operations.len(),
{
    if operations.len() == 0 {
        Seq::empty()
    } else if operations.last() is Delete {
        pushing(operations.drop_last())
    } else {
        pushing(operations.drop_last()).push(operations.last())
    }
}

/// The identifiers that the deletes of a batch name, in order.
pub open spec fn deleting(operations: Seq<OperationView>) -> Seq<Seq<char>>
    decreases operations.len(),
{
    if operations.len() == 0 {
        Seq::empty()
    } else {
        match operations.last() {
            OperationView::Delete(id) => deleting(operations.drop_last()).push(id),
            _ => deleting(operations.drop_last()),
        }
    }
}

/// How many creates a batch holds.
pub open spec fn creations(operations: Seq<OperationView>) -> nat
    decreases operations.len(),
{
    if operations.len() == 0 {
        0
    } else if operations.last() is Create {
        creations(operations.drop_last()) + 1
    } else {
        creations(operations.drop_last())
    }
}

/// How many updates a batch holds.
pub open spec fn updates(operations: Seq<OperationView>) -> nat
    decreases operations.len(),
{
    if operations.len() == 0 {
        0
    } else if operations.last() is Update {
        updates(operations.drop_last()) + 1
    } else {
        updates(operations.drop_last())
    }
}

/// The transaction is what the operation pushes to the ledger.
///
/// For a create it is the transaction built from the description, under
/// some identifier of the hyphenated shape and some time of creation. For an
/// update it is the first transaction of the ledger with the id named,
/// patched at some time. A delete pushes nothing.
pub open spec fn pushed_by(
    operation: OperationView,
    existing: Seq<TransactionView>,
    maps: LookupView,
    tx: TransactionView,
) -> bool {
    match operation {
        OperationView::Create(params) => {
            &&& is_hyphenated_id(tx.id)
            &&& tx == built_from(params, ymd_parse(params.date), maps, tx.id, tx.created)
        },
        OperationView::Update(params) => {
            &&& find_by_id(existing, params.id) matches Some(found)
            &&& tx == update_outcome(found, params, maps, tx.changed).tx
        },
        OperationView::Delete(_) => false,
    }
}

/// What an accepted batch comes to: one transaction to push for each create
/// and update, in order; the identifiers to delete, in order; and the
/// numbers of creates and of updates.
pub open spec fn staged_from(
    operations: Seq<OperationView>,
    existing: Seq<TransactionView>,
    maps: LookupView,
    to_push: Seq<TransactionView>,
    to_delete: Seq<Seq<char>>,
    created_count: nat,
    updated_count: nat,
) -> bool {
    &&& to_push.len() == pushing(operations).len()
    &&& forall|i: int|
        0 <= i < to_push.len() ==> pushed_by(
            #[trigger] pushing(operations)[i],
            existing,
            maps,
            to_push[i],
        )
    &&& to_delete == deleting(operations)
    &&& created_count == creations(operations)
    &&& updated_count == updates(operations)
}

/// Once an operation has been refused, the operations after it change
/// nothing: the batch fails for the reason that its prefix fails for.
pub proof fn failure_persists(
    operations: Seq<OperationView>,
    n: int,
    existing: Seq<TransactionView>,
    maps: LookupView,
)
    requires
        0 <= n <= operations.len(),
        first_failure(operations.take(n), existing, maps) is Some,
    ensures
        first_failure(operations, existing, maps) == first_failure(
            operations.take(n),
            existing,
            maps,
        ),
    decreases operations.len() - n,
{
    if n == operations.len() {
        assert(operations.take(n) =~= operations);
    } else {
        assert(operations.take(n + 1).drop_last() =~= operations.take(n));
        failure_persists(operations, n + 1, existing, maps);
    }
}

/// What a batch pushes are its creates and its updates, and what it pushes
/// and what it deletes are all its operations.
pub proof fn counts_are_bounded(operations: Seq<OperationView>)
    ensures
        creations(operations) + updates(operations) == pushing(operations).len(),
        pushing(operations).len() + deleting(operations).len() == operations.len(),
    decreases operations.len(),
{
    if operations.len() > 0 {
        counts_are_bounded(operations.drop_last());
    }
}

/// The place of the first transaction with the given id.
pub fn find_transaction(all_transactions: &Vec<Transaction>, id: &String) -> (place: Option<usize>)
    ensures
        match place {
            Some(index) => index < all_transactions.len() && find_by_id(
                all_transactions.deep_view(),
                id@,
            ) == Some(all_transactions[index as int]@),
            None => find_by_id(all_transactions.deep_view(), id@) is None,
        },
{
    let mut i: usize = 0;
    while i < all_transactions.len()
        invariant
            i <= all_transactions.len(),
            position_from(all_transactions.deep_view(), id@, 0) == position_from(
                all_transactions.deep_view(),
                id@,
                i as int,
            ),
        decreases all_transactions.len() - i,
    {
        assert(all_transactions.deep_view()[i as int] == all_transactions[i as int]@);
        if all_transactions[i].id == *id {
            return Some(i);
        }
        i += 1;
    }
    None
}

/// Turns a batch of operations into what is to be pushed to the ledger and
/// what is to be deleted from it, without writing anything.
///
/// Returns the transactions to push, the identifiers to delete, the number
/// of creates and the number of updates. A batch of more than
/// [`MAX_BULK_OPERATIONS`] operations is refused before any of them is
/// looked at. The operations are taken in order, and the first one that is
/// refused fails the whole batch.
pub fn process_bulk_operations(
    operations: Vec<BulkOperation>,
    all_transactions: &Vec<Transaction>,
    maps: &LookupMaps,
) -> (processed: Result<(Vec<Transaction>, Vec<String>, usize, usize), LedgerError>)
    ensures
        match bulk_failure(operations.deep_view(), all_transactions.deep_view(), maps@) {
            Some(reason) => processed matches Err(error) && error@ == reason,
            None => processed matches Ok(batch) && staged_from(
                operations.deep_view(),
                all_transactions.deep_view(),
                maps@,
                batch.0.deep_view(),
                batch.1.deep_view(),
                batch.2 as nat,
                batch.3 as nat,
            ),
        },
{
    if operations.len() > MAX_BULK_OPERATIONS {
        return Err(LedgerError::TooManyOperations { count: operations.len() });
    }
    let ghost ops = operations.deep_view();
    let ghost existing = all_transactions.deep_view();
    let mut to_push: Vec<Transaction> = Vec::new();
    let mut to_delete: Vec<String> = Vec::new();
    let mut created_count: usize = 0;
    let mut updated_count: usize = 0;
    proof {
        assert(ops.take(0) =~= Seq::empty());
        assert(to_push.deep_view() =~= Seq::empty());
        assert(to_delete.deep_view() =~= Seq::empty());
    }

    for operation in it: operations
        invariant
            existing == all_transactions.deep_view(),
            ops == operations.deep_view(),
            ops.len() <= MAX_BULK_OPERATIONS,
            it.seq().len() == ops.len(),
            forall|k: int| 0 <= k < ops.len() ==> (#[trigger] it.seq()[k])@ == ops[k],
            first_failure(ops.take(it.index() as int), existing, maps@) is None,
            staged_from(
                ops.take(it.index() as int),
                existing,
                maps@,
                to_push.deep_view(),
                to_delete.deep_view(),
                created_count as nat,
                updated_count as nat,
            ),
    {
        let ghost n = it.index() as int;
        let ghost before = ops.take(n);
        let ghost after = ops.take(n + 1);
        let ghost pushed = to_push.deep_view();
        let ghost deleted = to_delete.deep_view();
        proof {
            assert(after.drop_last() =~= before);
            assert(after.last() == operation@);
            counts_are_bounded(before);
        }
        match operation {
            BulkOperation::Create(create_params) => {
                let built = build_transaction(create_params, maps);
                match built {
                    Ok(new_tx) => {
                        to_push.push(new_tx);
                        created_count += 1;
                        proof {
                            assert(to_push.deep_view() =~= pushed.push(new_tx@));
                        }
                    },
                    Err(error) => {
                        proof {
                            failure_persists(ops, n + 1, existing, maps@);
                        }
                        return Err(error);
                    },
                }
            },
            BulkOperation::Update(update_params) => {
                let index = match find_transaction(all_transactions, &update_params.id) {
                    Some(index) => index,
                    None => {
                        proof {
                            failure_persists(ops, n + 1, existing, maps@);
                        }
                        return Err(LedgerError::TransactionNotFound { id: update_params.id });
                    },
                };
                let mut updated = all_transactions[index].clone();
                let applied = apply_update(&mut updated, update_params, maps);
                match applied {
                    Ok(()) => {
                        to_push.push(updated);
                        updated_count += 1;
                        proof {
                            assert(to_push.deep_view() =~= pushed.push(updated@));
                        }
                    },
                    Err(error) => {
                        proof {
                            failure_persists(ops, n + 1, existing, maps@);
                        }
                        return Err(error);
                    },
                }
            },
            BulkOperation::Delete(delete_params) => {
                if find_transaction(all_transactions, &delete_params.id).is_none() {
                    proof {
                        failure_persists(ops, n + 1, existing, maps@);
                    }
                    return Err(LedgerError::TransactionNotFound { id: delete_params.id });
                }
                to_delete.push(delete_params.id);
                proof {
                    assert(to_delete.deep_view() =~= deleted.push(delete_params.id@));
                }
            },
        }
    }
    proof {
        assert(ops.take(ops.len() as int) =~= ops);
    }
    Ok((to_push, to_delete, created_count, updated_count))
}

} // verus!
