//! What holds of the library as a whole.

use crate::amount::Amount;
use crate::bulk::{
    bulk_failure, counts_are_bounded, creations, deleting, failure_persists, find_by_id,
    first_failure, operation_failure, position_from, pushing, updates, MAX_BULK_OPERATIONS,
};
use crate::classify::kind_of;
use crate::error::ErrorView;
use crate::lookup::LookupView;
use crate::model::{TransactionType, TransactionView};
use crate::params::{CreateView, OperationView};
use crate::resolve::{instrument_for, sides_of, unresolved, SidesView};
use crate::store::{taken_from, PreparedView};
use crate::workflow::{execute_summary, first_step, next_step, ActionView, StateView};
use vstd::prelude::*;

verus! {

/// A transaction with both amounts greater than zero is a transfer where
/// its two accounts differ, and an income where they are one.
pub proof fn both_sides_positive(tx: TransactionView)
    requires
        tx.outcome.is_positive(),
        tx.income.is_positive(),
    ensures
        tx.outcome_account != tx.income_account ==> kind_of(tx) == TransactionType::Transfer,
        tx.outcome_account == tx.income_account ==> kind_of(tx) == TransactionType::Income,
{
}

/// A transaction with an income greater than zero and an outcome of zero is
/// an income; one with an outcome greater than zero and an income of zero
/// is an expense.
pub proof fn one_side_positive(tx: TransactionView)
    ensures
        tx.income.is_positive() && tx.outcome.is_zero() ==> kind_of(tx)
            == TransactionType::Income,
        tx.outcome.is_positive() && tx.income.is_zero() ==> kind_of(tx)
            == TransactionType::Expense,
{
}

/// Every transaction has exactly one kind, and a transaction without a
/// positive income is an expense.
pub proof fn without_income_is_expense(tx: TransactionView)
    requires
        !tx.income.is_positive(),
    ensures
        kind_of(tx) == TransactionType::Expense,
{
}

/// An instrument that the caller gives is the one resolved, whatever the
/// tables hold for the account. Without one, the resolved instrument is the
/// one that the tables hold, and there is none where they hold none.
pub proof fn explicit_instrument_wins(maps: LookupView, account_id: Seq<char>, explicit: Option<i32>)
    ensures
        explicit is Some ==> instrument_for(maps, account_id, explicit) == explicit,
        explicit is None && maps.account_instruments.contains_key(account_id) ==> instrument_for(
            maps,
            account_id,
            explicit,
        ) == Some(maps.account_instruments[account_id]),
        explicit is None && !maps.account_instruments.contains_key(account_id) ==> instrument_for(
            maps,
            account_id,
            explicit,
        ) is None,
{
}

/// The sides of an expense or an income, where they are resolved, lie on
/// the one account, share one instrument, and carry positive zero on the
/// side that the kind does not use.
pub proof fn single_account_sides_agree(params: CreateView, maps: LookupView)
    requires
        params.transaction_type != TransactionType::Transfer,
        sides_of(params, maps) is Ok,
    ensures
        ({
            let sides = sides_of(params, maps)->Ok_0;
            &&& sides.outcome_instrument == sides.income_instrument
            &&& sides.outcome_account == params.account_id
            &&& sides.income_account == params.account_id
            &&& params.transaction_type == TransactionType::Expense ==> sides.outcome
                == params.amount && sides.income == (Amount { bits: 0 })
            &&& params.transaction_type == TransactionType::Income ==> sides.income
                == params.amount && sides.outcome == (Amount { bits: 0 })
        }),
{
}

/// An expense or an income is resolved exactly where its account has an
/// instrument, given or on record.
pub proof fn single_account_sides_resolve(params: CreateView, maps: LookupView)
    requires
        params.transaction_type != TransactionType::Transfer,
    ensures
        sides_of(params, maps) is Ok <==> instrument_for(
            maps,
            params.account_id,
            params.instrument_id,
        ) is Some,
        sides_of(params, maps) is Err ==> sides_of(params, maps) == Err::<SidesView, ErrorView>(
            unresolved(params.account_id),
        ),
{
}

/// A transfer without a destination amount arrives as it was sent; with
/// one, the destination amount arrives, whatever was sent.
pub proof fn transfer_amounts(params: CreateView, maps: LookupView)
    requires
        params.transaction_type == TransactionType::Transfer,
        sides_of(params, maps) is Ok,
    ensures
        ({
            let sides = sides_of(params, maps)->Ok_0;
            &&& sides.outcome == params.amount
            &&& params.to_amount is None ==> sides.income == sides.outcome
            &&& params.to_amount is Some ==> sides.income == params.to_amount->0
        }),
{
}

/// A transfer without a destination account is refused, whatever else it
/// holds.
pub proof fn transfer_needs_destination(params: CreateView, maps: LookupView)
    requires
        params.transaction_type == TransactionType::Transfer,
        params.to_account_id is None,
    ensures
        sides_of(params, maps) == Err::<SidesView, ErrorView>(ErrorView::MissingDestinationAccount),
{
}

/// How many deletes a batch holds.
pub open spec fn deletions(operations: Seq<OperationView>) -> nat
    decreases operations.len(),
{
    if operations.len() == 0 {
        0
    } else if operations.last() is Delete {
        deletions(operations.drop_last()) + 1
    } else {
        deletions(operations.drop_last())
    }
}

/// Of a batch with so many creates, updates and deletes, as many
/// transactions are pushed as it has creates and updates, as many
/// identifiers are deleted as it has deletes, and the three numbers add up
/// to the length of the batch.
pub proof fn counts_match_operations(operations: Seq<OperationView>)
    ensures
        pushing(operations).len() == creations(operations) + updates(operations),
        deleting(operations).len() == deletions(operations),
        creations(operations) + updates(operations) + deletions(operations)
            == operations.len(),
    decreases operations.len(),
{
    counts_are_bounded(operations);
    if operations.len() > 0 {
        counts_match_operations(operations.drop_last());
    }
}

/// A batch of more operations than one call may carry is refused for its
/// length, whatever it holds.
pub proof fn oversized_batch_fails(
    operations: Seq<OperationView>,
    existing: Seq<TransactionView>,
    maps: LookupView,
)
    requires
        operations.len() > MAX_BULK_OPERATIONS,
    ensures
        bulk_failure(operations, existing, maps) == Some(
            ErrorView::TooManyOperations { count: operations.len() },
        ),
{
}

/// The ledger has a transaction with the id exactly where looking for it
/// finds one, and what is found has the id.
pub proof fn found_iff_present(existing: Seq<TransactionView>, id: Seq<char>)
    ensures
        find_by_id(existing, id) is Some <==> exists|i: int|
            0 <= i < existing.len() && (#[trigger] existing[i]).id == id,
        find_by_id(existing, id) matches Some(found) ==> found.id == id,
{
    position_is_first(existing, id, 0);
}

/// The place that a search from `from` comes to is the first at or after
/// `from` with the id, or the end of the list where there is none.
pub proof fn position_is_first(existing: Seq<TransactionView>, id: Seq<char>, from: int)
    requires
        0 <= from <= existing.len(),
    ensures
        from <= position_from(existing, id, from) <= existing.len(),
        position_from(existing, id, from) < existing.len() ==> existing[position_from(
            existing,
            id,
            from,
        )].id == id,
        forall|i: int|
            from <= i < position_from(existing, id, from) ==> (#[trigger] existing[i]).id != id,
    decreases existing.len() - from,
{
    if from < existing.len() && existing[from].id != id {
        position_is_first(existing, id, from + 1);
    }
}

/// A batch that holds an update or a delete of a transaction that the
/// ledger lacks is refused.
pub proof fn unknown_reference_fails(
    operations: Seq<OperationView>,
    existing: Seq<TransactionView>,
    maps: LookupView,
    i: int,
)
    requires
        0 <= i < operations.len(),
        match operations[i] {
            OperationView::Create(_) => false,
            OperationView::Update(params) => find_by_id(existing, params.id) is None,
            OperationView::Delete(id) => find_by_id(existing, id) is None,
        },
    ensures
        bulk_failure(operations, existing, maps) is Some,
{
    assert(operations.take(i + 1).drop_last() =~= operations.take(i));
    assert(operations.take(i + 1).last() == operations[i]);
    assert(operation_failure(operations[i], existing, maps) is Some);
    failure_persists(operations, i + 1, existing, maps);
}

/// A batch is accepted exactly where it is no longer than one call may
/// carry and each of its operations is accepted by itself.
pub proof fn accepted_iff_each_accepted(
    operations: Seq<OperationView>,
    existing: Seq<TransactionView>,
    maps: LookupView,
)
    ensures
        bulk_failure(operations, existing, maps) is None <==> {
            &&& operations.len() <= MAX_BULK_OPERATIONS
            &&& forall|i: int|
                0 <= i < operations.len() ==> operation_failure(
                    #[trigger] operations[i],
                    existing,
                    maps,
                ) is None
        },
{
    each_accepted(operations, existing, maps);
}

/// No operation of a batch is refused exactly where each of them is
/// accepted by itself.
pub proof fn each_accepted(
    operations: Seq<OperationView>,
    existing: Seq<TransactionView>,
    maps: LookupView,
)
    ensures
        first_failure(operations, existing, maps) is None <==> forall|i: int|
            0 <= i < operations.len() ==> operation_failure(
                #[trigger] operations[i],
                existing,
                maps,
            ) is None,
    decreases operations.len(),
{
    if operations.len() > 0 {
        let earlier = operations.drop_last();
        each_accepted(earlier, existing, maps);
        assert(forall|i: int| 0 <= i < earlier.len() ==> earlier[i] == operations[i]);
        if first_failure(operations, existing, maps) is None {
            assert forall|i: int| 0 <= i < operations.len() implies operation_failure(
                #[trigger] operations[i],
                existing,
                maps,
            ) is None by {
                if i < earlier.len() {
                    assert(earlier[i] == operations[i]);
                }
            }
        } else {
            if first_failure(earlier, existing, maps) is Some {
                let i = choose|i: int|
                    0 <= i < earlier.len() && !(operation_failure(
                        #[trigger] earlier[i],
                        existing,
                        maps,
                    ) is None);
                assert(earlier[i] == operations[i]);
            } else {
                assert(operations[operations.len() - 1] == operations.last());
            }
        }
    }
}

/// A key serves once. The batch staged under a key is the one taken out
/// under it; once it is taken out, nothing is found under the key; and
/// nothing is found under a key that the store does not hold.
pub proof fn key_serves_once(
    store: Map<Seq<char>, PreparedView>,
    key: Seq<char>,
    batch: PreparedView,
    other: Seq<char>,
)
    ensures
        taken_from(store.insert(key, batch), key) == Ok::<PreparedView, ErrorView>(batch),
        taken_from(store.insert(key, batch).remove(key), key) == Err::<PreparedView, ErrorView>(
            ErrorView::PreparationNotFound { id: key },
        ),
        !store.contains_key(other) ==> taken_from(store, other) == Err::<PreparedView, ErrorView>(
            ErrorView::PreparationNotFound { id: other },
        ),
{
}

/// A batch with something to push and something to delete is executed in
/// three steps: the push, then the deletions, then the answer with the
/// summary of the batch. The deletions are handed out only once the push
/// succeeded, and the answer only once the deletions did.
pub proof fn execution_runs_in_order(batch: PreparedView, maps: LookupView)
    requires
        batch.to_push.len() > 0,
        batch.to_delete.len() > 0,
    ensures
        ({
            let first = first_step(batch, maps);
            let second = next_step(first.state, true);
            let third = next_step(second.state, true);
            &&& first.action == ActionView::Push(batch.to_push)
            &&& second.action == ActionView::Delete(batch.to_delete)
            &&& third.action == ActionView::Respond(execute_summary(batch, maps))
            &&& third.state == StateView::Closed
        }),
{
}

/// A failed write ends the execution, wherever it stood: nothing more is
/// handed out, and nothing that was written is taken back.
pub proof fn failure_ends_execution(state: StateView)
    ensures
        next_step(state, false).state == StateView::Closed,
        next_step(state, false).action == ActionView::Abandon,
        next_step(next_step(state, false).state, true).action == ActionView::Abandon,
{
}

} // verus!
