//! The two phases of a batch: prepare it, then execute it.

use crate::bulk::{
    bulk_failure, find_by_id, find_transaction, operation_failure, process_bulk_operations,
    pushed_by, staged_from,
};
use crate::calendar::ymd_parse;
use crate::create::{build_failure, build_transaction};
use crate::listing::DeletedTransactionResponse;
use crate::patch::apply_update;
use crate::text::join3;
use crate::error::LedgerError;
use crate::ident::is_hyphenated_id;
use crate::lookup::{LookupMaps, LookupView};
use crate::model::{Transaction, TransactionView};
use crate::params::{
    BulkOperation, CreateTransactionParams, OperationView, UpdateTransactionParams,
};
use crate::response::{
    preview_by_id, preview_of, preview_transactions, previews_by_id, previews_of, PreviewView,
    TransactionResponse,
};
use crate::store::{taken_from, PreparationStore, PreparedBulk, PreparedView};
use vstd::prelude::*;

verus! {

/// What a caller learns of a batch that has been prepared.
#[derive(Debug)]
pub struct PrepareResponse {
    /// The key under which the batch waits.
    pub preparation_id: String,
    /// Number of transactions to create.
    pub created: usize,
    /// Number of transactions to update.
    pub updated: usize,
    /// Number of transactions to delete.
    pub deleted: usize,
    /// The transactions to create or update, as they will be.
    pub transactions: Vec<TransactionResponse>,
    /// The transactions to delete, as they are.
    pub deleted_transactions: Vec<TransactionResponse>,
}

/// A [`PrepareResponse`] with each text as a sequence of characters.
pub ghost struct PrepareView {
    pub preparation_id: Seq<char>,
    pub created: nat,
    pub updated: nat,
    pub deleted: nat,
    pub transactions: Seq<PreviewView>,
    pub deleted_transactions: Seq<PreviewView>,
}

impl View for PrepareResponse {
    type V = PrepareView;

    open spec fn view(&self) -> PrepareView {
        PrepareView {
            preparation_id: self.preparation_id@,
            created: self.created as nat,
            updated: self.updated as nat,
            deleted: self.deleted as nat,
            transactions: self.transactions.deep_view(),
            deleted_transactions: self.deleted_transactions.deep_view(),
        }
    }
}

/// What a caller learns of a batch that has been executed.
#[derive(Debug)]
pub struct BulkOperationsResponse {
    /// Number of transactions created.
    pub created: usize,
    /// Number of transactions updated.
    pub updated: usize,
    /// Number of transactions deleted.
    pub deleted: usize,
    /// The transactions created and updated.
    pub transactions: Vec<TransactionResponse>,
}

/// A [`BulkOperationsResponse`] with each text as a sequence of characters.
pub ghost struct SummaryView {
    pub created: nat,
    pub updated: nat,
    pub deleted: nat,
    pub transactions: Seq<PreviewView>,
}

impl View for BulkOperationsResponse {
    type V = SummaryView;

    open spec fn view(&self) -> SummaryView {
        SummaryView {
            created: self.created as nat,
            updated: self.updated as nat,
            deleted: self.deleted as nat,
            transactions: self.transactions.deep_view(),
        }
    }
}

impl BulkOperationsResponse {
    /// The summary with the given counts and transactions.
    pub fn new(
        created: usize,
        updated: usize,
        deleted: usize,
        transactions: Vec<TransactionResponse>,
    ) -> (summary: BulkOperationsResponse)
        ensures
            summary@ == (SummaryView {
                created: created as nat,
                updated: updated as nat,
                deleted: deleted as nat,
                transactions: transactions.deep_view(),
            }),
    {
        BulkOperationsResponse { created, updated, deleted, transactions }
    }
}

/// What is told of a staged batch: its key, its counts, the transactions to
/// push as they will be shown, and the transactions to delete as the ledger
/// has them.
pub open spec fn prepare_summary(
    key: Seq<char>,
    batch: PreparedView,
    existing: Seq<TransactionView>,
    maps: LookupView,
) -> PrepareView {
    PrepareView {
        preparation_id: key,
        created: batch.created_count,
        updated: batch.updated_count,
        deleted: batch.to_delete.len(),
        transactions: previews_of(batch.to_push, maps),
        deleted_transactions: previews_by_id(batch.to_delete, existing, maps),
    }
}

/// What is told of an executed batch: its counts and the transactions
/// pushed.
pub open spec fn execute_summary(batch: PreparedView, maps: LookupView) -> SummaryView {
    SummaryView {
        created: batch.created_count,
        updated: batch.updated_count,
        deleted: batch.to_delete.len(),
        transactions: previews_of(batch.to_push, maps),
    }
}

/// Checks a batch against a snapshot of the ledger and stages it, without
/// writing to the ledger.
///
/// A batch that is refused leaves the store as it was. An accepted batch
/// waits in the store under a fresh key, which the response carries beside
/// the counts and the previews.
pub fn prepare_bulk_operations(
    store: &mut PreparationStore,
    operations: Vec<BulkOperation>,
    all_transactions: &Vec<Transaction>,
    maps: &LookupMaps,
) -> (prepared: Result<PrepareResponse, LedgerError>)
    ensures
        match bulk_failure(operations.deep_view(), all_transactions.deep_view(), maps@) {
            Some(reason) => {
                &&& prepared matches Err(error) && error@ == reason
                &&& final(store)@ == old(store)@
            },
            None => {
                &&& prepared matches Ok(response)
                &&& is_hyphenated_id(response.preparation_id@)
                &&& final(store)@.contains_key(response.preparation_id@)
                &&& final(store)@ == old(store)@.insert(
                    response.preparation_id@,
                    final(store)@[response.preparation_id@],
                )
                &&& staged_from(
                    operations.deep_view(),
                    all_transactions.deep_view(),
                    maps@,
                    final(store)@[response.preparation_id@].to_push,
                    final(store)@[response.preparation_id@].to_delete,
                    final(store)@[response.preparation_id@].created_count,
                    final(store)@[response.preparation_id@].updated_count,
                )
                &&& response@ == prepare_summary(
                    response.preparation_id@,
                    final(store)@[response.preparation_id@],
                    all_transactions.deep_view(),
                    maps@,
                )
            },
        },
{
    let (to_push, to_delete, created_count, updated_count) = process_bulk_operations(
        operations,
        all_transactions,
        maps,
    )?;
    let transactions = preview_transactions(&to_push, maps);
    let deleted_transactions = preview_by_id(&to_delete, all_transactions, maps);
    let deleted = to_delete.len();
    let batch = PreparedBulk { to_push, to_delete, created_count, updated_count };
    let preparation_id = store.stage(batch);
    Ok(
        PrepareResponse {
            preparation_id,
            created: created_count,
            updated: updated_count,
            deleted,
            transactions,
            deleted_transactions,
        },
    )
}

/// Builds a new transaction and shows it, without writing to the ledger.
pub fn prepare_create(params: CreateTransactionParams, maps: &LookupMaps) -> (prepared: Result<
    (Transaction, TransactionResponse),
    LedgerError,
>)
    ensures
        match build_failure(params@, ymd_parse(params@.date), maps@) {
            Some(reason) => prepared matches Err(error) && error@ == reason,
            None => {
                &&& prepared matches Ok(pair)
                &&& pushed_by(OperationView::Create(params@), Seq::empty(), maps@, pair.0@)
                &&& pair.1@ == preview_of(pair.0@, maps@)
            },
        },
{
    let new_tx = build_transaction(params, maps)?;
    let preview = TransactionResponse::from_transaction(&new_tx, maps);
    Ok((new_tx, preview))
}

/// Patches a copy of the transaction that a patch names and shows it,
/// without writing to the ledger.
///
/// Fails where the ledger has no transaction with the id, or where the
/// patch fails.
pub fn prepare_update(
    all_transactions: &Vec<Transaction>,
    params: UpdateTransactionParams,
    maps: &LookupMaps,
) -> (prepared: Result<(Transaction, TransactionResponse), LedgerError>)
    ensures
        match operation_failure(
            OperationView::Update(params@),
            all_transactions.deep_view(),
            maps@,
        ) {
            Some(reason) => prepared matches Err(error) && error@ == reason,
            None => {
                &&& prepared matches Ok(pair)
                &&& pushed_by(
                    OperationView::Update(params@),
                    all_transactions.deep_view(),
                    maps@,
                    pair.0@,
                )
                &&& pair.1@ == preview_of(pair.0@, maps@)
            },
        },
{
    let index = match find_transaction(all_transactions, &params.id) {
        Some(index) => index,
        None => {
            return Err(LedgerError::TransactionNotFound { id: params.id });
        },
    };
    let mut updated = all_transactions[index].clone();
    let applied = apply_update(&mut updated, params, maps);
    match applied {
        Ok(()) => {
            let preview = TransactionResponse::from_transaction(&updated, maps);
            Ok((updated, preview))
        },
        Err(error) => Err(error),
    }
}

/// What is told once a transaction is deleted, with or without its details.
pub open spec fn deletion_text(id: Seq<char>, known: bool) -> Seq<char> {
    if known {
        "Transaction '"@ + id + "' deleted successfully"@
    } else {
        "Transaction '"@ + id + "' deleted successfully (details not available locally)"@
    }
}

/// The message for a transaction that was deleted.
pub fn deletion_message(id: &str, known: bool) -> (message: String)
    ensures
        message@ == deletion_text(id@, known),
{
    if known {
        join3("Transaction '", id, "' deleted successfully")
    } else {
        join3("Transaction '", id, "' deleted successfully (details not available locally)")
    }
}

/// Shows the transaction that is about to be deleted, as the ledger has it
/// before the deletion. `None` where the ledger has no transaction with the
/// id.
pub fn deletion_notice(all_transactions: &Vec<Transaction>, id: &String, maps: &LookupMaps) -> (notice:
    Option<DeletedTransactionResponse>)
    ensures
        match find_by_id(all_transactions.deep_view(), id@) {
            Some(found) => notice matches Some(told) && told.message@ == deletion_text(id@, true)
                && told.transaction@ == preview_of(found, maps@),
            None => notice is None,
        },
{
    match find_transaction(all_transactions, id) {
        Some(index) => {
            let shown = TransactionResponse::from_transaction(&all_transactions[index], maps);
            Some(DeletedTransactionResponse::new(deletion_message(id.as_str(), true), shown))
        },
        None => None,
    }
}

/// Where the execution of a batch stands between two calls on the ledger.
#[derive(Debug)]
pub enum ExecutionState {
    /// The transactions were handed over for pushing; the deletions wait.
    Pushing { to_delete: Vec<String>, summary: BulkOperationsResponse },
    /// The identifiers were handed over for deleting.
    Deleting { summary: BulkOperationsResponse },
    /// Nothing is left to do.
    Closed,
}

/// What the caller is to do next.
#[derive(Debug)]
pub enum ExecutionAction {
    /// Push these transactions to the ledger, then report how it went.
    Push(Vec<Transaction>),
    /// Delete the transactions with these identifiers, then report how it
    /// went.
    Delete(Vec<String>),
    /// Answer with the summary: the batch is executed.
    Respond(BulkOperationsResponse),
    /// Give up. What was written before stays written.
    Abandon,
}

/// An [`ExecutionState`] with each text as a sequence of characters.
pub ghost enum StateView {
    Pushing { to_delete: Seq<Seq<char>>, summary: SummaryView },
    Deleting { summary: SummaryView },
    Closed,
}

/// An [`ExecutionAction`] with each text as a sequence of characters.
pub ghost enum ActionView {
    Push(Seq<TransactionView>),
    Delete(Seq<Seq<char>>),
    Respond(SummaryView),
    Abandon,
}

impl View for ExecutionState {
    type V = StateView;

    open spec fn view(&self) -> StateView {
        match self {
            ExecutionState::Pushing { to_delete, summary } => StateView::Pushing {
                to_delete: to_delete.deep_view(),
                summary: summary@,
            },
            ExecutionState::Deleting { summary } => StateView::Deleting { summary: summary@ },
            ExecutionState::Closed => StateView::Closed,
        }
    }
}

impl View for ExecutionAction {
    type V = ActionView;

    open spec fn view(&self) -> ActionView {
        match self {
            ExecutionAction::Push(transactions) => ActionView::Push(transactions.deep_view()),
            ExecutionAction::Delete(ids) => ActionView::Delete(ids.deep_view()),
            ExecutionAction::Respond(summary) => ActionView::Respond(summary@),
            ExecutionAction::Abandon => ActionView::Abandon,
        }
    }
}

/// A state and the action that leads out of it.
pub ghost struct Step {
    pub state: StateView,
    pub action: ActionView,
}

/// The step once nothing is left to push: delete what is to be deleted, or
/// answer at once where there is nothing to delete.
pub open spec fn step_after_push(to_delete: Seq<Seq<char>>, summary: SummaryView) -> Step {
    if to_delete.len() > 0 {
        Step { state: StateView::Deleting { summary }, action: ActionView::Delete(to_delete) }
    } else {
        Step { state: StateView::Closed, action: ActionView::Respond(summary) }
    }
}

/// The first step of the execution of a batch: push what is to be pushed,
/// or go on to the deletions where there is nothing to push.
pub open spec fn first_step(batch: PreparedView, maps: LookupView) -> Step {
    let summary = execute_summary(batch, maps);
    if batch.to_push.len() > 0 {
        Step {
            state: StateView::Pushing { to_delete: batch.to_delete, summary },
            action: ActionView::Push(batch.to_push),
        }
    } else {
        step_after_push(batch.to_delete, summary)
    }
}

/// The step that follows the ledger's reply. A failure ends the execution
/// with nothing undone; a success leads on to the deletions and then to the
/// answer. A reply that nothing was waiting for ends the execution too.
pub open spec fn next_step(state: StateView, succeeded: bool) -> Step {
    if !succeeded {
        Step { state: StateView::Closed, action: ActionView::Abandon }
    } else {
        match state {
            StateView::Pushing { to_delete, summary } => step_after_push(to_delete, summary),
            StateView::Deleting { summary } => Step {
                state: StateView::Closed,
                action: ActionView::Respond(summary),
            },
            StateView::Closed => Step { state: StateView::Closed, action: ActionView::Abandon },
        }
    }
}

/// The step once nothing is left to push.
fn after_push(to_delete: Vec<String>, summary: BulkOperationsResponse) -> (step: (
    ExecutionState,
    ExecutionAction,
))
    ensures
        step.0@ == step_after_push(to_delete.deep_view(), summary@).state,
        step.1@ == step_after_push(to_delete.deep_view(), summary@).action,
{
    if to_delete.len() > 0 {
        (ExecutionState::Deleting { summary }, ExecutionAction::Delete(to_delete))
    } else {
        (ExecutionState::Closed, ExecutionAction::Respond(summary))
    }
}

/// Starts the execution of a batch that was taken out of the store.
pub fn start_execution(batch: PreparedBulk, maps: &LookupMaps) -> (step: (
    ExecutionState,
    ExecutionAction,
))
    ensures
        step.0@ == first_step(batch@, maps@).state,
        step.1@ == first_step(batch@, maps@).action,
{
    let transactions = preview_transactions(&batch.to_push, maps);
    let summary = BulkOperationsResponse::new(
        batch.created_count,
        batch.updated_count,
        batch.to_delete.len(),
        transactions,
    );
    if batch.to_push.len() > 0 {
        (
            ExecutionState::Pushing { to_delete: batch.to_delete, summary },
            ExecutionAction::Push(batch.to_push),
        )
    } else {
        after_push(batch.to_delete, summary)
    }
}

/// Takes the batch under the key out of the store and starts its execution.
///
/// Where no batch waits under the key the call fails, the store stays as it
/// was and no action is handed out: nothing is written to the ledger.
pub fn execute_bulk_operations(store: &mut PreparationStore, preparation_id: &str, maps: &LookupMaps) -> (started:
    Result<(ExecutionState, ExecutionAction), LedgerError>)
    ensures
        match taken_from(old(store)@, preparation_id@) {
            Ok(batch) => {
                &&& started matches Ok(step)
                &&& step.0@ == first_step(batch, maps@).state
                &&& step.1@ == first_step(batch, maps@).action
            },
            Err(reason) => started matches Err(error) && error@ == reason,
        },
        final(store)@ == old(store)@.remove(preparation_id@),
{
    let batch = store.consume(preparation_id)?;
    Ok(start_execution(batch, maps))
}

/// Takes the execution one step on, after the ledger replied to the last
/// action.
pub fn advance_execution(state: ExecutionState, succeeded: bool) -> (step: (
    ExecutionState,
    ExecutionAction,
))
    ensures
        step.0@ == next_step(state@, succeeded).state,
        step.1@ == next_step(state@, succeeded).action,
{
    if !succeeded {
        return (ExecutionState::Closed, ExecutionAction::Abandon);
    }
    match state {
        ExecutionState::Pushing { to_delete, summary } => after_push(to_delete, summary),
        ExecutionState::Deleting { summary } => (
            ExecutionState::Closed,
            ExecutionAction::Respond(summary),
        ),
        ExecutionState::Closed => (ExecutionState::Closed, ExecutionAction::Abandon),
    }
}

} // verus!
