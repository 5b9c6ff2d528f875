//! Executing and saving a block that has been agreed on.

use vstd::prelude::*;

use crate::bytes::{Bytes, MerkleRoot, ProtoHash};
use crate::codec::{is_receipt_root, receipt_root, ChainCodec};
use crate::exec_result::{
    config_of, create_exec_result, outcome_of, ExecResult, ExecResultView, Metadata,
};
use crate::executor::{
    exec_params, is_metadata_call, is_params, metadata_call, ExecutorParams, ExecutorResp, ReadCall,
};
use crate::types::{Block, BlockStateView, ExecResp, FullBlock, ProtoProof};
use crate::vote::{is_stored_form, proto_proof, stored_proof, Proof};

verus! {

/// A block that is to be executed and saved.
#[derive(Debug, PartialEq, Eq)]
pub struct SaveOrder {
    pub height: u64,
    /// The encoding of the full block.
    pub full_block: Bytes,
    pub quorum: Proof,
    /// The state root that the last execution has left.
    pub state_root: MerkleRoot,
    pub cycles_limit: u64,
}

/// A block in execution.
#[derive(Debug, PartialEq, Eq)]
pub struct ExecOrder<T> {
    pub height: u64,
    pub full_block: FullBlock<T>,
    pub quorum: Proof,
    pub state_root: MerkleRoot,
    pub cycles_limit: u64,
}

/// An executed block that is to be saved.
#[derive(Debug, PartialEq, Eq)]
pub struct Executed<T, R> {
    pub height: u64,
    pub full_block: FullBlock<T>,
    pub state_root: MerkleRoot,
    pub resp: ExecutorResp<R>,
    pub metadata: Metadata,
    pub receipt_root: MerkleRoot,
}

/// How far the saving of a block has come. Every variant but the last three is a request.
#[derive(Debug, PartialEq, Eq)]
pub enum SaveStep<T, R, E> {
    /// The height of the latest stored block is to be read.
    GetLatestBlock(SaveOrder),
    /// The full block is to be decoded.
    Decode(SaveOrder),
    /// The transactions are to be executed.
    Exec(ExecOrder<T>),
    /// The metadata is to be read as of the state that the execution has left.
    ReadMetadata(ExecOrder<T>, ExecutorResp<R>),
    /// The root over the receipts is to be found.
    FindReceiptRoot(ExecOrder<T>, ExecutorResp<R>, Metadata),
    /// The receipts are to be stored.
    InsertReceipts(Executed<T, R>, Proof),
    /// The block hash of the proof is to be read.
    ReadProofHash(Executed<T, R>, Proof),
    /// The proof is to be stored as the latest.
    UpdateLatestProof(Executed<T, R>, ProtoProof),
    /// The block is to be stored.
    InsertBlock(Executed<T, R>),
    /// The transactions are to be stored.
    InsertTransactions(Executed<T, R>),
    /// The pool is to drop the transactions of the block.
    Flush(Executed<T, R>),
    /// The block is executed and saved.
    Finished(Executed<T, R>),
    /// The error that ended the saving.
    Failed(E),
    /// The block does not follow the latest stored one.
    WrongHeight { latest_height: u64, height: u64 },
}

/// The answer to a request of the saving.
#[derive(Debug, PartialEq, Eq)]
pub enum SaveEvent<T, R, E> {
    LatestHeight(Result<u64, E>),
    Decoded(Result<FullBlock<T>, E>),
    Executed(Result<ExecutorResp<R>, E>),
    MetadataRead(Result<Metadata, E>),
    ReceiptRootFound(MerkleRoot),
    ReceiptsInserted(Result<(), E>),
    ProofHashRead(Result<ProtoHash, E>),
    ProofUpdated(Result<(), E>),
    BlockInserted(Result<(), E>),
    TransactionsInserted(Result<(), E>),
    Flushed(Result<(), E>),
}

/// What is asked of the storage, the executor or the pool.
#[derive(Debug, PartialEq, Eq)]
pub enum SaveRequest<'a, T, R> {
    /// To read the latest stored block.
    GetLatestBlock,
    /// To execute these transactions.
    Exec(ExecutorParams, &'a Vec<T>),
    /// To read the metadata.
    ReadMetadata(ReadCall),
    /// To store these receipts.
    InsertReceipts(&'a Vec<R>),
    /// To store this proof as the latest.
    UpdateLatestProof(&'a ProtoProof),
    /// To store this block.
    InsertBlock(&'a Block),
    /// To store these transactions.
    InsertTransactions(&'a Vec<T>),
    /// To drop the transactions with these hashes.
    Flush(&'a Vec<ProtoHash>),
}

/// `request` is what `step` asks of the storage, the executor or the pool.
pub open spec fn is_save_request<T, R, E>(
    step: SaveStep<T, R, E>,
    request: Option<SaveRequest<'_, T, R>>,
) -> bool {
    match step {
        SaveStep::GetLatestBlock(_) => request == Some(SaveRequest::<T, R>::GetLatestBlock),
        SaveStep::Exec(order) => request matches Some(SaveRequest::Exec(params, txs)) && is_params(
            params,
            order.state_root@,
            order.height,
            order.full_block.block.header.timestamp,
            order.cycles_limit,
        ) && *txs == order.full_block.ordered_txs,
        SaveStep::ReadMetadata(order, resp) => request matches Some(
            SaveRequest::ReadMetadata(call),
        ) && is_metadata_call(
            call,
            resp.state_root@,
            order.height,
            order.full_block.block.header.timestamp,
        ),
        SaveStep::InsertReceipts(done, _) => request == Some(
            SaveRequest::<T, R>::InsertReceipts(&done.resp.receipts),
        ),
        SaveStep::UpdateLatestProof(_, stored) => request == Some(
            SaveRequest::<T, R>::UpdateLatestProof(&stored),
        ),
        SaveStep::InsertBlock(done) => request == Some(
            SaveRequest::<T, R>::InsertBlock(&done.full_block.block),
        ),
        SaveStep::InsertTransactions(done) => request == Some(
            SaveRequest::<T, R>::InsertTransactions(&done.full_block.ordered_txs),
        ),
        SaveStep::Flush(done) => request == Some(
            SaveRequest::<T, R>::Flush(&done.full_block.block.ordered_tx_hashes),
        ),
        _ => request is None,
    }
}

/// The step that follows a write: the next one, or failure.
pub open spec fn after_write<T, R, E>(answer: Result<(), E>, next: SaveStep<T, R, E>) -> SaveStep<
    T,
    R,
    E,
> {
    match answer {
        Ok(_) => next,
        Err(error) => SaveStep::Failed(error),
    }
}

/// The step that follows `step` upon `event`; an answer to no pending request changes nothing.
pub open spec fn save_next<T, R, E>(
    step: SaveStep<T, R, E>,
    event: SaveEvent<T, R, E>,
) -> SaveStep<T, R, E> {
    match (step, event) {
        (SaveStep::GetLatestBlock(order), SaveEvent::LatestHeight(answer)) => match answer {
            Ok(latest_height) => if latest_height + 1 == order.height {
                SaveStep::Decode(order)
            } else {
                SaveStep::WrongHeight { latest_height, height: order.height }
            },
            Err(error) => SaveStep::Failed(error),
        },
        (SaveStep::Decode(order), SaveEvent::Decoded(answer)) => match answer {
            Ok(full_block) => SaveStep::Exec(
                ExecOrder {
                    height: order.height,
                    full_block,
                    quorum: order.quorum,
                    state_root: order.state_root,
                    cycles_limit: order.cycles_limit,
                },
            ),
            Err(error) => SaveStep::Failed(error),
        },
        (SaveStep::Exec(order), SaveEvent::Executed(answer)) => match answer {
            Ok(resp) => SaveStep::ReadMetadata(order, resp),
            Err(error) => SaveStep::Failed(error),
        },
        (SaveStep::ReadMetadata(order, resp), SaveEvent::MetadataRead(answer)) => match answer {
            Ok(metadata) => SaveStep::FindReceiptRoot(order, resp, metadata),
            Err(error) => SaveStep::Failed(error),
        },
        (
            SaveStep::FindReceiptRoot(order, resp, metadata),
            SaveEvent::ReceiptRootFound(receipt_root),
        ) => SaveStep::InsertReceipts(
            Executed {
                height: order.height,
                full_block: order.full_block,
                state_root: order.state_root,
                resp,
                metadata,
                receipt_root,
            },
            order.quorum,
        ),
        (SaveStep::InsertReceipts(done, quorum), SaveEvent::ReceiptsInserted(answer)) => after_write(
            answer,
            SaveStep::ReadProofHash(done, quorum),
        ),
        (SaveStep::ReadProofHash(done, quorum), SaveEvent::ProofHashRead(answer)) => match answer {
            Ok(block_hash) => SaveStep::UpdateLatestProof(done, stored_proof(quorum, block_hash)),
            Err(error) => SaveStep::Failed(error),
        },
        (SaveStep::UpdateLatestProof(done, _), SaveEvent::ProofUpdated(answer)) => after_write(
            answer,
            SaveStep::InsertBlock(done),
        ),
        (SaveStep::InsertBlock(done), SaveEvent::BlockInserted(answer)) => after_write(
            answer,
            SaveStep::InsertTransactions(done),
        ),
        (SaveStep::InsertTransactions(done), SaveEvent::TransactionsInserted(answer)) =>
            after_write(answer, SaveStep::Flush(done)),
        (SaveStep::Flush(done), SaveEvent::Flushed(answer)) => after_write(
            answer,
            SaveStep::Finished(done),
        ),
        _ => step,
    }
}

impl<T, R, E> SaveStep<T, R, E> {
    /// What is asked of the storage, the executor or the pool.
    pub fn request(&self) -> (request: Option<SaveRequest<'_, T, R>>)
        ensures
            is_save_request(*self, request),
    {
        match self {
            SaveStep::GetLatestBlock(_) => Some(SaveRequest::GetLatestBlock),
            SaveStep::Exec(order) => Some(
                SaveRequest::Exec(order.exec_params(), &order.full_block.ordered_txs),
            ),
            SaveStep::ReadMetadata(order, resp) => Some(
                SaveRequest::ReadMetadata(order.metadata_call(resp)),
            ),
            SaveStep::InsertReceipts(done, _) => Some(
                SaveRequest::InsertReceipts(&done.resp.receipts),
            ),
            SaveStep::UpdateLatestProof(_, stored) => Some(SaveRequest::UpdateLatestProof(stored)),
            SaveStep::InsertBlock(done) => Some(SaveRequest::InsertBlock(&done.full_block.block)),
            SaveStep::InsertTransactions(done) => Some(
                SaveRequest::InsertTransactions(&done.full_block.ordered_txs),
            ),
            SaveStep::Flush(done) => Some(
                SaveRequest::Flush(&done.full_block.block.ordered_tx_hashes),
            ),
            _ => None,
        }
    }

    /// Takes the answer to the pending request.
    pub fn next(self, event: SaveEvent<T, R, E>) -> (step: Self)
        ensures
            step == save_next(self, event),
    {
        match (self, event) {
            (SaveStep::GetLatestBlock(order), SaveEvent::LatestHeight(answer)) => match answer {
                Ok(latest_height) => if order.height > 0 && latest_height == order.height - 1 {
                    SaveStep::Decode(order)
                } else {
                    SaveStep::WrongHeight { latest_height, height: order.height }
                },
                Err(error) => SaveStep::Failed(error),
            },
            (SaveStep::Decode(order), SaveEvent::Decoded(answer)) => match answer {
                Ok(full_block) => SaveStep::Exec(
                    ExecOrder {
                        height: order.height,
                        full_block,
                        quorum: order.quorum,
                        state_root: order.state_root,
                        cycles_limit: order.cycles_limit,
                    },
                ),
                Err(error) => SaveStep::Failed(error),
            },
            (SaveStep::Exec(order), SaveEvent::Executed(answer)) => match answer {
                Ok(resp) => SaveStep::ReadMetadata(order, resp),
                Err(error) => SaveStep::Failed(error),
            },
            (SaveStep::ReadMetadata(order, resp), SaveEvent::MetadataRead(answer)) => match answer {
                Ok(metadata) => SaveStep::FindReceiptRoot(order, resp, metadata),
                Err(error) => SaveStep::Failed(error),
            },
            (
                SaveStep::FindReceiptRoot(order, resp, metadata),
                SaveEvent::ReceiptRootFound(receipt_root),
            ) => SaveStep::InsertReceipts(
                Executed {
                    height: order.height,
                    full_block: order.full_block,
                    state_root: order.state_root,
                    resp,
                    metadata,
                    receipt_root,
                },
                order.quorum,
            ),
            (SaveStep::InsertReceipts(done, quorum), SaveEvent::ReceiptsInserted(answer)) => {
                match answer {
                    Ok(_) => SaveStep::ReadProofHash(done, quorum),
                    Err(error) => SaveStep::Failed(error),
                }
            },
            (SaveStep::ReadProofHash(done, quorum), SaveEvent::ProofHashRead(answer)) => {
                match answer {
                    Ok(block_hash) => SaveStep::UpdateLatestProof(
                        done,
                        proto_proof(quorum, block_hash),
                    ),
                    Err(error) => SaveStep::Failed(error),
                }
            },
            (SaveStep::UpdateLatestProof(done, _), SaveEvent::ProofUpdated(answer)) => {
                match answer {
                    Ok(_) => SaveStep::InsertBlock(done),
                    Err(error) => SaveStep::Failed(error),
                }
            },
            (SaveStep::InsertBlock(done), SaveEvent::BlockInserted(answer)) => match answer {
                Ok(_) => SaveStep::InsertTransactions(done),
                Err(error) => SaveStep::Failed(error),
            },
            (SaveStep::InsertTransactions(done), SaveEvent::TransactionsInserted(answer)) => {
                match answer {
                    Ok(_) => SaveStep::Flush(done),
                    Err(error) => SaveStep::Failed(error),
                }
            },
            (SaveStep::Flush(done), SaveEvent::Flushed(answer)) => match answer {
                Ok(_) => SaveStep::Finished(done),
                Err(error) => SaveStep::Failed(error),
            },
            (step, _) => step,
        }
    }
}

impl<T> ExecOrder<T> {
    /// The parameters of the execution: it starts from the state that the last one has left.
    pub fn exec_params(&self) -> (params: ExecutorParams)
        ensures
            is_params(
                params,
                self.state_root@,
                self.height,
                self.full_block.block.header.timestamp,
                self.cycles_limit,
            ),
    {
        exec_params(
            &self.state_root,
            self.height,
            self.full_block.block.header.timestamp,
            self.cycles_limit,
        )
    }

    /// The call that reads the metadata: as of the state that this execution has left.
    pub fn metadata_call<R>(&self, resp: &ExecutorResp<R>) -> (call: ReadCall)
        ensures
            is_metadata_call(
                call,
                resp.state_root@,
                self.height,
                self.full_block.block.header.timestamp,
            ),
    {
        metadata_call(&resp.state_root, self.height, self.full_block.block.header.timestamp)
    }
}

/// What the engine learns of a saved block.
pub open spec fn saved_result<T, R>(done: Executed<T, R>) -> ExecResultView {
    ExecResultView {
        consensus_config: config_of(done.metadata@),
        block_states: BlockStateView {
            height: done.height,
            state: outcome_of(
                done.metadata@,
                done.state_root@,
                done.full_block.block.header.order_root@,
                done.receipt_root@,
                done.resp.logs_bloom@,
                done.resp.all_cycles_used,
            ),
        },
    }
}

impl<T, R> Executed<T, R> {
    /// What the engine learns of the saved block.
    pub fn exec_result(self) -> (result: ExecResult)
        ensures
            result@ == saved_result(self),
    {
        create_exec_result(
            self.height,
            self.metadata,
            self.state_root,
            self.full_block.block.header.order_root,
            self.receipt_root,
            self.resp.logs_bloom,
            self.resp.all_cycles_used,
        )
    }
}

/// Starts to execute and save the block of `height` that has been agreed on.
///
/// It is executed on top of the state that the last execution has left, within the cycles that
/// the last commit allows.
pub fn save_and_exec_block_with_proof<T, R, E>(
    height: u64,
    full_block: Bytes,
    quorum: Proof,
    last_exec_resp: ExecResp,
    last_commit_exec_resp: ExecResp,
) -> (step: SaveStep<T, R, E>)
    ensures
        step == SaveStep::<T, R, E>::GetLatestBlock(
            (SaveOrder {
                height,
                full_block,
                quorum,
                state_root: last_exec_resp.state_root,
                cycles_limit: last_commit_exec_resp.cycles_limit,
            }),
        ),
{
    SaveStep::GetLatestBlock(
        SaveOrder {
            height,
            full_block,
            quorum,
            state_root: last_exec_resp.state_root,
            cycles_limit: last_commit_exec_resp.cycles_limit,
        },
    )
}

/// Answers the requests that are a mere computation.
pub fn compute_save<C: ChainCodec>(
    step: &SaveStep<C::Transaction, C::Receipt, C::Error>,
) -> (event: Option<SaveEvent<C::Transaction, C::Receipt, C::Error>>)
    ensures
        match *step {
            SaveStep::Decode(order) => event matches Some(SaveEvent::Decoded(answer))
                && call_ensures(C::decode_full_block, (&order.full_block,), answer),
            SaveStep::FindReceiptRoot(_, resp, _) => event matches Some(
                SaveEvent::ReceiptRootFound(root),
            ) && is_receipt_root::<C>(resp.receipts@, root),
            SaveStep::ReadProofHash(_, quorum) => event matches Some(
                SaveEvent::ProofHashRead(answer),
            ) && call_ensures(C::hash_from_bytes, (&quorum.vote.block_hash,), answer),
            _ => event is None,
        },
{
    match step {
        SaveStep::Decode(order) => Some(
            SaveEvent::Decoded(C::decode_full_block(&order.full_block)),
        ),
        SaveStep::FindReceiptRoot(_, resp, _) => Some(
            SaveEvent::ReceiptRootFound(receipt_root::<C>(&resp.receipts)),
        ),
        SaveStep::ReadProofHash(_, quorum) => Some(
            SaveEvent::ProofHashRead(C::hash_from_bytes(&quorum.vote.block_hash)),
        ),
        _ => None,
    }
}

/// `settled` is `step` with a request that is a mere computation answered.
pub open spec fn is_save_settled<C: ChainCodec>(
    step: SaveStep<C::Transaction, C::Receipt, C::Error>,
    settled: SaveStep<C::Transaction, C::Receipt, C::Error>,
) -> bool {
    match step {
        SaveStep::Decode(order) => exists|answer: Result<FullBlock<C::Transaction>, C::Error>|
            #[trigger] call_ensures(C::decode_full_block, (&order.full_block,), answer) && settled
                == save_next(step, SaveEvent::Decoded(answer)),
        SaveStep::FindReceiptRoot(_, resp, _) => exists|root: ProtoHash| #[trigger]
            is_receipt_root::<C>(resp.receipts@, root) && settled == save_next(
                step,
                SaveEvent::ReceiptRootFound(root),
            ),
        SaveStep::ReadProofHash(_, quorum) => exists|answer: Result<ProtoHash, C::Error>| #[trigger]
            call_ensures(C::hash_from_bytes, (&quorum.vote.block_hash,), answer) && settled
                == save_next(step, SaveEvent::ProofHashRead(answer)),
        _ => settled == step,
    }
}

/// Answers the pending request where it is a mere computation.
pub fn settle_save<C: ChainCodec>(
    step: SaveStep<C::Transaction, C::Receipt, C::Error>,
) -> (settled: SaveStep<C::Transaction, C::Receipt, C::Error>)
    ensures
        is_save_settled::<C>(step, settled),
{
    match compute_save::<C>(&step) {
        Some(event) => step.next(event),
        None => step,
    }
}

/// Takes the answer to the pending request of a service, and computes what follows from it.
pub fn advance_save<C: ChainCodec>(
    step: SaveStep<C::Transaction, C::Receipt, C::Error>,
    event: SaveEvent<C::Transaction, C::Receipt, C::Error>,
) -> (next: SaveStep<C::Transaction, C::Receipt, C::Error>)
    ensures
        is_save_settled::<C>(save_next(step, event), next),
{
    settle_save::<C>(step.next(event))
}

/// `steps` are those of saving upon `order`, upon the answers `events` of the services.
pub open spec fn is_save_run<C: ChainCodec>(
    order: SaveOrder,
    steps: Seq<SaveStep<C::Transaction, C::Receipt, C::Error>>,
    events: Seq<SaveEvent<C::Transaction, C::Receipt, C::Error>>,
) -> bool {
    &&& steps.len() == events.len() + 1
    &&& steps[0] == SaveStep::<C::Transaction, C::Receipt, C::Error>::GetLatestBlock(order)
    &&& forall|i: int|
        0 <= i < events.len() ==> is_save_settled::<C>(
            save_next(steps[i], #[trigger] events[i]),
            steps[i + 1],
        )
}

/// `full_block` is a decoding of the bytes that were ordered to be saved.
pub open spec fn is_ordered_block<C: ChainCodec>(
    order: SaveOrder,
    full_block: FullBlock<C::Transaction>,
) -> bool {
    call_ensures(
        C::decode_full_block,
        (&order.full_block,),
        Ok::<FullBlock<C::Transaction>, C::Error>(full_block),
    )
}

/// `done` is what has become of `order`: the decoded block, the outcome that the executor and the
/// metadata that the service have answered, and the root over the receipts of that outcome.
pub open spec fn is_executed<C: ChainCodec>(
    order: SaveOrder,
    events: Seq<SaveEvent<C::Transaction, C::Receipt, C::Error>>,
    done: Executed<C::Transaction, C::Receipt>,
) -> bool {
    &&& done.height == order.height
    &&& done.state_root == order.state_root
    &&& is_ordered_block::<C>(order, done.full_block)
    &&& events.contains(SaveEvent::Executed(Ok(done.resp)))
    &&& events.contains(SaveEvent::MetadataRead(Ok(done.metadata)))
    &&& is_receipt_root::<C>(done.resp.receipts@, done.receipt_root)
}

/// What holds of a step of saving upon `order` after the answers `events`.
pub open spec fn is_true_to_order<C: ChainCodec>(
    order: SaveOrder,
    events: Seq<SaveEvent<C::Transaction, C::Receipt, C::Error>>,
    step: SaveStep<C::Transaction, C::Receipt, C::Error>,
) -> bool {
    match step {
        SaveStep::GetLatestBlock(kept) => kept == order,
        SaveStep::Exec(block) => is_in_execution::<C>(order, block),
        SaveStep::ReadMetadata(block, resp) => is_in_execution::<C>(order, block)
            && events.contains(SaveEvent::Executed(Ok(resp))),
        SaveStep::InsertReceipts(done, quorum) => is_executed::<C>(order, events, done) && quorum
            == order.quorum,
        SaveStep::UpdateLatestProof(done, stored) => is_executed::<C>(order, events, done)
            && is_stored_form::<C>(order.quorum, Ok(stored)),
        SaveStep::InsertBlock(done) => is_executed::<C>(order, events, done),
        SaveStep::InsertTransactions(done) => is_executed::<C>(order, events, done),
        SaveStep::Flush(done) => is_executed::<C>(order, events, done),
        SaveStep::Finished(done) => is_executed::<C>(order, events, done),
        SaveStep::Failed(error) => is_save_error::<C>(order, events, error),
        SaveStep::WrongHeight { latest_height, height } => height == order.height && latest_height
            + 1 != height && events.contains(SaveEvent::LatestHeight(Ok(latest_height))),
        SaveStep::Decode(_) => false,
        SaveStep::FindReceiptRoot(_, _, _) => false,
        SaveStep::ReadProofHash(_, _) => false,
    }
}

/// `error` is what a service has reported among `events`, or what the decoding of the ordered block
/// or the reading of the hash of its proof has failed with.
pub open spec fn is_save_error<C: ChainCodec>(
    order: SaveOrder,
    events: Seq<SaveEvent<C::Transaction, C::Receipt, C::Error>>,
    error: C::Error,
) -> bool {
    ||| exists|m: int| 0 <= m < events.len() && reports(#[trigger] events[m]) == Some(error)
    ||| call_ensures(
        C::decode_full_block,
        (&order.full_block,),
        Err::<FullBlock<C::Transaction>, C::Error>(error),
    )
    ||| call_ensures(
        C::hash_from_bytes,
        (&order.quorum.vote.block_hash,),
        Err::<ProtoHash, C::Error>(error),
    )
}

/// `block` is the ordered block in execution.
pub open spec fn is_in_execution<C: ChainCodec>(
    order: SaveOrder,
    block: ExecOrder<C::Transaction>,
) -> bool {
    &&& block.height == order.height
    &&& block.state_root == order.state_root
    &&& block.cycles_limit == order.cycles_limit
    &&& block.quorum == order.quorum
    &&& is_ordered_block::<C>(order, block.full_block)
}

/// One more answer keeps a step true to its order.
#[verifier::spinoff_prover]
#[verifier::rlimit(50)]
proof fn lemma_advance_is_true_to_order<C: ChainCodec>(
    order: SaveOrder,
    heard: Seq<SaveEvent<C::Transaction, C::Receipt, C::Error>>,
    event: SaveEvent<C::Transaction, C::Receipt, C::Error>,
    before: SaveStep<C::Transaction, C::Receipt, C::Error>,
    after: SaveStep<C::Transaction, C::Receipt, C::Error>,
)
    requires
        is_true_to_order::<C>(order, heard, before),
        is_save_settled::<C>(save_next(before, event), after),
    ensures
        is_true_to_order::<C>(order, heard.push(event), after),
{
    let now = heard.push(event);
    assert forall|e: SaveEvent<C::Transaction, C::Receipt, C::Error>|
        heard.contains(e) implies #[trigger] now.contains(e) by {
        let k = choose|k: int| 0 <= k < heard.len() && heard[k] == e;
        assert(now[k] == e);
    }
    assert(now[heard.len() as int] == event);
    assert(now.contains(event));
    match before {
        SaveStep::GetLatestBlock(_) => {},
        SaveStep::Exec(_) => {},
        SaveStep::ReadMetadata(_, _) => {},
        SaveStep::InsertReceipts(done, _) => {
            assert(is_executed::<C>(order, now, done));
        },
        SaveStep::UpdateLatestProof(done, _) => {
            assert(is_executed::<C>(order, now, done));
        },
        SaveStep::InsertBlock(done) => {
            assert(is_executed::<C>(order, now, done));
        },
        SaveStep::InsertTransactions(done) => {
            assert(is_executed::<C>(order, now, done));
        },
        SaveStep::Flush(done) => {
            assert(is_executed::<C>(order, now, done));
        },
        SaveStep::Finished(done) => {
            assert(is_executed::<C>(order, now, done));
        },
        SaveStep::Failed(error) => {
            if exists|m: int| 0 <= m < heard.len() && reports(#[trigger] heard[m]) == Some(error) {
                let m = choose|m: int|
                    0 <= m < heard.len() && reports(#[trigger] heard[m]) == Some(error);
                assert(reports(now[m]) == Some(error));
            }
        },
        _ => {},
    }
}

/// What is executed, stored and reported is what was ordered: the block is a decoding of the given
/// bytes, the receipt root is the one over the receipts of its execution, and the stored proof is
/// the given one. A saving that has failed has done so with an error that was reported or computed,
/// and a height is wrong beside the latest one that was answered.
pub proof fn save_is_true_to_order<C: ChainCodec>(
    order: SaveOrder,
    steps: Seq<SaveStep<C::Transaction, C::Receipt, C::Error>>,
    events: Seq<SaveEvent<C::Transaction, C::Receipt, C::Error>>,
    n: int,
)
    requires
        is_save_run::<C>(order, steps, events),
        0 <= n < steps.len(),
    ensures
        is_true_to_order::<C>(order, events.take(n), steps[n]),
    decreases n,
{
    if n > 0 {
        save_is_true_to_order::<C>(order, steps, events, n - 1);
        assert(is_save_settled::<C>(save_next(steps[n - 1], events[n - 1]), steps[n]));
        lemma_advance_is_true_to_order::<C>(
            order,
            events.take(n - 1),
            events[n - 1],
            steps[n - 1],
            steps[n],
        );
        assert(events.take(n - 1).push(events[n - 1]) =~= events.take(n));
    }
}

/// The step that `events` lead to from `step`.
pub open spec fn save_run<T, R, E>(
    step: SaveStep<T, R, E>,
    events: Seq<SaveEvent<T, R, E>>,
) -> SaveStep<T, R, E>
    decreases events.len(),
{
    if events.len() == 0 {
        step
    } else {
        save_next(save_run(step, events.drop_last()), events.last())
    }
}

/// How many requests have been answered well, where the saving has not gone wrong.
pub open spec fn stage<T, R, E>(step: SaveStep<T, R, E>) -> Option<int> {
    match step {
        SaveStep::GetLatestBlock(_) => Some(0),
        SaveStep::Decode(_) => Some(1),
        SaveStep::Exec(_) => Some(2),
        SaveStep::ReadMetadata(_, _) => Some(3),
        SaveStep::FindReceiptRoot(_, _, _) => Some(4),
        SaveStep::InsertReceipts(_, _) => Some(5),
        SaveStep::ReadProofHash(_, _) => Some(6),
        SaveStep::UpdateLatestProof(_, _) => Some(7),
        SaveStep::InsertBlock(_) => Some(8),
        SaveStep::InsertTransactions(_) => Some(9),
        SaveStep::Flush(_) => Some(10),
        SaveStep::Finished(_) => Some(11),
        SaveStep::Failed(_) => None,
        SaveStep::WrongHeight { .. } => None,
    }
}

/// The stage whose request `event` answers well.
pub open spec fn answers<T, R, E>(event: SaveEvent<T, R, E>) -> Option<int> {
    match event {
        SaveEvent::LatestHeight(Ok(_)) => Some(0),
        SaveEvent::Decoded(Ok(_)) => Some(1),
        SaveEvent::Executed(Ok(_)) => Some(2),
        SaveEvent::MetadataRead(Ok(_)) => Some(3),
        SaveEvent::ReceiptRootFound(_) => Some(4),
        SaveEvent::ReceiptsInserted(Ok(_)) => Some(5),
        SaveEvent::ProofHashRead(Ok(_)) => Some(6),
        SaveEvent::ProofUpdated(Ok(_)) => Some(7),
        SaveEvent::BlockInserted(Ok(_)) => Some(8),
        SaveEvent::TransactionsInserted(Ok(_)) => Some(9),
        SaveEvent::Flushed(Ok(_)) => Some(10),
        _ => None,
    }
}

/// The error that `event` reports.
pub open spec fn reports<T, R, E>(event: SaveEvent<T, R, E>) -> Option<E> {
    match event {
        SaveEvent::LatestHeight(Err(error)) => Some(error),
        SaveEvent::Decoded(Err(error)) => Some(error),
        SaveEvent::Executed(Err(error)) => Some(error),
        SaveEvent::MetadataRead(Err(error)) => Some(error),
        SaveEvent::ReceiptsInserted(Err(error)) => Some(error),
        SaveEvent::ProofHashRead(Err(error)) => Some(error),
        SaveEvent::ProofUpdated(Err(error)) => Some(error),
        SaveEvent::BlockInserted(Err(error)) => Some(error),
        SaveEvent::TransactionsInserted(Err(error)) => Some(error),
        SaveEvent::Flushed(Err(error)) => Some(error),
        _ => None,
    }
}

/// Where every request is answered well, the block is executed and saved.
pub proof fn save_succeeds<T, R, E>(
    order: SaveOrder,
    latest_height: u64,
    full_block: FullBlock<T>,
    resp: ExecutorResp<R>,
    metadata: Metadata,
    receipt_root: MerkleRoot,
    block_hash: ProtoHash,
)
    requires
        latest_height + 1 == order.height,
    ensures
        ({
            let asked: SaveStep<T, R, E> = SaveStep::GetLatestBlock(order);
            let decode = save_next(asked, SaveEvent::LatestHeight(Ok(latest_height)));
            let exec = save_next(decode, SaveEvent::Decoded(Ok(full_block)));
            let read = save_next(exec, SaveEvent::Executed(Ok(resp)));
            let find = save_next(read, SaveEvent::MetadataRead(Ok(metadata)));
            let insert = save_next(find, SaveEvent::ReceiptRootFound(receipt_root));
            let hash = save_next(insert, SaveEvent::ReceiptsInserted(Ok(())));
            let update = save_next(hash, SaveEvent::ProofHashRead(Ok(block_hash)));
            let block = save_next(update, SaveEvent::ProofUpdated(Ok(())));
            let txs = save_next(block, SaveEvent::BlockInserted(Ok(())));
            let flush = save_next(txs, SaveEvent::TransactionsInserted(Ok(())));
            save_next(flush, SaveEvent::Flushed(Ok(()))) == SaveStep::<T, R, E>::Finished(
                (Executed {
                    height: order.height,
                    full_block,
                    state_root: order.state_root,
                    resp,
                    metadata,
                    receipt_root,
                }),
            )
        }),
{
}

/// A saved block, a failed saving and a wrong height stay as they are.
pub proof fn save_ends<T, R, E>(step: SaveStep<T, R, E>, events: Seq<SaveEvent<T, R, E>>)
    requires
        step is Finished || step is Failed || step is WrongHeight,
    ensures
        save_run(step, events) == step,
    decreases events.len(),
{
    if events.len() > 0 {
        save_ends(step, events.drop_last());
    }
}

/// Requests come one after the other, in a fixed order: the saving reaches a later stage only
/// upon an answer to the request of the stage before it.
pub proof fn save_asks_in_order<T, R, E>(order: SaveOrder, events: Seq<SaveEvent<T, R, E>>, n: int)
    requires
        0 < n,
        stage(save_run(SaveStep::<T, R, E>::GetLatestBlock(order), events)) == Some(n),
    ensures
        exists|m: int|
            {
                &&& 0 <= m < events.len()
                &&& stage(
                    save_run(SaveStep::<T, R, E>::GetLatestBlock(order), #[trigger] events.take(m)),
                ) == Some(n - 1)
                &&& answers(events[m]) == Some(n - 1)
            },
    decreases events.len(),
{
    let start = SaveStep::<T, R, E>::GetLatestBlock(order);
    if events.len() > 0 {
        let before = events.drop_last();
        if stage(save_run(start, before)) == Some(n) {
            save_asks_in_order(order, before, n);
            let m = choose|m: int|
                {
                    &&& 0 <= m < before.len()
                    &&& stage(save_run(start, #[trigger] before.take(m))) == Some(n - 1)
                    &&& answers(before[m]) == Some(n - 1)
                };
            assert(before.take(m) =~= events.take(m));
            assert(events[m] == before[m]);
        } else {
            assert(before =~= events.take(events.len() - 1));
        }
    }
}

/// The saving fails only with an error that an answer has reported.
pub proof fn save_fails_for_a_reason<T, R, E>(
    order: SaveOrder,
    events: Seq<SaveEvent<T, R, E>>,
    error: E,
)
    requires
        save_run(SaveStep::<T, R, E>::GetLatestBlock(order), events) == SaveStep::<
            T,
            R,
            E,
        >::Failed(error),
    ensures
        exists|m: int| 0 <= m < events.len() && reports(#[trigger] events[m]) == Some(error),
    decreases events.len(),
{
    let start = SaveStep::<T, R, E>::GetLatestBlock(order);
    if events.len() > 0 {
        let before = events.drop_last();
        if save_run(start, before) == SaveStep::<T, R, E>::Failed(error) {
            save_fails_for_a_reason(order, before, error);
            let m = choose|m: int| 0 <= m < before.len() && reports(#[trigger] before[m]) == Some(error);
            assert(events[m] == before[m]);
        } else {
            assert(reports(events[events.len() - 1]) == Some(error));
        }
    }
}

/// The error that answers the pending request ends the saving.
pub proof fn save_stops_at_an_error<T, R, E>(
    step: SaveStep<T, R, E>,
    event: SaveEvent<T, R, E>,
    later: Seq<SaveEvent<T, R, E>>,
    error: E,
)
    requires
        reports(event) == Some(error),
        save_next(step, event) != step,
    ensures
        save_run(save_next(step, event), later) == SaveStep::<T, R, E>::Failed(error),
{
    save_ends(save_next(step, event), later);
}

/// A block is decoded, executed and saved only if it is the next after the latest stored one.
pub proof fn only_the_next_block_is_saved<T, R, E>(
    order: SaveOrder,
    latest_height: u64,
    later: Seq<SaveEvent<T, R, E>>,
)
    requires
        latest_height + 1 != order.height,
    ensures
        save_run(
            save_next(
                SaveStep::<T, R, E>::GetLatestBlock(order),
                SaveEvent::LatestHeight(Ok(latest_height)),
            ),
            later,
        ) == (SaveStep::<T, R, E>::WrongHeight { latest_height, height: order.height }),
{
    save_ends(
        SaveStep::<T, R, E>::WrongHeight { latest_height, height: order.height },
        later,
    );
}

/// The height and the base state of a saving that has not gone wrong.
pub open spec fn base<T, R, E>(step: SaveStep<T, R, E>) -> Option<(u64, MerkleRoot)> {
    match step {
        SaveStep::GetLatestBlock(order) => Some((order.height, order.state_root)),
        SaveStep::Decode(order) => Some((order.height, order.state_root)),
        SaveStep::Exec(order) => Some((order.height, order.state_root)),
        SaveStep::ReadMetadata(order, _) => Some((order.height, order.state_root)),
        SaveStep::FindReceiptRoot(order, _, _) => Some((order.height, order.state_root)),
        SaveStep::InsertReceipts(done, _) => Some((done.height, done.state_root)),
        SaveStep::ReadProofHash(done, _) => Some((done.height, done.state_root)),
        SaveStep::UpdateLatestProof(done, _) => Some((done.height, done.state_root)),
        SaveStep::InsertBlock(done) => Some((done.height, done.state_root)),
        SaveStep::InsertTransactions(done) => Some((done.height, done.state_root)),
        SaveStep::Flush(done) => Some((done.height, done.state_root)),
        SaveStep::Finished(done) => Some((done.height, done.state_root)),
        SaveStep::Failed(_) => None,
        SaveStep::WrongHeight { .. } => None,
    }
}

/// From the order to the result, the height and the base state stay what they were: the result
/// reports the height that was ordered, and the state root from which the block was executed.
pub proof fn save_keeps_the_order<T, R, E>(order: SaveOrder, events: Seq<SaveEvent<T, R, E>>)
    ensures
        ({
            let step = save_run(SaveStep::<T, R, E>::GetLatestBlock(order), events);
            &&& base(step) is Some ==> base(step) == Some((order.height, order.state_root))
            &&& step matches SaveStep::Finished(done) ==> {
                &&& saved_result(done).block_states.height == order.height
                &&& saved_result(done).block_states.state.state_root == order.state_root@
            }
        }),
    decreases events.len(),
{
    if events.len() > 0 {
        save_keeps_the_order(order, events.drop_last());
    }
}

} // verus!
