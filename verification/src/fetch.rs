//! Fetching the transactions of a block that has been agreed on.

use vstd::prelude::*;

use crate::adapter::{OverlordAdapter, Status};
use crate::bytes::{Bytes, ProtoHash};
use crate::codec::{is_block_hash, ChainCodec};
use crate::pill::WrappedPill;
use crate::types::FullBlock;

verus! {

/// How far the fetching of a full block has come. Every variant but the last two is a request.
#[derive(Debug, PartialEq, Eq)]
pub enum FetchStep<T, E> {
    /// The pool is to get hold of the transactions of the block.
    EnsureOrderTxs(WrappedPill),
    /// The pool is to hand out the transactions of the block.
    GetFullTxs(WrappedPill),
    /// The full block is to be encoded.
    Encode(FullBlock<T>),
    /// The encoding of the full block.
    Finished(Bytes),
    /// The error that ended the fetching.
    Failed(E),
}

/// The answer to a request of the fetching.
#[derive(Debug, PartialEq, Eq)]
pub enum FetchEvent<T, E> {
    OrderTxsEnsured(Result<(), E>),
    FullTxs(Result<Vec<T>, E>),
    Encoded(Result<Bytes, E>),
}

/// What is asked of the pool.
#[derive(Debug, PartialEq, Eq)]
pub enum FetchRequest<'a> {
    /// To get hold of the transactions with these hashes.
    EnsureOrderTxs(&'a Vec<ProtoHash>),
    /// To hand out the transactions with these hashes.
    GetFullTxs(&'a Vec<ProtoHash>),
}

/// The step that follows `step` upon `event`; an answer to no pending request changes nothing.
pub open spec fn fetch_next<T, E>(step: FetchStep<T, E>, event: FetchEvent<T, E>) -> FetchStep<
    T,
    E,
> {
    match (step, event) {
        (FetchStep::EnsureOrderTxs(pill), FetchEvent::OrderTxsEnsured(answer)) => match answer {
            Ok(_) => FetchStep::GetFullTxs(pill),
            Err(error) => FetchStep::Failed(error),
        },
        (FetchStep::GetFullTxs(pill), FetchEvent::FullTxs(answer)) => match answer {
            Ok(txs) => FetchStep::Encode(FullBlock { block: pill.0.block, ordered_txs: txs }),
            Err(error) => FetchStep::Failed(error),
        },
        (FetchStep::Encode(_), FetchEvent::Encoded(answer)) => match answer {
            Ok(data) => FetchStep::Finished(data),
            Err(error) => FetchStep::Failed(error),
        },
        _ => step,
    }
}

/// The first step for a pill whose block has hash `hash`: the transactions of a block that this
/// node has proposed itself are in its pool already.
pub open spec fn fetch_start<T, E>(
    own: Set<Seq<u8>>,
    pill: WrappedPill,
    hash: Result<Bytes, E>,
) -> FetchStep<T, E> {
    match hash {
        Ok(bytes) => if own.contains(bytes@) {
            FetchStep::GetFullTxs(pill)
        } else {
            FetchStep::EnsureOrderTxs(pill)
        },
        Err(error) => FetchStep::Failed(error),
    }
}

impl<T, E> FetchStep<T, E> {
    /// What is asked of the pool: the transactions of the block, all of them and in their order.
    pub fn request(&self) -> (request: Option<FetchRequest<'_>>)
        ensures
            match *self {
                FetchStep::EnsureOrderTxs(pill) => request == Some(
                    FetchRequest::EnsureOrderTxs(&pill.0.block.ordered_tx_hashes),
                ),
                FetchStep::GetFullTxs(pill) => request == Some(
                    FetchRequest::GetFullTxs(&pill.0.block.ordered_tx_hashes),
                ),
                _ => request is None,
            },
    {
        match self {
            FetchStep::EnsureOrderTxs(pill) => Some(
                FetchRequest::EnsureOrderTxs(&pill.0.block.ordered_tx_hashes),
            ),
            FetchStep::GetFullTxs(pill) => Some(
                FetchRequest::GetFullTxs(&pill.0.block.ordered_tx_hashes),
            ),
            _ => None,
        }
    }

    /// Takes the answer to the pending request.
    pub fn next(self, event: FetchEvent<T, E>) -> (step: Self)
        ensures
            step == fetch_next(self, event),
    {
        match (self, event) {
            (FetchStep::EnsureOrderTxs(pill), FetchEvent::OrderTxsEnsured(answer)) => match answer {
                Ok(_) => FetchStep::GetFullTxs(pill),
                Err(error) => FetchStep::Failed(error),
            },
            (FetchStep::GetFullTxs(pill), FetchEvent::FullTxs(answer)) => match answer {
                Ok(txs) => FetchStep::Encode(FullBlock { block: pill.0.block, ordered_txs: txs }),
                Err(error) => FetchStep::Failed(error),
            },
            (FetchStep::Encode(full_block), FetchEvent::Encoded(answer)) => match answer {
                Ok(data) => FetchStep::Finished(data),
                Err(error) => FetchStep::Failed(error),
            },
            (step, _) => step,
        }
    }
}

/// Answers the requests that are a mere computation.
pub fn compute_fetch<C: ChainCodec>(step: &FetchStep<C::Transaction, C::Error>) -> (event: Option<
    FetchEvent<C::Transaction, C::Error>,
>)
    ensures
        match *step {
            FetchStep::Encode(full_block) => event matches Some(FetchEvent::Encoded(answer))
                && call_ensures(C::encode_full_block, (&full_block,), answer),
            _ => event is None,
        },
{
    match step {
        FetchStep::Encode(full_block) => Some(
            FetchEvent::Encoded(C::encode_full_block(full_block)),
        ),
        _ => None,
    }
}

/// `settled` is `step` with a request that is a mere computation answered.
pub open spec fn is_fetch_settled<C: ChainCodec>(
    step: FetchStep<C::Transaction, C::Error>,
    settled: FetchStep<C::Transaction, C::Error>,
) -> bool {
    match step {
        FetchStep::Encode(full_block) => exists|answer: Result<Bytes, C::Error>| #[trigger]
            call_ensures(C::encode_full_block, (&full_block,), answer) && settled == fetch_next(
                step,
                FetchEvent::Encoded(answer),
            ),
        _ => settled == step,
    }
}

/// Answers the pending request where it is a mere computation.
pub fn settle_fetch<C: ChainCodec>(step: FetchStep<C::Transaction, C::Error>) -> (settled:
    FetchStep<C::Transaction, C::Error>)
    ensures
        is_fetch_settled::<C>(step, settled),
{
    match compute_fetch::<C>(&step) {
        Some(event) => step.next(event),
        None => step,
    }
}

/// Takes the answer to the pending request of the pool, and computes what follows from it.
pub fn advance_fetch<C: ChainCodec>(
    step: FetchStep<C::Transaction, C::Error>,
    event: FetchEvent<C::Transaction, C::Error>,
) -> (next: FetchStep<C::Transaction, C::Error>)
    ensures
        is_fetch_settled::<C>(fetch_next(step, event), next),
{
    settle_fetch::<C>(step.next(event))
}

/// `step` is the first step for `pill` of a node of this status: whether the node knows the block
/// as its own decides what is asked first.
pub open spec fn is_fetch_start<C: ChainCodec>(
    status: Status,
    pill: WrappedPill,
    step: FetchStep<C::Transaction, C::Error>,
) -> bool {
    exists|hash: Result<Bytes, C::Error>| #[trigger]
        is_block_hash::<C>(pill.0.block, hash) && step == fetch_start::<C::Transaction, C::Error>(
            status.from_myself@,
            pill,
            hash,
        )
}

/// `steps` are those of fetching the full block of `pill`, upon the answers `events` of the pool.
pub open spec fn is_fetch_run<C: ChainCodec>(
    status: Status,
    pill: WrappedPill,
    steps: Seq<FetchStep<C::Transaction, C::Error>>,
    events: Seq<FetchEvent<C::Transaction, C::Error>>,
) -> bool {
    &&& steps.len() == events.len() + 1
    &&& is_fetch_start::<C>(status, pill, steps[0])
    &&& forall|i: int|
        0 <= i < events.len() ==> is_fetch_settled::<C>(
            fetch_next(steps[i], #[trigger] events[i]),
            steps[i + 1],
        )
}

/// A fetching asks only for the transactions of its block. What it ends with is the encoding of
/// that block with transactions that the pool has handed out, or the error that the hashing of the
/// block, the pool or the encoding has given.
pub proof fn fetch_gives_the_full_block<C: ChainCodec>(
    status: Status,
    pill: WrappedPill,
    steps: Seq<FetchStep<C::Transaction, C::Error>>,
    events: Seq<FetchEvent<C::Transaction, C::Error>>,
    n: int,
)
    requires
        is_fetch_run::<C>(status, pill, steps, events),
        0 <= n < steps.len(),
    ensures
        match steps[n] {
            FetchStep::EnsureOrderTxs(kept) => kept == pill,
            FetchStep::GetFullTxs(kept) => kept == pill,
            FetchStep::Encode(_) => false,
            FetchStep::Finished(data) => exists|txs: Vec<C::Transaction>, m: int|
                #![trigger is_encoded_as::<C>(pill, txs, data), events[m]]
                {
                    &&& 0 <= m < n
                    &&& events[m] == FetchEvent::<C::Transaction, C::Error>::FullTxs(Ok(txs))
                    &&& is_encoded_as::<C>(pill, txs, data)
                },
            FetchStep::Failed(error) => is_fetch_error::<C>(pill, events.take(n), error),
        },
    decreases n,
{
    if n > 0 {
        fetch_gives_the_full_block::<C>(status, pill, steps, events, n - 1);
        let event = events[n - 1];
        let heard = events.take(n - 1);
        let now = events.take(n);
        assert forall|e: FetchEvent<C::Transaction, C::Error>|
            #[trigger] heard.contains(e) implies now.contains(e) by {
            let k = choose|k: int| 0 <= k < heard.len() && heard[k] == e;
            assert(now[k] == e);
        }
        assert(now[n - 1] == event);
        assert(now.contains(event));
        let before = steps[n - 1];
        assert(is_fetch_settled::<C>(fetch_next(before, event), steps[n]));
        if before is GetFullTxs && event is FullTxs {
            if let FetchEvent::FullTxs(Ok(txs)) = event {
                if let FetchStep::Finished(data) = steps[n] {
                    assert(is_encoded_as::<C>(pill, txs, data));
                }
            }
        } else if before is Finished {
            let data = before->Finished_0;
            let (txs, m) = choose|txs: Vec<C::Transaction>, m: int|
                #![trigger is_encoded_as::<C>(pill, txs, data), events[m]]
                {
                    &&& 0 <= m < n - 1
                    &&& events[m] == FetchEvent::<C::Transaction, C::Error>::FullTxs(Ok(txs))
                    &&& is_encoded_as::<C>(pill, txs, data)
                };
            assert(is_encoded_as::<C>(pill, txs, data) && events[m] == events[m]);
        }
    }
}

/// `error` is what the hashing of the block of `pill` has failed with, what the pool has reported
/// among `events`, or what the encoding of the block has failed with, with transactions that the
/// pool has handed out.
pub open spec fn is_fetch_error<C: ChainCodec>(
    pill: WrappedPill,
    events: Seq<FetchEvent<C::Transaction, C::Error>>,
    error: C::Error,
) -> bool {
    ||| is_block_hash::<C>(pill.0.block, Err(error))
    ||| events.contains(FetchEvent::OrderTxsEnsured(Err(error)))
    ||| events.contains(FetchEvent::FullTxs(Err(error)))
    ||| exists|txs: Vec<C::Transaction>| #[trigger]
        events.contains(FetchEvent::FullTxs(Ok(txs))) && call_ensures(
            C::encode_full_block,
            (&FullBlock { block: pill.0.block, ordered_txs: txs },),
            Err::<Bytes, C::Error>(error),
        )
}

/// `data` is the encoding of the block of `pill` with the transactions `txs`.
pub open spec fn is_encoded_as<C: ChainCodec>(
    pill: WrappedPill,
    txs: Vec<C::Transaction>,
    data: Bytes,
) -> bool {
    call_ensures(
        C::encode_full_block,
        (&FullBlock { block: pill.0.block, ordered_txs: txs },),
        Ok::<Bytes, C::Error>(data),
    )
}

/// Two fetchings are at the same point: they ask for the transactions of blocks with the same
/// content, or have the same full block or the same encoding of it, or have failed with the same
/// error.
pub open spec fn at_same_point<T, E>(left: FetchStep<T, E>, right: FetchStep<T, E>) -> bool {
    match (left, right) {
        (FetchStep::EnsureOrderTxs(p), FetchStep::EnsureOrderTxs(q)) => p@.block == q@.block,
        (FetchStep::GetFullTxs(p), FetchStep::GetFullTxs(q)) => p@.block == q@.block,
        (FetchStep::Encode(f), FetchStep::Encode(g)) => f@ == g@,
        (FetchStep::Finished(d), FetchStep::Finished(e)) => d@ == e@,
        (FetchStep::Failed(e), FetchStep::Failed(f)) => e == f,
        _ => false,
    }
}

/// Fetchings at the same point stay so upon the same answers.
pub proof fn same_answers_keep_the_point<T, E>(
    left: FetchStep<T, E>,
    right: FetchStep<T, E>,
    events: Seq<FetchEvent<T, E>>,
)
    requires
        at_same_point(left, right),
    ensures
        at_same_point(fetch_run(left, events), fetch_run(right, events)),
    decreases events.len(),
{
    if events.len() > 0 {
        same_answers_keep_the_point(left, right, events.drop_last());
    }
}

/// The step that `events` lead to from `step`.
pub open spec fn fetch_run<T, E>(step: FetchStep<T, E>, events: Seq<FetchEvent<T, E>>) -> FetchStep<
    T,
    E,
>
    decreases events.len(),
{
    if events.len() == 0 {
        step
    } else {
        fetch_next(fetch_run(step, events.drop_last()), events.last())
    }
}

/// A finished or failed fetching stays as it is.
pub proof fn fetch_ends<T, E>(step: FetchStep<T, E>, events: Seq<FetchEvent<T, E>>)
    requires
        step is Finished || step is Failed,
    ensures
        fetch_run(step, events) == step,
    decreases events.len(),
{
    if events.len() > 0 {
        fetch_ends(step, events.drop_last());
    }
}

/// The transactions of a block are asked for only after the pool has ensured them, and a full
/// block is made of the block of the pill and the transactions that the pool has handed out.
pub proof fn fetch_asks_in_order<T, E>(pill: WrappedPill, events: Seq<FetchEvent<T, E>>)
    ensures
        match fetch_run(FetchStep::<T, E>::EnsureOrderTxs(pill), events) {
            FetchStep::EnsureOrderTxs(kept) => kept == pill,
            FetchStep::GetFullTxs(kept) => kept == pill && events.contains(
                FetchEvent::OrderTxsEnsured(Ok(())),
            ),
            FetchStep::Encode(full_block) => full_block.block == pill.0.block && events.contains(
                FetchEvent::OrderTxsEnsured(Ok(())),
            ) && events.contains(FetchEvent::FullTxs(Ok(full_block.ordered_txs))),
            FetchStep::Finished(data) => events.contains(FetchEvent::OrderTxsEnsured(Ok(())))
                && events.contains(FetchEvent::Encoded(Ok(data))),
            FetchStep::Failed(error) => events.contains(FetchEvent::OrderTxsEnsured(Err(error)))
                || events.contains(FetchEvent::FullTxs(Err(error))) || events.contains(
                FetchEvent::Encoded(Err(error)),
            ),
        },
    decreases events.len(),
{
    if events.len() > 0 {
        let before = events.drop_last();
        fetch_asks_in_order(pill, before);
        assert forall|e: FetchEvent<T, E>| before.contains(e) implies events.contains(e) by {
            let k = choose|k: int| 0 <= k < before.len() && before[k] == e;
            assert(events[k] == e);
        }
        assert(events.contains(events.last()));
        if let FetchEvent::OrderTxsEnsured(Ok(nothing)) = events.last() {
            assert(nothing == ());
        }
    }
}

/// The pool is never asked to ensure the transactions of a block that this node has proposed
/// itself.
pub proof fn own_transactions_are_at_hand<T, E>(
    own: Set<Seq<u8>>,
    pill: WrappedPill,
    hash: Result<Bytes, E>,
    events: Seq<FetchEvent<T, E>>,
)
    requires
        hash matches Ok(bytes) ==> own.contains(bytes@),
    ensures
        !(fetch_run(fetch_start::<T, E>(own, pill, hash), events) is EnsureOrderTxs),
    decreases events.len(),
{
    if events.len() > 0 {
        own_transactions_are_at_hand(own, pill, hash, events.drop_last());
    }
}

/// Where the pool ensures and hands out the transactions and the full block has an encoding, the
/// fetching gives that encoding.
pub proof fn fetch_succeeds<T, E>(pill: WrappedPill, txs: Vec<T>, data: Bytes)
    ensures
        fetch_run(
            FetchStep::<T, E>::EnsureOrderTxs(pill),
            seq![
                FetchEvent::OrderTxsEnsured(Ok(())),
                FetchEvent::FullTxs(Ok(txs)),
                FetchEvent::Encoded(Ok(data)),
            ],
        ) == FetchStep::<T, E>::Finished(data),
        fetch_run(
            FetchStep::<T, E>::GetFullTxs(pill),
            seq![FetchEvent::FullTxs(Ok(txs)), FetchEvent::Encoded(Ok(data))],
        ) == FetchStep::<T, E>::Finished(data),
{
    reveal_with_fuel(fetch_run, 4);
    let a: FetchEvent<T, E> = FetchEvent::OrderTxsEnsured(Ok(()));
    let b: FetchEvent<T, E> = FetchEvent::FullTxs(Ok(txs));
    let c: FetchEvent<T, E> = FetchEvent::Encoded(Ok(data));
    assert(seq![a, b, c].drop_last() =~= seq![a, b]);
    assert(seq![a, b].drop_last() =~= seq![a]);
    assert(seq![b, c].drop_last() =~= seq![b]);
}

impl OverlordAdapter {
    /// Starts to fetch the full block of a pill that has been agreed on.
    pub fn fetch_full_block<C: ChainCodec>(&self, pill: WrappedPill) -> (step: FetchStep<
        C::Transaction,
        C::Error,
    >)
        ensures
            is_fetch_start::<C>(self.status, pill, step),
    {
        match pill.get_block_hash::<C>() {
            Ok(hash) => if self.status.from_myself.contains(&hash) {
                FetchStep::GetFullTxs(pill)
            } else {
                FetchStep::EnsureOrderTxs(pill)
            },
            Err(error) => FetchStep::Failed(error),
        }
    }
}

} // verus!
