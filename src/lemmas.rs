//! Laws of the future's state machine, stated over the relations that the
//! operations' contracts use.
use crate::future::{delivers, extract_received, not_ready, poll_step, receive_step, IpcFuture};
use futures::Async;
use ipc_channel::{IpcError, TryRecvError};
use vstd::prelude::*;

verus! {

/// An extraction that hands out the value leaves the future spent, so that
/// no further extraction is admitted.
pub proof fn lemma_delivery_spends<T>(
    before: IpcFuture<T>,
    after: IpcFuture<T>,
    r: Result<Async<T>, IpcError>,
)
    requires
        poll_step(before, after, r),
        delivers(r),
    ensures
        after is Empty,
        forall|later: IpcFuture<T>, r2: Result<Async<T>, IpcError>| !poll_step(after, later, r2),
{
    if before is Waiting {
        let received = choose|x: Result<T, TryRecvError>| extract_received(before, x, after, r);
        assert(extract_received(before, received, after, r));
    }
}

/// Over any run of extractions on one future, at most one hands out the
/// value. Each step is what `IpcFuture::poll` ensures; since `poll_step`
/// admits no step from a spent future, a run cannot go on past a delivery.
pub proof fn lemma_at_most_one_extraction<T>(
    states: Seq<IpcFuture<T>>,
    results: Seq<Result<Async<T>, IpcError>>,
)
    requires
        states.len() == results.len() + 1,
        forall|i: int| 0 <= i < results.len() ==> poll_step(states[i], states[i + 1], #[trigger] results[i]),
    ensures
        forall|i: int, j: int|
            0 <= i < results.len() && 0 <= j < results.len() && delivers(#[trigger] results[i])
                && delivers(#[trigger] results[j]) ==> i == j,
{
    assert forall|i: int| 0 <= i < results.len() && delivers(#[trigger] results[i]) implies i == results.len() - 1 by {
        lemma_delivery_spends(states[i], states[i + 1], results[i]);
        if i + 1 < results.len() {
            assert(poll_step(states[i + 1], states[i + 2], results[i + 1]));
        }
    }
}

proof fn lemma_state_kept_while_empty<T>(
    states: Seq<IpcFuture<T>>,
    outcomes: Seq<Result<T, TryRecvError>>,
    results: Seq<Result<Async<T>, IpcError>>,
    k: int,
)
    requires
        states.len() == results.len() + 1,
        outcomes.len() == results.len(),
        forall|i: int| 0 <= i < results.len() ==> extract_received(states[i], #[trigger] outcomes[i], states[i + 1], results[i]),
        forall|i: int| 0 <= i < outcomes.len() ==> #[trigger] outcomes[i] matches Err(TryRecvError::Empty),
        0 <= k < states.len(),
    ensures
        states[k] == states[0],
    decreases k,
{
    if k > 0 {
        lemma_state_kept_while_empty(states, outcomes, results, k - 1);
        assert(outcomes[k - 1] matches Err(TryRecvError::Empty));
        assert(extract_received(states[k - 1], outcomes[k - 1], states[k], results[k - 1]));
    }
}

/// As long as every receive finds the channel empty, every extraction
/// reports not ready and the future stays as it was.
pub proof fn lemma_not_ready_until_arrival<T>(
    states: Seq<IpcFuture<T>>,
    outcomes: Seq<Result<T, TryRecvError>>,
    results: Seq<Result<Async<T>, IpcError>>,
)
    requires
        states.len() == results.len() + 1,
        outcomes.len() == results.len(),
        forall|i: int| 0 <= i < results.len() ==> extract_received(states[i], #[trigger] outcomes[i], states[i + 1], results[i]),
        forall|i: int| 0 <= i < outcomes.len() ==> #[trigger] outcomes[i] matches Err(TryRecvError::Empty),
    ensures
        forall|i: int| 0 <= i < results.len() ==> #[trigger] results[i] == not_ready::<T, IpcError>(),
        forall|i: int| 0 <= i < states.len() ==> #[trigger] states[i] == states[0],
{
    assert forall|i: int| 0 <= i < states.len() implies #[trigger] states[i] == states[0] by {
        lemma_state_kept_while_empty(states, outcomes, results, i);
    }
    assert forall|i: int| 0 <= i < results.len() implies #[trigger] results[i] == not_ready::<T, IpcError>() by {
        assert(outcomes[i] matches Err(TryRecvError::Empty));
        assert(extract_received(states[i], outcomes[i], states[i + 1], results[i]));
    }
}

/// A value that a readiness check has stored is exactly what the next
/// extraction hands out, after which the future is spent.
pub proof fn lemma_arrival_is_extracted<T>(
    waiting: IpcFuture<T>,
    v: T,
    ready: IpcFuture<T>,
    checked: Result<Async<()>, IpcError>,
    spent: IpcFuture<T>,
    r: Result<Async<T>, IpcError>,
)
    requires
        waiting is Waiting,
        receive_step(waiting, Ok(v), ready, checked),
        poll_step(ready, spent, r),
    ensures
        r == Ok::<Async<T>, IpcError>(Async::Ready(v)),
        spent is Empty,
{
}

/// Peeking sees nothing while waiting, the value once a readiness check has
/// stored it, and nothing again once an extraction has handed it out.
pub proof fn lemma_peek_follows_state<T>(
    waiting: IpcFuture<T>,
    v: T,
    ready: IpcFuture<T>,
    checked: Result<Async<()>, IpcError>,
    spent: IpcFuture<T>,
    r: Result<Async<T>, IpcError>,
)
    requires
        waiting is Waiting,
        receive_step(waiting, Ok(v), ready, checked),
        poll_step(ready, spent, r),
    ensures
        waiting.held() is None,
        ready.held() == Some(v),
        spent.held() is None,
{
}

} // verus!
