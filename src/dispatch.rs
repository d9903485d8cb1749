//! The dispatcher's side of one request: what it returns once its wait for
//! the result ends.
use vstd::prelude::*;

use crate::completion::{after_cancel, after_complete, after_take, CompletionContext, CompletionState, CompletionView};

verus! {

/// Seconds that a dispatch waits for its result before it gives up.
pub const DISPATCH_TIMEOUT_SECS: u64 = 5;

/// Why a dispatch produced no response frame.
#[derive(Clone, Copy, Debug, PartialEq, Eq, Structural)]
pub enum DispatchErr {
    /// No result arrived within the timeout.
    Timeout,
    /// The outside runtime let go of the request without completing it.
    RuntimeDropped,
}

/// How the wait for a dispatch's result ended.
#[derive(Clone, Copy, Debug, PartialEq, Eq, Structural)]
pub enum WaitOutcome {
    /// The context woke the dispatcher.
    Notified,
    /// The channel closed without a wake-up.
    Closed,
    /// The timeout elapsed first.
    Elapsed,
}

/// What a dispatch returns, and the context it leaves, when its wait ended
/// with `outcome` on context `v`: the result if the completion won; otherwise
/// the request is cancelled (if still pending), so that a later completion
/// loses, and the error says whether the wait timed out.
pub open spec fn settled(v: CompletionView, outcome: WaitOutcome) -> (CompletionView, Result<Seq<u8>, DispatchErr>) {
    if v.state == CompletionState::Completed {
        match v.result {
            Some(b) => (after_take(v), Ok(b)),
            None => (v, Err(DispatchErr::RuntimeDropped)),
        }
    } else {
        (
            after_cancel(v).0,
            Err(
                if outcome == WaitOutcome::Elapsed {
                    DispatchErr::Timeout
                } else {
                    DispatchErr::RuntimeDropped
                },
            ),
        )
    }
}

/// Ends a dispatch whose wait ended with `outcome`. Under the context's lock
/// the state alone decides: a completed request gives its result, whatever
/// woke the dispatcher; a pending one is cancelled here, and is `Timeout` if
/// the wait timed out, else `RuntimeDropped`.
pub fn settle_dispatch(context: &mut CompletionContext, outcome: WaitOutcome) -> (r: Result<Vec<u8>, DispatchErr>)
    requires
        old(context).wf(),
    ensures
        final(context).wf(),
        final(context)@ == settled(old(context)@, outcome).0,
        match r {
            Ok(b) => settled(old(context)@, outcome).1 == Ok::<Seq<u8>, DispatchErr>(b@),
            Err(e) => settled(old(context)@, outcome).1 == Err::<Seq<u8>, DispatchErr>(e),
        },
        r == Err::<Vec<u8>, DispatchErr>(DispatchErr::Timeout) ==> final(context)@.state == CompletionState::Cancelled,
        old(context)@.state == CompletionState::Completed && old(context)@.result is Some ==> r is Ok,
{
    if context.state() == CompletionState::Completed {
        match context.take_result() {
            Some(bytes) => Ok(bytes),
            None => Err(DispatchErr::RuntimeDropped),
        }
    } else {
        let _ = context.cancel();
        match outcome {
            WaitOutcome::Elapsed => Err(DispatchErr::Timeout),
            _ => Err(DispatchErr::RuntimeDropped),
        }
    }
}

/// A dispatch that ends without a result leaves the request settled for
/// good: a completion that arrives afterwards loses and changes nothing, and
/// a timeout always leaves the request cancelled.
pub proof fn lemma_late_completion_discarded(v: CompletionView, outcome: WaitOutcome, bytes: Seq<u8>)
    ensures
        settled(v, outcome).1 is Err ==> settled(v, outcome).0.state != CompletionState::Pending,
        settled(v, outcome).1 is Err ==> after_complete(settled(v, outcome).0, bytes) == (settled(v, outcome).0, false),
        settled(v, outcome).1 == Err::<Seq<u8>, DispatchErr>(DispatchErr::Timeout) ==> settled(v, outcome).0.state
            == CompletionState::Cancelled,
{
}

/// Exactly one outcome reaches the dispatcher: if the completion wins, the
/// dispatch returns its bytes whatever ended the wait; if the timeout's
/// cancellation wins, the dispatch returns `Timeout` and the completion that
/// follows loses.
pub proof fn lemma_exactly_one_outcome(v: CompletionView, bytes: Seq<u8>, outcome: WaitOutcome)
    requires
        v.state == CompletionState::Pending,
        v.result is None,
    ensures
        settled(after_complete(v, bytes).0, outcome).1 == Ok::<Seq<u8>, DispatchErr>(bytes),
        ({
            let (v1, r) = settled(v, WaitOutcome::Elapsed);
            r == Err::<Seq<u8>, DispatchErr>(DispatchErr::Timeout) && v1.state == CompletionState::Cancelled
                && !after_complete(v1, bytes).1
        }),
{
}

} // verus!
