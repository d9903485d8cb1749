//! The per-request completion context: it holds the one result of a
//! dispatched request until the dispatcher collects it, and races completion
//! against cancellation so that exactly one of them wins.
use vstd::prelude::*;

verus! {

/// tokio's one-shot sending half, carried through as an opaque value.
#[verifier::external_type_specification]
#[verifier::external_body]
#[verifier::reject_recursive_types(T)]
pub struct ExOneshotSender<T>(tokio::sync::oneshot::Sender<T>);

/// Relies on tokio's `oneshot::Sender::send`: it wakes the receiving half, or
/// does nothing when that half is gone; either way it returns at once.
#[verifier::external_body]
fn notify(notifier: tokio::sync::oneshot::Sender<()>) -> (accepted: bool) {
    notifier.send(()).is_ok()
}

/// The number of handles to a context that the handler runtime receives: one
/// to complete it, one to ask whether it was cancelled.
pub const RUNTIME_HANDLES: u8 = 2;

/// Where a dispatched request stands. `Pending` is the only state that can
/// change, and it changes at most once.
#[derive(Clone, Copy, Debug, PartialEq, Eq, Structural)]
pub enum CompletionState {
    Pending,
    Completed,
    Cancelled,
}

/// A completion context as a mathematical value: its state, the result it
/// holds for the dispatcher, whether the channel that wakes the dispatcher is
/// still open, and how many of the runtime's handles are not yet released.
pub struct CompletionView {
    pub state: CompletionState,
    pub result: Option<Seq<u8>>,
    pub channel_open: bool,
    pub runtime_handles: nat,
}

/// The context of a request that was just dispatched.
pub open spec fn fresh_context() -> CompletionView {
    CompletionView {
        state: CompletionState::Pending,
        result: None,
        channel_open: true,
        runtime_handles: RUNTIME_HANDLES as nat,
    }
}

/// The context after a completion attempt with `bytes` in `v`, and whether
/// the attempt won: the winner stores `bytes` and wakes the dispatcher, which
/// closes the channel.
pub open spec fn after_complete(v: CompletionView, bytes: Seq<u8>) -> (CompletionView, bool) {
    if v.state == CompletionState::Pending {
        (CompletionView { state: CompletionState::Completed, result: Some(bytes), channel_open: false, ..v }, true)
    } else {
        (v, false)
    }
}

/// The context after a cancellation attempt in `v`, and whether the attempt
/// won: the winner closes the channel, so that nothing is delivered after it.
pub open spec fn after_cancel(v: CompletionView) -> (CompletionView, bool) {
    if v.state == CompletionState::Pending {
        (CompletionView { state: CompletionState::Cancelled, channel_open: false, ..v }, true)
    } else {
        (v, false)
    }
}

/// The context after the runtime released one of its handles: once it holds
/// none, the channel closes, so that a dispatcher waiting on a request that
/// can no longer complete wakes up.
pub open spec fn after_release(v: CompletionView) -> CompletionView {
    let left: nat = if v.runtime_handles > 0 { (v.runtime_handles - 1) as nat } else { 0 };
    CompletionView { runtime_handles: left, channel_open: v.channel_open && left > 0, ..v }
}

/// The context after the dispatcher took its result out.
pub open spec fn after_take(v: CompletionView) -> CompletionView {
    CompletionView { result: None, ..v }
}

/// Completion and cancellation of one pending request, in either order, have
/// exactly one winner, and the state they leave is the winner's; only a
/// winning completion stores a result. A second completion loses and changes
/// nothing.
pub proof fn lemma_exactly_one_winner(v: CompletionView, bytes: Seq<u8>, other: Seq<u8>)
    requires
        v.state == CompletionState::Pending,
        v.result is None,
    ensures
        ({
            let (v1, completed) = after_complete(v, bytes);
            let (v2, cancelled) = after_cancel(v1);
            completed && !cancelled && v2.state == CompletionState::Completed && v2.result == Some(bytes)
        }),
        ({
            let (v1, cancelled) = after_cancel(v);
            let (v2, completed) = after_complete(v1, bytes);
            cancelled && !completed && v2.state == CompletionState::Cancelled && v2.result is None
        }),
        ({
            let (v1, first) = after_complete(v, bytes);
            let (v2, second) = after_complete(v1, other);
            first && !second && v2 == v1
        }),
{
}

/// The shared state of one dispatched request: its state, its result until
/// the dispatcher takes it, the sending half of the one-shot channel that
/// wakes the dispatcher, and the count of the runtime's live handles.
pub struct CompletionContext {
    state: CompletionState,
    result: Option<Vec<u8>>,
    notifier: Option<tokio::sync::oneshot::Sender<()>>,
    runtime_handles: u8,
}

impl View for CompletionContext {
    type V = CompletionView;

    closed spec fn view(&self) -> CompletionView {
        CompletionView {
            state: self.state,
            result: match self.result {
                Some(b) => Some(b@),
                None => None,
            },
            channel_open: self.notifier is Some,
            runtime_handles: self.runtime_handles as nat,
        }
    }
}

impl CompletionContext {
    /// The channel is open only while the request is pending, and only a
    /// completed request holds a result.
    pub open spec fn wf(&self) -> bool {
        &&& (self@.channel_open ==> self@.state == CompletionState::Pending)
        &&& (self@.state != CompletionState::Completed ==> self@.result is None)
    }

    /// A pending context that wakes the dispatcher through `notifier`.
    pub fn new(notifier: tokio::sync::oneshot::Sender<()>) -> (r: CompletionContext)
        ensures
            r.wf(),
            r@ == fresh_context(),
    {
        CompletionContext {
            state: CompletionState::Pending,
            result: None,
            notifier: Some(notifier),
            runtime_handles: RUNTIME_HANDLES,
        }
    }

    /// The current state.
    pub fn state(&self) -> (r: CompletionState)
        ensures
            r == self@.state,
    {
        self.state
    }

    /// Whether the request was cancelled; reads the state and changes nothing.
    pub fn is_cancelled(&self) -> (r: bool)
        ensures
            r == (self@.state == CompletionState::Cancelled),
    {
        self.state == CompletionState::Cancelled
    }

    /// Attempts the move from `Pending` to `Completed`. The winner stores
    /// `bytes` and wakes the dispatcher; a loser drops `bytes` and changes
    /// nothing.
    pub fn complete(&mut self, bytes: Vec<u8>) -> (won: bool)
        requires
            old(self).wf(),
        ensures
            final(self).wf(),
            (final(self)@, won) == after_complete(old(self)@, bytes@),
    {
        if self.state != CompletionState::Pending {
            return false;
        }
        self.state = CompletionState::Completed;
        self.result = Some(bytes);
        match self.notifier.take() {
            Some(notifier) => {
                let _ = notify(notifier);
            },
            None => {},
        }
        true
    }

    /// Attempts the move from `Pending` to `Cancelled`. The winner closes the
    /// channel; a loser changes nothing.
    pub fn cancel(&mut self) -> (won: bool)
        requires
            old(self).wf(),
        ensures
            final(self).wf(),
            (final(self)@, won) == after_cancel(old(self)@),
    {
        if self.state != CompletionState::Pending {
            return false;
        }
        self.state = CompletionState::Cancelled;
        self.notifier = None;
        true
    }

    /// Records that the runtime released one of its handles; when it holds
    /// none any more, the channel closes.
    pub fn release_runtime_handle(&mut self)
        requires
            old(self).wf(),
        ensures
            final(self).wf(),
            final(self)@ == after_release(old(self)@),
    {
        if self.runtime_handles > 0 {
            self.runtime_handles = self.runtime_handles - 1;
        }
        if self.runtime_handles == 0 {
            self.notifier = None;
        }
    }

    /// Takes the stored result out, if there is one.
    pub fn take_result(&mut self) -> (r: Option<Vec<u8>>)
        requires
            old(self).wf(),
        ensures
            final(self).wf(),
            final(self)@ == after_take(old(self)@),
            match r {
                Some(b) => old(self)@.result == Some(b@),
                None => old(self)@.result is None,
            },
    {
        self.result.take()
    }
}

} // verus!
