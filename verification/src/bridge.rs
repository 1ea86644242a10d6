//! The completion bridge: one state machine behind which both platform
//! completion models stand — a native kernel wait object signalled by a
//! callback, and a worker thread that watches a socket become readable.
//! States only move forward, a ready result never regresses, and at most
//! one completion mechanism is ever armed per operation (single-flight).

use vstd::prelude::*;
use crate::{PingApiOutput, PingError};

verus! {

/// The native wait-object status for "the object is signaled".
pub const WAIT_OBJECT_0: u32 = 0;

/// The native wait-object status for "the wait timed out" — on a
/// zero-timeout check, "not signaled yet".
pub const WAIT_TIMEOUT: u32 = 0x102;

/// The native wait-object status for "the wait itself failed".
pub const WAIT_FAILED: u32 = 0xFFFFFFFF;

/// The states of one asynchronous echo operation.
pub enum CompletionState {
    /// No request sent yet.
    Idle,
    /// The request was sent; no completion mechanism armed yet.
    Started,
    /// No result yet; the continuation is registered and a completion
    /// mechanism (native wait registration or worker thread) is armed.
    Pending,
    /// A result is available. Terminal: the state never regresses.
    Ready(PingApiOutput),
}

/// What the caller must do after one poll of the bridge.
#[derive(Debug, Clone, Copy, PartialEq, Eq, Structural)]
pub enum PollAction {
    /// Send the echo request and report its verdict.
    StartOperation,
    /// Register the continuation and arm the completion mechanism, then
    /// stay suspended.
    ArmAndSuspend,
    /// Stay suspended; the mechanism is already armed.
    Suspend,
    /// The operation finished; the result is ready to take.
    Complete,
}

/// The bridge itself: the operation's state and the single-flight guard.
pub struct CompletionBridge {
    pub state: CompletionState,
    /// Whether a completion mechanism is currently armed.
    pub worker_active: bool,
}

impl CompletionBridge {
    /// A completion mechanism can only be armed while the operation is
    /// pending.
    pub open spec fn wf(self) -> bool {
        self.worker_active ==> self.state is Pending
    }

    /// States in their forward order.
    pub open spec fn state_rank(self) -> int {
        match self.state {
            CompletionState::Idle => 0,
            CompletionState::Started => 1,
            CompletionState::Pending => 2,
            CompletionState::Ready(_) => 3,
        }
    }

    pub open spec fn is_ready(self) -> bool {
        self.state is Ready
    }

    /// The poll transition, a function of the current bridge alone.
    pub open spec fn spec_poll(self) -> (CompletionBridge, PollAction) {
        match self.state {
            CompletionState::Idle => (
                CompletionBridge { state: CompletionState::Started, ..self },
                PollAction::StartOperation,
            ),
            CompletionState::Started => (
                CompletionBridge { state: CompletionState::Pending, worker_active: true },
                PollAction::ArmAndSuspend,
            ),
            CompletionState::Pending => (self, PollAction::Suspend),
            CompletionState::Ready(_) => (self, PollAction::Complete),
        }
    }

    /// A fresh bridge: idle, nothing armed.
    pub fn new() -> (b: CompletionBridge)
        ensures
            b.state is Idle,
            !b.worker_active,
            b.wf(),
    {
        CompletionBridge { state: CompletionState::Idle, worker_active: false }
    }

    /// One poll from the caller: what to do next. The state only moves
    /// forward, a ready state never changes again, and the arm action is
    /// emitted only when no mechanism is armed yet.
    pub fn poll(&mut self) -> (action: PollAction)
        requires
            old(self).wf(),
        ensures
            (*final(self), action) == old(self).spec_poll(),
            final(self).wf(),
            old(self).state_rank() <= final(self).state_rank(),
            old(self).is_ready() ==> *final(self) == *old(self),
            action is ArmAndSuspend ==> !old(self).worker_active && final(self).worker_active,
    {
        match &self.state {
            CompletionState::Idle => {
                self.state = CompletionState::Started;
                PollAction::StartOperation
            },
            CompletionState::Started => {
                self.state = CompletionState::Pending;
                self.worker_active = true;
                PollAction::ArmAndSuspend
            },
            CompletionState::Pending => PollAction::Suspend,
            CompletionState::Ready(_) => PollAction::Complete,
        }
    }

    /// Delivers the operation's result. Exactly one completion path may do
    /// this — it requires the state not yet ready — and afterwards the state
    /// is ready with exactly this result and the armed mechanism is gone.
    pub fn complete(&mut self, result: PingApiOutput)
        requires
            old(self).wf(),
            !old(self).is_ready(),
        ensures
            final(self).state == CompletionState::Ready(result),
            !final(self).worker_active,
            final(self).wf(),
            old(self).state_rank() <= final(self).state_rank(),
    {
        self.worker_active = false;
        self.state = CompletionState::Ready(result);
    }

    /// Takes the result out of a completed operation.
    pub fn take_result(self) -> (r: PingApiOutput)
        requires
            self.is_ready(),
        ensures
            self.state == CompletionState::Ready(r),
    {
        match self.state {
            CompletionState::Ready(r) => r,
            _ => vstd::pervasive::unreached(),
        }
    }
}

/// How many arm actions a run of `n` consecutive polls emits, starting
/// from bridge `b` with no completion delivered in between.
pub open spec fn arms_in_polls(b: CompletionBridge, n: nat) -> nat
    decreases n,
{
    if n == 0 {
        0
    } else {
        let (b2, action) = b.spec_poll();
        (if action is ArmAndSuspend {
            1nat
        } else {
            0nat
        }) + arms_in_polls(b2, (n - 1) as nat)
    }
}

/// Once the operation is pending, further polls arm nothing.
proof fn lemma_no_arms_while_pending(b: CompletionBridge, n: nat)
    requires
        b.state is Pending,
    ensures
        arms_in_polls(b, n) == 0,
    decreases n,
{
    if n > 0 {
        lemma_no_arms_while_pending(b, (n - 1) as nat);
    }
}

/// Once the operation is ready, further polls arm nothing.
proof fn lemma_no_arms_when_ready(b: CompletionBridge, n: nat)
    requires
        b.state is Ready,
    ensures
        arms_in_polls(b, n) == 0,
    decreases n,
{
    if n > 0 {
        lemma_no_arms_when_ready(b, (n - 1) as nat);
    }
}

/// Single-flight: however many times one operation is polled, at most one
/// completion mechanism (native wait registration or worker thread) is
/// ever armed.
pub proof fn lemma_single_flight(b: CompletionBridge, n: nat)
    requires
        b.wf(),
    ensures
        arms_in_polls(b, n) <= 1,
    decreases n,
{
    if n > 0 {
        let (b2, action) = b.spec_poll();
        match b.state {
            CompletionState::Idle => {
                lemma_single_flight(b2, (n - 1) as nat);
            },
            CompletionState::Started => {
                lemma_no_arms_while_pending(b2, (n - 1) as nat);
            },
            CompletionState::Pending => {
                lemma_no_arms_while_pending(b2, (n - 1) as nat);
            },
            CompletionState::Ready(_) => {
                lemma_no_arms_when_ready(b2, (n - 1) as nat);
            },
        }
    }
}

/// One event in the life of an operation: a poll from the caller, or a
/// completion delivered by the native callback or the worker thread.
pub enum BridgeEvent {
    Poll,
    Completion(PingApiOutput),
}

/// The state after one event. A completion offered to an already-ready
/// bridge changes nothing — the executable `complete` refuses it, and here
/// it is a no-op so that every trace is defined.
pub open spec fn spec_step(b: CompletionBridge, e: BridgeEvent) -> CompletionBridge {
    match e {
        BridgeEvent::Poll => b.spec_poll().0,
        BridgeEvent::Completion(r) => if b.is_ready() {
            b
        } else {
            CompletionBridge { state: CompletionState::Ready(r), worker_active: false }
        },
    }
}

/// The state after a whole sequence of events.
pub open spec fn spec_run(b: CompletionBridge, events: Seq<BridgeEvent>) -> CompletionBridge
    decreases events.len(),
{
    if events.len() == 0 {
        b
    } else {
        spec_run(spec_step(b, events[0]), events.skip(1))
    }
}

/// The completion state moves strictly forward: along any sequence of polls
/// and completions, well-formedness is preserved, the state's rank never
/// decreases, and once the state is ready it never changes again.
pub proof fn lemma_state_forward(b: CompletionBridge, events: Seq<BridgeEvent>)
    requires
        b.wf(),
    ensures
        spec_run(b, events).wf(),
        b.state_rank() <= spec_run(b, events).state_rank(),
        b.is_ready() ==> spec_run(b, events) == b,
    decreases events.len(),
{
    if events.len() > 0 {
        lemma_state_forward(spec_step(b, events[0]), events.skip(1));
    }
}

/// The possible verdicts of the zero-timeout check of the native wait
/// object during a poll.
pub enum WaitOutcome {
    /// Not signaled yet: stay suspended.
    StillPending,
    /// Signaled: the reply was written into the buffer and can be decoded.
    ReplyReady,
    /// The wait itself failed; the operation fails with this error.
    Failed(PingError),
}

/// Classifies the zero-timeout check of the native wait object: timed out
/// means still pending, signaled means the reply is in the buffer, a failed
/// wait carries the platform's last error, and any other status is itself
/// reported as the failure code.
pub fn classify_wait_status(wait_status: u32, last_error: u32) -> (r: WaitOutcome)
    ensures
        wait_status == WAIT_TIMEOUT ==> r is StillPending,
        wait_status == WAIT_OBJECT_0 ==> r is ReplyReady,
        wait_status == WAIT_FAILED ==> (r matches WaitOutcome::Failed(e) && e matches
            PingError::OsError(c, m) && c == last_error && m@ == "Wait event failed"@),
        wait_status != WAIT_TIMEOUT && wait_status != WAIT_OBJECT_0 && wait_status != WAIT_FAILED
            ==> (r matches WaitOutcome::Failed(e) && e matches PingError::OsError(c, m) && c
            == wait_status && m@ == "Unexpected return code!"@),
{
    if wait_status == WAIT_TIMEOUT {
        WaitOutcome::StillPending
    } else if wait_status == WAIT_OBJECT_0 {
        WaitOutcome::ReplyReady
    } else if wait_status == WAIT_FAILED {
        WaitOutcome::Failed(PingError::OsError(last_error, "Wait event failed".to_owned()))
    } else {
        WaitOutcome::Failed(PingError::OsError(wait_status, "Unexpected return code!".to_owned()))
    }
}

/// The verdict of the first send on the native asynchronous path: a
/// pending verdict means the operation is outstanding and the caller must
/// suspend; anything else completes the operation at once.
pub fn start_verdict(outcome: Result<(), PingError>) -> (r: Option<Result<(), PingError>>)
    ensures
        (outcome matches Err(e) && e is IoPending) ==> r is None,
        !(outcome matches Err(e) && e is IoPending) ==> r == Some(outcome),
{
    match outcome {
        Err(PingError::IoPending) => None,
        v => Some(v),
    }
}

} // verus!
