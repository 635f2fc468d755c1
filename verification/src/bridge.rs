//! The host environment bridge: the steps by which a script context is set
//! up for the loader script, and the deadline on its readiness signal.
//!
//! The host performs the outside work (evaluating the script, invoking its
//! load entry point, waiting) and reports each outcome as an event; the
//! functions here decide what state follows and what the host does next.

use crate::error::BridgeError;
use vstd::prelude::*;

verus! {

/// The deadline on the readiness signal where none is configured.
pub const READY_TIMEOUT_MS: u64 = 30_000;

/// How far the initialization of one engine instance has come.
#[derive(Debug, Clone, Copy, PartialEq, Eq, Structural)]
pub enum InitState {
    /// The host API is installed; the loader script is not evaluated yet.
    Installed,
    /// The loader script is evaluated; its load entry point is not invoked yet.
    Evaluated,
    /// The load entry point has returned; the readiness signal is awaited.
    Awaiting { waited_ms: u64 },
    /// The runtime signalled readiness: the context may be handed out.
    Ready,
    /// The initialization was given up: the context is never handed out.
    Failed,
}

/// What the host observed.
#[derive(Debug, PartialEq, Eq)]
pub enum InitEvent {
    /// The loader script was evaluated without error; `load_entry` tells
    /// whether it defines the load entry point that the host calls next.
    ScriptEvaluated { load_entry: bool },
    /// The load entry point returned; `ready` tells whether the runtime
    /// signalled readiness before it did.
    LoadInvoked { ready: bool },
    /// The runtime signalled readiness.
    ReadySignal,
    /// Time went by without a signal.
    Elapsed { ms: u64 },
    /// The script aborted or threw.
    Raised { message: String, stack: String },
}

/// What the host does next.
#[derive(Debug, PartialEq, Eq)]
pub enum InitAction {
    /// Invoke the load entry point of the loader script.
    InvokeLoad,
    /// Wait for the readiness signal, at most this long.
    Wait { ms: u64 },
    /// Hand out the context.
    Expose,
    /// Drop the context and report the failure.
    Discard(BridgeError),
    /// Nothing: the event does not concern this state.
    Ignore,
}

/// The time waited after another `ms`, held at the largest value.
pub open spec fn waited_after(waited_ms: u64, ms: u64) -> u64 {
    if waited_ms + ms > u64::MAX {
        u64::MAX
    } else {
        (waited_ms + ms) as u64
    }
}

/// The state that follows `state` on `event`, and what the host does then.
/// A script failure ends any initialization that is under way, and so does
/// a loader script without the load entry point: the entry points that the
/// host calls are checked here, not on the first call that fails. Readiness is
/// accepted only while it is awaited, or as reported by the load entry
/// point. Once the time waited reaches `timeout_ms` the initialization has
/// failed. `Ready` and `Failed` are final.
pub open spec fn transition(state: InitState, event: InitEvent, timeout_ms: u64) -> (
    InitState,
    InitAction,
) {
    match (state, event) {
        (InitState::Ready, _) => (InitState::Ready, InitAction::Ignore),
        (InitState::Failed, _) => (InitState::Failed, InitAction::Ignore),
        (_, InitEvent::Raised { message, stack }) => (
            InitState::Failed,
            InitAction::Discard(BridgeError::ScriptFailure { message, stack }),
        ),
        (InitState::Installed, InitEvent::ScriptEvaluated { load_entry }) => if load_entry {
            (InitState::Evaluated, InitAction::InvokeLoad)
        } else {
            (InitState::Failed, InitAction::Discard(BridgeError::EntryPointMissing))
        },
        (InitState::Evaluated, InitEvent::LoadInvoked { ready }) => if ready {
            (InitState::Ready, InitAction::Expose)
        } else if timeout_ms == 0 {
            (InitState::Failed, InitAction::Discard(BridgeError::InitializationTimeout))
        } else {
            (InitState::Awaiting { waited_ms: 0 }, InitAction::Wait { ms: timeout_ms })
        },
        (InitState::Awaiting { waited_ms }, InitEvent::ReadySignal) => (
            InitState::Ready,
            InitAction::Expose,
        ),
        (InitState::Awaiting { waited_ms }, InitEvent::Elapsed { ms }) => if waited_after(
            waited_ms,
            ms,
        ) >= timeout_ms {
            (InitState::Failed, InitAction::Discard(BridgeError::InitializationTimeout))
        } else {
            (
                InitState::Awaiting { waited_ms: waited_after(waited_ms, ms) },
                InitAction::Wait { ms: (timeout_ms - waited_after(waited_ms, ms)) as u64 },
            )
        },
        (_, _) => (state, InitAction::Ignore),
    }
}

/// Takes one step of the initialization.
pub fn advance(state: InitState, event: InitEvent, timeout_ms: u64) -> (next: (
    InitState,
    InitAction,
))
    ensures
        next == transition(state, event, timeout_ms),
{
    match state {
        InitState::Ready => (InitState::Ready, InitAction::Ignore),
        InitState::Failed => (InitState::Failed, InitAction::Ignore),
        InitState::Installed => match event {
            InitEvent::Raised { message, stack } => (
                InitState::Failed,
                InitAction::Discard(BridgeError::ScriptFailure { message, stack }),
            ),
            InitEvent::ScriptEvaluated { load_entry } => {
                if load_entry {
                    (InitState::Evaluated, InitAction::InvokeLoad)
                } else {
                    (InitState::Failed, InitAction::Discard(BridgeError::EntryPointMissing))
                }
            },
            _ => (state, InitAction::Ignore),
        },
        InitState::Evaluated => match event {
            InitEvent::Raised { message, stack } => (
                InitState::Failed,
                InitAction::Discard(BridgeError::ScriptFailure { message, stack }),
            ),
            InitEvent::LoadInvoked { ready } => {
                if ready {
                    (InitState::Ready, InitAction::Expose)
                } else if timeout_ms == 0 {
                    (InitState::Failed, InitAction::Discard(BridgeError::InitializationTimeout))
                } else {
                    (InitState::Awaiting { waited_ms: 0 }, InitAction::Wait { ms: timeout_ms })
                }
            },
            _ => (state, InitAction::Ignore),
        },
        InitState::Awaiting { waited_ms } => match event {
            InitEvent::Raised { message, stack } => (
                InitState::Failed,
                InitAction::Discard(BridgeError::ScriptFailure { message, stack }),
            ),
            InitEvent::ReadySignal => (InitState::Ready, InitAction::Expose),
            InitEvent::Elapsed { ms } => {
                let waited = waited_ms.saturating_add(ms);
                if waited >= timeout_ms {
                    (InitState::Failed, InitAction::Discard(BridgeError::InitializationTimeout))
                } else {
                    (
                        InitState::Awaiting { waited_ms: waited },
                        InitAction::Wait { ms: timeout_ms - waited },
                    )
                }
            },
            _ => (state, InitAction::Ignore),
        },
    }
}

/// The state after all of `events`, in order.
pub open spec fn run(state: InitState, events: Seq<InitEvent>, timeout_ms: u64) -> InitState
    decreases events.len(),
{
    if events.len() == 0 {
        state
    } else {
        run(transition(state, events[0], timeout_ms).0, events.drop_first(), timeout_ms)
    }
}

/// The time that `events` report as elapsed.
pub open spec fn elapsed(events: Seq<InitEvent>) -> nat
    decreases events.len(),
{
    if events.len() == 0 {
        0
    } else {
        (match events[0] {
            InitEvent::Elapsed { ms } => ms as nat,
            _ => 0,
        }) + elapsed(events.drop_first())
    }
}

/// An initialization that has failed stays failed: no later event, a late
/// readiness signal included, makes the context reachable.
pub proof fn lemma_failed_is_final(events: Seq<InitEvent>, timeout_ms: u64)
    ensures
        run(InitState::Failed, events, timeout_ms) == InitState::Failed,
    decreases events.len(),
{
    if events.len() > 0 {
        lemma_failed_is_final(events.drop_first(), timeout_ms);
    }
}

/// The deadline holds: an initialization that awaits the readiness signal
/// and does not receive it while the time waited reaches the timeout has
/// failed, whatever else is reported meanwhile.
pub proof fn lemma_no_signal_times_out(waited_ms: u64, events: Seq<InitEvent>, timeout_ms: u64)
    requires
        forall|i: int| 0 <= i < events.len() ==> !(#[trigger] events[i] is ReadySignal),
        waited_ms + elapsed(events) >= timeout_ms,
        waited_ms < timeout_ms,
    ensures
        run(InitState::Awaiting { waited_ms }, events, timeout_ms) == InitState::Failed,
    decreases events.len(),
{
    if events.len() > 0 {
        let rest = events.drop_first();
        let next = transition(InitState::Awaiting { waited_ms }, events[0], timeout_ms).0;
        assert forall|i: int| 0 <= i < rest.len() implies !(#[trigger] rest[i] is ReadySignal) by {
            assert(rest[i] == events[i + 1]);
        }
        match next {
            InitState::Awaiting { waited_ms: later } => {
                lemma_no_signal_times_out(later, rest, timeout_ms);
            },
            _ => {
                lemma_failed_is_final(rest, timeout_ms);
            },
        }
    }
}

/// The context is handed out only on the step that reaches `Ready`, and
/// that step is taken only on a readiness signal: no half-initialized
/// instance becomes reachable.
pub proof fn lemma_exposed_only_when_ready(state: InitState, event: InitEvent, timeout_ms: u64)
    ensures
        transition(state, event, timeout_ms).1 is Expose ==> transition(
            state,
            event,
            timeout_ms,
        ).0 == InitState::Ready && state != InitState::Ready && (event is ReadySignal || (event
            matches InitEvent::LoadInvoked { ready } && ready)),
        transition(state, event, timeout_ms).0 == InitState::Ready && state != InitState::Ready
            ==> transition(state, event, timeout_ms).1 is Expose,
{
}

/// The step that crosses the deadline tells the host to drop the context
/// with `InitializationTimeout`, and every wait that is ordered ends at the
/// deadline at the latest: the host never waits without bound.
pub proof fn lemma_wait_is_bounded(waited_ms: u64, ms: u64, timeout_ms: u64)
    requires
        waited_ms < timeout_ms,
    ensures
        waited_ms + ms >= timeout_ms ==> transition(
            InitState::Awaiting { waited_ms },
            InitEvent::Elapsed { ms },
            timeout_ms,
        ) == (InitState::Failed, InitAction::Discard(BridgeError::InitializationTimeout)),
        waited_ms + ms < timeout_ms ==> transition(
            InitState::Awaiting { waited_ms },
            InitEvent::Elapsed { ms },
            timeout_ms,
        ) == (
            InitState::Awaiting { waited_ms: (waited_ms + ms) as u64 },
            InitAction::Wait { ms: (timeout_ms - waited_ms - ms) as u64 },
        ),
{
}

} // verus!
