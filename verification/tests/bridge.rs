use translation_bridge::bridge::{advance, InitAction, InitEvent, InitState, READY_TIMEOUT_MS};
use translation_bridge::error::BridgeError;

#[test]
fn default_deadline_is_thirty_seconds() {
    assert_eq!(READY_TIMEOUT_MS, 30_000);
}

#[test]
fn initialization_runs_to_ready() {
    let evaluated = InitEvent::ScriptEvaluated { load_entry: true };
    let (state, action) = advance(InitState::Installed, evaluated, 30_000);
    assert_eq!((state, action), (InitState::Evaluated, InitAction::InvokeLoad));
    let (state, action) = advance(state, InitEvent::LoadInvoked { ready: false }, 30_000);
    assert_eq!(
        (state, action),
        (InitState::Awaiting { waited_ms: 0 }, InitAction::Wait { ms: 30_000 })
    );
    let (state, action) = advance(state, InitEvent::Elapsed { ms: 1_200 }, 30_000);
    assert_eq!(
        (state, action),
        (InitState::Awaiting { waited_ms: 1_200 }, InitAction::Wait { ms: 28_800 })
    );
    let (state, action) = advance(state, InitEvent::ReadySignal, 30_000);
    assert_eq!((state, action), (InitState::Ready, InitAction::Expose));
}

#[test]
fn a_loader_without_load_entry_point_is_refused() {
    assert_eq!(
        advance(InitState::Installed, InitEvent::ScriptEvaluated { load_entry: false }, 30_000),
        (InitState::Failed, InitAction::Discard(BridgeError::EntryPointMissing))
    );
}

#[test]
fn readiness_during_load_is_accepted() {
    assert_eq!(
        advance(InitState::Evaluated, InitEvent::LoadInvoked { ready: true }, 30_000),
        (InitState::Ready, InitAction::Expose)
    );
}

#[test]
fn missing_ready_signal_times_out() {
    let mut state = InitState::Awaiting { waited_ms: 0 };
    let mut last = InitAction::Ignore;
    let mut steps = 0;
    while state != InitState::Failed {
        let (next, action) = advance(state, InitEvent::Elapsed { ms: 7_000 }, 30_000);
        state = next;
        last = action;
        steps += 1;
        assert!(steps <= 5);
    }
    assert_eq!(steps, 5);
    assert_eq!(last, InitAction::Discard(BridgeError::InitializationTimeout));
}

#[test]
fn deadline_is_reached_exactly_at_the_timeout() {
    assert_eq!(
        advance(InitState::Awaiting { waited_ms: 29_000 }, InitEvent::Elapsed { ms: 999 }, 30_000),
        (InitState::Awaiting { waited_ms: 29_999 }, InitAction::Wait { ms: 1 })
    );
    assert_eq!(
        advance(InitState::Awaiting { waited_ms: 29_000 }, InitEvent::Elapsed { ms: 1_000 }, 30_000),
        (InitState::Failed, InitAction::Discard(BridgeError::InitializationTimeout))
    );
    assert_eq!(
        advance(InitState::Awaiting { waited_ms: 5 }, InitEvent::Elapsed { ms: u64::MAX }, u64::MAX),
        (InitState::Failed, InitAction::Discard(BridgeError::InitializationTimeout))
    );
}

#[test]
fn zero_timeout_fails_at_once_without_a_signal() {
    assert_eq!(
        advance(InitState::Evaluated, InitEvent::LoadInvoked { ready: false }, 0),
        (InitState::Failed, InitAction::Discard(BridgeError::InitializationTimeout))
    );
}

#[test]
fn script_failures_carry_message_and_stack() {
    for state in [InitState::Installed, InitState::Evaluated, InitState::Awaiting { waited_ms: 3 }] {
        let raised = InitEvent::Raised {
            message: "abort(OOM)".to_string(),
            stack: "at loadBergamot".to_string(),
        };
        assert_eq!(
            advance(state, raised, 30_000),
            (
                InitState::Failed,
                InitAction::Discard(BridgeError::ScriptFailure {
                    message: "abort(OOM)".to_string(),
                    stack: "at loadBergamot".to_string(),
                })
            )
        );
    }
}

#[test]
fn a_failed_initialization_ignores_a_late_signal() {
    assert_eq!(
        advance(InitState::Failed, InitEvent::ReadySignal, 30_000),
        (InitState::Failed, InitAction::Ignore)
    );
    assert_eq!(
        advance(InitState::Failed, InitEvent::ScriptEvaluated { load_entry: true }, 30_000),
        (InitState::Failed, InitAction::Ignore)
    );
    assert_eq!(
        advance(
            InitState::Ready,
            InitEvent::Raised { message: "late".to_string(), stack: String::new() },
            30_000
        ),
        (InitState::Ready, InitAction::Ignore)
    );
}

#[test]
fn events_out_of_turn_are_ignored() {
    assert_eq!(
        advance(InitState::Installed, InitEvent::ReadySignal, 30_000),
        (InitState::Installed, InitAction::Ignore)
    );
    assert_eq!(
        advance(InitState::Installed, InitEvent::LoadInvoked { ready: true }, 30_000),
        (InitState::Installed, InitAction::Ignore)
    );
    assert_eq!(
        advance(InitState::Evaluated, InitEvent::Elapsed { ms: 50_000 }, 30_000),
        (InitState::Evaluated, InitAction::Ignore)
    );
    assert_eq!(
        advance(
            InitState::Awaiting { waited_ms: 1 },
            InitEvent::ScriptEvaluated { load_entry: false },
            30_000
        ),
        (InitState::Awaiting { waited_ms: 1 }, InitAction::Ignore)
    );
}
