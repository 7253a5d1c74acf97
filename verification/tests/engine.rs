use vk_compute::engine::{
    classify_wait, EngineState, ExecutionEngine, FenceState, SubmitAction, WaitOutcome,
    WAIT_TIMEOUT_NS,
};
use vk_compute::error::Error;

#[test]
fn new_engine_is_idle() {
    let engine = ExecutionEngine::new();
    assert_eq!(engine.current_state(), EngineState::Idle);
    assert_eq!(engine.fence_state(), FenceState::Unsignaled);
    assert!(engine.can_submit());
    assert!(!engine.can_wait());
    assert!(!engine.can_read_back());
}

#[test]
fn wait_bound_is_250_ms() {
    let engine = ExecutionEngine::new();
    assert_eq!(WAIT_TIMEOUT_NS, 250_000_000);
    assert_eq!(engine.wait_timeout(), 250_000_000);
}

#[test]
fn submit_resets_the_fence_then_enqueues() {
    let mut engine = ExecutionEngine::new();
    let actions = engine.submit();
    assert_eq!(actions, vec![SubmitAction::ResetFence, SubmitAction::QueueSubmit]);
    assert_eq!(engine.current_state(), EngineState::InFlight);
    assert_eq!(engine.fence_state(), FenceState::Unsignaled);
    assert!(!engine.can_submit());
    assert!(engine.can_wait());
    assert!(!engine.can_read_back());
}

#[test]
fn signaled_wait_completes() {
    let mut engine = ExecutionEngine::new();
    engine.submit();
    assert!(engine.wait(WaitOutcome::Signaled).is_ok());
    assert_eq!(engine.current_state(), EngineState::Completed);
    assert_eq!(engine.fence_state(), FenceState::Signaled);
    assert!(engine.can_read_back());
    assert!(!engine.can_wait());
    assert!(!engine.can_submit());
}

#[test]
fn expired_wait_is_a_timeout_error() {
    let mut engine = ExecutionEngine::new();
    engine.submit();
    match engine.wait(WaitOutcome::Expired) {
        Ok(()) => panic!("an expired wait succeeded"),
        Err(e) => {
            assert!(matches!(e, Error::Timeout));
            assert_eq!(e.message(), "fence wait timed out");
        }
    }
    assert_eq!(engine.current_state(), EngineState::TimedOut);
    assert_eq!(engine.fence_state(), FenceState::Unsignaled);
    assert!(!engine.can_read_back());
    assert!(!engine.can_submit());
}

#[test]
fn device_that_never_signals_never_completes() {
    let mut engine = ExecutionEngine::new();
    engine.submit();
    for _ in 0..100 {
        assert!(engine.can_wait());
        assert!(matches!(engine.wait(WaitOutcome::Expired), Err(Error::Timeout)));
        assert_eq!(engine.current_state(), EngineState::TimedOut);
        assert!(!engine.can_read_back());
    }
}

#[test]
fn caller_may_wait_again_after_a_timeout() {
    let mut engine = ExecutionEngine::new();
    engine.submit();
    assert!(engine.wait(WaitOutcome::Expired).is_err());
    assert!(engine.can_wait());
    assert!(engine.wait(WaitOutcome::Signaled).is_ok());
    assert_eq!(engine.current_state(), EngineState::Completed);
    assert!(engine.can_read_back());
}

#[test]
fn wait_result_codes_are_classified() {
    assert!(matches!(classify_wait(0), Ok(WaitOutcome::Signaled)));
    assert!(matches!(classify_wait(2), Ok(WaitOutcome::Expired)));
    assert!(matches!(classify_wait(-4), Err(Error::Driver(-4))));
    assert!(matches!(classify_wait(1), Err(Error::Driver(1))));
    assert!(matches!(classify_wait(i32::MIN), Err(Error::Driver(i32::MIN))));
    match classify_wait(-4) {
        Ok(_) => panic!("a lost device was taken for an outcome"),
        Err(e) => assert_eq!(e.message(), "driver call failed"),
    }
}

#[test]
fn timeout_code_ends_in_a_timeout_error() {
    let mut engine = ExecutionEngine::new();
    engine.submit();
    let outcome = classify_wait(2).expect("timeout is an outcome");
    assert!(matches!(engine.wait(outcome), Err(Error::Timeout)));
    assert_eq!(engine.current_state(), EngineState::TimedOut);
}
