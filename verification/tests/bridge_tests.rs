use ping_rs::bridge::{
    classify_wait_status, start_verdict, CompletionBridge, CompletionState, PollAction,
    WaitOutcome, WAIT_FAILED, WAIT_OBJECT_0, WAIT_TIMEOUT,
};
use ping_rs::{finalize_result, IpAddress, PingError, PingReply};

#[test]
fn bridge_walks_forward_through_its_states() {
    let mut bridge = CompletionBridge::new();
    assert_eq!(bridge.poll(), PollAction::StartOperation);
    assert_eq!(bridge.poll(), PollAction::ArmAndSuspend);
    assert_eq!(bridge.poll(), PollAction::Suspend);
    assert_eq!(bridge.poll(), PollAction::Suspend);

    let result = Ok(PingReply { address: IpAddress::V4(0x7F000001), rtt: 1 });
    bridge.complete(result);
    assert_eq!(bridge.poll(), PollAction::Complete);
    // Ready is terminal: polling again still reports completion.
    assert_eq!(bridge.poll(), PollAction::Complete);

    let out = bridge.take_result();
    let reply = out.unwrap();
    assert_eq!(reply.address, IpAddress::V4(0x7F000001));
    assert_eq!(reply.rtt, 1);
}

#[test]
fn single_flight_arms_only_once() {
    let mut bridge = CompletionBridge::new();
    let mut arms = 0;
    for _ in 0..10 {
        if bridge.poll() == PollAction::ArmAndSuspend {
            arms += 1;
        }
    }
    assert_eq!(arms, 1);
}

#[test]
fn completion_stores_the_error_it_was_given() {
    let mut bridge = CompletionBridge::new();
    bridge.poll();
    bridge.poll();
    bridge.complete(Err(PingError::TimedOut));
    assert!(matches!(bridge.state, CompletionState::Ready(Err(PingError::TimedOut))));
    assert!(matches!(bridge.take_result(), Err(PingError::TimedOut)));
}

#[test]
fn wait_status_classification() {
    assert!(matches!(classify_wait_status(WAIT_TIMEOUT, 0), WaitOutcome::StillPending));
    assert!(matches!(classify_wait_status(WAIT_OBJECT_0, 0), WaitOutcome::ReplyReady));
    let r = classify_wait_status(WAIT_FAILED, 6);
    assert!(matches!(
        r,
        WaitOutcome::Failed(PingError::OsError(6, m)) if m == "Wait event failed"
    ));
    let r = classify_wait_status(42, 0);
    assert!(matches!(
        r,
        WaitOutcome::Failed(PingError::OsError(42, m)) if m == "Unexpected return code!"
    ));
}

#[test]
fn start_verdict_suspends_only_on_pending() {
    assert!(start_verdict(Err(PingError::IoPending)).is_none());
    assert!(matches!(start_verdict(Ok(())), Some(Ok(()))));
    assert!(matches!(
        start_verdict(Err(PingError::TimedOut)),
        Some(Err(PingError::TimedOut))
    ));
}

#[test]
fn pending_surfaces_as_timeout() {
    // An operation still pending when the synchronous wait ends has timed
    // out; the internal marker never reaches a caller.
    let out = finalize_result(Err(PingError::IoPending));
    assert!(matches!(out, Err(PingError::TimedOut)));

    let ok = finalize_result(Ok(PingReply { address: IpAddress::V6(1), rtt: 3 }));
    assert!(ok.is_ok());

    let other = finalize_result(Err(PingError::BadParameter("timeout")));
    assert!(matches!(other, Err(PingError::BadParameter("timeout"))));
}
