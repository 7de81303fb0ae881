use ask::{AgentEvent, EventBus, SessionIdHook, StreamSignal, TurnDriver, TurnError, TurnStep};

#[test]
fn chunk_before_deadline_continues() {
    let d = TurnDriver::start(1_000);
    assert!(matches!(d.observe(2_000, StreamSignal::Chunk), TurnStep::Continue));
}

#[test]
fn end_before_deadline_succeeds() {
    let d = TurnDriver::start(1_000);
    assert!(matches!(d.observe(120_999, StreamSignal::Ended), TurnStep::Finish(Ok(()))));
}

#[test]
fn failed_chunk_fails_with_its_message() {
    let d = TurnDriver::start(0);
    match d.observe(5, StreamSignal::ChunkFailed("connection reset".to_string())) {
        TurnStep::Finish(Err(TurnError::Backend(m))) => assert_eq!(m, "connection reset"),
        other => panic!("unexpected step {:?}", other),
    }
}

#[test]
fn deadline_signal_times_out() {
    let d = TurnDriver::start(0);
    assert!(matches!(d.observe(10, StreamSignal::DeadlineElapsed), TurnStep::Finish(Err(TurnError::Timeout))));
}

#[test]
fn past_deadline_times_out_whatever_arrives() {
    let d = TurnDriver::start(1_000);
    assert!(matches!(d.observe(121_000, StreamSignal::Ended), TurnStep::Finish(Err(TurnError::Timeout))));
    assert!(matches!(d.observe(500_000, StreamSignal::Chunk), TurnStep::Finish(Err(TurnError::Timeout))));
}

#[test]
fn remaining_time() {
    let d = TurnDriver::start(1_000);
    assert_eq!(d.remaining_ms(1_000), 120_000);
    assert_eq!(d.remaining_ms(31_000), 90_000);
    assert_eq!(d.remaining_ms(121_000), 0);
    assert_eq!(d.remaining_ms(900_000), 0);
    assert_eq!(d.remaining_ms(10), 120_000);
}

#[test]
fn clock_reading_earlier_counts_as_no_time() {
    let d = TurnDriver::start(5_000);
    assert!(matches!(d.observe(0, StreamSignal::Chunk), TurnStep::Continue));
}

#[test]
fn timeout_keeps_emitted_events() {
    let mut hook = SessionIdHook::new(EventBus::new());
    hook.begin_turn("slow".to_string());
    let d = TurnDriver::start(0);
    hook.on_completion_call();
    hook.on_text_delta("partial", "partial");
    assert!(matches!(d.observe(130_000, StreamSignal::Chunk), TurnStep::Finish(Err(TurnError::Timeout))));
    assert_eq!(
        hook.get_events(),
        vec![AgentEvent::UserMessage("slow".to_string()), AgentEvent::Text("partial".to_string())]
    );
}

#[test]
fn error_messages() {
    assert_eq!(TurnError::Timeout.message(), "deadline has elapsed");
    assert_eq!(TurnError::Backend("bad gateway".to_string()).message(), "bad gateway");
}
