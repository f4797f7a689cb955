use quicktrans::error::AppError;
use quicktrans::llm::StreamEvent;
use quicktrans::orchestrator::{
    failure_record, mode_label, route_capture, success_record, AfterCapture, Orchestrator,
    StreamAction, StreamRun,
};
use quicktrans::text_handler::CaptureMode;

// Scenario: a second trigger arriving while the first run is active is
// dropped, so exactly one run is created.
#[test]
fn second_trigger_within_run_is_dropped() {
    let mut orch = Orchestrator::new();
    assert!(orch.on_trigger(true));
    assert!(!orch.on_trigger(true));
    assert!(orch.active);
    orch.finish_run();
    assert!(orch.on_trigger(true));
}

#[test]
fn disabled_feature_drops_triggers_silently() {
    let mut orch = Orchestrator::new();
    assert!(!orch.on_trigger(false));
    assert!(!orch.active);
}

// Scenario: deltas are typed in arrival order, the final statistics close
// the stream, and nothing is typed after that.
#[test]
fn stream_deltas_are_typed_in_order() {
    let mut run = StreamRun::new();
    match run.on_stream_event(StreamEvent::Delta("Hol".to_string())) {
        StreamAction::TypeChunk(c) => assert_eq!(c, "Hol"),
        a => panic!("expected a typed chunk, got {:?}", a),
    }
    match run.on_stream_event(StreamEvent::Delta("a!".to_string())) {
        StreamAction::TypeChunk(c) => assert_eq!(c, "a!"),
        a => panic!("expected a typed chunk, got {:?}", a),
    }
    assert!(matches!(
        run.on_stream_event(StreamEvent::Done { completion_tokens: Some(5), duration_ms: 100 }),
        StreamAction::Nothing
    ));
    assert!(matches!(
        run.on_stream_event(StreamEvent::Delta("late".to_string())),
        StreamAction::Nothing
    ));
    assert_eq!(run.typed, "Hola!");
    assert_eq!(run.completion_tokens, Some(5));
    assert_eq!(run.duration_ms, 100);
    assert!(run.failed.is_none());
}

#[test]
fn stream_error_asks_for_rollback() {
    let mut run = StreamRun::new();
    run.on_stream_event(StreamEvent::Delta("partial".to_string()));
    match run.on_stream_event(StreamEvent::Error("boom".to_string())) {
        StreamAction::Rollback => {}
        a => panic!("expected a rollback, got {:?}", a),
    }
    assert_eq!(run.failed, Some("boom".to_string()));
    assert!(matches!(
        run.on_stream_event(StreamEvent::Delta("more".to_string())),
        StreamAction::Nothing
    ));
    assert_eq!(run.typed, "partial");
}

#[test]
fn capture_outcomes_are_routed() {
    assert!(matches!(
        route_capture(false, Err(AppError::Clipboard("x".to_string()))),
        AfterCapture::SilentStop
    ));
    assert!(matches!(route_capture(false, Ok("".to_string())), AfterCapture::SilentStop));
    match route_capture(false, Ok("hi".to_string())) {
        AfterCapture::Batch(t) => assert_eq!(t, "hi"),
        a => panic!("expected the batch path, got {:?}", a),
    }
    match route_capture(true, Ok("hi".to_string())) {
        AfterCapture::StreamDelete(t) => assert_eq!(t, "hi"),
        a => panic!("expected the streaming path, got {:?}", a),
    }
}

#[test]
fn completion_records_carry_the_run() {
    let r = success_record(
        CaptureMode::Selected,
        "en-US".to_string(),
        "你好".to_string(),
        "Hello".to_string(),
        Some(92),
        1200,
    );
    assert!(r.success);
    assert_eq!(r.char_count, 2);
    assert_eq!(r.completion_tokens, Some(92));
    assert_eq!(r.tokens_per_second_milli, Some(76666));
    assert_eq!(mode_label(r.mode), "selected");

    let e = AppError::Network("down".to_string());
    let f = failure_record(CaptureMode::Full, "en-US".to_string(), 0, 40, &e);
    assert!(!f.success);
    assert_eq!(f.char_count, 0);
    assert_eq!(f.error_category.unwrap().label(), "network");
    assert_eq!(mode_label(f.mode), "full");
    assert!(f.completion_tokens.is_none());
}
