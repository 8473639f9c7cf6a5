use logs_stream::relay::events::{
    enrich_message, log_to_json, EnrichedLog, StreamEndReason, StreamEvent,
};
use logs_stream::relay::session::{client_step, connected_frame, Received};
use logs_stream::sse::SseFrame;

fn sample_log() -> EnrichedLog {
    EnrichedLog {
        sequence_id: 42,
        timestamp_ms: 1709287200123,
        namespace: "dev".to_string(),
        app: "myapp".to_string(),
        component: "worker".to_string(),
        run_id: "test123".to_string(),
        raw_data: "hello \"world\"\n\ttab\u{1}".to_string(),
    }
}

fn frame(f: &SseFrame) -> (Option<&str>, Option<&str>, &str) {
    (f.event.as_deref(), f.id.as_deref(), f.data.as_str())
}

#[test]
fn event_names() {
    assert_eq!(StreamEvent::Connected("x".to_string()).event_name(), "connected");
    assert_eq!(StreamEvent::Heartbeat.event_name(), "heartbeat");
    assert_eq!(StreamEvent::Log(sample_log()).event_name(), "log");
    assert_eq!(StreamEvent::Warning("w".to_string()).event_name(), "warning");
    assert_eq!(StreamEvent::Error("e".to_string()).event_name(), "error");
    assert_eq!(
        StreamEvent::Terminated(StreamEndReason::IdleTimeout).event_name(),
        "terminated"
    );
}

#[test]
fn only_terminated_is_terminal() {
    assert!(StreamEvent::Terminated(StreamEndReason::ForceStopped).is_terminal());
    assert!(!StreamEvent::Heartbeat.is_terminal());
    assert!(!StreamEvent::Connected("x".to_string()).is_terminal());
    assert!(!StreamEvent::Log(sample_log()).is_terminal());
    assert!(!StreamEvent::Warning("w".to_string()).is_terminal());
    assert!(!StreamEvent::Error("e".to_string()).is_terminal());
}

#[test]
fn end_reason_texts() {
    assert_eq!(StreamEndReason::ApplicationEnded.to_string(), "application_ended");
    assert_eq!(StreamEndReason::IdleTimeout.to_string(), "idle_timeout");
    assert_eq!(StreamEndReason::ForceStopped.to_string(), "force_stopped");
    assert_eq!(
        StreamEndReason::NatsError("boom".to_string()).to_string(),
        "nats_error: boom"
    );
}

#[test]
fn log_json_is_serde_layout() {
    let l = sample_log();
    let json = log_to_json(&l).unwrap();
    let expected = format!(
        "{{\"sequence_id\":42,\"timestamp_ms\":1709287200123,\"namespace\":\"dev\",\"app\":\"myapp\",\"component\":\"worker\",\"run_id\":\"test123\",\"message\":{}}}",
        serde_json::to_string(&l.raw_data).unwrap()
    );
    assert_eq!(json, expected);
    let v: serde_json::Value = serde_json::from_str(&json).unwrap();
    assert_eq!(v["message"].as_str().unwrap(), l.raw_data);
    assert_eq!(v["sequence_id"].as_u64().unwrap(), 42);
}

#[test]
fn log_json_negative_time() {
    let mut l = sample_log();
    l.timestamp_ms = -1500;
    l.raw_data = "x".to_string();
    let json = log_to_json(&l).unwrap();
    assert!(json.contains("\"timestamp_ms\":-1500,"));
    assert!(json.ends_with("\"message\":\"x\"}"));
}

#[test]
fn frames_of_each_event() {
    let f = StreamEvent::Connected("01HXYZ".to_string()).to_sse_frame().unwrap();
    assert_eq!(frame(&f), (Some("connected"), None, "{\"stream_id\":\"01HXYZ\"}"));
    let f = StreamEvent::Heartbeat.to_sse_frame().unwrap();
    assert_eq!(frame(&f), (Some("heartbeat"), None, "heartbeat"));
    let f = StreamEvent::Warning("slow".to_string()).to_sse_frame().unwrap();
    assert_eq!(frame(&f), (Some("warning"), None, "slow"));
    let f = StreamEvent::Error("bad".to_string()).to_sse_frame().unwrap();
    assert_eq!(frame(&f), (Some("error"), None, "bad"));
    let f = StreamEvent::Terminated(StreamEndReason::NatsError("gone".to_string()))
        .to_sse_frame()
        .unwrap();
    assert_eq!(frame(&f), (Some("terminated"), None, "nats_error: gone"));
    let l = sample_log();
    let f = StreamEvent::Log(l.clone()).to_sse_frame().unwrap();
    assert_eq!(f.event.as_deref(), Some("log"));
    assert_eq!(f.id.as_deref(), Some("42"));
    assert_eq!(f.data, log_to_json(&l).unwrap());
}

#[test]
fn connected_frame_escapes_id() {
    let f = connected_frame("a\"b").unwrap();
    assert_eq!(frame(&f), (Some("connected"), None, "{\"stream_id\":\"a\\\"b\"}"));
}

#[test]
fn enrich_parses_subject_and_time() {
    let l = enrich_message(
        "test123",
        "logs.dev.myapp.worker.test123",
        Some((7, 1_709_287_200_123_456_789)),
        b"hello",
    );
    assert_eq!(l.sequence_id, 7);
    assert_eq!(l.timestamp_ms, 1_709_287_200_123);
    assert_eq!(l.namespace, "dev");
    assert_eq!(l.app, "myapp");
    assert_eq!(l.component, "worker");
    assert_eq!(l.run_id, "test123");
    assert_eq!(l.raw_data, "hello");
}

#[test]
fn enrich_short_subject_and_binary_payload() {
    let l = enrich_message("r", "logs.dev", None, &[0xff, 0xfe]);
    assert_eq!(l.sequence_id, 0);
    assert_eq!(l.timestamp_ms, 0);
    assert_eq!(l.namespace, "dev");
    assert_eq!(l.app, "");
    assert_eq!(l.component, "");
    assert_eq!(l.run_id, "r");
    assert_eq!(l.raw_data, "<binary>");
}

#[test]
fn enrich_rounds_negative_time_toward_zero() {
    let l = enrich_message("r", "logs.a.b.c.r", Some((1, -1_500_000)), "é".as_bytes());
    assert_eq!(l.timestamp_ms, -1);
    assert_eq!(l.raw_data, "é");
}

#[test]
fn client_skips_connected_from_pump() {
    let s = client_step(Received::Event(StreamEvent::Connected("id".to_string())));
    assert!(s.frame.is_none());
    assert!(!s.done);
}

#[test]
fn client_forwards_and_ends_on_terminal() {
    let s = client_step(Received::Event(StreamEvent::Heartbeat));
    assert_eq!(frame(s.frame.as_ref().unwrap()), (Some("heartbeat"), None, "heartbeat"));
    assert!(!s.done);
    let s = client_step(Received::Event(StreamEvent::Terminated(StreamEndReason::IdleTimeout)));
    assert_eq!(frame(s.frame.as_ref().unwrap()), (Some("terminated"), None, "idle_timeout"));
    assert!(s.done);
}

#[test]
fn client_lag_warning_and_close() {
    let s = client_step(Received::Lagged(17));
    assert_eq!(
        frame(s.frame.as_ref().unwrap()),
        (Some("warning"), None, "Slow consumer: skipped 17 messages")
    );
    assert!(!s.done);
    let s = client_step(Received::Closed);
    assert!(s.frame.is_none());
    assert!(s.done);
}
