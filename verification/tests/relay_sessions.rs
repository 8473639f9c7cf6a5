use logs_stream::relay::events::{StreamEndReason, StreamEvent};
use logs_stream::relay::manager::{new_stream_id, StreamManager};
use logs_stream::relay::pump::{
    setup_failure_events, IncomingMessage, PumpEvent, PumpState, SetupStage, StreamCommand,
};
use logs_stream::relay::types::{
    DeliverPolicy, QueryDeliverPolicy, QueryReplayPolicy, ReplayPolicy, StreamCreateQuery,
};

fn sorted(mut v: Vec<String>) -> Vec<String> {
    v.sort();
    v
}

#[test]
fn registry_indices_follow_sessions() {
    let mut m: StreamManager<u32> = StreamManager::new();
    assert_eq!(m.total_active(), 0);
    m.register("s1".to_string(), "runA".to_string(), 1);
    m.register("s2".to_string(), "runA".to_string(), 2);
    m.register("s3".to_string(), "runB".to_string(), 3);
    assert_eq!(m.total_active(), 3);
    assert_eq!(m.session_count_for("runA"), 2);
    assert_eq!(m.session_count_for("runB"), 1);
    assert_eq!(m.session_count_for("runC"), 0);
    assert_eq!(sorted(m.sessions_for("runA")), vec!["s1".to_string(), "s2".to_string()]);
    assert_eq!(m.get("s2"), Some(&2));
    assert_eq!(m.get("nope"), None);

    m.unregister("s1");
    assert_eq!(m.session_count_for("runA"), 1);
    assert_eq!(m.get("s1"), None);
    m.unregister("s2");
    assert_eq!(m.session_count_for("runA"), 0);
    assert!(m.sessions_for("runA").is_empty());
    assert_eq!(m.total_active(), 1);
    m.unregister("unknown");
    assert_eq!(m.total_active(), 1);
}

#[test]
fn registry_reregistration_moves_session() {
    let mut m: StreamManager<&str> = StreamManager::new();
    m.register("s".to_string(), "run1".to_string(), "first");
    m.register("s".to_string(), "run2".to_string(), "second");
    assert_eq!(m.total_active(), 1);
    assert_eq!(m.session_count_for("run1"), 0);
    assert_eq!(m.session_count_for("run2"), 1);
    assert_eq!(m.get("s"), Some(&"second"));
}

#[test]
fn register_then_unregister_restores() {
    let mut m: StreamManager<u8> = StreamManager::new();
    m.register("a".to_string(), "r".to_string(), 0);
    m.register("b".to_string(), "r".to_string(), 0);
    m.unregister("b");
    assert_eq!(m.sessions_for("r"), vec!["a".to_string()]);
    assert_eq!(m.total_active(), 1);
}

#[test]
fn stream_ids_are_ulids() {
    let a = new_stream_id();
    let b = new_stream_id();
    assert_eq!(a.len(), 26);
    assert!(a.chars().all(|c| "0123456789ABCDEFGHJKMNPQRSTVWXYZ".contains(c)));
    assert_ne!(a, b);
}

fn message(subject: &str, payload: &[u8]) -> PumpEvent {
    PumpEvent::Message(IncomingMessage {
        subject: subject.to_string(),
        info: Some((5, 2_000_000)),
        payload: payload.to_vec(),
    })
}

fn running(run_id: &str) -> PumpState {
    let (p, first) = PumpState::start(run_id.to_string(), "sid".to_string());
    assert!(matches!(first, StreamEvent::Connected(ref id) if id == "sid"));
    p
}

#[test]
fn pump_forwards_logs_and_heartbeats() {
    let mut p = running("run1");
    let a = p.step(PumpEvent::HeartbeatTick);
    assert!(matches!(a.events.as_slice(), [StreamEvent::Heartbeat]));
    assert!(!a.ack && !a.finished && !a.reset_idle);
    let a = p.step(message("logs.ns.app.comp.run1", b"line"));
    assert!(a.ack && !a.hold && a.reset_heartbeat && a.reset_idle && !a.finished);
    assert_eq!(a.released, 0);
    match a.events.as_slice() {
        [StreamEvent::Log(l)] => {
            assert_eq!(l.sequence_id, 5);
            assert_eq!(l.timestamp_ms, 2);
            assert_eq!(l.namespace, "ns");
            assert_eq!(l.run_id, "run1");
            assert_eq!(l.raw_data, "line");
        }
        _ => panic!("expected a log event"),
    }
}

#[test]
fn pump_pause_holds_and_resume_delivers() {
    let mut p = running("r");
    assert!(p.wants_messages());
    let a = p.step(PumpEvent::Command(StreamCommand::Pause));
    assert!(a.events.is_empty() && !a.finished);
    assert!(p.paused);
    assert!(!p.wants_messages());
    let a = p.step(PumpEvent::HeartbeatTick);
    assert!(a.events.is_empty());
    let a = p.step(message("logs.a.b.c.r", b"x"));
    assert!(!a.ack && a.hold && a.reset_idle);
    assert!(a.events.is_empty());
    assert!(!a.reset_heartbeat);
    let a = p.step(message("logs.a.b.c.r", b"y"));
    assert!(a.hold);
    assert_eq!(p.held.len(), 2);
    let a = p.step(PumpEvent::Command(StreamCommand::Resume));
    assert!(!p.paused);
    assert!(p.held.is_empty());
    assert_eq!(a.released, 2);
    assert!(a.reset_heartbeat && !a.ack && !a.hold);
    let texts: Vec<String> = a
        .events
        .iter()
        .map(|e| match e {
            StreamEvent::Log(l) => l.raw_data.clone(),
            _ => panic!("expected log events"),
        })
        .collect();
    assert_eq!(texts, vec!["x".to_string(), "y".to_string()]);
    let a = p.step(message("logs.a.b.c.r", b"z"));
    assert!(matches!(a.events.as_slice(), [StreamEvent::Log(_)]));
    assert!(a.ack);
}

#[test]
fn pump_resume_without_held_messages() {
    let mut p = running("r");
    let a = p.step(PumpEvent::Command(StreamCommand::Resume));
    assert!(a.events.is_empty());
    assert_eq!(a.released, 0);
    assert!(!a.reset_heartbeat);
}

#[test]
fn pump_errors_are_transient() {
    let mut p = running("r");
    let a = p.step(PumpEvent::NatsError("timeout".to_string()));
    assert!(matches!(a.events.as_slice(), [StreamEvent::Error(m)] if m == "timeout"));
    assert!(!a.finished);
    assert!(!p.finished);
}

fn end_reason(event: PumpEvent) -> String {
    let mut p = running("r");
    let a = p.step(event);
    assert!(a.finished && p.finished);
    assert!(!a.ack && !a.reset_idle);
    match a.events.as_slice() {
        [StreamEvent::Terminated(reason)] => reason.to_string(),
        _ => panic!("expected termination"),
    }
}

#[test]
fn pump_end_reasons() {
    assert_eq!(end_reason(PumpEvent::Shutdown), "force_stopped");
    assert_eq!(end_reason(PumpEvent::Command(StreamCommand::Terminate)), "force_stopped");
    assert_eq!(end_reason(PumpEvent::IdleTimeout), "idle_timeout");
    assert_eq!(end_reason(PumpEvent::StreamClosed), "application_ended");
}

#[test]
fn pump_session_order() {
    let mut p = running("r");
    let mut out: Vec<StreamEvent> = Vec::new();
    for e in [
        PumpEvent::HeartbeatTick,
        message("logs.a.b.c.r", b"1"),
        PumpEvent::NatsError("e".to_string()),
        PumpEvent::IdleTimeout,
    ] {
        out.extend(p.step(e).events);
    }
    assert!(p.finished);
    assert_eq!(out.len(), 4);
    assert!(matches!(out[0], StreamEvent::Heartbeat));
    assert!(matches!(out[1], StreamEvent::Log(_)));
    assert!(matches!(out[2], StreamEvent::Error(_)));
    assert!(matches!(out[3], StreamEvent::Terminated(StreamEndReason::IdleTimeout)));
}

#[test]
fn setup_failures() {
    let v = setup_failure_events(SetupStage::StreamLookup, "LOGS", "no stream");
    assert_eq!(v.len(), 2);
    assert!(matches!(&v[0], StreamEvent::Error(m) if m == "NATS stream 'LOGS' not found: no stream"));
    assert!(matches!(&v[1], StreamEvent::Terminated(StreamEndReason::NatsError(m)) if m == "NATS stream 'LOGS' not found: no stream"));
    let v = setup_failure_events(SetupStage::ConsumerCreate, "LOGS", "e1");
    assert!(matches!(&v[0], StreamEvent::Error(m) if m == "Failed to create NATS consumer: e1"));
    let v = setup_failure_events(SetupStage::MessageOpen, "LOGS", "e2");
    assert!(matches!(&v[1], StreamEvent::Terminated(StreamEndReason::NatsError(m)) if m == "Failed to open message stream: e2"));
}

fn query(d: QueryDeliverPolicy, r: QueryReplayPolicy, seq: Option<u64>, t: Option<&str>) -> StreamCreateQuery {
    StreamCreateQuery {
        delivery_policy: d,
        replay_policy: r,
        start_seq: seq,
        start_time: t.map(|s| s.to_string()),
    }
}

#[test]
fn default_query_is_last_original() {
    assert_eq!(QueryDeliverPolicy::default(), QueryDeliverPolicy::Last);
    assert_eq!(QueryReplayPolicy::default(), QueryReplayPolicy::Original);
    let p = query(QueryDeliverPolicy::default(), QueryReplayPolicy::default(), None, None)
        .try_into()
        .unwrap();
    assert_eq!(p.deliver_policy, DeliverPolicy::Last);
    assert_eq!(p.replay_policy, ReplayPolicy::Original);
}

#[test]
fn simple_policies() {
    let p = query(QueryDeliverPolicy::All, QueryReplayPolicy::Instant, None, None).try_into().unwrap();
    assert_eq!((p.deliver_policy.clone(), p.replay_policy), (DeliverPolicy::All, ReplayPolicy::Instant));
    let p = query(QueryDeliverPolicy::New, QueryReplayPolicy::Original, None, None).try_into().unwrap();
    assert_eq!(p.deliver_policy, DeliverPolicy::New);
    let p = query(QueryDeliverPolicy::LastPerSubject, QueryReplayPolicy::Original, None, None)
        .try_into()
        .unwrap();
    assert_eq!(p.deliver_policy, DeliverPolicy::LastPerSubject);
}

#[test]
fn by_start_seq_needs_seq() {
    let p = query(QueryDeliverPolicy::ByStartSeq, QueryReplayPolicy::Original, Some(42), None)
        .try_into()
        .unwrap();
    assert_eq!(p.deliver_policy, DeliverPolicy::ByStartSequence { start_sequence: 42 });
    let e = query(QueryDeliverPolicy::ByStartSeq, QueryReplayPolicy::Original, None, None)
        .try_into()
        .unwrap_err();
    assert_eq!(e, (400, "start_seq must be provided when delivery_policy is by_start_seq"));
}

#[test]
fn by_start_time_parses_rfc3339() {
    let p = query(
        QueryDeliverPolicy::ByStartTime,
        QueryReplayPolicy::Instant,
        None,
        Some("2024-03-01T10:00:00Z"),
    )
    .try_into()
    .unwrap();
    assert_eq!(
        p.deliver_policy,
        DeliverPolicy::ByStartTime {
            start_time_unix_nanos: 1_709_287_200_000_000_000,
            start_time: "2024-03-01T10:00:00Z".to_string()
        }
    );
    let p = query(
        QueryDeliverPolicy::ByStartTime,
        QueryReplayPolicy::Instant,
        None,
        Some("2024-03-01T12:00:00+02:00"),
    )
    .try_into()
    .unwrap();
    assert_eq!(
        p.deliver_policy,
        DeliverPolicy::ByStartTime {
            start_time_unix_nanos: 1_709_287_200_000_000_000,
            start_time: "2024-03-01T12:00:00+02:00".to_string()
        }
    );
}

#[test]
fn by_start_time_errors() {
    let e = query(QueryDeliverPolicy::ByStartTime, QueryReplayPolicy::Original, None, None)
        .try_into()
        .unwrap_err();
    assert_eq!(e, (400, "start_time must be provided when delivery_policy is by_start_time"));
    let e = query(
        QueryDeliverPolicy::ByStartTime,
        QueryReplayPolicy::Original,
        None,
        Some("yesterday"),
    )
    .try_into()
    .unwrap_err();
    assert_eq!(e, (400, "start_time must be a valid RFC3339 date-time string"));
}

#[test]
fn resolution_from_parsed_time() {
    let q = query(QueryDeliverPolicy::ByStartTime, QueryReplayPolicy::Original, None, Some("t"));
    let p = q.clone().policies_from_parsed(Some(5)).unwrap();
    assert_eq!(
        p.deliver_policy,
        DeliverPolicy::ByStartTime { start_time_unix_nanos: 5, start_time: "t".to_string() }
    );
    let e = q.policies_from_parsed(None).unwrap_err();
    assert_eq!(e.1, "start_time must be a valid RFC3339 date-time string");
}

#[test]
fn registry_total_is_sum_of_run_counts() {
    let mut m: StreamManager<u8> = StreamManager::new();
    m.register("a".to_string(), "r1".to_string(), 0);
    m.register("b".to_string(), "r1".to_string(), 0);
    m.register("c".to_string(), "r2".to_string(), 0);
    m.register("d".to_string(), "r3".to_string(), 0);
    m.register("c".to_string(), "r3".to_string(), 1);
    let runs = ["r1", "r2", "r3"];
    let sum: usize = runs.iter().map(|r| m.session_count_for(r)).sum();
    assert_eq!(sum, m.total_active());
    assert_eq!(m.total_active(), 4);
    for r in runs {
        let listed = m.sessions_for(r);
        assert_eq!(listed.len(), m.session_count_for(r));
        for id in &listed {
            assert!(m.get(id).is_some());
        }
    }
    assert_eq!(m.get("c"), Some(&1));
}
