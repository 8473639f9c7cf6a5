use logs_stream::archiver::batch::{
    build_record, epoch_micros_from, now_epoch_micros, record_fields, ArchiveRecord, BatchCycle,
    FieldValue,
};
use logs_stream::archiver::config::OpenObserveSettings;
use logs_stream::archiver::ingest::{
    ingest_failure_message, next_backoff_secs, OpenObserveClient, INITIAL_BACKOFF_SECS,
    MAX_BACKOFF_SECS,
};
use logs_stream::nats_utils::{nats_credentials, NatsConfig};
use logs_stream::relay::types::{DeliverPolicy, ReplayPolicy};
use logs_stream::server::config::RelaySettings;
use logs_stream::server::controllers::{
    log_client_step, stop_stream_reply, stream_error_frame, PayloadReceived,
};
use logs_stream::server::nats::{job_consumer_plan, log_line, stream_error_text};
use logs_stream::server::stream_manager::{
    relay_consumer_plan, relay_step, RelayAction, RelayEvent, StreamManager,
};

fn settings(url: &str) -> OpenObserveSettings {
    OpenObserveSettings {
        url: url.to_string(),
        org: "default".to_string(),
        stream: "logs".to_string(),
        user: "root@example.com".to_string(),
        password: "Complexpass#123".to_string(),
    }
}

#[test]
fn openobserve_endpoint_and_auth() {
    let c = OpenObserveClient::new(&settings("http://localhost:5080/"));
    assert_eq!(c.endpoint(), "http://localhost:5080/api/default/logs/_json");
    assert_eq!(c.auth_header(), "Basic cm9vdEBleGFtcGxlLmNvbTpDb21wbGV4cGFzcyMxMjM=");
    let c = OpenObserveClient::new(&settings("http://localhost:5080"));
    assert_eq!(c.endpoint(), "http://localhost:5080/api/default/logs/_json");
    let c = OpenObserveClient::new(&settings("http://h///"));
    assert_eq!(c.endpoint(), "http://h/api/default/logs/_json");
}

#[test]
fn openobserve_auth_non_ascii() {
    let mut s = settings("http://h");
    s.user = "us".to_string();
    s.password = "pä".to_string();
    let c = OpenObserveClient::new(&s);
    assert_eq!(c.auth_header(), "Basic dXM6cMOk");
}

#[test]
fn backoff_doubles_up_to_a_minute() {
    let mut b = INITIAL_BACKOFF_SECS;
    let mut seen = vec![b];
    for _ in 0..8 {
        b = next_backoff_secs(b);
        seen.push(b);
    }
    assert_eq!(seen, vec![1, 2, 4, 8, 16, 32, 60, 60, 60]);
    assert_eq!(next_backoff_secs(MAX_BACKOFF_SECS), 60);
    assert_eq!(next_backoff_secs(0), 0);
}

#[test]
fn ingest_failure_text() {
    assert_eq!(
        ingest_failure_message("500 Internal Server Error", "oops"),
        "OpenObserve returned 500 Internal Server Error: oops"
    );
}

#[test]
fn micros_conversion() {
    assert_eq!(epoch_micros_from(None), 0);
    assert_eq!(epoch_micros_from(Some((1, 500_999))), 1_000_500);
    assert_eq!(epoch_micros_from(Some((1_709_287_200, 123_456_789))), 1_709_287_200_123_456);
    let now = now_epoch_micros();
    assert!(now > 1_600_000_000_000_000);
}

#[test]
fn records_for_parsed_and_raw_subjects() {
    match build_record("logs.dev.myapp.worker.r1", b"hello", 99) {
        ArchiveRecord::Parsed { timestamp, namespace, application, component, run_id, log } => {
            assert_eq!(timestamp, 99);
            assert_eq!(namespace, "dev");
            assert_eq!(application, "myapp");
            assert_eq!(component, "worker");
            assert_eq!(run_id, "r1");
            assert_eq!(log, "hello");
        }
        _ => panic!("expected a parsed record"),
    }
    match build_record("logs.job.r1", &[0x61, 0xff, 0x62], 5) {
        ArchiveRecord::Raw { timestamp, subject, log } => {
            assert_eq!(timestamp, 5);
            assert_eq!(subject, "logs.job.r1");
            assert_eq!(log, "a\u{FFFD}b");
        }
        _ => panic!("expected a raw record"),
    }
}

#[test]
fn batch_cycle_releases_acks_only_on_success() {
    let empty: BatchCycle<u32> = BatchCycle::new();
    assert!(empty.finish().is_none());

    let mut c: BatchCycle<u32> = BatchCycle::new();
    c.on_message("logs.a.b.c.d", b"one", 10);
    c.on_message("other", b"two", 11);
    let batch = c.finish().unwrap();
    assert_eq!(batch.count(), 2);
    assert!(matches!(&batch.records_to_send()[0], ArchiveRecord::Parsed { log, .. } if log == "one"));
    assert!(matches!(&batch.records_to_send()[1], ArchiveRecord::Raw { subject, .. } if subject == "other"));
    let batch = match batch.settle(None) {
        Err(b) => b,
        Ok(_) => panic!("no reply must not release the acknowledgements"),
    };
    let batch = match batch.settle(Some(500)) {
        Err(b) => b,
        Ok(_) => panic!("a server error must not release the acknowledgements"),
    };
    let batch = match batch.settle(Some(199)) {
        Err(b) => b,
        Ok(_) => panic!("a 1xx status must not release the acknowledgements"),
    };
    let batch = match batch.settle(Some(300)) {
        Err(b) => b,
        Ok(_) => panic!("a redirect must not release the acknowledgements"),
    };
    assert_eq!(batch.count(), 2);
    assert!(matches!(&batch.records_to_send()[1], ArchiveRecord::Raw { subject, .. } if subject == "other"));
    match batch.settle(Some(200)) {
        Ok(acks) => assert_eq!(acks, vec![10, 11]),
        Err(_) => panic!("a 200 releases the acknowledgements"),
    }
}

#[test]
fn batch_settles_only_on_200() {
    let mut c: BatchCycle<u32> = BatchCycle::new();
    c.on_message("logs.a.b.c.d", b"one", 7);
    let batch = c.finish().unwrap();
    let batch = match batch.settle(Some(204)) {
        Err(b) => b,
        Ok(_) => panic!("only 200 OK releases the acknowledgements"),
    };
    assert_eq!(batch.settle(Some(200)).ok(), Some(vec![7]));
}

#[test]
fn record_field_layout() {
    let parsed = build_record("logs.ns.app.comp.run", b"hello", 42);
    let fields = record_fields(&parsed);
    let keys: Vec<&str> = fields.iter().map(|(k, _)| k.as_str()).collect();
    assert_eq!(keys, vec!["_timestamp", "namespace", "application", "component", "run_id", "log"]);
    assert_eq!(fields[0].1, FieldValue::Number(42));
    assert_eq!(fields[1].1, FieldValue::Text("ns".to_string()));
    assert_eq!(fields[4].1, FieldValue::Text("run".to_string()));
    assert_eq!(fields[5].1, FieldValue::Text("hello".to_string()));
    let raw = build_record("other.subject", b"x", 7);
    let fields = record_fields(&raw);
    assert_eq!(
        fields,
        vec![
            ("_timestamp".to_string(), FieldValue::Number(7)),
            ("subject".to_string(), FieldValue::Text("other.subject".to_string())),
            ("log".to_string(), FieldValue::Text("x".to_string())),
        ]
    );
}

#[test]
fn credentials_need_both() {
    let u = Some("u".to_string());
    let p = Some("p".to_string());
    assert_eq!(nats_credentials(&u, &p), Some(("u".to_string(), "p".to_string())));
    assert_eq!(nats_credentials(&u, &None), None);
    assert_eq!(nats_credentials(&None, &p), None);
    let c = NatsConfig { url: "nats://x".to_string(), username: None, password: None };
    assert_eq!(c.credentials(), None);
}

#[test]
fn shared_stream_registry() {
    let mut m: StreamManager<u8> = StreamManager::new();
    assert_eq!(m.active_count(), 0);
    assert_eq!(m.lookup("r"), None);
    m.install("r", 100, 1);
    assert_eq!(m.lookup("r"), Some(&1));
    m.install("r", 200, 2);
    assert_eq!(m.lookup("r"), Some(&2));
    assert_eq!(m.active_count(), 1);
    assert!(m.remove("r"));
    assert!(!m.remove("r"));
    assert_eq!(m.active_count(), 0);
}

#[test]
fn shared_stream_get_or_install() {
    let mut m: StreamManager<u8> = StreamManager::new();
    assert!(!m.get_or_install("r", true, 10, 1));
    assert_eq!(m.lookup("r"), Some(&1));
    assert!(m.get_or_install("r", true, 90, 9));
    assert_eq!(m.lookup("r"), Some(&1));
    assert!(!m.get_or_install("r", false, 20, 2));
    assert_eq!(m.lookup("r"), Some(&2));
    assert_eq!(m.active_count(), 1);
}

#[test]
fn shared_stream_removes_only_its_own_entry() {
    let mut m: StreamManager<u8> = StreamManager::new();
    m.install("r", 10, 1);
    m.install("q", 30, 3);
    // a successor took the run's entry: the first stream's key no longer matches
    m.install("r", 20, 2);
    assert!(!m.remove_if_current("r", 10));
    assert_eq!(m.lookup("r"), Some(&2));
    assert!(m.remove_if_current("r", 20));
    assert_eq!(m.lookup("r"), None);
    assert!(!m.remove_if_current("r", 20));
    assert_eq!(m.lookup("q"), Some(&3));
    assert_eq!(m.active_count(), 1);
}

#[test]
fn relay_pump_steps() {
    assert!(matches!(relay_step(RelayEvent::Shutdown), RelayAction::Exit));
    assert!(matches!(relay_step(RelayEvent::StreamEnded), RelayAction::Exit));
    assert!(matches!(relay_step(RelayEvent::IdleTimeout), RelayAction::Exit));
    assert!(matches!(relay_step(RelayEvent::StreamError), RelayAction::Continue));
    match relay_step(RelayEvent::Message(b"abc".to_vec())) {
        RelayAction::AckAndBroadcast(p) => assert_eq!(p, b"abc".to_vec()),
        _ => panic!("expected broadcast"),
    }
}

#[test]
fn consumer_plans() {
    let cfg = RelaySettings { idle_timeout_secs: 300, broadcast_capacity: 4096, sse_keepalive_secs: 15 };
    let p = relay_consumer_plan("run9", &cfg);
    assert_eq!(p.filter_subject, "logs.*.*.*.run9");
    assert_eq!(p.inactive_threshold_secs, 330);
    assert_eq!(p.deliver_policy, DeliverPolicy::New);
    assert_eq!(p.replay_policy, ReplayPolicy::Instant);
    let j = job_consumer_plan("run9");
    assert_eq!(j.filter_subject, "logs.*.*.*.run9");
    assert_eq!(j.inactive_threshold_secs, 60);
    assert_eq!(j.deliver_policy, DeliverPolicy::All);
    assert_eq!(j.replay_policy, ReplayPolicy::Instant);
}

#[test]
fn log_client_frames() {
    let s = log_client_step(PayloadReceived::Payload(b"line 1".to_vec()));
    let f = s.frame.unwrap();
    assert_eq!((f.event, f.id, f.data.as_str()), (None, None, "line 1"));
    assert!(!s.done);
    let s = log_client_step(PayloadReceived::Lagged(3));
    let f = s.frame.unwrap();
    assert_eq!(f.event.as_deref(), Some("warning"));
    assert_eq!(f.data, "Skipped 3 messages due to slow consumption");
    let s = log_client_step(PayloadReceived::Closed);
    assert!(s.done && s.frame.is_none());
    let f = stream_error_frame("no stream");
    assert_eq!(f.event.as_deref(), Some("error"));
    assert_eq!(f.data, "Failed to connect to log stream: no stream");
}

#[test]
fn stop_replies() {
    let (status, body) = stop_stream_reply(true, "r".to_string());
    assert_eq!(status, 200);
    assert!(body.stopped);
    assert_eq!(body.run_id, "r");
    let (status, body) = stop_stream_reply(false, "x".to_string());
    assert_eq!(status, 404);
    assert!(!body.stopped);
}

#[test]
fn job_log_lines() {
    assert_eq!(log_line(b"ok"), "ok");
    assert_eq!(log_line(&[0xC3, 0x28]), "\u{FFFD}(");
    assert_eq!(stream_error_text("bad"), "Stream error: bad");
}
