use logs_stream::archiver::batch::{parse_subject, SubjectMeta};
use logs_stream::generator::{generator_subject, log_entry_text, publish_interval_micros};
use logs_stream::subject::{log_subject, stream_filter_subject};
use logs_stream::text::{
    chars_of, concat2, concat3, i64_to_decimal, same_text, split_n_exec, string_of,
    trim_end_exec, u64_to_decimal,
};

fn meta(m: &SubjectMeta) -> (&str, &str, &str, &str) {
    (m.namespace.as_str(), m.application.as_str(), m.component.as_str(), m.run_id.as_str())
}

#[test]
fn parse_subject_reads_four_parts() {
    let m = parse_subject("logs.dev.myapp.worker.test123").unwrap();
    assert_eq!(meta(&m), ("dev", "myapp", "worker", "test123"));
}

#[test]
fn parse_subject_keeps_dots_in_run_id() {
    let m = parse_subject("logs.dev.myapp.worker.run.with.dots").unwrap();
    assert_eq!(meta(&m), ("dev", "myapp", "worker", "run.with.dots"));
}

#[test]
fn parse_subject_allows_empty_parts() {
    let m = parse_subject("logs....").unwrap();
    assert_eq!(meta(&m), ("", "", "", ""));
}

#[test]
fn parse_subject_rejects_other_prefix() {
    assert!(parse_subject("metrics.dev.myapp.worker.test123").is_none());
    assert!(parse_subject("log.dev.myapp.worker.test123").is_none());
    assert!(parse_subject("LOGS.dev.myapp.worker.test123").is_none());
}

#[test]
fn parse_subject_rejects_too_few_parts() {
    assert!(parse_subject("logs.job.test123").is_none());
    assert!(parse_subject("logs").is_none());
    assert!(parse_subject("").is_none());
    assert!(parse_subject("logs.a.b.c").is_none());
}

#[test]
fn subject_round_trip_example() {
    let subject = format!("logs.{}.{}.{}.{}", "prod", "billing", "api", "run-42");
    let m = parse_subject(&subject).unwrap();
    assert_eq!(meta(&m), ("prod", "billing", "api", "run-42"));
}

#[test]
fn filter_subjects() {
    assert_eq!(stream_filter_subject("abc"), "logs.*.*.*.abc");
    assert_eq!(log_subject("ns", "app", "comp", "abc"), "logs.ns.app.comp.abc");
    assert_eq!(
        generator_subject("dev", "myapp", "worker", "test123"),
        "logs.dev.myapp.worker.test123"
    );
    let m = parse_subject(&generator_subject("dev", "myapp", "worker", "test123")).unwrap();
    assert_eq!(
        (m.namespace.as_str(), m.application.as_str(), m.component.as_str(), m.run_id.as_str()),
        ("dev", "myapp", "worker", "test123")
    );
}

#[test]
fn split_n_matches_std_splitn() {
    let cases = ["a.b.c", "a..b", ".", "", "a.b.c.d.e.f.g", "no dots", "x.", ".x"];
    for s in cases {
        for n in 1..7usize {
            let expected: Vec<String> = s.splitn(n, '.').map(|p| p.to_string()).collect();
            assert_eq!(split_n_exec(s, n, '.'), expected, "splitn({:?}, {})", s, n);
        }
    }
}

#[test]
fn split_n_non_ascii() {
    assert_eq!(split_n_exec("é.ü.ß", 2, '.'), vec!["é".to_string(), "ü.ß".to_string()]);
}

#[test]
fn decimal_rendering() {
    assert_eq!(u64_to_decimal(0), "0");
    assert_eq!(u64_to_decimal(7), "7");
    assert_eq!(u64_to_decimal(10), "10");
    assert_eq!(u64_to_decimal(1234567890), "1234567890");
    assert_eq!(u64_to_decimal(u64::MAX), u64::MAX.to_string());
    assert_eq!(i64_to_decimal(0), "0");
    assert_eq!(i64_to_decimal(-5), "-5");
    assert_eq!(i64_to_decimal(42), "42");
    assert_eq!(i64_to_decimal(i64::MIN), i64::MIN.to_string());
    assert_eq!(i64_to_decimal(i64::MAX), i64::MAX.to_string());
}

#[test]
fn trim_end_matches_std() {
    for s in ["http://host/", "http://host///", "http://host", "", "///", "a/b/"] {
        assert_eq!(trim_end_exec(s, '/'), s.trim_end_matches('/'));
    }
}

#[test]
fn char_helpers() {
    let v = chars_of("héllo");
    assert_eq!(v, vec!['h', 'é', 'l', 'l', 'o']);
    assert_eq!(string_of(&v, 1, 4), "éll");
    assert_eq!(concat2("ab", "cd"), "abcd");
    assert_eq!(concat3("a", "-", "b"), "a-b");
    assert!(same_text("logs", "logs"));
    assert!(!same_text("logs", "log"));
}

#[test]
fn generator_texts() {
    assert_eq!(log_entry_text(0, "test123"), "Log entry #0 for run test123");
    assert_eq!(log_entry_text(42, "r"), "Log entry #42 for run r");
    assert_eq!(publish_interval_micros(10), 100_000);
    assert_eq!(publish_interval_micros(3), 333_333);
    assert_eq!(publish_interval_micros(2_000_000), 0);
}

#[test]
fn parsed_subject_rebuilds_the_subject() {
    for s in ["logs.dev.myapp.worker.test123", "logs.a.b.c.d.e", "logs...."] {
        let m = parse_subject(s).unwrap();
        let rebuilt = log_subject(&m.namespace, &m.application, &m.component, &m.run_id);
        assert_eq!(rebuilt, s);
        assert!(!m.namespace.contains('.') && !m.application.contains('.') && !m.component.contains('.'));
    }
}
