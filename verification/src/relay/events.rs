use vstd::prelude::*;
use vstd::string::*;
use vstd::utf8::{decode_utf8, valid_utf8};

use crate::sse::{SseFrame, opt_text};
use crate::subject::{lemma_subject_round_trip, subject_of, subject_pieces};
use crate::text::{
    concat3, decimal, i64_to_decimal, json_quote, json_string, signed_decimal, split_n_exec,
    u64_to_decimal, utf8_decode,
};

verus! {

// ── EnrichedLog ───────────────────────────────────────────────────────────────

/// An enriched log payload. `raw_data` holds the message text; all other
/// fields are derived from the NATS metadata and subject.
///
/// Subject layout: `logs.<namespace>.<app>.<component>.<run_id>`
#[derive(Clone, Debug)]
pub struct EnrichedLog {
    /// JetStream stream sequence number — doubles as the SSE `id:` field.
    pub sequence_id: u64,
    /// Wall-clock publish time as Unix milliseconds.
    pub timestamp_ms: i64,
    /// The `<namespace>` segment of the NATS subject.
    pub namespace: String,
    /// The `<app>` segment of the NATS subject.
    pub app: String,
    /// The `<component>` segment of the NATS subject.
    pub component: String,
    /// The `<run_id>` of the session.
    pub run_id: String,
    /// The payload decoded as UTF-8, or `"<binary>"` when it is not UTF-8.
    /// Serialized under the key `message`.
    pub raw_data: String,
}

// ── StreamEndReason ───────────────────────────────────────────────────────────

/// Why a managed stream came to an end.
#[derive(Clone, Debug)]
pub enum StreamEndReason {
    /// The application ended the log stream (the NATS message stream closed).
    ApplicationEnded,
    /// No messages arrived for the configured idle-timeout window.
    IdleTimeout,
    /// The session was stopped explicitly.
    ForceStopped,
    /// The background NATS consumer encountered an unrecoverable error.
    NatsError(String),
}

/// The human-readable text of an end reason; the data of `Terminated` events.
pub open spec fn reason_text(r: StreamEndReason) -> Seq<char> {
    match r {
        StreamEndReason::ApplicationEnded => "application_ended"@,
        StreamEndReason::IdleTimeout => "idle_timeout"@,
        StreamEndReason::ForceStopped => "force_stopped"@,
        StreamEndReason::NatsError(msg) => "nats_error: "@ + msg@,
    }
}

impl StreamEndReason {
    /// The human-readable text of the reason (`application_ended`,
    /// `idle_timeout`, `force_stopped`, `nats_error: <msg>`).
    pub fn to_string(&self) -> (s: String)
        ensures
            s@ == reason_text(*self),
    {
        match self {
            StreamEndReason::ApplicationEnded => String::from_str("application_ended"),
            StreamEndReason::IdleTimeout => String::from_str("idle_timeout"),
            StreamEndReason::ForceStopped => String::from_str("force_stopped"),
            StreamEndReason::NatsError(msg) => {
                let mut s = String::from_str("nats_error: ");
                s.append(msg.as_str());
                s
            },
        }
    }
}

// ── StreamEvent ───────────────────────────────────────────────────────────────

/// Events that flow from the background NATS fetcher task to every SSE client
/// of a session. Each variant maps to a distinct SSE `event:` type.
#[derive(Clone, Debug)]
pub enum StreamEvent {
    /// Emitted once the consumer is connected; carries the session's `stream_id`.
    Connected(String),
    /// Emitted periodically while no log messages arrive.
    Heartbeat,
    /// A log message, enriched with metadata parsed from the NATS subject.
    Log(EnrichedLog),
    /// Non-fatal advisory, such as a lagging receiver.
    Warning(String),
    /// An error from the NATS layer.
    Error(String),
    /// The stream has ended.
    Terminated(StreamEndReason),
}

/// The SSE `event:` name of each variant.
pub open spec fn event_name_of(e: StreamEvent) -> Seq<char> {
    match e {
        StreamEvent::Connected(_) => "connected"@,
        StreamEvent::Heartbeat => "heartbeat"@,
        StreamEvent::Log(_) => "log"@,
        StreamEvent::Warning(_) => "warning"@,
        StreamEvent::Error(_) => "error"@,
        StreamEvent::Terminated(_) => "terminated"@,
    }
}

/// The JSON text of a log, as serde serializes `EnrichedLog` (fields in
/// declaration order, `raw_data` under the key `message`, compact form).
pub open spec fn log_json(l: EnrichedLog) -> Seq<char> {
    "{\"sequence_id\":"@ + decimal(l.sequence_id as nat) + ",\"timestamp_ms\":"@ + signed_decimal(
        l.timestamp_ms as int,
    ) + ",\"namespace\":"@ + json_quote(l.namespace@) + ",\"app\":"@ + json_quote(l.app@)
        + ",\"component\":"@ + json_quote(l.component@) + ",\"run_id\":"@ + json_quote(l.run_id@)
        + ",\"message\":"@ + json_quote(l.raw_data@) + "}"@
}

/// The SSE data of each event.
pub open spec fn event_data(e: StreamEvent) -> Seq<char> {
    match e {
        StreamEvent::Connected(id) => "{\"stream_id\":"@ + json_quote(id@) + "}"@,
        StreamEvent::Heartbeat => "heartbeat"@,
        StreamEvent::Warning(msg) => msg@,
        StreamEvent::Error(msg) => msg@,
        StreamEvent::Terminated(r) => reason_text(r),
        StreamEvent::Log(l) => log_json(l),
    }
}

/// The SSE `id:` of each event: the sequence number of a log, none otherwise.
pub open spec fn event_id(e: StreamEvent) -> Option<Seq<char>> {
    match e {
        StreamEvent::Log(l) => Some(decimal(l.sequence_id as nat)),
        _ => None,
    }
}

/// The SSE frame of an event, as plain text values `(event, id, data)`.
pub open spec fn event_frame(e: StreamEvent) -> (Option<Seq<char>>, Option<Seq<char>>, Seq<char>) {
    (Some(event_name_of(e)), event_id(e), event_data(e))
}

impl StreamEvent {
    /// Returns the SSE `event:` name for this variant.
    pub fn event_name(&self) -> (r: &'static str)
        ensures
            r@ == event_name_of(*self),
    {
        match self {
            StreamEvent::Connected(_) => "connected",
            StreamEvent::Heartbeat => "heartbeat",
            StreamEvent::Log(_) => "log",
            StreamEvent::Warning(_) => "warning",
            StreamEvent::Error(_) => "error",
            StreamEvent::Terminated(_) => "terminated",
        }
    }

    /// Returns whether this event signals the end of the stream.
    pub fn is_terminal(&self) -> (r: bool)
        ensures
            r == (*self is Terminated),
    {
        match self {
            StreamEvent::Terminated(_) => true,
            _ => false,
        }
    }

    /// The SSE frame of this event: its event name, the sequence number of a
    /// log as `id:`, and its data (JSON for `Connected` and `Log`).
    pub fn to_sse_frame(&self) -> (r: Result<SseFrame, serde_json::Error>)
        ensures
            r is Ok,
            r.unwrap().text() == event_frame(*self),
    {
        let name = String::from_str(self.event_name());
        match self {
            StreamEvent::Connected(stream_id) => {
                let quoted = match json_string(stream_id.as_str()) {
                    Ok(q) => q,
                    Err(e) => return Err(e),
                };
                let data = concat3("{\"stream_id\":", quoted.as_str(), "}");
                Ok(SseFrame { event: Some(name), id: None, data })
            },
            StreamEvent::Heartbeat => {
                Ok(SseFrame { event: Some(name), id: None, data: String::from_str("heartbeat") })
            },
            StreamEvent::Warning(msg) => {
                Ok(SseFrame { event: Some(name), id: None, data: msg.clone() })
            },
            StreamEvent::Error(msg) => {
                Ok(SseFrame { event: Some(name), id: None, data: msg.clone() })
            },
            StreamEvent::Terminated(reason) => {
                Ok(SseFrame { event: Some(name), id: None, data: reason.to_string() })
            },
            StreamEvent::Log(log) => {
                let data = match log_to_json(log) {
                    Ok(d) => d,
                    Err(e) => return Err(e),
                };
                let id = u64_to_decimal(log.sequence_id);
                Ok(SseFrame { event: Some(name), id: Some(id), data })
            },
        }
    }
}

/// The JSON text of a log entry (see `log_json`).
pub fn log_to_json(l: &EnrichedLog) -> (r: Result<String, serde_json::Error>)
    ensures
        r is Ok,
        r.unwrap()@ == log_json(*l),
{
    let ns = match json_string(l.namespace.as_str()) {
        Ok(q) => q,
        Err(e) => return Err(e),
    };
    let app = match json_string(l.app.as_str()) {
        Ok(q) => q,
        Err(e) => return Err(e),
    };
    let component = match json_string(l.component.as_str()) {
        Ok(q) => q,
        Err(e) => return Err(e),
    };
    let run_id = match json_string(l.run_id.as_str()) {
        Ok(q) => q,
        Err(e) => return Err(e),
    };
    let message = match json_string(l.raw_data.as_str()) {
        Ok(q) => q,
        Err(e) => return Err(e),
    };
    let seq = u64_to_decimal(l.sequence_id);
    let ts = i64_to_decimal(l.timestamp_ms);
    let mut s = String::from_str("{\"sequence_id\":");
    s.append(seq.as_str());
    s.append(",\"timestamp_ms\":");
    s.append(ts.as_str());
    s.append(",\"namespace\":");
    s.append(ns.as_str());
    s.append(",\"app\":");
    s.append(app.as_str());
    s.append(",\"component\":");
    s.append(component.as_str());
    s.append(",\"run_id\":");
    s.append(run_id.as_str());
    s.append(",\"message\":");
    s.append(message.as_str());
    s.append("}");
    Ok(s)
}

// ── Message enrichment ───────────────────────────────────────────────────────

/// The `k`-th piece of a split, or the empty text when there are fewer pieces.
pub open spec fn piece_or_empty(p: Seq<Seq<char>>, k: int) -> Seq<char> {
    if 0 <= k < p.len() {
        p[k]
    } else {
        Seq::empty()
    }
}

/// Unix nanoseconds to milliseconds, rounding toward zero.
pub open spec fn millis_of_nanos(nanos: int) -> int {
    if nanos >= 0 {
        nanos / 1_000_000
    } else {
        -((-nanos) / 1_000_000)
    }
}

/// The message text stored in a log: the UTF-8 text, or `<binary>`.
pub open spec fn payload_text(payload: Seq<u8>) -> Seq<char> {
    if valid_utf8(payload) {
        decode_utf8(payload)
    } else {
        "<binary>"@
    }
}

/// The enriched log for a message of a session streaming `run_id`.
pub open spec fn enriched_fields(
    run_id: Seq<char>,
    subject: Seq<char>,
    info: Option<(u64, i128)>,
    payload: Seq<u8>,
    l: EnrichedLog,
) -> bool {
    let p = subject_pieces(subject);
    &&& l.namespace@ == piece_or_empty(p, 1)
    &&& l.app@ == piece_or_empty(p, 2)
    &&& l.component@ == piece_or_empty(p, 3)
    &&& l.run_id@ == run_id
    &&& l.raw_data@ == payload_text(payload)
    &&& match info {
        Some((seq, nanos)) => l.sequence_id == seq && l.timestamp_ms == millis_of_nanos(
            nanos as int,
        ) as i64,
        None => l.sequence_id == 0 && l.timestamp_ms == 0,
    }
}

/// Builds the [`EnrichedLog`] of a NATS message of a session streaming
/// `run_id`, from the message's subject, its JetStream info (stream sequence
/// and publish time in Unix nanoseconds, when present) and its payload.
///
/// Subject format: `logs.<namespace>.<app>.<component>.<run_id>`; missing
/// segments become empty. Without info the sequence and time are 0.
pub fn enrich_message(
    run_id: &str,
    subject: &str,
    info: Option<(u64, i128)>,
    payload: &[u8],
) -> (l: EnrichedLog)
    ensures
        enriched_fields(run_id@, subject@, info, payload@, l),
{
    let parts = split_n_exec(subject, 5, '.');
    let namespace = if parts.len() > 1 {
        parts[1].clone()
    } else {
        String::new()
    };
    let app = if parts.len() > 2 {
        parts[2].clone()
    } else {
        String::new()
    };
    let component = if parts.len() > 3 {
        parts[3].clone()
    } else {
        String::new()
    };
    let (sequence_id, timestamp_ms): (u64, i64) = match info {
        Some((seq, nanos)) => {
            let millis: i128 = nanos / 1_000_000i128;
            (seq, millis as i64)
        },
        None => (0u64, 0i64),
    };
    let raw_data = match utf8_decode(payload) {
        Some(t) => t,
        None => String::from_str("<binary>"),
    };
    proof {
        if parts@.len() > 1 {
            assert(parts@[1]@ == subject_pieces(subject@)[1]);
        }
        if parts@.len() > 2 {
            assert(parts@[2]@ == subject_pieces(subject@)[2]);
        }
        if parts@.len() > 3 {
            assert(parts@[3]@ == subject_pieces(subject@)[3]);
        }
    }
    EnrichedLog {
        sequence_id,
        timestamp_ms,
        namespace,
        app,
        component,
        run_id: String::from_str(run_id),
        raw_data,
    }
}


// ── Laws ─────────────────────────────────────────────────────────────────────

/// Enrichment reads the subject hierarchy: for a message published on
/// `logs.<ns>.<app>.<component>.<run>` (the first three parts free of dots),
/// the log carries exactly those namespace, app and component.
pub proof fn law_enrich_reads_subject(
    run_id: Seq<char>,
    ns: Seq<char>,
    app: Seq<char>,
    component: Seq<char>,
    subject_run: Seq<char>,
    info: Option<(u64, i128)>,
    payload: Seq<u8>,
    l: EnrichedLog,
)
    requires
        !ns.contains('.'),
        !app.contains('.'),
        !component.contains('.'),
        enriched_fields(run_id, subject_of(ns, app, component, subject_run), info, payload, l),
    ensures
        l.namespace@ == ns,
        l.app@ == app,
        l.component@ == component,
        l.run_id@ == run_id,
{
    lemma_subject_round_trip(ns, app, component, subject_run);
}

/// Every log frame carries the log's stream sequence number as its SSE id,
/// so a client can resume after the last id it saw; no other event has an id.
pub proof fn law_log_frames_carry_sequence(e: StreamEvent)
    ensures
        event_frame(e).1 is Some <==> e is Log,
        e matches StreamEvent::Log(l) ==> event_frame(e).1 == Some(decimal(l.sequence_id as nat)),
{
}

} // verus!
