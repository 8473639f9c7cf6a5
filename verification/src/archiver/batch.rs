use vstd::prelude::*;
use vstd::string::*;

pub use crate::subject::{parse_subject, SubjectMeta};
use crate::subject::parsed_subject;
use crate::text::{utf8_lossy, utf8_lossy_decode};

verus! {

// ── Clock ────────────────────────────────────────────────────────────────────

/// The system clock's time.
#[verifier::external_type_specification]
#[verifier::external_body]
pub struct ExSystemTime(std::time::SystemTime);

/// Calls `std::time::SystemTime::now`. What it returns depends on the clock;
/// nothing is claimed of it.
#[verifier::external_body]
fn system_now() -> std::time::SystemTime {
    std::time::SystemTime::now()
}

/// Calls `SystemTime::duration_since(UNIX_EPOCH)` and reads the duration as
/// whole seconds and the sub-second nanoseconds; `None` when the time lies
/// before the epoch. The contract claims what std documents of
/// `subsec_nanos`: it is below one second.
#[verifier::external_body]
fn elapsed_since_unix_epoch(t: &std::time::SystemTime) -> (r: Option<(u64, u32)>)
    ensures
        r matches Some((_, nanos)) ==> nanos < 1_000_000_000,
{
    match t.duration_since(std::time::UNIX_EPOCH) {
        Ok(d) => Some((d.as_secs(), d.subsec_nanos())),
        Err(_) => None,
    }
}

/// The microseconds since the Unix epoch of an elapsed time given as seconds
/// and sub-second nanoseconds (0 for a time before the epoch), truncated to
/// 64 bits.
pub open spec fn micros_of(elapsed: Option<(u64, u32)>) -> u64 {
    match elapsed {
        Some((secs, nanos)) => ((secs as int) * 1_000_000 + (nanos as int) / 1000) as u64,
        None => 0,
    }
}

/// Microseconds of an elapsed time since the Unix epoch (see `micros_of`).
pub fn epoch_micros_from(elapsed: Option<(u64, u32)>) -> (r: u64)
    ensures
        r == micros_of(elapsed),
{
    match elapsed {
        Some((secs, nanos)) => {
            let micros: u128 = (secs as u128) * 1_000_000u128 + (nanos as u128) / 1000u128;
            micros as u64
        },
        None => 0,
    }
}

/// The clock's reading: the time elapsed since the Unix epoch, as whole
/// seconds and sub-second nanoseconds (`None` for a time before the epoch).
/// What the clock reads is not known here.
pub fn clock_reading() -> (r: Option<(u64, u32)>)
    ensures
        r matches Some((_, nanos)) ==> nanos < 1_000_000_000,
{
    let now = system_now();
    elapsed_since_unix_epoch(&now)
}

/// The current time in microseconds since the Unix epoch (0 if the clock
/// reads a time before the epoch): the clock's reading converted by
/// `epoch_micros_from`. What the clock reads is not known here.
pub fn now_epoch_micros() -> u64 {
    epoch_micros_from(clock_reading())
}

/// A stamp is the reading's whole microseconds: a reading of `secs` seconds
/// and `nanos` nanoseconds (below one second) after the epoch is stamped
/// `secs * 1_000_000 + nanos / 1000` when that fits in 64 bits, a reading
/// before the epoch is stamped 0, and a later reading never gets a smaller
/// stamp (within 64 bits).
pub proof fn law_stamp_is_reading_micros(secs: u64, nanos: u32, later_secs: u64, later_nanos: u32)
    requires
        nanos < 1_000_000_000,
        later_nanos < 1_000_000_000,
        later_secs * 1_000_000 + later_nanos / 1000 <= u64::MAX,
    ensures
        secs * 1_000_000 + nanos / 1000 <= u64::MAX ==> micros_of(Some((secs, nanos))) == secs
            * 1_000_000 + nanos / 1000,
        micros_of(None) == 0,
        (secs < later_secs || (secs == later_secs && nanos <= later_nanos)) ==> micros_of(
            Some((secs, nanos)),
        ) <= micros_of(Some((later_secs, later_nanos))),
{
    if secs < later_secs {
        assert(secs * 1_000_000 + 1_000_000 <= later_secs * 1_000_000) by (nonlinear_arith)
            requires
                secs < later_secs,
        ;
    }
}

// ── Records ──────────────────────────────────────────────────────────────────

/// One record sent to OpenObserve for one NATS message: enriched with the
/// parts of its subject, or, for a subject of another form, with the raw
/// subject.
#[derive(Clone, Debug)]
pub enum ArchiveRecord {
    Parsed {
        timestamp: u64,
        namespace: String,
        application: String,
        component: String,
        run_id: String,
        log: String,
    },
    Raw { timestamp: u64, subject: String, log: String },
}

/// `rec` is the record of a message with this subject and payload, stamped
/// with `timestamp`. The log text is the payload decoded lossily as UTF-8.
pub open spec fn record_is(rec: ArchiveRecord, subject: Seq<char>, payload: Seq<u8>, timestamp: u64) -> bool {
    match parsed_subject(subject) {
        Some((ns, app, component, run_id)) => rec matches ArchiveRecord::Parsed {
            timestamp: t,
            namespace,
            application,
            component: c,
            run_id: r,
            log,
        } && t == timestamp && namespace@ == ns && application@ == app && c@ == component && r@
            == run_id && log@ == utf8_lossy(payload),
        None => rec matches ArchiveRecord::Raw { timestamp: t, subject: s, log } && t == timestamp
            && s@ == subject && log@ == utf8_lossy(payload),
    }
}

/// The record of a message with this subject and payload, stamped `timestamp`.
pub fn build_record(subject: &str, payload: &[u8], timestamp: u64) -> (rec: ArchiveRecord)
    ensures
        record_is(rec, subject@, payload@, timestamp),
{
    let log = utf8_lossy_decode(payload);
    match parse_subject(subject) {
        Some(meta) => ArchiveRecord::Parsed {
            timestamp,
            namespace: meta.namespace,
            application: meta.application,
            component: meta.component,
            run_id: meta.run_id,
            log,
        },
        None => ArchiveRecord::Raw { timestamp, subject: subject.to_owned(), log },
    }
}

/// The value of one field of a record as sent: a number or a text.
#[derive(Clone, Debug, PartialEq, Eq)]
pub enum FieldValue {
    Number(u64),
    Text(String),
}

/// The fields of a record as sent to OpenObserve, in order: `_timestamp`
/// (microseconds since the Unix epoch), then `namespace`, `application`,
/// `component`, `run_id` and `log` for a parsed subject, or `subject` and
/// `log` for a subject of another form.
pub open spec fn record_layout(rec: ArchiveRecord) -> Seq<(Seq<char>, FieldValue)> {
    match rec {
        ArchiveRecord::Parsed { timestamp, namespace, application, component, run_id, log } => seq![
            ("_timestamp"@, FieldValue::Number(timestamp)),
            ("namespace"@, FieldValue::Text(namespace)),
            ("application"@, FieldValue::Text(application)),
            ("component"@, FieldValue::Text(component)),
            ("run_id"@, FieldValue::Text(run_id)),
            ("log"@, FieldValue::Text(log)),
        ],
        ArchiveRecord::Raw { timestamp, subject, log } => seq![
            ("_timestamp"@, FieldValue::Number(timestamp)),
            ("subject"@, FieldValue::Text(subject)),
            ("log"@, FieldValue::Text(log)),
        ],
    }
}

/// A list of fields with its keys as texts.
pub open spec fn fields_view(v: Seq<(String, FieldValue)>) -> Seq<(Seq<char>, FieldValue)> {
    v.map_values(|f: (String, FieldValue)| (f.0@, f.1))
}

/// The field keyed `key` is present and every field keyed `key` holds the
/// text `value`.
pub open spec fn text_field_is(fields: Seq<(String, FieldValue)>, key: Seq<char>, value: Seq<char>) -> bool {
    &&& exists|i: int| 0 <= i < fields.len() && (#[trigger] fields[i]).0@ == key
    &&& forall|i: int|
        0 <= i < fields.len() && (#[trigger] fields[i]).0@ == key ==> (fields[i].1 matches FieldValue::Text(t)
            && t@ == value)
}

/// The field keyed `key` is present and every field keyed `key` holds the
/// number `value`.
pub open spec fn number_field_is(fields: Seq<(String, FieldValue)>, key: Seq<char>, value: u64) -> bool {
    &&& exists|i: int| 0 <= i < fields.len() && (#[trigger] fields[i]).0@ == key
    &&& forall|i: int|
        0 <= i < fields.len() && (#[trigger] fields[i]).0@ == key ==> fields[i].1 == FieldValue::Number(
            value,
        )
}

/// No field is keyed `key`.
pub open spec fn no_field(fields: Seq<(String, FieldValue)>, key: Seq<char>) -> bool {
    forall|i: int| 0 <= i < fields.len() ==> (#[trigger] fields[i]).0@ != key
}

/// The keys of a record's fields differ from each other.
proof fn lemma_field_keys_distinct()
    ensures
        "_timestamp"@ != "namespace"@,
        "_timestamp"@ != "application"@,
        "_timestamp"@ != "component"@,
        "_timestamp"@ != "run_id"@,
        "_timestamp"@ != "log"@,
        "_timestamp"@ != "subject"@,
        "namespace"@ != "application"@,
        "namespace"@ != "component"@,
        "namespace"@ != "run_id"@,
        "namespace"@ != "log"@,
        "namespace"@ != "subject"@,
        "application"@ != "component"@,
        "application"@ != "run_id"@,
        "application"@ != "log"@,
        "application"@ != "subject"@,
        "component"@ != "run_id"@,
        "component"@ != "log"@,
        "component"@ != "subject"@,
        "run_id"@ != "log"@,
        "run_id"@ != "subject"@,
        "log"@ != "subject"@,
{
    reveal_strlit("_timestamp");
    reveal_strlit("namespace");
    reveal_strlit("application");
    reveal_strlit("component");
    reveal_strlit("run_id");
    reveal_strlit("log");
    reveal_strlit("subject");
    assert("_timestamp"@.len() == 10);
    assert("namespace"@.len() == 9);
    assert("application"@.len() == 11);
    assert("component"@.len() == 9);
    assert("run_id"@.len() == 6);
    assert("log"@.len() == 3);
    assert("subject"@.len() == 7);
    assert("namespace"@[0] != "component"@[0]);
}

/// Each field of a record is sent under its own name: `_timestamp`,
/// `namespace`, `application`, `component`, `run_id` and `log` hold the
/// record's fields of those names (`subject` and `log` for a raw record), and
/// no other key of a record is sent.
pub open spec fn fields_by_name(rec: ArchiveRecord, fields: Seq<(String, FieldValue)>) -> bool {
    match rec {
        ArchiveRecord::Parsed { timestamp, namespace, application, component, run_id, log } => {
            &&& number_field_is(fields, "_timestamp"@, timestamp)
            &&& text_field_is(fields, "namespace"@, namespace@)
            &&& text_field_is(fields, "application"@, application@)
            &&& text_field_is(fields, "component"@, component@)
            &&& text_field_is(fields, "run_id"@, run_id@)
            &&& text_field_is(fields, "log"@, log@)
            &&& no_field(fields, "subject"@)
        },
        ArchiveRecord::Raw { timestamp, subject, log } => {
            &&& number_field_is(fields, "_timestamp"@, timestamp)
            &&& text_field_is(fields, "subject"@, subject@)
            &&& text_field_is(fields, "log"@, log@)
            &&& no_field(fields, "namespace"@)
            &&& no_field(fields, "application"@)
            &&& no_field(fields, "component"@)
            &&& no_field(fields, "run_id"@)
        },
    }
}

proof fn lemma_layout_by_name(rec: ArchiveRecord, fields: Seq<(String, FieldValue)>)
    requires
        fields_view(fields) == record_layout(rec),
    ensures
        fields_by_name(rec, fields),
{
    lemma_field_keys_distinct();
    let fv = fields_view(fields);
    assert forall|i: int| 0 <= i < fields.len() implies (#[trigger] fields[i]).0@ == fv[i].0 && fields[i].1
        == fv[i].1 by {}
    assert(fields.len() == fv.len());
    match rec {
        ArchiveRecord::Parsed { .. } => {
            assert(fields[0].0@ == "_timestamp"@);
            assert(fields[1].0@ == "namespace"@);
            assert(fields[2].0@ == "application"@);
            assert(fields[3].0@ == "component"@);
            assert(fields[4].0@ == "run_id"@);
            assert(fields[5].0@ == "log"@);
        },
        ArchiveRecord::Raw { .. } => {
            assert(fields[0].0@ == "_timestamp"@);
            assert(fields[1].0@ == "subject"@);
            assert(fields[2].0@ == "log"@);
        },
    }
}

/// What is sent for the message of a subject: its record's fields name the
/// parts of the subject by their own names. For a subject
/// `logs.<ns>.<app>.<component>.<run_id>` the field `namespace` holds `<ns>`,
/// `application` holds `<app>`, `component` holds `<component>` and `run_id`
/// holds `<run_id>`; for any other subject the field `subject` holds the
/// subject and none of those four is sent. Either way `_timestamp` holds the
/// stamp and `log` the payload decoded lossily as UTF-8.
pub proof fn law_record_fields_name_subject_parts(
    subject: Seq<char>,
    payload: Seq<u8>,
    timestamp: u64,
    rec: ArchiveRecord,
    fields: Seq<(String, FieldValue)>,
)
    requires
        record_is(rec, subject, payload, timestamp),
        fields_by_name(rec, fields),
    ensures
        number_field_is(fields, "_timestamp"@, timestamp),
        text_field_is(fields, "log"@, utf8_lossy(payload)),
        match parsed_subject(subject) {
            Some((ns, app, component, run_id)) => {
                &&& text_field_is(fields, "namespace"@, ns)
                &&& text_field_is(fields, "application"@, app)
                &&& text_field_is(fields, "component"@, component)
                &&& text_field_is(fields, "run_id"@, run_id)
                &&& no_field(fields, "subject"@)
            },
            None => {
                &&& text_field_is(fields, "subject"@, subject)
                &&& no_field(fields, "namespace"@)
                &&& no_field(fields, "application"@)
                &&& no_field(fields, "component"@)
                &&& no_field(fields, "run_id"@)
            },
        },
{
}

/// The fields of a record as sent to OpenObserve (see `record_layout`).
pub fn record_fields(rec: &ArchiveRecord) -> (v: Vec<(String, FieldValue)>)
    ensures
        fields_view(v@) == record_layout(*rec),
        fields_by_name(*rec, v@),
{
    let mut v: Vec<(String, FieldValue)> = Vec::new();
    match rec {
        ArchiveRecord::Parsed { timestamp, namespace, application, component, run_id, log } => {
            v.push((String::from_str("_timestamp"), FieldValue::Number(*timestamp)));
            v.push((String::from_str("namespace"), FieldValue::Text(namespace.clone())));
            v.push((String::from_str("application"), FieldValue::Text(application.clone())));
            v.push((String::from_str("component"), FieldValue::Text(component.clone())));
            v.push((String::from_str("run_id"), FieldValue::Text(run_id.clone())));
            v.push((String::from_str("log"), FieldValue::Text(log.clone())));
        },
        ArchiveRecord::Raw { timestamp, subject, log } => {
            v.push((String::from_str("_timestamp"), FieldValue::Number(*timestamp)));
            v.push((String::from_str("subject"), FieldValue::Text(subject.clone())));
            v.push((String::from_str("log"), FieldValue::Text(log.clone())));
        },
    }
    assert(fields_view(v@) =~= record_layout(*rec));
    proof {
        lemma_layout_by_name(*rec, v@);
    }
    v
}

// ── One cycle of the batch loop ──────────────────────────────────────────────

/// An ingestion attempt succeeded: the reply came with status 200 OK.
pub open spec fn ingest_succeeded(status: Option<u16>) -> bool {
    status == Some(200u16)
}

/// The messages pulled in one cycle of the batch loop: a record for each
/// message received, and the message itself (`M`), held back for its
/// acknowledgement, which only a successful ingestion releases
/// (`PendingBatch::settle`).
pub struct BatchCycle<M> {
    records: Vec<ArchiveRecord>,
    pending_acks: Vec<M>,
}

/// A non-empty batch that waits for ingestion. Its messages are released for
/// acknowledgement only through `settle`, and only when the ingestion
/// answered with 200 OK.
pub struct PendingBatch<M> {
    records: Vec<ArchiveRecord>,
    acks: Vec<M>,
}

impl<M> BatchCycle<M> {
    /// The records collected so far.
    pub closed spec fn records(&self) -> Seq<ArchiveRecord> {
        self.records@
    }

    /// The messages held back so far.
    pub closed spec fn pending(&self) -> Seq<M> {
        self.pending_acks@
    }

    /// An empty cycle.
    pub fn new() -> (c: Self)
        ensures
            c.records() == Seq::<ArchiveRecord>::empty(),
            c.pending() == Seq::<M>::empty(),
    {
        BatchCycle { records: Vec::new(), pending_acks: Vec::new() }
    }

    /// A message arrived: its record (stamped with the current time) is added
    /// and the message is held back for acknowledgement.
    /// Returns the clock reading the record was stamped with: its timestamp
    /// is that reading in microseconds since the epoch (`micros_of`).
    pub fn on_message(&mut self, subject: &str, payload: &[u8], msg: M) -> (reading: Option<(u64, u32)>)
        ensures
            final(self).records().len() == old(self).records().len() + 1,
            final(self).records().drop_last() == old(self).records(),
            exists|ts: u64| record_is(final(self).records().last(), subject@, payload@, ts),
            record_is(final(self).records().last(), subject@, payload@, micros_of(reading)),
            reading matches Some((_, nanos)) ==> nanos < 1_000_000_000,
            final(self).pending() == old(self).pending().push(msg),
    {
        let reading = clock_reading();
        let ts: u64 = epoch_micros_from(reading);
        let rec = build_record(subject, payload, ts);
        self.records.push(rec);
        self.pending_acks.push(msg);
        assert(self.records@.drop_last() == old(self).records@);
        assert(record_is(self.records@.last(), subject@, payload@, ts));
        reading
    }

    /// The end of the cycle's pull: nothing to send when no message arrived;
    /// otherwise the batch of all records and held-back messages, in order.
    pub fn finish(self) -> (r: Option<PendingBatch<M>>)
        ensures
            r is None <==> self.records().len() == 0,
            r matches Some(b) ==> b.records() == self.records() && b.acks() == self.pending(),
    {
        if self.records.len() == 0 {
            None
        } else {
            Some(PendingBatch { records: self.records, acks: self.pending_acks })
        }
    }
}

impl<M> PendingBatch<M> {
    /// The records to send.
    pub closed spec fn records(&self) -> Seq<ArchiveRecord> {
        self.records@
    }

    /// The messages to acknowledge after ingestion.
    pub closed spec fn acks(&self) -> Seq<M> {
        self.acks@
    }

    /// The records to send.
    pub fn records_to_send(&self) -> (r: &Vec<ArchiveRecord>)
        ensures
            r@ == self.records(),
    {
        &self.records
    }

    /// The number of records in the batch.
    pub fn count(&self) -> (n: usize)
        ensures
            n == self.records().len(),
    {
        self.records.len()
    }

    /// Settles the batch with the outcome of one ingestion attempt: the HTTP
    /// status of the reply, or `None` when no reply came. A 200 OK releases
    /// the messages for acknowledgement; any other outcome hands the batch
    /// back, unchanged, to be sent again.
    pub fn settle(self, status: Option<u16>) -> (r: Result<Vec<M>, PendingBatch<M>>)
        ensures
            (r is Ok) <==> ingest_succeeded(status),
            r matches Ok(v) ==> v@ == self.acks(),
            r matches Err(b) ==> b.records() == self.records() && b.acks() == self.acks(),
    {
        match status {
            Some(code) => if code == 200 {
                Ok(self.acks)
            } else {
                Err(self)
            },
            None => Err(self),
        }
    }
}

} // verus!
