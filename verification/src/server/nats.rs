use vstd::prelude::*;
use vstd::string::*;

use crate::relay::types::{DeliverPolicy, ReplayPolicy};
use crate::subject::stream_filter_subject;
use crate::text::{utf8_lossy, utf8_lossy_decode};
use vstd::utf8::{decode_utf8, valid_utf8};

verus! {

/// How the per-client ephemeral consumer of the job log service is
/// configured: the subject filter, the deliver and replay policies (all
/// stored messages, replayed instantly) and its inactivity threshold (60 s).
pub struct JobConsumerPlan {
    pub filter_subject: String,
    pub deliver_policy: DeliverPolicy,
    pub replay_policy: ReplayPolicy,
    pub inactive_threshold_secs: u64,
}

/// The consumer plan for a run's logs: every subject of the run,
/// `logs.*.*.*.<run_id>`, whatever its namespace, application and component.
pub fn job_consumer_plan(run_id: &str) -> (p: JobConsumerPlan)
    ensures
        p.filter_subject@ == "logs.*.*.*."@ + run_id@,
        p.deliver_policy == DeliverPolicy::All,
        p.replay_policy == ReplayPolicy::Instant,
        p.inactive_threshold_secs == 60,
{
    JobConsumerPlan {
        filter_subject: stream_filter_subject(run_id),
        deliver_policy: DeliverPolicy::All,
        replay_policy: ReplayPolicy::Instant,
        inactive_threshold_secs: 60,
    }
}

/// The text of a message payload: the payload itself when it is UTF-8, its
/// lossy decoding otherwise (which is the same text for UTF-8).
pub fn log_line(payload: &[u8]) -> (s: String)
    ensures
        s@ == utf8_lossy(payload@),
        valid_utf8(payload@) ==> s@ == decode_utf8(payload@),
{
    utf8_lossy_decode(payload)
}

/// The error item yielded for an error of the NATS message stream.
pub fn stream_error_text(error_text: &str) -> (s: String)
    ensures
        s@ == "Stream error: "@ + error_text@,
{
    let mut s = String::from_str("Stream error: ");
    s.append(error_text);
    s
}

} // verus!
