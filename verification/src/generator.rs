use vstd::prelude::*;
use vstd::string::*;

use crate::subject::{lemma_subject_round_trip, log_subject, parsed_subject, subject_of};
use crate::text::{decimal, u64_to_decimal};

verus! {

/// The subject the generator publishes a run's logs to:
/// `logs.<namespace>.<application>.<component>.<run_id>`.
pub fn generator_subject(namespace: &str, application: &str, component: &str, run_id: &str) -> (s: String)
    ensures
        s@ == subject_of(namespace@, application@, component@, run_id@),
{
    log_subject(namespace, application, component, run_id)
}

/// What the generator publishes is read back as the run it was published
/// for: with a namespace, application and component free of dots, the
/// subject parses into exactly those parts and the run id.
pub proof fn law_generated_subject_names_run(
    namespace: Seq<char>,
    application: Seq<char>,
    component: Seq<char>,
    run_id: Seq<char>,
)
    requires
        !namespace.contains('.'),
        !application.contains('.'),
        !component.contains('.'),
    ensures
        parsed_subject(subject_of(namespace, application, component, run_id)) == Some(
            (namespace, application, component, run_id),
        ),
{
    lemma_subject_round_trip(namespace, application, component, run_id);
}

/// The pause between two published logs, in microseconds, for `pressure`
/// logs per second.
pub fn publish_interval_micros(pressure: u64) -> (r: u64)
    requires
        pressure > 0,
    ensures
        r == 1_000_000u64 / pressure,
{
    1_000_000 / pressure
}

/// The text of the `count`-th generated log of a run.
pub open spec fn log_entry(count: u64, run_id: Seq<char>) -> Seq<char> {
    "Log entry #"@ + decimal(count as nat) + " for run "@ + run_id
}

/// The text of the `count`-th generated log of a run.
pub fn log_entry_text(count: u64, run_id: &str) -> (s: String)
    ensures
        s@ == log_entry(count, run_id@),
{
    let mut s = String::from_str("Log entry #");
    let n = u64_to_decimal(count);
    s.append(n.as_str());
    s.append(" for run ");
    s.append(run_id);
    s
}

} // verus!
