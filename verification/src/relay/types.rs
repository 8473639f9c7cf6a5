use vstd::prelude::*;

verus! {

/// Where a new stream session starts, as requested in the query string
/// (`delivery_policy`). Defaults to `Last`.
#[derive(Clone, Copy, Debug, PartialEq, Eq)]
pub enum QueryDeliverPolicy {
    All,
    Last,
    New,
    ByStartSeq,
    ByStartTime,
    LastPerSubject,
}

impl Default for QueryDeliverPolicy {
    fn default() -> (r: Self)
        ensures
            r == QueryDeliverPolicy::Last,
    {
        QueryDeliverPolicy::Last
    }
}

/// The pace at which stored logs are replayed, as requested in the query
/// string (`replay_policy`). Defaults to `Original`.
#[derive(Clone, Copy, Debug, PartialEq, Eq)]
pub enum QueryReplayPolicy {
    Instant,
    Original,
}

impl Default for QueryReplayPolicy {
    fn default() -> (r: Self)
        ensures
            r == QueryReplayPolicy::Original,
    {
        QueryReplayPolicy::Original
    }
}

/// The query of a stream creation request.
#[derive(Clone, Debug)]
pub struct StreamCreateQuery {
    pub delivery_policy: QueryDeliverPolicy,
    pub replay_policy: QueryReplayPolicy,
    /// Needed when `delivery_policy` is `ByStartSeq`.
    pub start_seq: Option<u64>,
    /// Needed when `delivery_policy` is `ByStartTime`: an RFC 3339 date-time.
    pub start_time: Option<String>,
}

/// The consumer's deliver policy. A start time is held as the instant it
/// denotes, in Unix nanoseconds, beside the RFC 3339 text it was given as
/// (the consumer is configured from the text, with its offset).
#[derive(Clone, Debug, PartialEq, Eq)]
pub enum DeliverPolicy {
    All,
    Last,
    New,
    ByStartSequence { start_sequence: u64 },
    ByStartTime { start_time_unix_nanos: i128, start_time: String },
    LastPerSubject,
}

/// The consumer's replay policy.
#[derive(Clone, Copy, Debug, PartialEq, Eq)]
pub enum ReplayPolicy {
    Instant,
    Original,
}

/// The consumer policies of a session.
#[derive(Clone, Debug)]
pub struct StreamPolicies {
    pub deliver_policy: DeliverPolicy,
    pub replay_policy: ReplayPolicy,
}

/// HTTP status of a rejected query: Bad Request.
pub const BAD_REQUEST: u16 = 400;

/// The instant, in Unix nanoseconds, that `text` denotes when it parses as an
/// RFC 3339 date-time with the `time` crate; `None` when it does not parse.
pub uninterp spec fn rfc3339_unix_nanos(text: Seq<char>) -> Option<i128>;

/// Calls `time::OffsetDateTime::parse` with the RFC 3339 format description,
/// and reads the parsed date-time as Unix nanoseconds. The contract names the
/// outcome (`rfc3339_unix_nanos`), a function of the text alone.
#[verifier::external_body]
fn parse_rfc3339_unix_nanos(text: &str) -> (r: Option<i128>)
    ensures
        r == rfc3339_unix_nanos(text@),
{
    match time::OffsetDateTime::parse(text, &time::format_description::well_known::Rfc3339) {
        Ok(t) => Some(t.unix_timestamp_nanos()),
        Err(_) => None,
    }
}

/// The replay policy for a requested one.
pub open spec fn replay_for(q: QueryReplayPolicy) -> ReplayPolicy {
    match q {
        QueryReplayPolicy::Instant => ReplayPolicy::Instant,
        QueryReplayPolicy::Original => ReplayPolicy::Original,
    }
}

/// What a query resolves to, given what its `start_time` parsed to
/// (`parsed_start_time`, consulted only for `ByStartTime` with a start time):
/// the policies, or a Bad Request status with its message.
pub open spec fn query_outcome(q: StreamCreateQuery, parsed_start_time: Option<i128>) -> Result<
    (DeliverPolicy, ReplayPolicy),
    (u16, Seq<char>),
> {
    let replay = replay_for(q.replay_policy);
    match q.delivery_policy {
        QueryDeliverPolicy::All => Ok((DeliverPolicy::All, replay)),
        QueryDeliverPolicy::Last => Ok((DeliverPolicy::Last, replay)),
        QueryDeliverPolicy::New => Ok((DeliverPolicy::New, replay)),
        QueryDeliverPolicy::LastPerSubject => Ok((DeliverPolicy::LastPerSubject, replay)),
        QueryDeliverPolicy::ByStartSeq => match q.start_seq {
            Some(seq) => Ok((DeliverPolicy::ByStartSequence { start_sequence: seq }, replay)),
            None => Err(
                (400, "start_seq must be provided when delivery_policy is by_start_seq"@),
            ),
        },
        QueryDeliverPolicy::ByStartTime => match q.start_time {
            None => Err(
                (400, "start_time must be provided when delivery_policy is by_start_time"@),
            ),
            Some(text) => match parsed_start_time {
                Some(nanos) => Ok(
                    (DeliverPolicy::ByStartTime { start_time_unix_nanos: nanos, start_time: text }, replay),
                ),
                None => Err((400, "start_time must be a valid RFC3339 date-time string"@)),
            },
        },
    }
}

/// The start time that a query hands to the date-time parser: its
/// `start_time` when it asks for `ByStartTime`.
pub open spec fn parsed_start_time_of(q: StreamCreateQuery) -> Option<i128> {
    match (q.delivery_policy, q.start_time) {
        (QueryDeliverPolicy::ByStartTime, Some(t)) => rfc3339_unix_nanos(t@),
        _ => None,
    }
}

/// A result of a resolution, as plain values.
pub open spec fn outcome_of(r: Result<StreamPolicies, (u16, &'static str)>) -> Result<
    (DeliverPolicy, ReplayPolicy),
    (u16, Seq<char>),
> {
    match r {
        Ok(p) => Ok((p.deliver_policy, p.replay_policy)),
        Err(e) => Err((e.0, e.1@)),
    }
}

impl StreamCreateQuery {
    /// Resolves the query into consumer policies, given what its
    /// `start_time` parsed to (consulted only for `ByStartTime`).
    pub fn policies_from_parsed(self, parsed_start_time: Option<i128>) -> (r: Result<
        StreamPolicies,
        (u16, &'static str),
    >)
        ensures
            outcome_of(r) == query_outcome(self, parsed_start_time),
            r matches Ok(p) ==> (p.replay_policy == ReplayPolicy::Instant <==> self.replay_policy
                == QueryReplayPolicy::Instant),
            r matches Ok(p) ==> (p.replay_policy == ReplayPolicy::Original <==> self.replay_policy
                == QueryReplayPolicy::Original),
    {
        let deliver_policy = match self.delivery_policy {
            QueryDeliverPolicy::All => DeliverPolicy::All,
            QueryDeliverPolicy::Last => DeliverPolicy::Last,
            QueryDeliverPolicy::New => DeliverPolicy::New,
            QueryDeliverPolicy::ByStartSeq => match self.start_seq {
                Some(seq) => DeliverPolicy::ByStartSequence { start_sequence: seq },
                None => {
                    return Err(
                        (
                            BAD_REQUEST,
                            "start_seq must be provided when delivery_policy is by_start_seq",
                        ),
                    );
                },
            },
            QueryDeliverPolicy::ByStartTime => match self.start_time {
                None => {
                    return Err(
                        (
                            BAD_REQUEST,
                            "start_time must be provided when delivery_policy is by_start_time",
                        ),
                    );
                },
                Some(text) => match parsed_start_time {
                    Some(nanos) => DeliverPolicy::ByStartTime { start_time_unix_nanos: nanos, start_time: text },
                    None => {
                        return Err(
                            (BAD_REQUEST, "start_time must be a valid RFC3339 date-time string"),
                        );
                    },
                },
            },
            QueryDeliverPolicy::LastPerSubject => DeliverPolicy::LastPerSubject,
        };
        let replay_policy = match self.replay_policy {
            QueryReplayPolicy::Instant => ReplayPolicy::Instant,
            QueryReplayPolicy::Original => ReplayPolicy::Original,
        };
        Ok(StreamPolicies { deliver_policy, replay_policy })
    }

    /// Resolves the query into consumer policies. `ByStartSeq` needs a
    /// `start_seq`, `ByStartTime` a `start_time` that parses as RFC 3339;
    /// otherwise the query is rejected with Bad Request and a message.
    pub fn try_into(self) -> (r: Result<StreamPolicies, (u16, &'static str)>)
        ensures
            outcome_of(r) == query_outcome(self, parsed_start_time_of(self)),
            r matches Ok(p) ==> (p.replay_policy == ReplayPolicy::Instant <==> self.replay_policy
                == QueryReplayPolicy::Instant),
            r matches Ok(p) ==> (p.replay_policy == ReplayPolicy::Original <==> self.replay_policy
                == QueryReplayPolicy::Original),
    {
        let parsed = match (&self.delivery_policy, &self.start_time) {
            (QueryDeliverPolicy::ByStartTime, Some(t)) => parse_rfc3339_unix_nanos(t.as_str()),
            _ => None,
        };
        self.policies_from_parsed(parsed)
    }
}

/// The replay pace is the one requested, whatever the deliver policy: a
/// query that resolves replays instantly exactly when it asked for instant
/// replay, and at the original pace exactly when it asked for that. The
/// deliver policy is the one requested too: `All`, `Last`, `New` and
/// `LastPerSubject` always resolve, to themselves; `ByStartSeq` resolves to
/// its `start_seq` whenever one is given.
pub proof fn law_resolution_keeps_request(
    q: StreamCreateQuery,
    parsed_start_time: Option<i128>,
    r: Result<StreamPolicies, (u16, &'static str)>,
)
    requires
        outcome_of(r) == query_outcome(q, parsed_start_time),
    ensures
        r matches Ok(p) ==> (p.replay_policy == ReplayPolicy::Instant <==> q.replay_policy
            == QueryReplayPolicy::Instant),
        r matches Ok(p) ==> (p.replay_policy == ReplayPolicy::Original <==> q.replay_policy
            == QueryReplayPolicy::Original),
        q.delivery_policy == QueryDeliverPolicy::All ==> (r matches Ok(p) && p.deliver_policy
            == DeliverPolicy::All),
        q.delivery_policy == QueryDeliverPolicy::Last ==> (r matches Ok(p) && p.deliver_policy
            == DeliverPolicy::Last),
        q.delivery_policy == QueryDeliverPolicy::New ==> (r matches Ok(p) && p.deliver_policy
            == DeliverPolicy::New),
        q.delivery_policy == QueryDeliverPolicy::LastPerSubject ==> (r matches Ok(p)
            && p.deliver_policy == DeliverPolicy::LastPerSubject),
        (q.delivery_policy == QueryDeliverPolicy::ByStartSeq && q.start_seq is Some) ==> (r matches Ok(p)
            && p.deliver_policy == (DeliverPolicy::ByStartSequence { start_sequence: q.start_seq->0 })),
        (r matches Err(e) ==> e.0 == 400),
{
}

} // verus!
