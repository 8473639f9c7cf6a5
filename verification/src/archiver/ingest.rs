use vstd::prelude::*;
use vstd::string::*;

use base64::Engine as _;

use crate::archiver::config::OpenObserveSettings;
use crate::text::{concat3, trim_end_char, trim_end_exec};
use vstd::utf8::encode_utf8;

verus! {

/// The character of the standard Base64 alphabet (RFC 4648, table 1) for a
/// six-bit value: `A`–`Z`, `a`–`z`, `0`–`9`, `+`, `/`.
pub open spec fn base64_char(v: int) -> char {
    if v < 26 {
        ('A' as int + v) as char
    } else if v < 52 {
        ('a' as int + (v - 26)) as char
    } else if v < 62 {
        ('0' as int + (v - 52)) as char
    } else if v == 62 {
        '+'
    } else {
        '/'
    }
}

/// Standard Base64 with `=` padding (RFC 4648, section 4): every group of
/// three bytes becomes four characters, six bits each, high bits first; a
/// last group of one or two bytes becomes two or three characters, padded
/// with `=` to four.
pub open spec fn base64_std(b: Seq<u8>) -> Seq<char>
    decreases b.len(),
{
    if b.len() == 0 {
        Seq::empty()
    } else if b.len() == 1 {
        seq![base64_char(b[0] as int / 4), base64_char((b[0] as int % 4) * 16), '=', '=']
    } else if b.len() == 2 {
        seq![
            base64_char(b[0] as int / 4),
            base64_char((b[0] as int % 4) * 16 + b[1] as int / 16),
            base64_char((b[1] as int % 16) * 4),
            '=',
        ]
    } else {
        seq![
            base64_char(b[0] as int / 4),
            base64_char((b[0] as int % 4) * 16 + b[1] as int / 16),
            base64_char((b[1] as int % 16) * 4 + b[2] as int / 64),
            base64_char(b[2] as int % 64),
        ] + base64_std(b.subrange(3, b.len() as int))
    }
}

/// Calls `Engine::encode` of `base64::engine::general_purpose::STANDARD` on
/// the UTF-8 bytes of a text. That engine writes the standard alphabet with
/// `=` padding, so the contract states the result as `base64_std` of those
/// bytes. The crate panics when the encoded length overflows `usize`; the
/// bound on the text's length rules that out.
#[verifier::external_body]
fn base64_encode_text(text: &str) -> (r: String)
    requires
        text@.len() <= usize::MAX / 8,
    ensures
        r@ == base64_std(encode_utf8(text@)),
{
    base64::engine::general_purpose::STANDARD.encode(text)
}

/// The ingestion endpoint: the base URL without trailing slashes, then
/// `/api/<org>/<stream>/_json`.
pub open spec fn endpoint_of(s: OpenObserveSettings) -> Seq<char> {
    trim_end_char(s.url@, '/') + "/api/"@ + s.org@ + "/"@ + s.stream@ + "/_json"@
}

/// The HTTP Basic authorization header value for the configured user.
pub open spec fn auth_header_of(s: OpenObserveSettings) -> Seq<char> {
    "Basic "@ + base64_std(encode_utf8(s.user@ + ":"@ + s.password@))
}

/// Where and how the archiver posts batches to OpenObserve.
pub struct OpenObserveClient {
    endpoint: String,
    auth_header: String,
}

impl OpenObserveClient {
    /// The client's endpoint and authorization header.
    pub closed spec fn target(&self) -> (Seq<char>, Seq<char>) {
        (self.endpoint@, self.auth_header@)
    }

    /// The client for the given settings.
    pub fn new(settings: &OpenObserveSettings) -> (c: Self)
        requires
            settings.user@.len() + settings.password@.len() + 1 <= usize::MAX / 8,
        ensures
            c.target() == (endpoint_of(*settings), auth_header_of(*settings)),
    {
        let base = trim_end_exec(settings.url.as_str(), '/');
        let mut endpoint = concat3(base.as_str(), "/api/", settings.org.as_str());
        endpoint.append("/");
        endpoint.append(settings.stream.as_str());
        endpoint.append("/_json");
        let credentials = concat3(settings.user.as_str(), ":", settings.password.as_str());
        proof {
            reveal_strlit(":");
        }
        let encoded = base64_encode_text(credentials.as_str());
        let mut auth_header = String::from_str("Basic ");
        auth_header.append(encoded.as_str());
        OpenObserveClient { endpoint, auth_header }
    }

    /// The URL that batches are posted to.
    pub fn endpoint(&self) -> (r: &str)
        ensures
            r@ == self.target().0,
    {
        self.endpoint.as_str()
    }

    /// The `Authorization` header value.
    pub fn auth_header(&self) -> (r: &str)
        ensures
            r@ == self.target().1,
    {
        self.auth_header.as_str()
    }
}

// ── Retrying ─────────────────────────────────────────────────────────────────

/// The first wait after a failed send, in seconds.
pub const INITIAL_BACKOFF_SECS: u64 = 1;

/// The longest wait between sends, in seconds.
pub const MAX_BACKOFF_SECS: u64 = 60;

/// The wait after the next failure: twice the current one, at most a minute.
pub open spec fn next_backoff(current: int) -> int {
    if 2 * current < 60 {
        2 * current
    } else {
        60
    }
}

/// The wait after a failed send, given the current one: doubled, capped at
/// `MAX_BACKOFF_SECS`.
pub fn next_backoff_secs(current: u64) -> (r: u64)
    requires
        current <= u64::MAX / 2,
    ensures
        r == next_backoff(current as int),
{
    let doubled: u64 = current * 2;
    if doubled < MAX_BACKOFF_SECS {
        doubled
    } else {
        MAX_BACKOFF_SECS
    }
}

/// The error text of a failed ingestion, from the response's status (as it
/// displays) and body.
pub open spec fn ingest_failure_text(status: Seq<char>, body: Seq<char>) -> Seq<char> {
    "OpenObserve returned "@ + status + ": "@ + body
}

/// The error text of a failed ingestion (see `ingest_failure_text`).
pub fn ingest_failure_message(status: &str, body: &str) -> (r: String)
    ensures
        r@ == ingest_failure_text(status@, body@),
{
    let mut s = concat3("OpenObserve returned ", status, ": ");
    s.append(body);
    s
}


// ── Laws ─────────────────────────────────────────────────────────────────────

/// The wait after `k` failed sends in a row.
pub open spec fn backoff_after(k: nat) -> int
    decreases k,
{
    if k == 0 {
        INITIAL_BACKOFF_SECS as int
    } else {
        next_backoff(backoff_after((k - 1) as nat))
    }
}

/// Exponential backoff: after `k` failed sends in a row the archiver waits
/// `2^k` seconds, at most a minute.
pub proof fn law_backoff_schedule(k: nat)
    ensures
        backoff_after(k) == if vstd::arithmetic::power2::pow2(k) < 60 {
            vstd::arithmetic::power2::pow2(k) as int
        } else {
            60
        },
        1 <= backoff_after(k) <= MAX_BACKOFF_SECS,
    decreases k,
{
    vstd::arithmetic::power2::lemma_pow2_pos(k);
    if k == 0 {
        vstd::arithmetic::power2::lemma2_to64();
    } else {
        law_backoff_schedule((k - 1) as nat);
        vstd::arithmetic::power2::lemma_pow2_unfold(k);
    }
}

} // verus!
