use vstd::prelude::*;
use vstd::string::*;

use crate::sse::{ClientStep, SseFrame};
use crate::text::{decimal, u64_to_decimal, utf8_lossy, utf8_lossy_decode};

verus! {

/// What an SSE client's receiver got from a shared stream's broadcast channel.
pub enum PayloadReceived {
    /// A message payload.
    Payload(Vec<u8>),
    /// The receiver fell behind; this many payloads were skipped.
    Lagged(u64),
    /// The channel closed.
    Closed,
}

/// The warning text sent to a client that skipped `n` messages.
pub open spec fn skipped_text(n: u64) -> Seq<char> {
    "Skipped "@ + decimal(n as nat) + " messages due to slow consumption"@
}

/// The client's answer to what it received.
pub open spec fn log_client_answer(r: PayloadReceived, s: ClientStep) -> bool {
    match r {
        PayloadReceived::Payload(b) => {
            &&& !s.done
            &&& s.frame matches Some(f) && f.text() == (
                None::<Seq<char>>,
                None::<Seq<char>>,
                utf8_lossy(b@),
            )
        },
        PayloadReceived::Lagged(n) => {
            &&& !s.done
            &&& s.frame matches Some(f) && f.text() == (
                Some("warning"@),
                None::<Seq<char>>,
                skipped_text(n),
            )
        },
        PayloadReceived::Closed => s.frame is None && s.done,
    }
}

/// One step of a client's log stream: a payload becomes a plain data frame
/// (its text decoded lossily as UTF-8), a lag becomes a `warning` frame, and a
/// closed channel ends the stream.
pub fn log_client_step(r: PayloadReceived) -> (s: ClientStep)
    ensures
        log_client_answer(r, s),
        s.done <==> r is Closed,
        s.frame is Some <==> !(r is Closed),
{
    match r {
        PayloadReceived::Payload(bytes) => {
            let text = utf8_lossy_decode(bytes.as_slice());
            ClientStep { frame: Some(SseFrame { event: None, id: None, data: text }), done: false }
        },
        PayloadReceived::Lagged(n) => {
            let mut text = String::from_str("Skipped ");
            let count = u64_to_decimal(n);
            text.append(count.as_str());
            text.append(" messages due to slow consumption");
            ClientStep {
                frame: Some(
                    SseFrame { event: Some(String::from_str("warning")), id: None, data: text },
                ),
                done: false,
            }
        },
        PayloadReceived::Closed => ClientStep { frame: None, done: true },
    }
}

/// A client's log stream ends exactly when its channel closes: a payload or
/// a lag leaves it streaming and sends one frame (the payload's text as plain
/// data, or a `warning`), and only a closed channel ends it, with no frame.
pub proof fn law_log_stream_ends_only_on_close(r: PayloadReceived, s: ClientStep)
    requires
        log_client_answer(r, s),
    ensures
        s.done <==> r is Closed,
        s.frame is Some <==> !(r is Closed),
        r matches PayloadReceived::Lagged(n) ==> (s.frame matches Some(f) && f.text().0 == Some(
            "warning"@,
        ) && f.text().2 == skipped_text(n)),
        r matches PayloadReceived::Payload(b) ==> (s.frame matches Some(f) && f.text().0 is None
            && f.text().2 == utf8_lossy(b@)),
{
}

/// The single frame sent when the shared stream could not be obtained: an
/// `error` event with the failure's text.
pub fn stream_error_frame(error_text: &str) -> (f: SseFrame)
    ensures
        f.text() == (
            Some("error"@),
            None::<Seq<char>>,
            "Failed to connect to log stream: "@ + error_text@,
        ),
{
    let mut data = String::from_str("Failed to connect to log stream: ");
    data.append(error_text);
    SseFrame { event: Some(String::from_str("error")), id: None, data }
}

/// The body of the answer to a stop request.
#[derive(Clone, Debug)]
pub struct StopStreamResponse {
    pub stopped: bool,
    pub run_id: String,
}

/// HTTP status OK.
pub const STATUS_OK: u16 = 200;

/// HTTP status Not Found.
pub const STATUS_NOT_FOUND: u16 = 404;

/// The answer to `DELETE /streams/{run_id}`: OK when a live stream was
/// stopped, Not Found otherwise, with the outcome and the run id.
pub fn stop_stream_reply(stopped: bool, run_id: String) -> (r: (u16, StopStreamResponse))
    ensures
        r.0 == (if stopped { 200u16 } else { 404u16 }),
        r.1.stopped == stopped,
        r.1.run_id == run_id,
{
    let status: u16 = if stopped {
        STATUS_OK
    } else {
        STATUS_NOT_FOUND
    };
    (status, StopStreamResponse { stopped, run_id })
}

} // verus!
