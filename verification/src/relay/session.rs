use vstd::prelude::*;
use vstd::string::*;

use crate::relay::events::{event_frame, StreamEvent};
use crate::sse::{ClientStep, SseFrame};
use crate::text::{decimal, json_quote, u64_to_decimal};

verus! {

/// What an SSE client's receiver got from the session's broadcast channel.
pub enum Received {
    /// An event.
    Event(StreamEvent),
    /// The receiver fell behind; this many events were skipped.
    Lagged(u64),
    /// The channel closed: the pump has exited.
    Closed,
}

/// The warning text sent to a client that skipped `n` events.
pub open spec fn lag_warning_text(n: u64) -> Seq<char> {
    "Slow consumer: skipped "@ + decimal(n as nat) + " messages"@
}

/// The frame an event turns into, as plain text values.
pub open spec fn frame_is(f: Option<SseFrame>, e: StreamEvent) -> bool {
    f matches Some(fr) && fr.text() == event_frame(e)
}

/// The client's answer to what it received.
pub open spec fn client_answer(r: Received, s: ClientStep) -> bool {
    match r {
        Received::Event(e) => match e {
            StreamEvent::Connected(_) => s.frame is None && !s.done,
            _ => frame_is(s.frame, e) && s.done == (e is Terminated),
        },
        Received::Lagged(n) => {
            &&& !s.done
            &&& s.frame matches Some(fr) && fr.text() == (
                Some("warning"@),
                None::<Seq<char>>,
                lag_warning_text(n),
            )
        },
        Received::Closed => s.frame is None && s.done,
    }
}

/// The first frame of a session's SSE stream: the `connected` event carrying
/// the session's `stream_id`, sent before anything is received.
pub fn connected_frame(stream_id: &str) -> (f: Option<SseFrame>)
    ensures
        f matches Some(fr) && fr.text() == (
            Some("connected"@),
            None::<Seq<char>>,
            "{\"stream_id\":"@ + json_quote(stream_id@) + "}"@,
        ),
{
    let e = StreamEvent::Connected(String::from_str(stream_id));
    match e.to_sse_frame() {
        Ok(fr) => Some(fr),
        Err(_) => None,
    }
}

/// One step of a client's SSE stream: `Connected` events from the pump are
/// skipped (the stream already sent its own), other events become frames and
/// a terminal event ends the stream after its frame; a lag becomes a
/// `warning` frame; a closed channel ends the stream.
pub fn client_step(r: Received) -> (s: ClientStep)
    ensures
        client_answer(r, s),
{
    match r {
        Received::Event(event) => {
            match event {
                StreamEvent::Connected(_) => ClientStep { frame: None, done: false },
                _ => {
                    let terminal = event.is_terminal();
                    let frame = match event.to_sse_frame() {
                        Ok(fr) => Some(fr),
                        Err(_) => None,
                    };
                    ClientStep { frame, done: terminal }
                },
            }
        },
        Received::Lagged(n) => {
            let mut text = String::from_str("Slow consumer: skipped ");
            let count = u64_to_decimal(n);
            text.append(count.as_str());
            text.append(" messages");
            let warning = StreamEvent::Warning(text);
            let frame = match warning.to_sse_frame() {
                Ok(fr) => Some(fr),
                Err(_) => None,
            };
            ClientStep { frame, done: false }
        },
        Received::Closed => ClientStep { frame: None, done: true },
    }
}


// ── Laws ─────────────────────────────────────────────────────────────────────

/// A client's SSE stream ends exactly when its channel closes or when it has
/// sent the frame of a terminal event.
pub proof fn law_client_ends_on_terminal_or_close(r: Received, s: ClientStep)
    requires
        client_answer(r, s),
    ensures
        s.done <==> (r is Closed || (r matches Received::Event(e) && e is Terminated)),
{
}

/// `Connected` events coming from the pump never reach the client (it got its
/// own first), and every other event does, as its frame.
pub proof fn law_client_forwards_all_but_connected(e: StreamEvent, s: ClientStep)
    requires
        client_answer(Received::Event(e), s),
    ensures
        (e is Connected) <==> s.frame is None,
        !(e is Connected) ==> frame_is(s.frame, e),
{
}

} // verus!
