use vstd::prelude::*;
use vstd::string::*;

use crate::relay::events::{enrich_message, enriched_fields, StreamEndReason, StreamEvent};
use crate::text::concat3;

verus! {

/// Commands that the public session API sends into the background pump.
#[derive(Clone, Copy, Debug, PartialEq, Eq)]
pub enum StreamCommand {
    /// Temporarily stop forwarding NATS messages to SSE clients.
    Pause,
    /// Resume forwarding after a previous `Pause`.
    Resume,
    /// Clean shutdown: the pump ends with `ForceStopped`.
    Terminate,
}

/// A NATS message of a session, as plain values: its subject, its JetStream
/// info (stream sequence and publish time in Unix nanoseconds, when the
/// message carries it) and its payload.
#[derive(Clone, Debug)]
pub struct IncomingMessage {
    pub subject: String,
    pub info: Option<(u64, i128)>,
    pub payload: Vec<u8>,
}

/// What woke the pump up.
pub enum PumpEvent {
    /// The session's cancellation token fired.
    Shutdown,
    /// A command arrived on the control channel.
    Command(StreamCommand),
    /// The heartbeat interval elapsed.
    HeartbeatTick,
    /// No NATS message arrived within the idle timeout.
    IdleTimeout,
    /// The NATS message stream ended.
    StreamClosed,
    /// The NATS message stream yielded an error (its text).
    NatsError(String),
    /// A NATS message arrived.
    Message(IncomingMessage),
}

/// What the pump does in answer to one event: the events it sends to the
/// session's subscribers, in order; whether it acknowledges the message that
/// just arrived, or holds it back because forwarding is paused; how many of
/// the held messages (the oldest first) it has now forwarded, so that they
/// get acknowledged; whether it restarts the heartbeat interval and the idle
/// timeout; and whether it stops.
pub struct PumpAction {
    pub events: Vec<StreamEvent>,
    pub ack: bool,
    pub hold: bool,
    pub released: usize,
    pub reset_heartbeat: bool,
    pub reset_idle: bool,
    pub finished: bool,
}

/// The state of a session's pump.
pub struct PumpState {
    /// The run the session streams.
    pub run_id: String,
    /// Forwarding is paused.
    pub paused: bool,
    /// The pump has ended; it takes no further events.
    pub finished: bool,
    /// The messages that arrived while paused, oldest first; they are
    /// forwarded on `Resume`, so nothing is lost by pausing. The hold grows
    /// by one for each message that arrives while paused (`held_after`), and
    /// the pump asks NATS for none while paused (`wants_messages`): the
    /// messages published meanwhile wait in the JetStream stream, and only
    /// those already on their way when `Pause` came are held here.
    pub held: Vec<IncomingMessage>,
}

/// The end reason that an event brings, if it ends the pump.
pub open spec fn end_reason_of(e: PumpEvent) -> Option<StreamEndReason> {
    match e {
        PumpEvent::Shutdown => Some(StreamEndReason::ForceStopped),
        PumpEvent::Command(StreamCommand::Terminate) => Some(StreamEndReason::ForceStopped),
        PumpEvent::IdleTimeout => Some(StreamEndReason::IdleTimeout),
        PumpEvent::StreamClosed => Some(StreamEndReason::ApplicationEnded),
        _ => None,
    }
}

/// The paused flag after an event.
pub open spec fn paused_after(paused: bool, e: PumpEvent) -> bool {
    match e {
        PumpEvent::Command(StreamCommand::Pause) => true,
        PumpEvent::Command(StreamCommand::Resume) => false,
        _ => paused,
    }
}

/// The held messages after an event: a message that arrives while paused is
/// added, `Resume` forwards them all.
pub open spec fn held_after(paused: bool, held: Seq<IncomingMessage>, e: PumpEvent) -> Seq<IncomingMessage> {
    match e {
        PumpEvent::Message(m) => if paused {
            held.push(m)
        } else {
            held
        },
        PumpEvent::Command(StreamCommand::Resume) => Seq::empty(),
        _ => held,
    }
}

/// `ev` is the `Log` event of message `m` of a session streaming `run_id`.
pub open spec fn log_of(run_id: Seq<char>, m: IncomingMessage, ev: StreamEvent) -> bool {
    ev matches StreamEvent::Log(l) && enriched_fields(run_id, m.subject@, m.info, m.payload@, l)
}

/// The pump's answer to an event, given the run id, whether it is paused and
/// the messages it holds.
pub open spec fn pump_answer(
    run_id: Seq<char>,
    paused: bool,
    held: Seq<IncomingMessage>,
    e: PumpEvent,
    a: PumpAction,
) -> bool {
    &&& a.reset_idle == (e is Message)
    &&& match end_reason_of(e) {
        Some(reason) => {
            &&& a.finished
            &&& a.events@ == seq![StreamEvent::Terminated(reason)]
            &&& !a.ack
            &&& !a.hold
            &&& a.released == 0
            &&& !a.reset_heartbeat
        },
        None => {
            &&& !a.finished
            &&& match e {
                PumpEvent::HeartbeatTick => {
                    &&& (if paused {
                        a.events@.len() == 0
                    } else {
                        a.events@ == seq![StreamEvent::Heartbeat]
                    })
                    &&& !a.ack && !a.hold && a.released == 0 && !a.reset_heartbeat
                },
                PumpEvent::NatsError(text) => {
                    &&& a.events@.len() == 1
                    &&& a.events@[0] matches StreamEvent::Error(m) && m@ == text@
                    &&& !a.ack && !a.hold && a.released == 0 && !a.reset_heartbeat
                },
                PumpEvent::Message(m) => {
                    &&& a.released == 0
                    &&& (if paused {
                        a.events@.len() == 0 && !a.ack && a.hold && !a.reset_heartbeat
                    } else {
                        &&& a.events@.len() == 1
                        &&& log_of(run_id, m, a.events@[0])
                        &&& a.ack && !a.hold && a.reset_heartbeat
                    })
                },
                PumpEvent::Command(StreamCommand::Resume) => {
                    &&& a.events@.len() == held.len()
                    &&& forall|i: int| 0 <= i < held.len() ==> log_of(run_id, held[i], #[trigger] a.events@[i])
                    &&& a.released == held.len()
                    &&& a.reset_heartbeat == (held.len() > 0)
                    &&& !a.ack && !a.hold
                },
                _ => a.events@.len() == 0 && !a.ack && !a.hold && a.released == 0 && !a.reset_heartbeat,
            }
        },
    }
}

impl PumpState {
    /// The messages held back while paused, oldest first.
    pub open spec fn held(&self) -> Seq<IncomingMessage> {
        self.held@
    }

    /// A running, unpaused pump for `run_id`, and the first event of the
    /// session: `Connected`, carrying its `stream_id`.
    pub fn start(run_id: String, stream_id: String) -> (r: (Self, StreamEvent))
        ensures
            r.0.run_id == run_id,
            !r.0.paused,
            !r.0.finished,
            r.0.held() == Seq::<IncomingMessage>::empty(),
            r.1 == StreamEvent::Connected(stream_id),
    {
        (PumpState { run_id, paused: false, finished: false, held: Vec::new() }, StreamEvent::Connected(stream_id))
    }

    /// Whether the pump takes messages from NATS now: only while forwarding
    /// is not paused.
    pub fn wants_messages(&self) -> (r: bool)
        ensures
            r == !self.paused,
    {
        !self.paused
    }

    /// Handles one event.
    ///
    /// The cancellation token and the `Terminate` command stop the pump with
    /// `ForceStopped`, the idle timeout with `IdleTimeout`, the end of the
    /// NATS stream with `ApplicationEnded`; on stopping it sends
    /// `Terminated` with that reason. `Pause` stops forwarding; messages that
    /// arrive while paused are held, and `Resume` forwards them, in order, as
    /// `Log` events. A heartbeat tick sends `Heartbeat` unless paused. A
    /// NATS error is sent as an `Error` event and the pump goes on. A
    /// message restarts the idle timeout; unless paused it is enriched,
    /// sent as a `Log` and acknowledged, and the heartbeat restarts.
    pub fn step(&mut self, event: PumpEvent) -> (a: PumpAction)
        requires
            !old(self).finished,
        ensures
            pump_answer(old(self).run_id@, old(self).paused, old(self).held(), event, a),
            final(self).paused == paused_after(old(self).paused, event),
            event == PumpEvent::Command(StreamCommand::Resume) ==> !final(self).paused,
            event == PumpEvent::Command(StreamCommand::Pause) ==> final(self).paused,
            !(event is Command) ==> final(self).paused == old(self).paused,
            final(self).held() == held_after(old(self).paused, old(self).held(), event),
            final(self).finished == a.finished,
            final(self).run_id == old(self).run_id,
    {
        match event {
            PumpEvent::Shutdown => self.finish(StreamEndReason::ForceStopped),
            PumpEvent::Command(cmd) => match cmd {
                StreamCommand::Pause => {
                    self.paused = true;
                    quiet()
                },
                StreamCommand::Resume => {
                    self.paused = false;
                    self.release()
                },
                StreamCommand::Terminate => self.finish(StreamEndReason::ForceStopped),
            },
            PumpEvent::HeartbeatTick => {
                let mut a = quiet();
                if !self.paused {
                    a.events.push(StreamEvent::Heartbeat);
                    assert(a.events@ =~= seq![StreamEvent::Heartbeat]);
                }
                a
            },
            PumpEvent::IdleTimeout => self.finish(StreamEndReason::IdleTimeout),
            PumpEvent::StreamClosed => self.finish(StreamEndReason::ApplicationEnded),
            PumpEvent::NatsError(text) => {
                let mut a = quiet();
                a.events.push(StreamEvent::Error(text));
                a
            },
            PumpEvent::Message(msg) => {
                let mut a = quiet();
                a.reset_idle = true;
                if self.paused {
                    self.held.push(msg);
                    a.hold = true;
                } else {
                    let enriched = enrich_message(
                        self.run_id.as_str(),
                        msg.subject.as_str(),
                        msg.info,
                        msg.payload.as_slice(),
                    );
                    a.events.push(StreamEvent::Log(enriched));
                    a.ack = true;
                    a.reset_heartbeat = true;
                }
                a
            },
        }
    }

    /// Forwards the held messages, oldest first, and empties the hold.
    fn release(&mut self) -> (a: PumpAction)
        ensures
            final(self).run_id == old(self).run_id,
            final(self).paused == old(self).paused,
            final(self).finished == old(self).finished,
            final(self).held() == Seq::<IncomingMessage>::empty(),
            a.events@.len() == old(self).held().len(),
            forall|i: int|
                0 <= i < old(self).held().len() ==> log_of(
                    old(self).run_id@,
                    old(self).held()[i],
                    #[trigger] a.events@[i],
                ),
            a.released == old(self).held().len(),
            a.reset_heartbeat == (old(self).held().len() > 0),
            !a.ack,
            !a.hold,
            !a.reset_idle,
            !a.finished,
    {
        let mut out: Vec<StreamEvent> = Vec::new();
        let n = self.held.len();
        let mut i: usize = 0;
        while i < n
            invariant
                n == self.held@.len(),
                i <= n,
                out@.len() == i,
                forall|k: int| 0 <= k < i ==> log_of(self.run_id@, self.held@[k], #[trigger] out@[k]),
            decreases n - i,
        {
            let m = &self.held[i];
            let enriched = enrich_message(self.run_id.as_str(), m.subject.as_str(), m.info, m.payload.as_slice());
            out.push(StreamEvent::Log(enriched));
            i = i + 1;
        }
        self.held = Vec::new();
        PumpAction {
            events: out,
            ack: false,
            hold: false,
            released: n,
            reset_heartbeat: n > 0,
            reset_idle: false,
            finished: false,
        }
    }

    fn finish(&mut self, reason: StreamEndReason) -> (a: PumpAction)
        ensures
            final(self).run_id == old(self).run_id,
            final(self).paused == old(self).paused,
            final(self).held() == old(self).held(),
            final(self).finished,
            a.finished,
            a.events@ == seq![StreamEvent::Terminated(reason)],
            !a.ack,
            !a.hold,
            a.released == 0,
            !a.reset_heartbeat,
            !a.reset_idle,
    {
        self.finished = true;
        let mut a = quiet();
        a.events.push(StreamEvent::Terminated(reason));
        a.finished = true;
        a
    }
}

/// An action that does nothing.
fn quiet() -> (a: PumpAction)
    ensures
        a.events@.len() == 0,
        !a.ack,
        !a.hold,
        a.released == 0,
        !a.reset_heartbeat,
        !a.reset_idle,
        !a.finished,
{
    PumpAction {
        events: Vec::new(),
        ack: false,
        hold: false,
        released: 0,
        reset_heartbeat: false,
        reset_idle: false,
        finished: false,
    }
}

/// An event that a running session forwards: a heartbeat, a log or an error.
pub open spec fn is_flow(ev: StreamEvent) -> bool {
    ev is Heartbeat || ev is Log || ev is Error
}

/// The actions answer the events one by one, each from the state that the
/// events before it left (starting from `paused` and `held`).
pub open spec fn session_answers(
    run_id: Seq<char>,
    paused: bool,
    held: Seq<IncomingMessage>,
    events: Seq<PumpEvent>,
    actions: Seq<PumpAction>,
) -> bool
    decreases events.len(),
{
    &&& events.len() == actions.len()
    &&& events.len() > 0 ==> {
        &&& pump_answer(run_id, paused, held, events[0], actions[0])
        &&& session_answers(
            run_id,
            paused_after(paused, events[0]),
            held_after(paused, held, events[0]),
            events.drop_first(),
            actions.drop_first(),
        )
    }
}

/// Everything the actions send, in order.
pub open spec fn emitted(actions: Seq<PumpAction>) -> Seq<StreamEvent>
    decreases actions.len(),
{
    if actions.len() == 0 {
        Seq::empty()
    } else {
        actions[0].events@ + emitted(actions.drop_first())
    }
}

/// An answer to an event that does not end the pump sends only
/// heartbeats, logs and errors.
proof fn lemma_answer_flows(
    run_id: Seq<char>,
    paused: bool,
    held: Seq<IncomingMessage>,
    e: PumpEvent,
    a: PumpAction,
)
    requires
        pump_answer(run_id, paused, held, e, a),
        end_reason_of(e) is None,
    ensures
        forall|i: int| 0 <= i < a.events@.len() ==> is_flow(#[trigger] a.events@[i]),
{
    assert forall|i: int| 0 <= i < a.events@.len() implies is_flow(#[trigger] a.events@[i]) by {
        match e {
            PumpEvent::Command(StreamCommand::Resume) => {
                assert(log_of(run_id, held[i], a.events@[i]));
            },
            _ => {},
        }
    }
}

/// The shape of what a run of the pump sends: only heartbeats, logs and
/// errors, except that the last event may be `Terminated`, which it is
/// exactly when the last event ended the pump.
proof fn lemma_answers_shape(
    run_id: Seq<char>,
    paused: bool,
    held: Seq<IncomingMessage>,
    events: Seq<PumpEvent>,
    actions: Seq<PumpAction>,
)
    requires
        session_answers(run_id, paused, held, events, actions),
        forall|i: int| 0 <= i < events.len() - 1 ==> (#[trigger] end_reason_of(events[i])) is None,
    ensures
        ({
            let out = emitted(actions);
            &&& forall|i: int|
                0 <= i < out.len() ==> is_flow(#[trigger] out[i]) || (i == out.len() - 1
                    && out[i] is Terminated)
            &&& (events.len() > 0 && end_reason_of(events.last()) is Some) ==> out.len() > 0
                && out.last() is Terminated
            &&& (events.len() > 0 && end_reason_of(events.last()) is None) ==> forall|i: int|
                0 <= i < out.len() ==> is_flow(#[trigger] out[i])
        }),
    decreases events.len(),
{
    if events.len() > 0 {
        let e = events[0];
        let a = actions[0];
        let rest_e = events.drop_first();
        let rest_a = actions.drop_first();
        let p2 = paused_after(paused, e);
        let h2 = held_after(paused, held, e);
        assert forall|i: int| 0 <= i < rest_e.len() - 1 implies (#[trigger] end_reason_of(rest_e[i])) is None by {
            assert(rest_e[i] == events[i + 1]);
            assert(end_reason_of(events[i + 1]) is None);
        }
        lemma_answers_shape(run_id, p2, h2, rest_e, rest_a);
        let b0 = a.events@;
        let tail = emitted(rest_a);
        assert(emitted(actions) == b0 + tail);
        if events.len() == 1 {
            assert(rest_a.len() == 0);
            assert(tail =~= Seq::<StreamEvent>::empty());
            assert(emitted(actions) =~= b0);
            if end_reason_of(e) is None {
                lemma_answer_flows(run_id, paused, held, e, a);
            } else {
                assert(b0 =~= seq![StreamEvent::Terminated(end_reason_of(e)->0)]);
            }
        } else {
            assert(end_reason_of(events[0]) is None);
            lemma_answer_flows(run_id, paused, held, e, a);
            assert(events.last() == rest_e.last());
            let out = b0 + tail;
            assert forall|i: int| 0 <= i < out.len() implies is_flow(#[trigger] out[i]) || (i
                == out.len() - 1 && out[i] is Terminated) by {
                if i < b0.len() {
                    assert(out[i] == b0[i]);
                } else {
                    assert(out[i] == tail[i - b0.len()]);
                }
            }
            if end_reason_of(events.last()) is None {
                assert forall|i: int| 0 <= i < out.len() implies is_flow(#[trigger] out[i]) by {
                    if i < b0.len() {
                        assert(out[i] == b0[i]);
                    } else {
                        assert(out[i] == tail[i - b0.len()]);
                    }
                }
            } else {
                assert(out.last() == tail.last());
            }
        }
    }
}

/// Over a whole session the subscribers first get `Connected` (from
/// `start`), then only `Heartbeat`, `Log` and `Error` events, and, when the
/// pump ends, exactly one `Terminated`, which is the last event they get.
/// The pump takes events until one ends it (`step` requires an unfinished
/// pump), so `events` are the events it handled.
pub proof fn law_session_event_order(
    run_id: Seq<char>,
    stream_id: String,
    events: Seq<PumpEvent>,
    actions: Seq<PumpAction>,
)
    requires
        session_answers(run_id, false, Seq::empty(), events, actions),
        forall|i: int| 0 <= i < events.len() - 1 ==> (#[trigger] end_reason_of(events[i])) is None,
    ensures
        ({
            let out = seq![StreamEvent::Connected(stream_id)] + emitted(actions);
            &&& out[0] == StreamEvent::Connected(stream_id)
            &&& forall|i: int|
                1 <= i < out.len() ==> is_flow(#[trigger] out[i]) || (i == out.len() - 1
                    && out[i] is Terminated)
            &&& (events.len() > 0 && end_reason_of(events.last()) is Some) ==> out.last() is Terminated
            &&& (events.len() == 0 || end_reason_of(events.last()) is None) ==> forall|i: int|
                1 <= i < out.len() ==> is_flow(#[trigger] out[i])
        }),
{
    lemma_answers_shape(run_id, false, Seq::empty(), events, actions);
    let tail = emitted(actions);
    let out = seq![StreamEvent::Connected(stream_id)] + tail;
    assert forall|i: int| 1 <= i < out.len() implies is_flow(#[trigger] out[i]) || (i == out.len() - 1
        && out[i] is Terminated) by {
        assert(out[i] == tail[i - 1]);
    }
    if events.len() == 0 {
        assert(actions.len() == 0);
        assert(tail =~= Seq::<StreamEvent>::empty());
    }
    if events.len() == 0 || end_reason_of(events.last()) is None {
        assert forall|i: int| 1 <= i < out.len() implies is_flow(#[trigger] out[i]) by {
            assert(out[i] == tail[i - 1]);
        }
    }
    if events.len() > 0 && end_reason_of(events.last()) is Some {
        assert(out.last() == tail.last());
    }
}

/// Nothing is lost by pausing: after `Pause`, a message that arrives is
/// neither sent nor acknowledged but held, and the `Resume` that follows
/// sends it as its `Log` event, after the messages held before it, and
/// releases it for acknowledgement.
pub proof fn law_paused_message_delivered_on_resume(
    run_id: Seq<char>,
    paused: bool,
    held: Seq<IncomingMessage>,
    m: IncomingMessage,
    a_pause: PumpAction,
    a_msg: PumpAction,
    a_resume: PumpAction,
)
    requires
        pump_answer(run_id, paused, held, PumpEvent::Command(StreamCommand::Pause), a_pause),
        pump_answer(run_id, true, held, PumpEvent::Message(m), a_msg),
        pump_answer(run_id, true, held.push(m), PumpEvent::Command(StreamCommand::Resume), a_resume),
    ensures
        paused_after(paused, PumpEvent::Command(StreamCommand::Pause)),
        held_after(paused, held, PumpEvent::Command(StreamCommand::Pause)) == held,
        held_after(true, held, PumpEvent::Message(m)) == held.push(m),
        a_pause.events@.len() == 0,
        a_msg.events@.len() == 0,
        !a_msg.ack,
        a_msg.hold,
        a_resume.events@.len() == held.len() + 1,
        log_of(run_id, m, a_resume.events@[held.len() as int]),
        a_resume.released == held.len() + 1,
        !paused_after(true, PumpEvent::Command(StreamCommand::Resume)),
        held_after(true, held.push(m), PumpEvent::Command(StreamCommand::Resume)).len() == 0,
{
    assert(held.push(m)[held.len() as int] == m);
}

/// Every message the pump takes is either acknowledged at once (it was
/// sent) or held (forwarding is paused), never both and never neither.
pub proof fn law_message_acked_or_held(
    run_id: Seq<char>,
    paused: bool,
    held: Seq<IncomingMessage>,
    m: IncomingMessage,
    a: PumpAction,
)
    requires
        pump_answer(run_id, paused, held, PumpEvent::Message(m), a),
    ensures
        a.ack != a.hold,
        a.ack <==> !paused,
        a.ack ==> a.events@.len() == 1 && log_of(run_id, m, a.events@[0]),
{
}

/// While paused, the pump sends no log and no heartbeat until `Resume`.
pub proof fn law_paused_forwards_nothing(
    run_id: Seq<char>,
    held: Seq<IncomingMessage>,
    e: PumpEvent,
    a: PumpAction,
)
    requires
        pump_answer(run_id, true, held, e, a),
        e != PumpEvent::Command(StreamCommand::Resume),
    ensures
        forall|i: int| 0 <= i < a.events@.len() ==> !(#[trigger] a.events@[i] is Log) && !(
        a.events@[i] is Heartbeat),
        a.released == 0,
{
}

/// `Resume` always ends a pause and `Pause` always starts one, whatever the
/// state before (neither toggles); no other event changes whether the pump
/// is paused.
pub proof fn law_pause_and_resume_set_the_state(paused: bool, e: PumpEvent)
    ensures
        !paused_after(paused, PumpEvent::Command(StreamCommand::Resume)),
        paused_after(paused, PumpEvent::Command(StreamCommand::Pause)),
        !(e is Command) ==> paused_after(paused, e) == paused,
        paused_after(paused, PumpEvent::Command(StreamCommand::Terminate)) == paused,
{
}

/// Only a message restarts the idle timeout; heartbeats, commands and errors
/// do not, so a session without messages ends when the timeout elapses.
pub proof fn law_only_messages_restart_idle(
    run_id: Seq<char>,
    paused: bool,
    held: Seq<IncomingMessage>,
    e: PumpEvent,
    a: PumpAction,
)
    requires
        pump_answer(run_id, paused, held, e, a),
    ensures
        a.reset_idle <==> e is Message,
{
}

/// The step of consumer setup that failed.
#[derive(Clone, Copy, Debug, PartialEq, Eq)]
pub enum SetupStage {
    /// The JetStream stream could not be looked up.
    StreamLookup,
    /// The consumer could not be created.
    ConsumerCreate,
    /// The consumer's message stream could not be opened.
    MessageOpen,
}

/// The message reported when consumer setup fails, given the stream name and
/// the error's text.
pub open spec fn setup_failure_text(stage: SetupStage, stream_name: Seq<char>, error_text: Seq<char>) -> Seq<char> {
    match stage {
        SetupStage::StreamLookup => "NATS stream '"@ + stream_name + "' not found: "@ + error_text,
        SetupStage::ConsumerCreate => "Failed to create NATS consumer: "@ + error_text,
        SetupStage::MessageOpen => "Failed to open message stream: "@ + error_text,
    }
}

/// The events a session's subscribers receive when consumer setup fails:
/// an `Error` with the failure message, then `Terminated` with a NATS error
/// carrying the same message. The pump ends after them.
pub fn setup_failure_events(stage: SetupStage, stream_name: &str, error_text: &str) -> (v: Vec<StreamEvent>)
    ensures
        v@.len() == 2,
        v@[0] matches StreamEvent::Error(m) && m@ == setup_failure_text(stage, stream_name@, error_text@),
        v@[1] matches StreamEvent::Terminated(StreamEndReason::NatsError(m)) && m@ == setup_failure_text(
            stage,
            stream_name@,
            error_text@,
        ),
{
    let msg = match stage {
        SetupStage::StreamLookup => {
            let mut s = concat3("NATS stream '", stream_name, "' not found: ");
            s.append(error_text);
            s
        },
        SetupStage::ConsumerCreate => {
            let mut s = String::from_str("Failed to create NATS consumer: ");
            s.append(error_text);
            s
        },
        SetupStage::MessageOpen => {
            let mut s = String::from_str("Failed to open message stream: ");
            s.append(error_text);
            s
        },
    };
    let mut v: Vec<StreamEvent> = Vec::new();
    v.push(StreamEvent::Error(msg.clone()));
    v.push(StreamEvent::Terminated(StreamEndReason::NatsError(msg)));
    v
}


} // verus!
