//! The life of one client session.
//!
//! A session moves through `Connecting`, `Active`, `Draining` and `Closed`.
//! The embedding program owns the transport and the tasks; it reports what
//! happened as a [`SessionEvent`] and carries out the [`SessionAction`] it
//! gets back.

use crate::envelope::{DeliveryReceipt, EnvelopeView, MessageEnvelope};
use crate::error::Error;
use crate::relay::{AppState, RouteOutcome};
use crate::storage::{envelopes_view, texts_view};
use crate::wire::{
    encode_envelope, envelope_text, frame_of, json_object_members, parse_frame, Frame, FrameView,
};
use vstd::prelude::*;

verus! {

/// The four states of a session.
#[derive(Debug, Clone, Copy, PartialEq, Eq, Structural)]
pub enum SessionState {
    /// The transport is accepted; the session is being registered and its
    /// backlog flushed.
    Connecting,
    /// Live traffic flows both ways.
    Active,
    /// The transport is closing; the session is being deregistered.
    Draining,
    /// Deregistered; nothing more happens.
    Closed,
}

/// Where exactly a session stands. `Connecting` has two steps.
#[derive(Debug, Clone, Copy, PartialEq, Eq, Structural)]
pub enum Stage {
    /// Registered or about to be; waiting for the backlog.
    AwaitingBacklog,
    /// The backlog is being written to the transport.
    Flushing,
    /// Live.
    Live,
    /// Being torn down.
    Draining,
    /// Over.
    Closed,
}

impl Stage {
    /// The state a stage belongs to.
    pub open spec fn state(self) -> SessionState {
        match self {
            Stage::AwaitingBacklog => SessionState::Connecting,
            Stage::Flushing => SessionState::Connecting,
            Stage::Live => SessionState::Active,
            Stage::Draining => SessionState::Draining,
            Stage::Closed => SessionState::Closed,
        }
    }

    /// Position of a stage in the life of a session.
    pub open spec fn rank(self) -> nat {
        match self {
            Stage::AwaitingBacklog => 0,
            Stage::Flushing => 1,
            Stage::Live => 2,
            Stage::Draining => 3,
            Stage::Closed => 4,
        }
    }
}

/// What the embedding program reports to a session.
#[derive(Debug, Clone, PartialEq, Eq)]
pub enum SessionEvent {
    /// The messages pending for this identity were fetched from the queue,
    /// oldest first. Empty where nothing was pending, and where the queue
    /// could not be read.
    Backlog(Vec<MessageEnvelope>),
    /// Every backlog frame was written to the transport.
    Flushed,
    /// A text frame arrived.
    Text(String),
    /// A ping arrived.
    Ping,
    /// A frame of any other kind arrived.
    Other,
    /// The peer sent a close frame.
    Close,
    /// Reading from the transport failed.
    ReadFailed,
    /// The transport's inbound stream ended.
    Ended,
    /// A frame could not be written to the transport.
    SendFailed,
    /// The registry entry is removed and forwarding is cancelled.
    TornDown,
}

/// Mathematical value of a [`SessionEvent`].
pub ghost enum EventView {
    Backlog(Seq<EnvelopeView>),
    Flushed,
    Text(Seq<char>),
    Ping,
    Other,
    Close,
    ReadFailed,
    Ended,
    SendFailed,
    TornDown,
}

impl View for SessionEvent {
    type V = EventView;

    open spec fn view(&self) -> EventView {
        match self {
            SessionEvent::Backlog(pending) => EventView::Backlog(envelopes_view(pending@)),
            SessionEvent::Flushed => EventView::Flushed,
            SessionEvent::Text(text) => EventView::Text(text@),
            SessionEvent::Ping => EventView::Ping,
            SessionEvent::Other => EventView::Other,
            SessionEvent::Close => EventView::Close,
            SessionEvent::ReadFailed => EventView::ReadFailed,
            SessionEvent::Ended => EventView::Ended,
            SessionEvent::SendFailed => EventView::SendFailed,
            SessionEvent::TornDown => EventView::TornDown,
        }
    }
}

impl EventView {
    /// Whether the event means that the transport is closing.
    pub open spec fn closes(self) -> bool {
        self is Close || self is ReadFailed || self is Ended || self is SendFailed
    }
}

/// What the embedding program is to do next for a session.
#[derive(Debug, Clone, PartialEq, Eq)]
pub enum SessionAction {
    /// Open the outbound channel, register its sending half under the
    /// session's identity, fetch the identity's backlog from the queue and
    /// report it.
    Register,
    /// Write these frames to the transport, in this order and ahead of any
    /// live frame, and report when done.
    Flush(Vec<String>),
    /// Start forwarding the outbound channel to the transport, and start
    /// reading inbound frames.
    GoLive,
    /// Interpret this text frame as an inbound message.
    Process(String),
    /// Remove the identity's registry entry, cancel outbound forwarding,
    /// and report when done.
    Teardown,
    /// The session is over.
    Stop,
    /// Nothing to do.
    Idle,
}

/// Mathematical value of a [`SessionAction`].
pub ghost enum ActionView {
    Register,
    Flush(Seq<Seq<char>>),
    GoLive,
    Process(Seq<char>),
    Teardown,
    Stop,
    Idle,
}

impl View for SessionAction {
    type V = ActionView;

    open spec fn view(&self) -> ActionView {
        match self {
            SessionAction::Register => ActionView::Register,
            SessionAction::Flush(frames) => ActionView::Flush(texts_view(frames@)),
            SessionAction::GoLive => ActionView::GoLive,
            SessionAction::Process(text) => ActionView::Process(text@),
            SessionAction::Teardown => ActionView::Teardown,
            SessionAction::Stop => ActionView::Stop,
            SessionAction::Idle => ActionView::Idle,
        }
    }
}

/// The frames of a backlog: the wire text of each envelope that has one, in
/// the order of the backlog.
pub open spec fn backlog_frames(pending: Seq<EnvelopeView>) -> Seq<Seq<char>>
    decreases pending.len(),
{
    if pending.len() == 0 {
        Seq::empty()
    } else {
        let earlier = backlog_frames(pending.drop_last());
        match envelope_text(pending.last()) {
            Some(frame) => earlier.push(frame),
            None => earlier,
        }
    }
}

/// The lifecycle: where a session goes on an event, and what is to be done.
///
/// The backlog takes a connecting session to flushing, the completed flush
/// takes it live. While live, a text frame is processed and pings and other
/// frames are passed over. Before teardown has begun, any sign that the
/// transport is closing starts it. The completed teardown closes the
/// session. Every other event leaves the session where it is.
pub open spec fn session_step(stage: Stage, event: EventView) -> (Stage, ActionView) {
    match (stage, event) {
        (Stage::AwaitingBacklog, EventView::Backlog(pending)) => (
            Stage::Flushing,
            ActionView::Flush(backlog_frames(pending)),
        ),
        (Stage::Flushing, EventView::Flushed) => (Stage::Live, ActionView::GoLive),
        (Stage::Live, EventView::Text(text)) => (Stage::Live, ActionView::Process(text)),
        (Stage::Draining, EventView::TornDown) => (Stage::Closed, ActionView::Stop),
        _ => if stage.rank() < Stage::Draining.rank() && event.closes() {
            (Stage::Draining, ActionView::Teardown)
        } else {
            (stage, ActionView::Idle)
        },
    }
}

/// One client session.
#[derive(Debug)]
pub struct Session {
    user_id: String,
    stage: Stage,
}

impl Session {
    /// The identity the session was opened under.
    pub closed spec fn identity(&self) -> Seq<char> {
        self.user_id@
    }

    /// Where the session stands.
    pub closed spec fn stage(&self) -> Stage {
        self.stage
    }

    /// Starts the session of a transport that was accepted for `user_id`.
    /// The first thing to do is to register it.
    pub fn begin(user_id: String) -> (started: (Session, SessionAction))
        ensures
            started.0.identity() == user_id@,
            started.0.stage() == Stage::AwaitingBacklog,
            started.1@ == ActionView::Register,
    {
        (Session { user_id, stage: Stage::AwaitingBacklog }, SessionAction::Register)
    }

    /// The identity the session was opened under.
    pub fn user_id(&self) -> (user_id: &str)
        ensures
            user_id@ == self.identity(),
    {
        self.user_id.as_str()
    }

    /// The state the session is in.
    pub fn state(&self) -> (state: SessionState)
        ensures
            state == self.stage().state(),
    {
        match self.stage {
            Stage::AwaitingBacklog => SessionState::Connecting,
            Stage::Flushing => SessionState::Connecting,
            Stage::Live => SessionState::Active,
            Stage::Draining => SessionState::Draining,
            Stage::Closed => SessionState::Closed,
        }
    }

    /// Whether the session is over.
    pub fn is_closed(&self) -> (closed: bool)
        ensures
            closed == (self.stage().state() == SessionState::Closed),
    {
        match self.stage {
            Stage::Closed => true,
            _ => false,
        }
    }

    /// Takes the session one step: moves it as the lifecycle says and
    /// returns what is to be done.
    pub fn step(&mut self, event: SessionEvent) -> (action: SessionAction)
        ensures
            (final(self).stage(), action@) == session_step(old(self).stage(), event@),
            final(self).identity() == old(self).identity(),
    {
        let closing = match &event {
            SessionEvent::Close
            | SessionEvent::ReadFailed
            | SessionEvent::Ended
            | SessionEvent::SendFailed => true,
            _ => false,
        };
        match (self.stage, event) {
            (Stage::AwaitingBacklog, SessionEvent::Backlog(pending)) => {
                self.stage = Stage::Flushing;
                SessionAction::Flush(encode_backlog(&pending))
            },
            (Stage::Flushing, SessionEvent::Flushed) => {
                self.stage = Stage::Live;
                SessionAction::GoLive
            },
            (Stage::Live, SessionEvent::Text(text)) => SessionAction::Process(text),
            (Stage::Draining, SessionEvent::TornDown) => {
                self.stage = Stage::Closed;
                SessionAction::Stop
            },
            (Stage::AwaitingBacklog, _) | (Stage::Flushing, _) | (Stage::Live, _) => {
                if closing {
                    self.stage = Stage::Draining;
                    SessionAction::Teardown
                } else {
                    SessionAction::Idle
                }
            },
            _ => SessionAction::Idle,
        }
    }
}

/// Encodes a backlog for the transport: one frame per envelope that has a
/// wire text, in the order of the backlog.
pub fn encode_backlog(pending: &Vec<MessageEnvelope>) -> (frames: Vec<String>)
    ensures
        texts_view(frames@) == backlog_frames(envelopes_view(pending@)),
{
    let ghost all = envelopes_view(pending@);
    let mut frames: Vec<String> = Vec::new();
    let mut i: usize = 0;
    assert(all.take(0) =~= Seq::<EnvelopeView>::empty());
    while i < pending.len()
        invariant
            i <= pending.len(),
            all == envelopes_view(pending@),
            texts_view(frames@) == backlog_frames(all.take(i as int)),
        decreases pending.len() - i,
    {
        let ghost before = texts_view(frames@);
        assert(all.take(i + 1).drop_last() =~= all.take(i as int));
        assert(all.take(i + 1).last() == pending@[i as int]@);
        match encode_envelope(&pending[i]) {
            Ok(frame) => {
                frames.push(frame);
                assert(texts_view(frames@) =~= before.push(frame@));
            },
            Err(_) => {},
        }
        i += 1;
    }
    assert(all.take(i as int) =~= all);
    frames
}

/// `uuid::Uuid::new_v4`, written out by `Uuid`'s `Display`: a random
/// identifier in hyphenated form, which is 36 characters long. Nothing is
/// claimed about which identifier comes.
#[verifier::external_body]
fn fresh_message_id() -> (id: String)
    ensures
        id@.len() == 36,
{
    uuid::Uuid::new_v4().to_string()
}

/// `chrono::Utc::now` and `DateTime::timestamp_millis`: the system clock in
/// milliseconds since the Unix epoch. Nothing is claimed about the value.
#[verifier::external_body]
fn now_millis() -> (millis: i64) {
    chrono::Utc::now().timestamp_millis()
}

/// An inbound envelope as the relay passes it on: the sender is the
/// session's identity whatever the client wrote, the time is the relay's,
/// and an empty identifier is replaced by `fresh_id`. Recipient and payload
/// are the client's.
pub open spec fn stamped(
    parsed: EnvelopeView,
    from_user: Seq<char>,
    now: i64,
    fresh_id: Seq<char>,
) -> EnvelopeView {
    EnvelopeView {
        message_id: if parsed.message_id.len() == 0 {
            fresh_id
        } else {
            parsed.message_id
        },
        from: from_user,
        to: parsed.to,
        payload: parsed.payload,
        timestamp: now,
    }
}

/// Stamps an inbound envelope with the session's identity, the time of
/// ingestion and, where it has none, an identifier.
pub fn stamp_envelope(
    parsed: MessageEnvelope,
    from_user: &str,
    now: i64,
    fresh_id: String,
) -> (envelope: MessageEnvelope)
    ensures
        envelope@ == stamped(parsed@, from_user@, now, fresh_id@),
{
    let message_id = if parsed.message_id.as_str().is_empty() {
        fresh_id
    } else {
        parsed.message_id
    };
    MessageEnvelope {
        message_id,
        from: from_user.to_string(),
        to: parsed.to,
        payload: parsed.payload,
        timestamp: now,
    }
}

/// What was done with an inbound text frame.
#[derive(Debug, Clone, PartialEq, Eq)]
pub enum Handled {
    /// The frame was an envelope. It was stamped and routed; `envelope` is
    /// what was routed and `outcome` what became of it.
    Routed { envelope: MessageEnvelope, outcome: RouteOutcome },
    /// The frame was a delivery receipt. Receipts are only recorded.
    Receipt(DeliveryReceipt),
    /// The frame was neither and is dropped.
    Discarded,
}

/// What handling an inbound envelope may yield. Either the envelope was
/// stamped, with some time and some fresh identifier of 36 characters, and
/// routed: then it is handed back with the outcome of the routing, which is
/// one that the state allows for it. Or the stamped envelope has no wire
/// text, and the error says so.
pub open spec fn envelope_handled(
    parsed: EnvelopeView,
    from_user: Seq<char>,
    state: &AppState,
    handled: Result<Handled, Error>,
) -> bool {
    exists|now: i64, fresh_id: Seq<char>|
        {
            let sent = #[trigger] stamped(parsed, from_user, now, fresh_id);
            &&& fresh_id.len() == 36
            &&& match handled {
                Ok(Handled::Routed { envelope, outcome }) => {
                    &&& envelope@ == sent
                    &&& envelope_text(sent) is Some
                    &&& state.routes_to(sent, outcome@)
                },
                Ok(_) => false,
                Err(error) => error is Serialization && envelope_text(sent) is None,
            }
        }
}

/// Handles one inbound text frame of the session of `from_user`.
///
/// A frame that spells an envelope is stamped (sender overwritten with the
/// session's identity, time of ingestion set, an empty identifier replaced
/// by a fresh one) and routed. A frame that spells a receipt is handed back
/// for the record. Any other frame is discarded. Neither of the latter two
/// ever fails.
pub fn handle_message(text: &str, from_user: &str, state: &AppState) -> (handled: Result<
    Handled,
    Error,
>)
    ensures
        match frame_of(json_object_members(text@)) {
            FrameView::Envelope(parsed) => envelope_handled(parsed, from_user@, state, handled),
            FrameView::Receipt(receipt) => handled matches Ok(Handled::Receipt(r)) && r@
                == receipt,
            FrameView::Unrecognized => handled matches Ok(Handled::Discarded),
        },
        handled matches Ok(Handled::Routed { envelope, .. }) ==> envelope.from@ == from_user@
            && envelope.message_id@.len() > 0,
{
    match parse_frame(text) {
        Frame::Envelope(parsed) => {
            let ghost client = parsed@;
            let fresh_id = if parsed.message_id.as_str().is_empty() {
                fresh_message_id()
            } else {
                String::new()
            };
            let now = now_millis();
            let ghost witness = if client.message_id.len() == 0 {
                fresh_id@
            } else {
                Seq::new(36, |i: int| '0')
            };
            let envelope = stamp_envelope(parsed, from_user, now, fresh_id);
            let routed = envelope.duplicate();
            assert(witness.len() == 36 && routed@ == stamped(client, from_user@, now, witness));
            let handled = match state.route_message(envelope) {
                Ok(outcome) => Ok(Handled::Routed { envelope: routed, outcome }),
                Err(e) => Err(e),
            };
            assert(envelope_handled(client, from_user@, state, handled));
            handled
        },
        Frame::Receipt(receipt) => Ok(Handled::Receipt(receipt)),
        Frame::Unrecognized => Ok(Handled::Discarded),
    }
}

/// The fixed answer of the liveness probe.
pub fn health_check() -> (answer: &'static str)
    ensures
        answer@ == "OK"@,
{
    "OK"
}

/// A session never moves backwards: Connecting, Active, Draining, Closed
/// are passed in this order, and none is entered again once left.
pub proof fn lemma_session_moves_forward(stage: Stage, event: EventView)
    ensures
        stage.rank() <= session_step(stage, event).0.rank(),
{
}

/// A closed session stays closed and asks for nothing.
pub proof fn lemma_closed_is_final(event: EventView)
    ensures
        session_step(Stage::Closed, event) == (Stage::Closed, ActionView::Idle),
{
}

/// Teardown is asked for exactly on the step that enters Draining, hence at
/// most once in the life of a session, and the session is declared over
/// exactly on the step that enters Closed.
pub proof fn lemma_teardown_on_entering_draining(stage: Stage, event: EventView)
    ensures
        session_step(stage, event).1 is Teardown <==> (stage != Stage::Draining && session_step(
            stage,
            event,
        ).0 == Stage::Draining),
        session_step(stage, event).1 is Stop <==> (stage != Stage::Closed && session_step(
            stage,
            event,
        ).0 == Stage::Closed),
{
}

/// Inbound frames are processed only while the session is active, and the
/// backlog is flushed only while it is connecting.
pub proof fn lemma_actions_fit_the_state(stage: Stage, event: EventView)
    ensures
        session_step(stage, event).1 is Process ==> stage.state() == SessionState::Active,
        session_step(stage, event).1 is Flush ==> stage.state() == SessionState::Connecting,
        session_step(stage, event).1 is GoLive ==> stage.state() == SessionState::Connecting
            && session_step(stage, event).0.state() == SessionState::Active,
{
}

/// Whatever the transport reports first, a session that is not yet being
/// torn down answers a sign of closure by starting the teardown.
pub proof fn lemma_closure_starts_teardown(stage: Stage, event: EventView)
    requires
        event.closes(),
        stage.rank() < Stage::Draining.rank(),
    ensures
        session_step(stage, event) == (Stage::Draining, ActionView::Teardown),
{
}

} // verus!
