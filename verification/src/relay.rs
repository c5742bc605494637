//! The session registry and the message router.
//!
//! The registry maps each connected identity to the sending half of its
//! session's outbound channel. The router hands an envelope to that channel
//! where there is one and it takes the envelope, and otherwise says how to
//! queue it durably. The registry is a plain value: the embedding program
//! shares it between sessions under a reader/writer lock and calls the
//! readers and writers below while it holds the lock.

pub use crate::envelope::{DeliveryReceipt, DeliveryStatus, MessageEnvelope};

use crate::config::Config;
use crate::envelope::EnvelopeView;
use crate::error::Error;
use crate::model::{lemma_enqueue_appends_at_tail, StoreModel};
use crate::storage::{
    commands_view, enqueue_plan, queue_key_of, retention_of, CommandView, RedisStorage,
    StoreCommand,
};
use crate::wire::{encode_envelope, envelope_text};
use tokio::sync::mpsc::error::TrySendError;
use tokio::sync::mpsc::{Receiver, Sender};
use vstd::hash_map::StringHashMap;
use vstd::prelude::*;

verus! {

/// `tokio::sync::mpsc::Sender`: the sending half of a bounded channel.
/// Carried through unopened.
#[verifier::external_type_specification]
#[verifier::external_body]
#[verifier::reject_recursive_types(T)]
pub struct ExSender<T>(Sender<T>);

/// `tokio::sync::mpsc::Receiver`: the receiving half of a bounded channel.
/// Carried through unopened.
#[verifier::external_type_specification]
#[verifier::external_body]
#[verifier::reject_recursive_types(T)]
pub struct ExReceiver<T>(Receiver<T>);

/// Sending half of a session's outbound channel.
pub type ConnectionTx = Sender<String>;

/// Receiving half of a session's outbound channel.
pub type ConnectionRx = Receiver<String>;

/// Number of frames a session's outbound channel holds before it is full.
pub const CHANNEL_CAPACITY: usize = 100;

/// Why an envelope went to the durable queue.
#[derive(Debug, Clone, Copy, PartialEq, Eq, Structural)]
pub enum QueueReason {
    /// The recipient has no registered session.
    NoSession,
    /// The recipient's channel was full.
    ChannelFull,
    /// The recipient's channel was closed.
    ChannelClosed,
}

/// How the attempt to reach a recipient's session ended. Where the frame was
/// not taken, it is handed back.
#[derive(Debug, Clone, PartialEq, Eq)]
pub enum Attempt {
    /// No session is registered for the recipient; the frame was not offered.
    NoSession(String),
    /// The session's channel took the frame.
    Accepted,
    /// The channel already holds as many frames as it can.
    Full(String),
    /// The receiving half of the channel is gone.
    Closed(String),
}

/// Mathematical value of an [`Attempt`].
pub ghost enum AttemptView {
    NoSession(Seq<char>),
    Accepted,
    Full(Seq<char>),
    Closed(Seq<char>),
}

impl View for Attempt {
    type V = AttemptView;

    open spec fn view(&self) -> AttemptView {
        match self {
            Attempt::NoSession(frame) => AttemptView::NoSession(frame@),
            Attempt::Accepted => AttemptView::Accepted,
            Attempt::Full(frame) => AttemptView::Full(frame@),
            Attempt::Closed(frame) => AttemptView::Closed(frame@),
        }
    }
}

impl AttemptView {
    /// The frame that was handed back, if the attempt did not deliver it.
    pub open spec fn returned(self) -> Option<Seq<char>> {
        match self {
            AttemptView::Accepted => None,
            AttemptView::NoSession(frame) => Some(frame),
            AttemptView::Full(frame) => Some(frame),
            AttemptView::Closed(frame) => Some(frame),
        }
    }

    /// Why the frame has to be queued, if the attempt did not deliver it.
    pub open spec fn reason(self) -> Option<QueueReason> {
        match self {
            AttemptView::Accepted => None,
            AttemptView::NoSession(_) => Some(QueueReason::NoSession),
            AttemptView::Full(_) => Some(QueueReason::ChannelFull),
            AttemptView::Closed(_) => Some(QueueReason::ChannelClosed),
        }
    }
}

/// The number of frames that the channel behind a sending half was made to
/// hold.
pub uninterp spec fn channel_bound(tx: Sender<String>) -> usize;

/// `tokio::sync::mpsc::channel::<String>`: a bounded channel made to hold up
/// to `capacity` frames. The call panics on a capacity of zero or above an
/// eighth of `usize::MAX`; both are excluded. Nothing else is claimed about
/// the two halves.
#[verifier::external_body]
fn open_channel(capacity: usize) -> (ends: (ConnectionTx, ConnectionRx))
    requires
        0 < capacity <= usize::MAX / 8,
    ensures
        channel_bound(ends.0) == capacity,
{
    tokio::sync::mpsc::channel::<String>(capacity)
}

/// `tokio::sync::mpsc::Sender::try_send`: offers the frame without waiting.
/// Whether the channel takes it depends on what the channel holds and on
/// whether its receiver still exists at that moment, so nothing is claimed
/// about which answer comes; a frame that is not taken comes back unchanged
/// inside the error.
#[verifier::external_body]
fn try_hand_off(tx: &ConnectionTx, frame: String) -> (answer: Attempt)
    ensures
        answer is Accepted || answer@ == AttemptView::Full(frame@) || answer@
            == AttemptView::Closed(frame@),
{
    match tx.try_send(frame) {
        Ok(()) => Attempt::Accepted,
        Err(TrySendError::Full(frame)) => Attempt::Full(frame),
        Err(TrySendError::Closed(frame)) => Attempt::Closed(frame),
    }
}

/// Opens the outbound channel of a new session, with the fixed capacity.
pub fn open_session_channel() -> (ends: (ConnectionTx, ConnectionRx))
    ensures
        channel_bound(ends.0) == CHANNEL_CAPACITY,
{
    open_channel(CHANNEL_CAPACITY)
}

/// What became of a routed envelope.
#[derive(Debug, Clone, PartialEq, Eq)]
pub enum RouteOutcome {
    /// The recipient's outbound channel took it. Nothing is to be stored.
    Delivered,
    /// It is to be queued durably, for the reason given: the commands to
    /// run, in order, on the queue store.
    Queued { reason: QueueReason, plan: Vec<StoreCommand> },
}

/// Mathematical value of a [`RouteOutcome`].
pub ghost enum RouteView {
    Delivered,
    Queued { reason: QueueReason, plan: Seq<CommandView> },
}

impl View for RouteOutcome {
    type V = RouteView;

    open spec fn view(&self) -> RouteView {
        match self {
            RouteOutcome::Delivered => RouteView::Delivered,
            RouteOutcome::Queued { reason, plan } => RouteView::Queued {
                reason: *reason,
                plan: commands_view(plan@),
            },
        }
    }
}

impl RouteView {
    /// The commands the outcome asks to run on the queue store.
    pub open spec fn commands(self) -> Seq<CommandView> {
        match self {
            RouteView::Delivered => Seq::empty(),
            RouteView::Queued { plan, .. } => plan,
        }
    }
}

/// The routing rule: only a frame that the recipient's channel took is
/// delivered; with no session, a full channel or a closed channel the frame
/// that came back is queued under `key` for `seconds`.
pub open spec fn route_rule(attempt: AttemptView, key: Seq<char>, seconds: i64) -> RouteView {
    match (attempt.reason(), attempt.returned()) {
        (Some(reason), Some(frame)) => RouteView::Queued {
            reason,
            plan: enqueue_plan(key, frame, seconds),
        },
        _ => RouteView::Delivered,
    }
}

/// State shared by all sessions of one relay.
pub struct AppState {
    /// Handle on the durable queue.
    pub storage: RedisStorage,
    /// The registry: one outbound channel per connected identity.
    pub connections: StringHashMap<ConnectionTx>,
    /// The settings the relay was started with.
    pub config: Config,
}

impl AppState {
    /// State of a relay that was just started with `config`: no session is
    /// registered, and queues are retained for the configured window. Fails
    /// with `Error::Redis` exactly where the store's URL is rejected.
    pub fn new(config: &Config) -> (state: Result<AppState, Error>)
        ensures
            match state {
                Ok(s) => {
                    &&& crate::storage::redis_url_accepted(config.redis_url@)
                    &&& s.connections@ == Map::<Seq<char>, ConnectionTx>::empty()
                    &&& s.config@ == config@
                    &&& s.storage.ttl() == config.message_ttl_secs
                },
                Err(error) => !crate::storage::redis_url_accepted(config.redis_url@)
                    && error is Redis,
            },
    {
        let storage = match RedisStorage::new(config.redis_url.as_str(), config.message_ttl_secs) {
            Ok(storage) => storage,
            Err(e) => { return Err(e); },
        };
        Ok(AppState { storage, connections: StringHashMap::new(), config: config.duplicate() })
    }

    /// Registers `tx` as the outbound channel of `user_id`. An identity has
    /// at most one entry: a second registration displaces the first.
    pub fn register_connection(&mut self, user_id: &str, tx: ConnectionTx)
        ensures
            final(self).connections@ == old(self).connections@.insert(user_id@, tx),
            final(self).storage == old(self).storage,
            final(self).config == old(self).config,
    {
        self.connections.insert(user_id.to_string(), tx);
    }

    /// Removes the entry of `user_id`, if there is one.
    pub fn remove_connection(&mut self, user_id: &str)
        ensures
            final(self).connections@ == old(self).connections@.remove(user_id@),
            final(self).storage == old(self).storage,
            final(self).config == old(self).config,
    {
        self.connections.remove(user_id);
    }

    /// The outbound channel registered for `user_id`, if any.
    pub fn lookup(&self, user_id: &str) -> (found: Option<&ConnectionTx>)
        ensures
            match found {
                Some(tx) => self.connections@.contains_key(user_id@) && *tx
                    == self.connections@[user_id@],
                None => !self.connections@.contains_key(user_id@),
            },
    {
        self.connections.get(user_id)
    }

    /// Applies the routing rule to the result of an attempt to reach the
    /// session of `to`.
    pub fn settle(&self, to: &str, attempt: Attempt) -> (outcome: RouteOutcome)
        ensures
            outcome@ == route_rule(attempt@, queue_key_of(to@), retention_of(self.storage.ttl())),
    {
        let (reason, frame) = match attempt {
            Attempt::Accepted => { return RouteOutcome::Delivered; },
            Attempt::NoSession(frame) => (QueueReason::NoSession, frame),
            Attempt::Full(frame) => (QueueReason::ChannelFull, frame),
            Attempt::Closed(frame) => (QueueReason::ChannelClosed, frame),
        };
        let plan = self.storage.enqueue_commands(RedisStorage::queue_key(to), frame);
        RouteOutcome::Queued { reason, plan }
    }

    /// The outcome that queues an envelope for its recipient, for the given
    /// reason, under this state's retention window.
    pub open spec fn queued(&self, envelope: EnvelopeView, reason: QueueReason) -> RouteView {
        RouteView::Queued {
            reason,
            plan: enqueue_plan(
                queue_key_of(envelope.to),
                envelope_text(envelope).unwrap(),
                retention_of(self.storage.ttl()),
            ),
        }
    }

    /// What routing an envelope may yield in this state. For a recipient
    /// without a registered session the envelope is queued. For a recipient
    /// with one it is delivered, or queued because the channel was full or
    /// closed.
    pub open spec fn routes_to(&self, envelope: EnvelopeView, outcome: RouteView) -> bool {
        if self.connections@.contains_key(envelope.to) {
            ||| outcome == RouteView::Delivered
            ||| outcome == self.queued(envelope, QueueReason::ChannelFull)
            ||| outcome == self.queued(envelope, QueueReason::ChannelClosed)
        } else {
            outcome == self.queued(envelope, QueueReason::NoSession)
        }
    }

    /// Routes an envelope to its recipient.
    ///
    /// The envelope is encoded once. Where the recipient has a registered
    /// session, the frame is offered to its channel without waiting, and the
    /// envelope counts as delivered if the channel takes it. In every other
    /// case, no session, channel full, channel closed, the outcome holds the
    /// commands that queue the frame for the recipient. Exactly one of the
    /// two happens. Fails with `Error::Serialization`, doing nothing, where
    /// the envelope has no wire text.
    pub fn route_message(&self, envelope: MessageEnvelope) -> (routed: Result<RouteOutcome, Error>)
        ensures
            match routed {
                Ok(outcome) => envelope_text(envelope@) is Some && self.routes_to(
                    envelope@,
                    outcome@,
                ),
                Err(error) => envelope_text(envelope@) is None && error is Serialization,
            },
    {
        let frame = match encode_envelope(&envelope) {
            Ok(text) => text,
            Err(e) => { return Err(e); },
        };
        let attempt = match self.lookup(envelope.to.as_str()) {
            Some(tx) => try_hand_off(tx, frame),
            None => Attempt::NoSession(frame),
        };
        Ok(self.settle(envelope.to.as_str(), attempt))
    }

    /// First half of a fetch of the messages pending for `user_id`: the
    /// command that reads its queue.
    pub fn fetch_pending(&self, user_id: &str) -> (command: StoreCommand)
        ensures
            command@ == (CommandView::ReadAll { key: queue_key_of(user_id@) }),
    {
        self.storage.fetch_pending(user_id)
    }
}

/// An envelope that its recipient's channel took never reaches the durable
/// queue: the outcome asks for no command, and the store stays as it was.
pub proof fn lemma_delivery_stores_nothing(
    store: StoreModel,
    key: Seq<char>,
    seconds: i64,
    now: int,
)
    ensures
        route_rule(AttemptView::Accepted, key, seconds) == RouteView::Delivered,
        store.run(route_rule(AttemptView::Accepted, key, seconds).commands(), now) == store,
{
}

/// An envelope whose recipient has no session, or whose hand-off was
/// refused, ends up in the recipient's queue, unchanged and right behind
/// what was queued before and not yet fetched; no other queue is touched.
pub proof fn lemma_refusal_queues_at_tail(
    store: StoreModel,
    attempt: AttemptView,
    key: Seq<char>,
    seconds: i64,
    now: int,
)
    requires
        !(attempt is Accepted),
        seconds > 0,
    ensures
        attempt.returned() is Some,
        store.run(route_rule(attempt, key, seconds).commands(), now).entries(key, now)
            == store.entries(key, now).push(attempt.returned().unwrap()),
        forall|other: Seq<char>, at: int|
            other != key ==> #[trigger] store.run(
                route_rule(attempt, key, seconds).commands(),
                now,
            ).entries(other, at) == store.entries(other, at),
{
    lemma_enqueue_appends_at_tail(store, key, attempt.returned().unwrap(), seconds, now);
}

} // verus!
