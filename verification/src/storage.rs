//! The durable per-recipient queue.
//!
//! The queue lives in an external key-value store that offers ordered lists
//! with a time to live. Talking to that store is the embedding program's
//! work; which commands to issue, and what their replies mean, is decided
//! here.

use crate::envelope::{EnvelopeView, MessageEnvelope};
use crate::error::Error;
use crate::wire::{decode_envelope, decoded_envelope, encode_envelope, envelope_text};
use vstd::prelude::*;
use vstd::string::StringExecFns;

verus! {

/// `redis::Client`: the connection settings of one store. Carried through
/// unopened.
#[verifier::external_type_specification]
#[verifier::external_body]
pub struct ExRedisClient(redis::Client);

/// Whether `redis::Client::open` accepts a connection URL.
pub uninterp spec fn redis_url_accepted(url: Seq<char>) -> bool;

/// `redis::Client::open` on a `&str`: checks the URL and builds a client
/// without connecting. It succeeds exactly on the URLs the named predicate
/// accepts.
#[verifier::external_body]
fn open_client(url: &str) -> (opened: Result<redis::Client, redis::RedisError>)
    ensures
        opened is Ok <==> redis_url_accepted(url@),
{
    redis::Client::open(url)
}

/// One command for the queue store.
#[derive(Debug, Clone, PartialEq, Eq)]
pub enum StoreCommand {
    /// Liveness probe; changes nothing.
    Ping,
    /// Append `value` at the tail of the list at `key`, creating the list if
    /// there is none.
    Append { key: String, value: String },
    /// Let the list at `key` live for `seconds` from now on.
    Expire { key: String, seconds: i64 },
    /// Read the whole list at `key`, oldest entry first.
    ReadAll { key: String },
    /// Drop the list at `key`.
    Delete { key: String },
}

/// Mathematical value of a [`StoreCommand`].
pub ghost enum CommandView {
    Ping,
    Append { key: Seq<char>, value: Seq<char> },
    Expire { key: Seq<char>, seconds: i64 },
    ReadAll { key: Seq<char> },
    Delete { key: Seq<char> },
}

impl View for StoreCommand {
    type V = CommandView;

    open spec fn view(&self) -> CommandView {
        match self {
            StoreCommand::Ping => CommandView::Ping,
            StoreCommand::Append { key, value } => CommandView::Append {
                key: key@,
                value: value@,
            },
            StoreCommand::Expire { key, seconds } => CommandView::Expire {
                key: key@,
                seconds: *seconds,
            },
            StoreCommand::ReadAll { key } => CommandView::ReadAll { key: key@ },
            StoreCommand::Delete { key } => CommandView::Delete { key: key@ },
        }
    }
}

/// What a store answers to a command.
#[derive(Debug, Clone, PartialEq, Eq)]
pub enum StoreReply {
    /// Answer to a ping.
    Pong,
    /// The command was carried out; there is nothing to report.
    Done,
    /// The entries of the list that was read, oldest first.
    Entries(Vec<String>),
}

/// Mathematical value of a [`StoreReply`].
pub ghost enum ReplyView {
    Pong,
    Done,
    Entries(Seq<Seq<char>>),
}

impl View for StoreReply {
    type V = ReplyView;

    open spec fn view(&self) -> ReplyView {
        match self {
            StoreReply::Pong => ReplyView::Pong,
            StoreReply::Done => ReplyView::Done,
            StoreReply::Entries(entries) => ReplyView::Entries(texts_view(entries@)),
        }
    }
}

/// Values of a list of texts, in order.
pub open spec fn texts_view(texts: Seq<String>) -> Seq<Seq<char>> {
    texts.map_values(|t: String| t@)
}

/// Values of a list of commands, in order.
pub open spec fn commands_view(commands: Seq<StoreCommand>) -> Seq<CommandView> {
    commands.map_values(|c: StoreCommand| c@)
}

/// Values of a list of envelopes, in order.
pub open spec fn envelopes_view(envelopes: Seq<MessageEnvelope>) -> Seq<EnvelopeView> {
    envelopes.map_values(|e: MessageEnvelope| e@)
}

/// Key of the list that holds the messages pending for an identity.
pub open spec fn queue_key_of(user_id: Seq<char>) -> Seq<char> {
    "pending:"@ + user_id
}

/// The retention window as the store takes it: the configured number of
/// seconds, capped at the largest the store's command can carry.
pub open spec fn retention_of(ttl_secs: u64) -> i64 {
    if ttl_secs > i64::MAX as u64 {
        i64::MAX
    } else {
        ttl_secs as i64
    }
}

/// The two commands that queue one entry: append it, then restart the
/// list's time to live.
pub open spec fn enqueue_plan(key: Seq<char>, value: Seq<char>, seconds: i64) -> Seq<CommandView> {
    seq![CommandView::Append { key, value }, CommandView::Expire { key, seconds }]
}

/// The envelopes that a list of stored entries spells: each entry that reads
/// back as an envelope, in the order of the list; entries that do not are
/// left out.
pub open spec fn decode_all(raw: Seq<Seq<char>>) -> Seq<EnvelopeView>
    decreases raw.len(),
{
    if raw.len() == 0 {
        Seq::empty()
    } else {
        let earlier = decode_all(raw.drop_last());
        match decoded_envelope(raw.last()) {
            Some(envelope) => earlier.push(envelope),
            None => earlier,
        }
    }
}

/// What a fetch yields: the pending envelopes, oldest first, and the
/// command that clears the queue, if there is anything to clear.
#[derive(Debug, Clone, PartialEq, Eq)]
pub struct PendingBatch {
    pub envelopes: Vec<MessageEnvelope>,
    pub clear: Option<StoreCommand>,
}

/// Handle on the queue store: the client that reaches it and the retention
/// window applied to every queue.
#[derive(Debug)]
pub struct RedisStorage {
    client: redis::Client,
    ttl_secs: u64,
}

impl RedisStorage {
    /// The retention window in seconds.
    pub closed spec fn ttl(&self) -> u64 {
        self.ttl_secs
    }

    /// The client that this handle was given when it was made.
    pub closed spec fn held_client(&self) -> redis::Client {
        self.client
    }

    /// Prepares a handle for the store at `redis_url`. No connection is made;
    /// the URL is checked, and a URL the client library rejects is reported
    /// as `Error::Redis`.
    pub fn new(redis_url: &str, message_ttl_secs: u64) -> (storage: Result<RedisStorage, Error>)
        ensures
            match storage {
                Ok(s) => redis_url_accepted(redis_url@) && s.ttl() == message_ttl_secs,
                Err(error) => !redis_url_accepted(redis_url@) && error is Redis,
            },
    {
        match open_client(redis_url) {
            Ok(client) => Ok(RedisStorage { client, ttl_secs: message_ttl_secs }),
            Err(e) => Err(Error::Redis(e)),
        }
    }

    /// The client through which the embedding program reaches the store:
    /// the one this handle holds since it was made, never another.
    pub fn client(&self) -> (client: &redis::Client)
        ensures
            *client == self.held_client(),
    {
        &self.client
    }

    /// The retention window in seconds.
    pub fn ttl_secs(&self) -> (secs: u64)
        ensures
            secs == self.ttl(),
    {
        self.ttl_secs
    }

    /// The retention window as the store's expiry command takes it.
    pub fn retention_seconds(&self) -> (seconds: i64)
        ensures
            seconds == retention_of(self.ttl()),
    {
        if self.ttl_secs > i64::MAX as u64 {
            i64::MAX
        } else {
            self.ttl_secs as i64
        }
    }

    /// The probe issued once at startup: a store that does not answer it is
    /// unavailable.
    pub fn probe() -> (command: StoreCommand)
        ensures
            command@ == CommandView::Ping,
    {
        StoreCommand::Ping
    }

    /// Key of the list that holds the messages pending for `user_id`.
    pub fn queue_key(user_id: &str) -> (key: String)
        ensures
            key@ == queue_key_of(user_id@),
    {
        String::from_str("pending:").concat(user_id)
    }

    /// The commands that queue an already encoded entry under `key`.
    pub fn enqueue_commands(&self, key: String, value: String) -> (plan: Vec<StoreCommand>)
        ensures
            commands_view(plan@) == enqueue_plan(key@, value@, retention_of(self.ttl())),
    {
        let seconds = self.retention_seconds();
        let expire = StoreCommand::Expire { key: key.clone(), seconds };
        let append = StoreCommand::Append { key, value };
        let mut plan: Vec<StoreCommand> = Vec::new();
        plan.push(append);
        plan.push(expire);
        assert(commands_view(plan@) =~= enqueue_plan(key@, value@, retention_of(self.ttl())));
        plan
    }

    /// Queues an envelope for its recipient: the commands to run, in order,
    /// on the store. Running them twice queues the envelope twice. Fails
    /// with `Error::Serialization` exactly where the envelope has no wire
    /// text.
    pub fn queue_message(&self, envelope: &MessageEnvelope) -> (plan: Result<
        Vec<StoreCommand>,
        Error,
    >)
        ensures
            match plan {
                Ok(commands) => envelope_text(envelope@) is Some && commands_view(commands@)
                    == enqueue_plan(
                    queue_key_of(envelope.to@),
                    envelope_text(envelope@).unwrap(),
                    retention_of(self.ttl()),
                ),
                Err(error) => envelope_text(envelope@) is None && error is Serialization,
            },
    {
        let value = match encode_envelope(envelope) {
            Ok(text) => text,
            Err(e) => { return Err(e); },
        };
        let key = RedisStorage::queue_key(envelope.to.as_str());
        Ok(self.enqueue_commands(key, value))
    }

    /// First half of a fetch: the command that reads the whole queue of
    /// `user_id`.
    pub fn fetch_pending(&self, user_id: &str) -> (command: StoreCommand)
        ensures
            command@ == (CommandView::ReadAll { key: queue_key_of(user_id@) }),
    {
        StoreCommand::ReadAll { key: RedisStorage::queue_key(user_id) }
    }

    /// Second half of a fetch: turns the entries read from the queue of
    /// `user_id` into envelopes, oldest first, and says how to clear the
    /// queue. Entries that do not read back as envelopes are dropped; an
    /// empty queue is not cleared.
    pub fn collect_pending(&self, user_id: &str, raw: Vec<String>) -> (batch: PendingBatch)
        ensures
            envelopes_view(batch.envelopes@) == decode_all(texts_view(raw@)),
            match batch.clear {
                Some(command) => raw@.len() > 0 && command@ == (CommandView::Delete {
                    key: queue_key_of(user_id@),
                }),
                None => raw@.len() == 0,
            },
    {
        let clear = if raw.len() > 0 {
            Some(StoreCommand::Delete { key: RedisStorage::queue_key(user_id) })
        } else {
            None
        };
        let ghost all = texts_view(raw@);
        let mut envelopes: Vec<MessageEnvelope> = Vec::new();
        let mut i: usize = 0;
        assert(all.take(0) =~= Seq::<Seq<char>>::empty());
        while i < raw.len()
            invariant
                i <= raw.len(),
                all == texts_view(raw@),
                envelopes_view(envelopes@) == decode_all(all.take(i as int)),
            decreases raw.len() - i,
        {
            let ghost before = envelopes_view(envelopes@);
            assert(all.take(i + 1).drop_last() =~= all.take(i as int));
            assert(all.take(i + 1).last() == raw@[i as int]@);
            match decode_envelope(raw[i].as_str()) {
                Some(envelope) => {
                    envelopes.push(envelope);
                    assert(envelopes_view(envelopes@) =~= before.push(envelope@));
                },
                None => {},
            }
            i += 1;
        }
        assert(all.take(i as int) =~= all);
        PendingBatch { envelopes, clear }
    }

    /// Acknowledges a delivered message. Queued messages are removed when
    /// they are fetched, so there is nothing left to do.
    pub fn ack_message(&self, _message_id: &str) -> (done: Result<(), Error>)
        ensures
            done is Ok,
    {
        Ok(())
    }
}

} // verus!
