//! What the relay relies on from its queue store, as a mathematical model,
//! and what follows from it for queued messages.
//!
//! The store keeps one ordered list per key. A list may carry a deadline;
//! from the deadline on it reads as absent. Appending to an absent list
//! starts a fresh one without deadline. Time is counted in seconds.

use crate::envelope::EnvelopeView;
use crate::storage::{decode_all, enqueue_plan, queue_key_of, CommandView, ReplyView};
use crate::wire::decoded_envelope;
use vstd::prelude::*;

verus! {

/// One list in the store.
pub ghost struct QueueModel {
    /// The entries, oldest first.
    pub entries: Seq<Seq<char>>,
    /// The second from which the list is gone, if it has a time to live.
    pub deadline: Option<int>,
}

/// A state of the store.
pub ghost struct StoreModel {
    pub queues: Map<Seq<char>, QueueModel>,
}

impl StoreModel {
    /// The store that holds nothing.
    pub open spec fn empty() -> StoreModel {
        StoreModel { queues: Map::empty() }
    }

    /// Whether a list exists at `key` at second `now`.
    pub open spec fn live(self, key: Seq<char>, now: int) -> bool {
        self.queues.contains_key(key) && match self.queues[key].deadline {
            Some(deadline) => now < deadline,
            None => true,
        }
    }

    /// What reading the whole list at `key` yields at second `now`.
    pub open spec fn entries(self, key: Seq<char>, now: int) -> Seq<Seq<char>> {
        if self.live(key, now) {
            self.queues[key].entries
        } else {
            Seq::empty()
        }
    }

    /// The state after one command issued at second `now`.
    pub open spec fn apply(self, command: CommandView, now: int) -> StoreModel {
        match command {
            CommandView::Ping => self,
            CommandView::ReadAll { .. } => self,
            CommandView::Append { key, value } => {
                let queue = if self.live(key, now) {
                    QueueModel {
                        entries: self.queues[key].entries.push(value),
                        deadline: self.queues[key].deadline,
                    }
                } else {
                    QueueModel { entries: seq![value], deadline: None }
                };
                StoreModel { queues: self.queues.insert(key, queue) }
            },
            CommandView::Expire { key, seconds } => {
                if self.live(key, now) {
                    let queue = QueueModel {
                        entries: self.queues[key].entries,
                        deadline: Some(now + seconds),
                    };
                    StoreModel { queues: self.queues.insert(key, queue) }
                } else {
                    self
                }
            },
            CommandView::Delete { key } => StoreModel { queues: self.queues.remove(key) },
        }
    }

    /// The answer to one command issued at second `now`.
    pub open spec fn reply(self, command: CommandView, now: int) -> ReplyView {
        match command {
            CommandView::Ping => ReplyView::Pong,
            CommandView::ReadAll { key } => ReplyView::Entries(self.entries(key, now)),
            _ => ReplyView::Done,
        }
    }

    /// The state after a list of commands, all issued at second `now`.
    pub open spec fn run(self, plan: Seq<CommandView>, now: int) -> StoreModel
        decreases plan.len(),
    {
        if plan.len() == 0 {
            self
        } else {
            self.run(plan.drop_last(), now).apply(plan.last(), now)
        }
    }

    /// The state after queueing each of `values`, in order, under `key`, all
    /// at second `now`.
    pub open spec fn enqueue_all(
        self,
        key: Seq<char>,
        values: Seq<Seq<char>>,
        seconds: i64,
        now: int,
    ) -> StoreModel
        decreases values.len(),
    {
        if values.len() == 0 {
            self
        } else {
            self.enqueue_all(key, values.drop_last(), seconds, now).run(
                enqueue_plan(key, values.last(), seconds),
                now,
            )
        }
    }
}

/// The commands that clear a queue after its entries `raw` were read:
/// one delete if anything was read, nothing otherwise.
pub open spec fn clear_plan(key: Seq<char>, raw: Seq<Seq<char>>) -> Seq<CommandView> {
    if raw.len() > 0 {
        seq![CommandView::Delete { key }]
    } else {
        Seq::empty()
    }
}

/// Running the two commands of an enqueue is appending, then setting the
/// deadline.
pub proof fn lemma_run_enqueue_plan(
    store: StoreModel,
    key: Seq<char>,
    value: Seq<char>,
    seconds: i64,
    now: int,
)
    ensures
        store.run(enqueue_plan(key, value, seconds), now) == store.apply(
            CommandView::Append { key, value },
            now,
        ).apply(CommandView::Expire { key, seconds }, now),
{
    let plan = enqueue_plan(key, value, seconds);
    let first = plan.drop_last();
    assert(first.len() == 1);
    assert(first.drop_last().len() == 0);
    assert(first.last() == CommandView::Append { key, value });
    assert(store.run(first.drop_last(), now) == store);
    assert(store.run(first, now) == store.apply(CommandView::Append { key, value }, now));
}

/// Queueing an entry with a positive retention window puts it right behind
/// the entries already readable under its key, and leaves every other key as
/// it was.
pub proof fn lemma_enqueue_appends_at_tail(
    store: StoreModel,
    key: Seq<char>,
    value: Seq<char>,
    seconds: i64,
    now: int,
)
    requires
        seconds > 0,
    ensures
        store.run(enqueue_plan(key, value, seconds), now).entries(key, now) == store.entries(
            key,
            now,
        ).push(value),
        forall|other: Seq<char>, at: int|
            other != key ==> #[trigger] store.run(enqueue_plan(key, value, seconds), now).entries(
                other,
                at,
            ) == store.entries(other, at),
{
    lemma_run_enqueue_plan(store, key, value, seconds, now);
    if !store.live(key, now) {
        assert(store.entries(key, now).push(value) =~= seq![value]);
    }
}

/// Entries queued one after another are read back in the order in which
/// they were queued, behind what was readable before.
pub proof fn lemma_enqueue_all_keeps_order(
    store: StoreModel,
    key: Seq<char>,
    values: Seq<Seq<char>>,
    seconds: i64,
    now: int,
)
    requires
        seconds > 0,
    ensures
        store.enqueue_all(key, values, seconds, now).entries(key, now) == store.entries(key, now)
            + values,
    decreases values.len(),
{
    if values.len() == 0 {
        assert(store.entries(key, now) + values =~= store.entries(key, now));
    } else {
        let earlier = store.enqueue_all(key, values.drop_last(), seconds, now);
        lemma_enqueue_all_keeps_order(store, key, values.drop_last(), seconds, now);
        lemma_enqueue_appends_at_tail(earlier, key, values.last(), seconds, now);
        assert((store.entries(key, now) + values.drop_last()).push(values.last())
            =~= store.entries(key, now) + values);
    }
}

/// A queue that was written at second `now` and not since reads as empty
/// once more than the retention window has passed.
pub proof fn lemma_queue_expires(
    store: StoreModel,
    key: Seq<char>,
    value: Seq<char>,
    seconds: i64,
    now: int,
    later: int,
)
    requires
        later - now > seconds,
    ensures
        store.run(enqueue_plan(key, value, seconds), now).entries(key, later) == Seq::<
            Seq<char>,
        >::empty(),
{
    lemma_run_enqueue_plan(store, key, value, seconds, now);
}

/// Within the retention window a queue that saw no further write keeps
/// reading the same: the window runs from the last write, and reading does
/// not prolong it.
pub proof fn lemma_queue_survives_window(
    store: StoreModel,
    key: Seq<char>,
    value: Seq<char>,
    seconds: i64,
    now: int,
    later: int,
)
    requires
        now <= later < now + seconds,
    ensures
        store.run(enqueue_plan(key, value, seconds), now).entries(key, later) == store.entries(
            key,
            now,
        ).push(value),
        store.run(enqueue_plan(key, value, seconds), now).apply(
            CommandView::ReadAll { key },
            later,
        ) == store.run(enqueue_plan(key, value, seconds), now),
{
    lemma_enqueue_appends_at_tail(store, key, value, seconds, now);
    lemma_run_enqueue_plan(store, key, value, seconds, now);
}

/// After a fetch, reading and then clearing what was read, the queue reads
/// as empty at once and at any later time without a write.
pub proof fn lemma_fetch_leaves_queue_empty(store: StoreModel, key: Seq<char>, now: int, later: int)
    requires
        now <= later,
    ensures
        store.run(clear_plan(key, store.entries(key, now)), now).entries(key, later) == Seq::<
            Seq<char>,
        >::empty(),
{
    let raw = store.entries(key, now);
    let plan = clear_plan(key, raw);
    if raw.len() > 0 {
        assert(plan.drop_last().len() == 0);
        assert(store.run(plan.drop_last(), now) == store);
        assert(plan.last() == CommandView::Delete { key });
    }
}

/// Where every stored entry reads back as an envelope, a fetch yields
/// exactly those envelopes, one per entry and in the order of the entries.
pub proof fn lemma_decode_all_in_order(raw: Seq<Seq<char>>, envelopes: Seq<EnvelopeView>)
    requires
        raw.len() == envelopes.len(),
        forall|i: int| 0 <= i < raw.len() ==> decoded_envelope(#[trigger] raw[i]) == Some(envelopes[i]),
    ensures
        decode_all(raw) == envelopes,
    decreases raw.len(),
{
    if raw.len() == 0 {
        assert(envelopes =~= Seq::<EnvelopeView>::empty());
    } else {
        let shorter = raw.drop_last();
        assert forall|i: int| 0 <= i < shorter.len() implies decoded_envelope(
            #[trigger] shorter[i],
        ) == Some(envelopes.drop_last()[i]) by {
            assert(shorter[i] == raw[i]);
        }
        lemma_decode_all_in_order(shorter, envelopes.drop_last());
        assert(raw.last() == raw[raw.len() - 1]);
        assert(envelopes.drop_last().push(envelopes.last()) =~= envelopes);
    }
}

/// A fetch reads each entry on its own: the envelopes of two lists read one
/// after the other are the envelopes of the first followed by those of the
/// second. So an entry that does not read back as an envelope is left out
/// and hides none of the others.
pub proof fn lemma_decode_all_concat(first: Seq<Seq<char>>, second: Seq<Seq<char>>)
    ensures
        decode_all(first + second) == decode_all(first) + decode_all(second),
    decreases second.len(),
{
    if second.len() == 0 {
        assert(first + second =~= first);
        assert(decode_all(first) + decode_all(second) =~= decode_all(first));
    } else {
        lemma_decode_all_concat(first, second.drop_last());
        assert((first + second).drop_last() =~= first + second.drop_last());
        assert((first + second).last() == second.last());
        match decoded_envelope(second.last()) {
            Some(envelope) => {
                assert((decode_all(first) + decode_all(second.drop_last())).push(envelope)
                    =~= decode_all(first) + decode_all(second.drop_last()).push(envelope));
            },
            None => {},
        }
    }
}

/// Messages queued for one recipient and fetched at once come back in the
/// order in which they were routed, and the same fetch repeated straight
/// away yields nothing.
pub proof fn lemma_queue_then_fetch(
    store: StoreModel,
    user_id: Seq<char>,
    values: Seq<Seq<char>>,
    envelopes: Seq<EnvelopeView>,
    seconds: i64,
    now: int,
)
    requires
        seconds > 0,
        store.entries(queue_key_of(user_id), now).len() == 0,
        values.len() == envelopes.len(),
        forall|i: int|
            0 <= i < values.len() ==> decoded_envelope(#[trigger] values[i]) == Some(envelopes[i]),
    ensures
        ({
            let key = queue_key_of(user_id);
            let queued = store.enqueue_all(key, values, seconds, now);
            let raw = queued.entries(key, now);
            let fetched = queued.run(clear_plan(key, raw), now);
            &&& decode_all(raw) == envelopes
            &&& decode_all(fetched.entries(key, now)) == Seq::<EnvelopeView>::empty()
        }),
{
    let key = queue_key_of(user_id);
    let queued = store.enqueue_all(key, values, seconds, now);
    lemma_enqueue_all_keeps_order(store, key, values, seconds, now);
    assert(store.entries(key, now) + values =~= values);
    lemma_decode_all_in_order(values, envelopes);
    lemma_fetch_leaves_queue_empty(queued, key, now, now);
}

} // verus!
