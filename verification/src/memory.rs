//! A queue store kept in memory.
//!
//! It answers the relay's commands exactly as the model of the durable
//! store says, with the time handed in by the caller. It serves wherever no
//! external store is at hand.

use crate::model::{QueueModel, StoreModel};
use crate::storage::{commands_view, texts_view, StoreCommand, StoreReply};
use vstd::hash_map::StringHashMap;
use vstd::prelude::*;

verus! {

/// One list with its deadline.
struct MemoryQueue {
    entries: Vec<String>,
    deadline: Option<i128>,
}

impl View for MemoryQueue {
    type V = QueueModel;

    closed spec fn view(&self) -> QueueModel {
        QueueModel {
            entries: texts_view(self.entries@),
            deadline: match self.deadline {
                Some(deadline) => Some(deadline as int),
                None => None,
            },
        }
    }
}

/// A queue store in memory.
pub struct MemoryStore {
    queues: StringHashMap<MemoryQueue>,
}

impl View for MemoryStore {
    type V = StoreModel;

    closed spec fn view(&self) -> StoreModel {
        StoreModel { queues: self.queues@.map_values(|queue: MemoryQueue| queue@) }
    }
}

/// A copy of a list of texts.
fn copy_texts(texts: &Vec<String>) -> (copy: Vec<String>)
    ensures
        texts_view(copy@) == texts_view(texts@),
{
    let mut copy: Vec<String> = Vec::new();
    let mut i: usize = 0;
    while i < texts.len()
        invariant
            i <= texts.len(),
            copy@.len() == i,
            forall|j: int| 0 <= j < i ==> copy@[j]@ == texts@[j]@,
        decreases texts.len() - i,
    {
        copy.push(texts[i].clone());
        i += 1;
    }
    assert(texts_view(copy@) =~= texts_view(texts@));
    copy
}

impl MemoryStore {
    /// A store that holds nothing.
    pub fn new() -> (store: MemoryStore)
        ensures
            store@ == StoreModel::empty(),
    {
        let store = MemoryStore { queues: StringHashMap::new() };
        assert(store@.queues =~= Map::<Seq<char>, QueueModel>::empty());
        store
    }

    /// The list at `key`, if one exists at second `now`.
    fn live_queue(&self, key: &str, now: u64) -> (found: Option<&MemoryQueue>)
        ensures
            match found {
                Some(queue) => self@.live(key@, now as int) && queue@ == self@.queues[key@],
                None => !self@.live(key@, now as int),
            },
    {
        match self.queues.get(key) {
            Some(queue) => {
                let alive = match queue.deadline {
                    Some(deadline) => (now as i128) < deadline,
                    None => true,
                };
                if alive {
                    Some(queue)
                } else {
                    None
                }
            },
            None => None,
        }
    }

    /// Carries out one command at second `now` and answers it.
    pub fn apply(&mut self, command: &StoreCommand, now: u64) -> (reply: StoreReply)
        ensures
            final(self)@ == old(self)@.apply(command@, now as int),
            reply@ == old(self)@.reply(command@, now as int),
    {
        match command {
            StoreCommand::Ping => StoreReply::Pong,
            StoreCommand::ReadAll { key } => {
                match self.live_queue(key.as_str(), now) {
                    Some(queue) => StoreReply::Entries(copy_texts(&queue.entries)),
                    None => {
                        let nothing: Vec<String> = Vec::new();
                        assert(texts_view(nothing@) =~= Seq::<Seq<char>>::empty());
                        StoreReply::Entries(nothing)
                    },
                }
            },
            StoreCommand::Append { key, value } => {
                let next = match self.live_queue(key.as_str(), now) {
                    Some(queue) => {
                        let mut entries = copy_texts(&queue.entries);
                        let ghost before = texts_view(entries@);
                        entries.push(value.clone());
                        assert(texts_view(entries@) =~= before.push(value@));
                        MemoryQueue { entries, deadline: queue.deadline }
                    },
                    None => {
                        let mut entries: Vec<String> = Vec::new();
                        entries.push(value.clone());
                        assert(texts_view(entries@) =~= seq![value@]);
                        MemoryQueue { entries, deadline: None }
                    },
                };
                self.queues.insert(key.clone(), next);
                assert(self@.queues =~= old(self)@.apply(command@, now as int).queues);
                StoreReply::Done
            },
            StoreCommand::Expire { key, seconds } => {
                let next = match self.live_queue(key.as_str(), now) {
                    Some(queue) => Some(
                        MemoryQueue {
                            entries: copy_texts(&queue.entries),
                            deadline: Some(now as i128 + *seconds as i128),
                        },
                    ),
                    None => None,
                };
                match next {
                    Some(queue) => {
                        self.queues.insert(key.clone(), queue);
                        assert(self@.queues =~= old(self)@.apply(command@, now as int).queues);
                    },
                    None => {},
                }
                StoreReply::Done
            },
            StoreCommand::Delete { key } => {
                self.queues.remove(key.as_str());
                assert(self@.queues =~= old(self)@.apply(command@, now as int).queues);
                StoreReply::Done
            },
        }
    }

    /// Carries out a list of commands, in order, all at second `now`.
    pub fn run(&mut self, plan: &Vec<StoreCommand>, now: u64)
        ensures
            final(self)@ == old(self)@.run(commands_view(plan@), now as int),
    {
        let ghost all = commands_view(plan@);
        let mut i: usize = 0;
        assert(all.take(0).len() == 0);
        while i < plan.len()
            invariant
                i <= plan.len(),
                all == commands_view(plan@),
                self@ == old(self)@.run(all.take(i as int), now as int),
            decreases plan.len() - i,
        {
            assert(all.take(i + 1).drop_last() =~= all.take(i as int));
            assert(all.take(i + 1).last() == plan@[i as int]@);
            self.apply(&plan[i], now);
            i += 1;
        }
        assert(all.take(i as int) =~= all);
    }
}

} // verus!
