use relay_server::envelope::MessageEnvelope;
use relay_server::error::Error;
use relay_server::memory::MemoryStore;
use relay_server::storage::{PendingBatch, RedisStorage, StoreCommand, StoreReply};
use relay_server::wire::encode_envelope;

const URL: &str = "redis://127.0.0.1:6379";

fn envelope(id: &str, to: &str, payload: &str) -> MessageEnvelope {
    MessageEnvelope {
        message_id: id.to_string(),
        from: "alice".to_string(),
        to: to.to_string(),
        payload: payload.to_string(),
        timestamp: 1700000000000,
    }
}

fn storage(ttl: u64) -> RedisStorage {
    RedisStorage::new(URL, ttl).unwrap()
}

fn read(store: &mut MemoryStore, key: &str, now: u64) -> Vec<String> {
    match store.apply(&StoreCommand::ReadAll { key: key.to_string() }, now) {
        StoreReply::Entries(entries) => entries,
        other => panic!("unexpected reply {:?}", other),
    }
}

fn append(store: &mut MemoryStore, key: &str, value: &str, now: u64) {
    let reply =
        store.apply(&StoreCommand::Append { key: key.to_string(), value: value.to_string() }, now);
    assert_eq!(reply, StoreReply::Done);
}

fn expire(store: &mut MemoryStore, key: &str, seconds: i64, now: u64) {
    let reply = store.apply(&StoreCommand::Expire { key: key.to_string(), seconds }, now);
    assert_eq!(reply, StoreReply::Done);
}

fn fetch(storage: &RedisStorage, store: &mut MemoryStore, user: &str, now: u64) -> PendingBatch {
    let raw = match store.apply(&storage.fetch_pending(user), now) {
        StoreReply::Entries(entries) => entries,
        other => panic!("unexpected reply {:?}", other),
    };
    let batch = storage.collect_pending(user, raw);
    if let Some(command) = &batch.clear {
        assert_eq!(store.apply(command, now), StoreReply::Done);
    }
    batch
}

#[test]
fn new_accepts_a_store_url_without_connecting() {
    let storage = RedisStorage::new("redis://127.0.0.1:6379", 3600).unwrap();
    assert_eq!(storage.ttl_secs(), 3600);
    assert_eq!(storage.retention_seconds(), 3600);
    assert!(RedisStorage::new("redis://example.invalid:1/3", 1).is_ok());
}

#[test]
fn client_is_the_one_opened_for_the_url() {
    let storage = RedisStorage::new("redis://queue.example:6380/4", 60).unwrap();
    let info = storage.client().get_connection_info();
    assert_eq!(info.addr().to_string(), "queue.example:6380");
    assert_eq!(info.redis_settings().db(), 4);
    let other = RedisStorage::new("redis://127.0.0.1:6379", 60).unwrap();
    let info = other.client().get_connection_info();
    assert_eq!(info.addr().to_string(), "127.0.0.1:6379");
    assert_eq!(info.redis_settings().db(), 0);
}

#[test]
fn new_reports_a_rejected_url_as_store_error() {
    for url in vec!["", "not a url", "http://127.0.0.1:6379", "redis://", "redis://127.0.0.1/notanumber"] {
        match RedisStorage::new(url, 3600) {
            Err(Error::Redis(_)) => {}
            other => panic!("{}: unexpected {:?}", url, other.map(|_| ())),
        }
    }
}

#[test]
fn retention_is_capped_at_what_the_store_takes() {
    assert_eq!(storage(0).retention_seconds(), 0);
    assert_eq!(storage(86400).retention_seconds(), 86400);
    assert_eq!(storage(i64::MAX as u64).retention_seconds(), i64::MAX);
    assert_eq!(storage(i64::MAX as u64 + 1).retention_seconds(), i64::MAX);
    assert_eq!(storage(u64::MAX).retention_seconds(), i64::MAX);
}

#[test]
fn queue_key_is_the_prefix_and_the_identity() {
    assert_eq!(RedisStorage::queue_key("alice"), "pending:alice");
    assert_eq!(RedisStorage::queue_key(""), "pending:");
    assert_eq!(RedisStorage::queue_key("pending:x"), "pending:pending:x");
    assert_eq!(RedisStorage::queue_key("\u{6771}\u{4eac}"), "pending:\u{6771}\u{4eac}");
}

#[test]
fn probe_is_a_ping() {
    assert_eq!(RedisStorage::probe(), StoreCommand::Ping);
}

#[test]
fn queue_message_appends_then_sets_the_time_to_live() {
    let e = envelope("m1", "carol", "b25l");
    let plan = storage(86400).queue_message(&e).unwrap();
    assert_eq!(
        plan,
        vec![
            StoreCommand::Append {
                key: "pending:carol".to_string(),
                value: "{\"message_id\":\"m1\",\"from\":\"alice\",\"to\":\"carol\",\"payload\":\"b25l\",\"timestamp\":1700000000000}".to_string(),
            },
            StoreCommand::Expire { key: "pending:carol".to_string(), seconds: 86400 },
        ]
    );
}

#[test]
fn queue_message_uses_the_configured_retention() {
    let e = envelope("m1", "carol", "b25l");
    let plan = storage(60).queue_message(&e).unwrap();
    assert_eq!(plan[1], StoreCommand::Expire { key: "pending:carol".to_string(), seconds: 60 });
}

#[test]
fn enqueue_commands_queue_the_given_entry() {
    let plan = storage(5).enqueue_commands("k".to_string(), "v".to_string());
    assert_eq!(
        plan,
        vec![
            StoreCommand::Append { key: "k".to_string(), value: "v".to_string() },
            StoreCommand::Expire { key: "k".to_string(), seconds: 5 },
        ]
    );
}

#[test]
fn fetch_pending_reads_the_whole_queue() {
    assert_eq!(
        storage(1).fetch_pending("alice"),
        StoreCommand::ReadAll { key: "pending:alice".to_string() }
    );
}

#[test]
fn collect_pending_of_an_empty_queue_clears_nothing() {
    let batch = storage(1).collect_pending("alice", Vec::new());
    assert_eq!(batch, PendingBatch { envelopes: Vec::new(), clear: None });
}

#[test]
fn collect_pending_keeps_order_and_drops_malformed_entries() {
    let first = envelope("m1", "alice", "b25l");
    let second = envelope("m2", "alice", "dHdv");
    let third = envelope("m3", "alice", "dGhyZWU=");
    let raw = vec![
        "garbage".to_string(),
        encode_envelope(&first).unwrap(),
        "{\"to\":\"alice\"}".to_string(),
        encode_envelope(&second).unwrap(),
        encode_envelope(&third).unwrap(),
        "".to_string(),
    ];
    let batch = storage(1).collect_pending("alice", raw);
    assert_eq!(batch.envelopes, vec![first, second, third]);
    assert_eq!(batch.clear, Some(StoreCommand::Delete { key: "pending:alice".to_string() }));
}

#[test]
fn collect_pending_clears_a_queue_of_only_malformed_entries() {
    let batch = storage(1).collect_pending("bob", vec!["x".to_string()]);
    assert!(batch.envelopes.is_empty());
    assert_eq!(batch.clear, Some(StoreCommand::Delete { key: "pending:bob".to_string() }));
}

#[test]
fn ack_message_always_succeeds() {
    assert!(storage(1).ack_message("m1").is_ok());
    assert!(storage(1).ack_message("").is_ok());
}

#[test]
fn memory_store_starts_empty_and_answers_pings() {
    let mut store = MemoryStore::new();
    assert_eq!(store.apply(&StoreCommand::Ping, 0), StoreReply::Pong);
    assert!(read(&mut store, "pending:alice", 0).is_empty());
}

#[test]
fn memory_store_appends_at_the_tail() {
    let mut store = MemoryStore::new();
    append(&mut store, "k", "a", 10);
    append(&mut store, "k", "b", 11);
    append(&mut store, "other", "x", 11);
    append(&mut store, "k", "a", 12);
    assert_eq!(read(&mut store, "k", 12), vec!["a", "b", "a"]);
    assert_eq!(read(&mut store, "other", 12), vec!["x"]);
}

#[test]
fn memory_store_list_without_deadline_never_expires() {
    let mut store = MemoryStore::new();
    append(&mut store, "k", "a", 10);
    assert_eq!(read(&mut store, "k", u64::MAX), vec!["a"]);
}

#[test]
fn memory_store_list_is_gone_from_its_deadline_on() {
    let mut store = MemoryStore::new();
    append(&mut store, "k", "a", 100);
    expire(&mut store, "k", 50, 100);
    assert_eq!(read(&mut store, "k", 149), vec!["a"]);
    assert!(read(&mut store, "k", 150).is_empty());
    assert!(read(&mut store, "k", 151).is_empty());
}

#[test]
fn memory_store_append_after_expiry_starts_afresh() {
    let mut store = MemoryStore::new();
    append(&mut store, "k", "old", 100);
    expire(&mut store, "k", 50, 100);
    append(&mut store, "k", "new", 200);
    assert_eq!(read(&mut store, "k", 200), vec!["new"]);
    assert_eq!(read(&mut store, "k", 1_000_000), vec!["new"]);
}

#[test]
fn memory_store_expire_on_a_missing_list_does_nothing() {
    let mut store = MemoryStore::new();
    expire(&mut store, "k", 50, 100);
    append(&mut store, "k", "a", 100);
    assert_eq!(read(&mut store, "k", 10_000), vec!["a"]);
}

#[test]
fn memory_store_expire_without_future_drops_the_list() {
    let mut store = MemoryStore::new();
    append(&mut store, "k", "a", 100);
    expire(&mut store, "k", 0, 100);
    assert!(read(&mut store, "k", 100).is_empty());
    append(&mut store, "k", "b", 100);
    expire(&mut store, "k", -1, 100);
    assert!(read(&mut store, "k", 100).is_empty());
}

#[test]
fn memory_store_delete_drops_one_list() {
    let mut store = MemoryStore::new();
    append(&mut store, "k", "a", 1);
    append(&mut store, "j", "b", 1);
    assert_eq!(store.apply(&StoreCommand::Delete { key: "k".to_string() }, 1), StoreReply::Done);
    assert!(read(&mut store, "k", 1).is_empty());
    assert_eq!(read(&mut store, "j", 1), vec!["b"]);
    assert_eq!(store.apply(&StoreCommand::Delete { key: "k".to_string() }, 1), StoreReply::Done);
}

#[test]
fn memory_store_handles_the_largest_times() {
    let mut store = MemoryStore::new();
    append(&mut store, "k", "a", u64::MAX);
    expire(&mut store, "k", i64::MAX, u64::MAX);
    assert_eq!(read(&mut store, "k", u64::MAX), vec!["a"]);
    expire(&mut store, "k", i64::MIN, u64::MAX);
    assert!(read(&mut store, "k", u64::MAX).is_empty());
}

#[test]
fn memory_store_runs_a_plan_in_order() {
    let mut store = MemoryStore::new();
    let plan = vec![
        StoreCommand::Append { key: "k".to_string(), value: "a".to_string() },
        StoreCommand::Expire { key: "k".to_string(), seconds: 10 },
        StoreCommand::Append { key: "k".to_string(), value: "b".to_string() },
    ];
    store.run(&plan, 5);
    assert_eq!(read(&mut store, "k", 14), vec!["a", "b"]);
    assert!(read(&mut store, "k", 15).is_empty());
    store.run(&Vec::new(), 5);
}

#[test]
fn queued_messages_are_fetched_in_order_and_only_once() {
    let storage = storage(86400);
    let mut store = MemoryStore::new();
    let sent = vec![
        envelope("m1", "alice", "b25l"),
        envelope("m2", "alice", "dHdv"),
        envelope("m3", "alice", "dGhyZWU="),
    ];
    for (i, e) in sent.iter().enumerate() {
        store.run(&storage.queue_message(e).unwrap(), 1000 + i as u64);
    }
    store.run(&storage.queue_message(&envelope("n1", "bob", "q1")).unwrap(), 1001);
    let batch = fetch(&storage, &mut store, "alice", 1010);
    assert_eq!(batch.envelopes, sent);
    let again = fetch(&storage, &mut store, "alice", 1010);
    assert_eq!(again, PendingBatch { envelopes: Vec::new(), clear: None });
    let bob = fetch(&storage, &mut store, "bob", 1010);
    assert_eq!(bob.envelopes, vec![envelope("n1", "bob", "q1")]);
}

#[test]
fn queueing_the_same_envelope_twice_keeps_two_copies() {
    let storage = storage(86400);
    let mut store = MemoryStore::new();
    let e = envelope("m1", "alice", "b25l");
    store.run(&storage.queue_message(&e).unwrap(), 1000);
    store.run(&storage.queue_message(&e).unwrap(), 1000);
    let batch = fetch(&storage, &mut store, "alice", 1000);
    assert_eq!(batch.envelopes, vec![e.duplicate(), e]);
}

#[test]
fn queue_expires_after_the_retention_window() {
    let storage = storage(86400);
    let mut store = MemoryStore::new();
    store.run(&storage.queue_message(&envelope("m1", "alice", "b25l")).unwrap(), 1000);
    assert_eq!(read(&mut store, "pending:alice", 1000 + 86399).len(), 1);
    assert!(read(&mut store, "pending:alice", 1000 + 86401).is_empty());
    let batch = fetch(&storage, &mut store, "alice", 1000 + 86401);
    assert_eq!(batch, PendingBatch { envelopes: Vec::new(), clear: None });
}

#[test]
fn every_write_restarts_the_retention_window_and_reads_do_not() {
    let storage = storage(100);
    let mut store = MemoryStore::new();
    store.run(&storage.queue_message(&envelope("m1", "alice", "b25l")).unwrap(), 1000);
    assert_eq!(read(&mut store, "pending:alice", 1090).len(), 1);
    store.run(&storage.queue_message(&envelope("m2", "alice", "dHdv")).unwrap(), 1090);
    assert_eq!(read(&mut store, "pending:alice", 1150).len(), 2);
    assert_eq!(read(&mut store, "pending:alice", 1189).len(), 2);
    assert!(read(&mut store, "pending:alice", 1190).is_empty());
}

#[test]
fn a_retention_window_of_zero_keeps_nothing() {
    let storage = storage(0);
    let mut store = MemoryStore::new();
    store.run(&storage.queue_message(&envelope("m1", "alice", "b25l")).unwrap(), 1000);
    assert!(read(&mut store, "pending:alice", 1000).is_empty());
}
