use relay_server::envelope::{text_eq, DeliveryReceipt, DeliveryStatus, MessageEnvelope};
use relay_server::wire::{
    assemble_frame, classify, decode_envelope, decode_envelope_members, decode_receipt_members,
    encode_envelope, find_member, parse_frame, Frame, Member,
};

fn envelope(id: &str, from: &str, to: &str, payload: &str, timestamp: i64) -> MessageEnvelope {
    MessageEnvelope {
        message_id: id.to_string(),
        from: from.to_string(),
        to: to.to_string(),
        payload: payload.to_string(),
        timestamp,
    }
}

fn text_member(name: &str, text: &str) -> Member {
    Member { name: name.to_string(), text: Some(text.to_string()), integer: None }
}

fn integer_member(name: &str, integer: i64) -> Member {
    Member { name: name.to_string(), text: None, integer: Some(integer) }
}

fn other_member(name: &str) -> Member {
    Member { name: name.to_string(), text: None, integer: None }
}

#[test]
fn encode_writes_members_in_declaration_order() {
    let e = envelope("m1", "alice", "bob", "aGVsbG8=", 1700000000000);
    assert_eq!(
        encode_envelope(&e).unwrap(),
        "{\"message_id\":\"m1\",\"from\":\"alice\",\"to\":\"bob\",\"payload\":\"aGVsbG8=\",\"timestamp\":1700000000000}"
    );
}

#[test]
fn assemble_frame_joins_the_rendered_values() {
    assert_eq!(
        assemble_frame("\"a\"", "\"b\"", "\"c\"", "\"d\"", "-12"),
        "{\"message_id\":\"a\",\"from\":\"b\",\"to\":\"c\",\"payload\":\"d\",\"timestamp\":-12}"
    );
    assert_eq!(
        assemble_frame("", "", "", "", ""),
        "{\"message_id\":,\"from\":,\"to\":,\"payload\":,\"timestamp\":}"
    );
}

#[test]
fn encode_escapes_text_and_keeps_the_sign() {
    let e = envelope("", "a\"b", "c\\d", "line\nbreak\ttab", -5);
    assert_eq!(
        encode_envelope(&e).unwrap(),
        "{\"message_id\":\"\",\"from\":\"a\\\"b\",\"to\":\"c\\\\d\",\"payload\":\"line\\nbreak\\ttab\",\"timestamp\":-5}"
    );
}

#[test]
fn encode_renders_the_extreme_timestamps() {
    let low = encode_envelope(&envelope("x", "a", "b", "p", i64::MIN)).unwrap();
    assert!(low.ends_with("\"timestamp\":-9223372036854775808}"));
    let high = encode_envelope(&envelope("x", "a", "b", "p", i64::MAX)).unwrap();
    assert!(high.ends_with("\"timestamp\":9223372036854775807}"));
}

#[test]
fn encoded_envelope_reads_back_unchanged() {
    let samples = vec![
        envelope("m1", "alice", "bob", "aGVsbG8=", 1700000000000),
        envelope("", "", "", "", 0),
        envelope("id with \"quotes\"", "a\\b", "c/d", "{\"nested\":true}", -1),
        envelope("\u{1F600}", "z\u{fc}rich", "\u{6771}\u{4eac}", "\u{0}\u{1}\u{7f}", i64::MAX),
        envelope("m", "f", "t", "line\r\nbreak", i64::MIN),
    ];
    for e in samples {
        let text = encode_envelope(&e).unwrap();
        assert_eq!(decode_envelope(&text), Some(e));
    }
}

#[test]
fn decode_accepts_any_member_order_and_ignores_extras() {
    let text = "{\"timestamp\":7,\"extra\":[1,2],\"payload\":\"p\",\"to\":\"bob\",\"from\":\"alice\",\"message_id\":\"m9\"}";
    assert_eq!(decode_envelope(text), Some(envelope("m9", "alice", "bob", "p", 7)));
}

#[test]
fn decode_fills_in_omitted_identifier_and_timestamp() {
    let text = "{\"from\":\"alice\",\"to\":\"bob\",\"payload\":\"p\"}";
    assert_eq!(decode_envelope(text), Some(envelope("", "alice", "bob", "p", 0)));
}

#[test]
fn decode_rejects_what_is_no_envelope() {
    let rejected = vec![
        "",
        "not json",
        "{",
        "[]",
        "\"text\"",
        "42",
        "null",
        "{}",
        "{\"to\":\"bob\",\"payload\":\"p\"}",
        "{\"from\":\"alice\",\"payload\":\"p\"}",
        "{\"from\":\"alice\",\"to\":\"bob\"}",
        "{\"from\":1,\"to\":\"bob\",\"payload\":\"p\"}",
        "{\"from\":\"alice\",\"to\":null,\"payload\":\"p\"}",
        "{\"from\":\"alice\",\"to\":\"bob\",\"payload\":{\"a\":1}}",
        "{\"message_id\":5,\"from\":\"alice\",\"to\":\"bob\",\"payload\":\"p\"}",
        "{\"message_id\":null,\"from\":\"alice\",\"to\":\"bob\",\"payload\":\"p\"}",
        "{\"from\":\"alice\",\"to\":\"bob\",\"payload\":\"p\",\"timestamp\":\"7\"}",
        "{\"from\":\"alice\",\"to\":\"bob\",\"payload\":\"p\",\"timestamp\":1.5}",
        "{\"from\":\"alice\",\"to\":\"bob\",\"payload\":\"p\",\"timestamp\":1e3}",
        "{\"from\":\"alice\",\"to\":\"bob\",\"payload\":\"p\",\"timestamp\":9223372036854775808}",
        "[\"m1\",\"alice\",\"bob\",\"p\",7]",
    ];
    for text in rejected {
        assert_eq!(decode_envelope(text), None, "{}", text);
    }
}

#[test]
fn decode_takes_the_largest_and_smallest_timestamp() {
    let high = "{\"from\":\"a\",\"to\":\"b\",\"payload\":\"p\",\"timestamp\":9223372036854775807}";
    assert_eq!(decode_envelope(high).unwrap().timestamp, i64::MAX);
    let low = "{\"from\":\"a\",\"to\":\"b\",\"payload\":\"p\",\"timestamp\":-9223372036854775808}";
    assert_eq!(decode_envelope(low).unwrap().timestamp, i64::MIN);
}

#[test]
fn repeated_member_counts_once_with_its_last_value() {
    let text = "{\"from\":\"a\",\"to\":\"first\",\"to\":\"second\",\"payload\":\"p\"}";
    assert_eq!(decode_envelope(text).unwrap().to, "second");
}

#[test]
fn parse_frame_recognizes_an_envelope() {
    let text = "{\"message_id\":\"m1\",\"from\":\"mallory\",\"to\":\"bob\",\"payload\":\"p\",\"timestamp\":3}";
    assert_eq!(parse_frame(text), Frame::Envelope(envelope("m1", "mallory", "bob", "p", 3)));
}

#[test]
fn parse_frame_recognizes_each_receipt_status() {
    let cases = vec![
        ("sent", DeliveryStatus::Sent),
        ("delivered", DeliveryStatus::Delivered),
        ("read", DeliveryStatus::Read),
        ("failed", DeliveryStatus::Failed),
    ];
    for (name, status) in cases {
        let text = format!("{{\"message_id\":\"m1\",\"status\":\"{}\",\"timestamp\":12}}", name);
        assert_eq!(
            parse_frame(&text),
            Frame::Receipt(DeliveryReceipt {
                message_id: "m1".to_string(),
                status,
                timestamp: 12,
            })
        );
    }
}

#[test]
fn parse_frame_discards_malformed_receipts() {
    let rejected = vec![
        "{\"message_id\":\"m1\",\"status\":\"Delivered\",\"timestamp\":12}",
        "{\"message_id\":\"m1\",\"status\":\"unknown\",\"timestamp\":12}",
        "{\"message_id\":\"m1\",\"status\":\"\",\"timestamp\":12}",
        "{\"message_id\":\"m1\",\"status\":\"sent\"}",
        "{\"status\":\"sent\",\"timestamp\":12}",
        "{\"message_id\":\"m1\",\"timestamp\":12}",
        "{\"message_id\":\"m1\",\"status\":3,\"timestamp\":12}",
        "{\"message_id\":\"m1\",\"status\":\"sent\",\"timestamp\":\"12\"}",
    ];
    for text in rejected {
        assert_eq!(parse_frame(text), Frame::Unrecognized, "{}", text);
    }
}

#[test]
fn parse_frame_tries_the_envelope_shape_first() {
    let text = "{\"message_id\":\"m1\",\"status\":\"read\",\"timestamp\":4,\"from\":\"a\",\"to\":\"b\",\"payload\":\"p\"}";
    assert_eq!(parse_frame(text), Frame::Envelope(envelope("m1", "a", "b", "p", 4)));
}

#[test]
fn parse_frame_discards_everything_else() {
    for text in vec!["", "hello", "{}", "[1,2,3]", "{\"ping\":true}", "{\"from\":\"a\"}"] {
        assert_eq!(parse_frame(text), Frame::Unrecognized, "{}", text);
    }
}

#[test]
fn find_member_returns_the_first_of_that_name() {
    let members = vec![
        text_member("to", "first"),
        integer_member("timestamp", 3),
        text_member("to", "second"),
    ];
    assert_eq!(find_member(&members, "to"), Some(&members[0]));
    assert_eq!(find_member(&members, "timestamp"), Some(&members[1]));
    assert_eq!(find_member(&members, "from"), None);
    assert_eq!(find_member(&members, "t"), None);
    assert_eq!(find_member(&members, "too"), None);
    assert_eq!(find_member(&Vec::new(), "to"), None);
}

#[test]
fn members_decode_to_an_envelope() {
    let members = vec![
        text_member("from", "alice"),
        text_member("message_id", "m1"),
        text_member("payload", "p"),
        integer_member("timestamp", 99),
        text_member("to", "bob"),
    ];
    assert_eq!(decode_envelope_members(&members), Some(envelope("m1", "alice", "bob", "p", 99)));
    assert_eq!(decode_receipt_members(&members), None);
}

#[test]
fn members_of_the_wrong_kind_decode_to_nothing() {
    let members = vec![
        text_member("from", "alice"),
        other_member("payload"),
        text_member("to", "bob"),
    ];
    assert_eq!(decode_envelope_members(&members), None);
    let members = vec![
        text_member("from", "alice"),
        text_member("payload", "p"),
        text_member("to", "bob"),
        text_member("timestamp", "5"),
    ];
    assert_eq!(decode_envelope_members(&members), None);
    let members = vec![
        text_member("from", "alice"),
        text_member("payload", "p"),
        text_member("to", "bob"),
        integer_member("message_id", 5),
    ];
    assert_eq!(decode_envelope_members(&members), None);
}

#[test]
fn members_decode_to_a_receipt() {
    let members = vec![
        text_member("message_id", "m1"),
        text_member("status", "failed"),
        integer_member("timestamp", -3),
    ];
    assert_eq!(
        decode_receipt_members(&members),
        Some(DeliveryReceipt {
            message_id: "m1".to_string(),
            status: DeliveryStatus::Failed,
            timestamp: -3,
        })
    );
    assert_eq!(decode_envelope_members(&members), None);
}

#[test]
fn classify_follows_the_two_shapes() {
    assert_eq!(classify(None), Frame::Unrecognized);
    assert_eq!(classify(Some(Vec::new())), Frame::Unrecognized);
    let receipt = vec![
        text_member("message_id", "m1"),
        text_member("status", "sent"),
        integer_member("timestamp", 1),
    ];
    assert!(matches!(classify(Some(receipt)), Frame::Receipt(_)));
    let both = vec![
        text_member("message_id", "m1"),
        text_member("status", "sent"),
        integer_member("timestamp", 1),
        text_member("from", "a"),
        text_member("to", "b"),
        text_member("payload", "p"),
    ];
    assert!(matches!(classify(Some(both)), Frame::Envelope(_)));
}

#[test]
fn status_names_round_trip() {
    for status in vec![
        DeliveryStatus::Sent,
        DeliveryStatus::Delivered,
        DeliveryStatus::Read,
        DeliveryStatus::Failed,
    ] {
        assert_eq!(DeliveryStatus::from_name(status.name()), Some(status));
    }
    assert_eq!(DeliveryStatus::Sent.name(), "sent");
    assert_eq!(DeliveryStatus::Delivered.name(), "delivered");
    assert_eq!(DeliveryStatus::Read.name(), "read");
    assert_eq!(DeliveryStatus::Failed.name(), "failed");
    assert_eq!(DeliveryStatus::from_name("SENT"), None);
    assert_eq!(DeliveryStatus::from_name(""), None);
    assert_eq!(DeliveryStatus::from_name("reads"), None);
}

#[test]
fn text_eq_compares_characters() {
    assert!(text_eq("", ""));
    assert!(text_eq("abc", "abc"));
    assert!(!text_eq("abc", "abd"));
    assert!(!text_eq("abc", "ab"));
    assert!(!text_eq("a", ""));
    assert!(text_eq("z\u{fc}rich", "z\u{fc}rich"));
    assert!(!text_eq("z\u{fc}rich", "zurich"));
}

#[test]
fn duplicate_keeps_every_field() {
    let e = envelope("m1", "alice", "bob", "p", 17);
    assert_eq!(e.duplicate(), e);
}
