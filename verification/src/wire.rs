//! The text frames exchanged with clients and kept in the durable queue.
//!
//! Frames are JSON objects. JSON syntax itself (string escaping, number
//! rendering, parsing) is `serde_json`'s; which members make an envelope or a
//! receipt is decided here.

use crate::envelope::{
    status_of_name, text_eq, DeliveryReceipt, DeliveryStatus, EnvelopeView, MessageEnvelope,
    ReceiptView,
};
use crate::error::Error;
use serde_json::Error as JsonError;
use vstd::prelude::*;
use vstd::string::StringExecFns;

verus! {

/// One member of a JSON object, reduced to what the relay reads: its name,
/// its text if the value is a JSON string, and its integer if the value is a
/// JSON number that fits `i64`.
#[derive(Debug, Clone, PartialEq, Eq)]
pub struct Member {
    pub name: String,
    pub text: Option<String>,
    pub integer: Option<i64>,
}

/// Mathematical value of a [`Member`].
pub ghost struct MemberView {
    pub name: Seq<char>,
    pub text: Option<Seq<char>>,
    pub integer: Option<i64>,
}

impl View for Member {
    type V = MemberView;

    open spec fn view(&self) -> MemberView {
        MemberView {
            name: self.name@,
            text: match self.text {
                Some(text) => Some(text@),
                None => None,
            },
            integer: self.integer,
        }
    }
}

/// Values of a list of members, in order.
pub open spec fn members_view(members: Seq<Member>) -> Seq<MemberView> {
    members.map_values(|m: Member| m@)
}

/// The JSON string literal that `serde_json` writes for a text, quotes and
/// escapes included; `None` where it reports an error.
pub uninterp spec fn json_string_text(text: Seq<char>) -> Option<Seq<char>>;

/// The JSON number that `serde_json` writes for an integer; `None` where it
/// reports an error.
pub uninterp spec fn json_integer_text(value: i64) -> Option<Seq<char>>;

/// The members of the JSON object that a text denotes according to
/// `serde_json`, in the order its map yields them; `None` where the text is
/// not JSON or is JSON of another kind.
pub uninterp spec fn json_object_members(text: Seq<char>) -> Option<Seq<MemberView>>;

/// `serde_json::to_string` on a `str`. The result is the named literal of the
/// text; an error is returned exactly where that name is `None`.
#[verifier::external_body]
fn json_quote(text: &str) -> (quoted: Result<String, JsonError>)
    ensures
        match quoted {
            Ok(literal) => json_string_text(text@) == Some(literal@),
            Err(_) => json_string_text(text@) is None,
        },
{
    serde_json::to_string(text)
}

/// `serde_json::to_string` on an `i64`. The result is the named rendering of
/// the integer; an error is returned exactly where that name is `None`.
#[verifier::external_body]
fn json_integer(value: i64) -> (rendered: Result<String, JsonError>)
    ensures
        match rendered {
            Ok(digits) => json_integer_text(value) == Some(digits@),
            Err(_) => json_integer_text(value) is None,
        },
{
    serde_json::to_string(&value)
}

/// `serde_json::from_str` into a `serde_json::Value`, then `Value::as_object`
/// and, per member, `Value::as_str` and `Value::as_i64`. The result is the
/// named member list of the text.
#[verifier::external_body]
fn parse_object(text: &str) -> (members: Option<Vec<Member>>)
    ensures
        match members {
            Some(list) => json_object_members(text@) == Some(members_view(list@)),
            None => json_object_members(text@) is None,
        },
{
    let value = serde_json::from_str::<serde_json::Value>(text).ok()?;
    let object = value.as_object()?;
    Some(
        object.iter().map(
            |(name, value)| Member {
                name: name.clone(),
                text: value.as_str().map(String::from),
                integer: value.as_i64(),
            },
        ).collect(),
    )
}

/// The first member with the given name.
pub open spec fn member_named(members: Seq<MemberView>, name: Seq<char>) -> Option<MemberView>
    decreases members.len(),
{
    if members.len() == 0 {
        None
    } else if members[0].name == name {
        Some(members[0])
    } else {
        member_named(members.drop_first(), name)
    }
}

/// Text of a member that must be present and a string.
pub open spec fn required_text(members: Seq<MemberView>, name: Seq<char>) -> Option<Seq<char>> {
    match member_named(members, name) {
        Some(member) => member.text,
        None => None,
    }
}

/// Text of a member that may be left out (read as empty) but, if present,
/// must be a string.
pub open spec fn optional_text(members: Seq<MemberView>, name: Seq<char>) -> Option<Seq<char>> {
    match member_named(members, name) {
        Some(member) => member.text,
        None => Some(Seq::empty()),
    }
}

/// Integer of a member that must be present and an integer.
pub open spec fn required_integer(members: Seq<MemberView>, name: Seq<char>) -> Option<i64> {
    match member_named(members, name) {
        Some(member) => member.integer,
        None => None,
    }
}

/// Integer of a member that may be left out (read as zero) but, if present,
/// must be an integer.
pub open spec fn optional_integer(members: Seq<MemberView>, name: Seq<char>) -> Option<i64> {
    match member_named(members, name) {
        Some(member) => member.integer,
        None => Some(0i64),
    }
}

/// The envelope that an object's members spell: `from`, `to` and `payload`
/// are required strings, `message_id` an optional string and `timestamp` an
/// optional integer. Other members are ignored.
pub open spec fn envelope_of(members: Seq<MemberView>) -> Option<EnvelopeView> {
    match (
        optional_text(members, "message_id"@),
        required_text(members, "from"@),
        required_text(members, "to"@),
        required_text(members, "payload"@),
        optional_integer(members, "timestamp"@),
    ) {
        (Some(message_id), Some(from), Some(to), Some(payload), Some(timestamp)) => Some(
            EnvelopeView { message_id, from, to, payload, timestamp },
        ),
        _ => None,
    }
}

/// The receipt that an object's members spell: `message_id` a string,
/// `status` one of the four status names, `timestamp` an integer, all
/// required. Other members are ignored.
pub open spec fn receipt_of(members: Seq<MemberView>) -> Option<ReceiptView> {
    match (
        required_text(members, "message_id"@),
        required_text(members, "status"@),
        required_integer(members, "timestamp"@),
    ) {
        (Some(message_id), Some(name), Some(timestamp)) => match status_of_name(name) {
            Some(status) => Some(ReceiptView { message_id, status, timestamp }),
            None => None,
        },
        _ => None,
    }
}

/// What an inbound text frame turned out to be.
#[derive(Debug, Clone, PartialEq, Eq)]
pub enum Frame {
    Envelope(MessageEnvelope),
    Receipt(DeliveryReceipt),
    Unrecognized,
}

/// Mathematical value of a [`Frame`].
pub ghost enum FrameView {
    Envelope(EnvelopeView),
    Receipt(ReceiptView),
    Unrecognized,
}

impl View for Frame {
    type V = FrameView;

    open spec fn view(&self) -> FrameView {
        match self {
            Frame::Envelope(envelope) => FrameView::Envelope(envelope@),
            Frame::Receipt(receipt) => FrameView::Receipt(receipt@),
            Frame::Unrecognized => FrameView::Unrecognized,
        }
    }
}

/// Classification of a parsed frame: the envelope shape is tried first, the
/// receipt shape second; anything else, and anything that is no JSON object,
/// is unrecognized.
pub open spec fn frame_of(members: Option<Seq<MemberView>>) -> FrameView {
    match members {
        Some(list) => match envelope_of(list) {
            Some(envelope) => FrameView::Envelope(envelope),
            None => match receipt_of(list) {
                Some(receipt) => FrameView::Receipt(receipt),
                None => FrameView::Unrecognized,
            },
        },
        None => FrameView::Unrecognized,
    }
}

/// A JSON object with the five members of an envelope in declaration order
/// and without whitespace, each value given as it is to be written.
pub open spec fn envelope_frame(
    message_id: Seq<char>,
    from: Seq<char>,
    to: Seq<char>,
    payload: Seq<char>,
    timestamp: Seq<char>,
) -> Seq<char> {
    "{\"message_id\":"@ + message_id + ",\"from\":"@ + from + ",\"to\":"@ + to
        + ",\"payload\":"@ + payload + ",\"timestamp\":"@ + timestamp + "}"@
}

/// The wire text of an envelope: the frame of its four texts as JSON string
/// literals and its timestamp as a JSON number. `None` where one of them
/// cannot be rendered.
pub open spec fn envelope_text(envelope: EnvelopeView) -> Option<Seq<char>> {
    match (
        json_string_text(envelope.message_id),
        json_string_text(envelope.from),
        json_string_text(envelope.to),
        json_string_text(envelope.payload),
        json_integer_text(envelope.timestamp),
    ) {
        (Some(message_id), Some(from), Some(to), Some(payload), Some(timestamp)) => Some(
            envelope_frame(message_id, from, to, payload, timestamp),
        ),
        _ => None,
    }
}

/// Looks up the first member with the given name.
pub fn find_member<'a>(members: &'a Vec<Member>, name: &str) -> (found: Option<&'a Member>)
    ensures
        match found {
            Some(member) => member_named(members_view(members@), name@) == Some(member@),
            None => member_named(members_view(members@), name@) is None,
        },
{
    let ghost all = members_view(members@);
    let mut i: usize = 0;
    assert(all.skip(0) =~= all);
    while i < members.len()
        invariant
            i <= members.len(),
            all == members_view(members@),
            member_named(all, name@) == member_named(all.skip(i as int), name@),
        decreases members.len() - i,
    {
        let ghost rest = all.skip(i as int);
        assert(rest[0] == members@[i as int]@);
        assert(rest.drop_first() =~= all.skip(i + 1));
        if text_eq(members[i].name.as_str(), name) {
            return Some(&members[i]);
        }
        i += 1;
    }
    assert(all.skip(i as int).len() == 0);
    None
}

/// Reads an envelope out of an object's members.
pub fn decode_envelope_members(members: &Vec<Member>) -> (envelope: Option<MessageEnvelope>)
    ensures
        match envelope {
            Some(e) => envelope_of(members_view(members@)) == Some(e@),
            None => envelope_of(members_view(members@)) is None,
        },
{
    let message_id = match find_member(members, "message_id") {
        Some(member) => match &member.text {
            Some(text) => text.clone(),
            None => { return None; },
        },
        None => String::new(),
    };
    let from = match find_member(members, "from") {
        Some(Member { text: Some(text), .. }) => text.clone(),
        _ => { return None; },
    };
    let to = match find_member(members, "to") {
        Some(Member { text: Some(text), .. }) => text.clone(),
        _ => { return None; },
    };
    let payload = match find_member(members, "payload") {
        Some(Member { text: Some(text), .. }) => text.clone(),
        _ => { return None; },
    };
    let timestamp = match find_member(members, "timestamp") {
        Some(member) => match member.integer {
            Some(integer) => integer,
            None => { return None; },
        },
        None => 0i64,
    };
    Some(MessageEnvelope { message_id, from, to, payload, timestamp })
}

/// Reads a receipt out of an object's members.
pub fn decode_receipt_members(members: &Vec<Member>) -> (receipt: Option<DeliveryReceipt>)
    ensures
        match receipt {
            Some(r) => receipt_of(members_view(members@)) == Some(r@),
            None => receipt_of(members_view(members@)) is None,
        },
{
    let message_id = match find_member(members, "message_id") {
        Some(Member { text: Some(text), .. }) => text.clone(),
        _ => { return None; },
    };
    let status = match find_member(members, "status") {
        Some(Member { text: Some(text), .. }) => match DeliveryStatus::from_name(text.as_str()) {
            Some(status) => status,
            None => { return None; },
        },
        _ => { return None; },
    };
    let timestamp = match find_member(members, "timestamp") {
        Some(Member { integer: Some(integer), .. }) => *integer,
        _ => { return None; },
    };
    Some(DeliveryReceipt { message_id, status, timestamp })
}

/// Classifies a parsed frame.
pub fn classify(members: Option<Vec<Member>>) -> (frame: Frame)
    ensures
        frame@ == frame_of(
            match members {
                Some(list) => Some(members_view(list@)),
                None => None,
            },
        ),
{
    match members {
        Some(list) => match decode_envelope_members(&list) {
            Some(envelope) => Frame::Envelope(envelope),
            None => match decode_receipt_members(&list) {
                Some(receipt) => Frame::Receipt(receipt),
                None => Frame::Unrecognized,
            },
        },
        None => Frame::Unrecognized,
    }
}

/// Parses and classifies an inbound text frame.
pub fn parse_frame(text: &str) -> (frame: Frame)
    ensures
        frame@ == frame_of(json_object_members(text@)),
{
    classify(parse_object(text))
}

/// Reads an envelope back from its wire text; `None` for anything that does
/// not spell an envelope.
pub fn decode_envelope(text: &str) -> (envelope: Option<MessageEnvelope>)
    ensures
        match envelope {
            Some(e) => decoded_envelope(text@) == Some(e@),
            None => decoded_envelope(text@) is None,
        },
{
    match parse_object(text) {
        Some(list) => decode_envelope_members(&list),
        None => None,
    }
}

/// The envelope that a wire text spells, if any.
pub open spec fn decoded_envelope(text: Seq<char>) -> Option<EnvelopeView> {
    match json_object_members(text) {
        Some(list) => envelope_of(list),
        None => None,
    }
}

/// Puts the five rendered values of an envelope together into its frame.
pub fn assemble_frame(
    message_id: &str,
    from: &str,
    to: &str,
    payload: &str,
    timestamp: &str,
) -> (frame: String)
    ensures
        frame@ == envelope_frame(message_id@, from@, to@, payload@, timestamp@),
{
    let mut frame = String::from_str("{\"message_id\":");
    frame.append(message_id);
    frame.append(",\"from\":");
    frame.append(from);
    frame.append(",\"to\":");
    frame.append(to);
    frame.append(",\"payload\":");
    frame.append(payload);
    frame.append(",\"timestamp\":");
    frame.append(timestamp);
    frame.append("}");
    frame
}

/// Writes an envelope as wire text. Fails with `Error::Serialization`
/// exactly where a member cannot be rendered.
pub fn encode_envelope(envelope: &MessageEnvelope) -> (encoded: Result<String, Error>)
    ensures
        match encoded {
            Ok(text) => envelope_text(envelope@) == Some(text@),
            Err(error) => envelope_text(envelope@) is None && error is Serialization,
        },
{
    let message_id = match json_quote(envelope.message_id.as_str()) {
        Ok(literal) => literal,
        Err(e) => { return Err(Error::Serialization(e)); },
    };
    let from = match json_quote(envelope.from.as_str()) {
        Ok(literal) => literal,
        Err(e) => { return Err(Error::Serialization(e)); },
    };
    let to = match json_quote(envelope.to.as_str()) {
        Ok(literal) => literal,
        Err(e) => { return Err(Error::Serialization(e)); },
    };
    let payload = match json_quote(envelope.payload.as_str()) {
        Ok(literal) => literal,
        Err(e) => { return Err(Error::Serialization(e)); },
    };
    let timestamp = match json_integer(envelope.timestamp) {
        Ok(digits) => digits,
        Err(e) => { return Err(Error::Serialization(e)); },
    };
    Ok(
        assemble_frame(
            message_id.as_str(),
            from.as_str(),
            to.as_str(),
            payload.as_str(),
            timestamp.as_str(),
        ),
    )
}

} // verus!
