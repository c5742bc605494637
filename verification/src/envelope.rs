//! The message units carried by the relay.

use vstd::prelude::*;

verus! {

/// An encrypted message on its way from one identity to another.
///
/// The relay never looks inside `payload`.
#[derive(Debug, Clone, PartialEq, Eq)]
pub struct MessageEnvelope {
    pub message_id: String,
    pub from: String,
    pub to: String,
    pub payload: String,
    pub timestamp: i64,
}

/// Mathematical value of a [`MessageEnvelope`].
pub ghost struct EnvelopeView {
    pub message_id: Seq<char>,
    pub from: Seq<char>,
    pub to: Seq<char>,
    pub payload: Seq<char>,
    pub timestamp: i64,
}

impl View for MessageEnvelope {
    type V = EnvelopeView;

    open spec fn view(&self) -> EnvelopeView {
        EnvelopeView {
            message_id: self.message_id@,
            from: self.from@,
            to: self.to@,
            payload: self.payload@,
            timestamp: self.timestamp,
        }
    }
}

impl DeepView for MessageEnvelope {
    type V = EnvelopeView;

    open spec fn deep_view(&self) -> EnvelopeView {
        self@
    }
}

impl MessageEnvelope {
    /// A copy with the same field values.
    pub fn duplicate(&self) -> (copy: MessageEnvelope)
        ensures
            copy@ == self@,
    {
        MessageEnvelope {
            message_id: self.message_id.clone(),
            from: self.from.clone(),
            to: self.to.clone(),
            payload: self.payload.clone(),
            timestamp: self.timestamp,
        }
    }
}

/// What a recipient reports about a message it was sent.
#[derive(Debug, Clone, Copy, PartialEq, Eq, Structural)]
pub enum DeliveryStatus {
    Sent,
    Delivered,
    Read,
    Failed,
}

/// Wire name of each status.
pub open spec fn status_name(status: DeliveryStatus) -> Seq<char> {
    match status {
        DeliveryStatus::Sent => "sent"@,
        DeliveryStatus::Delivered => "delivered"@,
        DeliveryStatus::Read => "read"@,
        DeliveryStatus::Failed => "failed"@,
    }
}

/// The status that a wire name stands for, if any.
pub open spec fn status_of_name(name: Seq<char>) -> Option<DeliveryStatus> {
    if name == "sent"@ {
        Some(DeliveryStatus::Sent)
    } else if name == "delivered"@ {
        Some(DeliveryStatus::Delivered)
    } else if name == "read"@ {
        Some(DeliveryStatus::Read)
    } else if name == "failed"@ {
        Some(DeliveryStatus::Failed)
    } else {
        None
    }
}

impl DeliveryStatus {
    /// The lower-case name used on the wire.
    pub fn name(&self) -> (name: &'static str)
        ensures
            name@ == status_name(*self),
    {
        match self {
            DeliveryStatus::Sent => "sent",
            DeliveryStatus::Delivered => "delivered",
            DeliveryStatus::Read => "read",
            DeliveryStatus::Failed => "failed",
        }
    }

    /// Reads a wire name; any other text is no status.
    pub fn from_name(name: &str) -> (status: Option<DeliveryStatus>)
        ensures
            status == status_of_name(name@),
    {
        if text_eq(name, "sent") {
            Some(DeliveryStatus::Sent)
        } else if text_eq(name, "delivered") {
            Some(DeliveryStatus::Delivered)
        } else if text_eq(name, "read") {
            Some(DeliveryStatus::Read)
        } else if text_eq(name, "failed") {
            Some(DeliveryStatus::Failed)
        } else {
            None
        }
    }
}

/// Every status is read back from its own wire name.
pub proof fn lemma_status_name_round_trip(status: DeliveryStatus)
    ensures
        status_of_name(status_name(status)) == Some(status),
{
    reveal_strlit("sent");
    reveal_strlit("delivered");
    reveal_strlit("read");
    reveal_strlit("failed");
    // Names of different length differ; the two of length four differ in
    // their first character.
    assert("delivered"@.len() == 9 && "failed"@.len() == 6);
    assert("sent"@[0] == 's' && "read"@[0] == 'r');
}

/// Whether two texts hold the same characters.
pub fn text_eq(a: &str, b: &str) -> (same: bool)
    ensures
        same == (a@ == b@),
{
    let n = a.unicode_len();
    if n != b.unicode_len() {
        return false;
    }
    let mut i: usize = 0;
    while i < n
        invariant
            n == a@.len(),
            n == b@.len(),
            i <= n,
            forall|j: int| 0 <= j < i ==> a@[j] == b@[j],
        decreases n - i,
    {
        if a.get_char(i) != b.get_char(i) {
            return false;
        }
        i += 1;
    }
    assert(a@ =~= b@);
    true
}

/// A recipient's report on one message. Receipts are accepted and recorded,
/// never acted upon.
#[derive(Debug, Clone, PartialEq, Eq)]
pub struct DeliveryReceipt {
    pub message_id: String,
    pub status: DeliveryStatus,
    pub timestamp: i64,
}

/// Mathematical value of a [`DeliveryReceipt`].
pub ghost struct ReceiptView {
    pub message_id: Seq<char>,
    pub status: DeliveryStatus,
    pub timestamp: i64,
}

impl View for DeliveryReceipt {
    type V = ReceiptView;

    open spec fn view(&self) -> ReceiptView {
        ReceiptView { message_id: self.message_id@, status: self.status, timestamp: self.timestamp }
    }
}

} // verus!
