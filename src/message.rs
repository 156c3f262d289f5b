use vstd::prelude::*;
use crate::payload::{
    duplicate_payload, opt_payload_text, opt_payload_view, opt_string_view, PayloadView, UPayload,
};
use crate::uri::{duplicate_option, opt_view, UUri, UriView};

verus! {

/// The kind of a message.
#[derive(PartialEq, Eq, Structural, Clone, Copy, Debug)]
pub enum MessageType {
    Publish,
    Notification,
    Request,
    Response,
}

/// A message identifier: a 128-bit uProtocol UUID in two halves.
#[derive(PartialEq, Eq, Structural, Clone, Copy, Debug)]
pub struct MessageId {
    pub msb: u64,
    pub lsb: u64,
}

/// Whether `id` carries the version (7) and variant (RFC 4122) bits of a
/// uProtocol UUID.
pub open spec fn is_uprotocol_id(id: MessageId) -> bool {
    &&& id.msb & 0xf000 == 0x7000
    &&& id.lsb & 0xc000_0000_0000_0000 == 0x8000_0000_0000_0000
}

/// Relies on `up_rust::UUID::build`: it sets the version bits of the upper half
/// to 7 and the variant bits of the lower half to RFC 4122; the rest is the
/// current time and random bits. It panics only where the system clock lies
/// before the UNIX epoch.
#[verifier::external_body]
fn generate_uuid() -> (r: MessageId)
    ensures
        is_uprotocol_id(r),
{
    let u = up_rust::UUID::build();
    MessageId { msb: u.msb, lsb: u.lsb }
}

impl MessageId {
    /// A fresh uProtocol UUID for a message about to be sent.
    pub fn generate() -> (r: MessageId)
        ensures
            is_uprotocol_id(r),
    {
        generate_uuid()
    }
}

/// The mathematical value of a [`UMessage`].
pub struct MessageView {
    pub id: MessageId,
    pub kind: MessageType,
    pub source: Option<UriView>,
    pub sink: Option<UriView>,
    pub payload: Option<PayloadView>,
}

/// A message: its identifier and kind, the address it comes from, the address
/// it is meant for (for targeted messages), and an optional payload.
pub struct UMessage {
    pub id: MessageId,
    pub kind: MessageType,
    pub source: Option<UUri>,
    pub sink: Option<UUri>,
    pub payload: Option<UPayload>,
}

impl View for UMessage {
    type V = MessageView;

    open spec fn view(&self) -> MessageView {
        MessageView {
            id: self.id,
            kind: self.kind,
            source: opt_view(self.source),
            sink: opt_view(self.sink),
            payload: opt_payload_view(self.payload),
        }
    }
}

/// The message that a publish to `source` sends.
pub open spec fn publish_view(
    id: MessageId,
    source: UriView,
    payload: Option<PayloadView>,
) -> MessageView {
    MessageView { id, kind: MessageType::Publish, source: Some(source), sink: None, payload }
}

/// The message that a notification from `source` to `sink` sends.
pub open spec fn notification_view(
    id: MessageId,
    source: UriView,
    sink: UriView,
    payload: Option<PayloadView>,
) -> MessageView {
    MessageView {
        id,
        kind: MessageType::Notification,
        source: Some(source),
        sink: Some(sink),
        payload,
    }
}

impl UMessage {
    /// A publish message from `source`, addressed to nobody in particular.
    pub fn publish(id: MessageId, source: UUri, payload: Option<UPayload>) -> (r: UMessage)
        ensures
            r@ == publish_view(id, source@, opt_payload_view(payload)),
    {
        UMessage { id, kind: MessageType::Publish, source: Some(source), sink: None, payload }
    }

    /// A notification message from `source` to `sink`.
    pub fn notification(id: MessageId, source: UUri, sink: UUri, payload: Option<UPayload>) -> (r:
        UMessage)
        ensures
            r@ == notification_view(id, source@, sink@, opt_payload_view(payload)),
    {
        UMessage {
            id,
            kind: MessageType::Notification,
            source: Some(source),
            sink: Some(sink),
            payload,
        }
    }

    /// The text that the payload holds; `None` where there is no payload or it
    /// holds no text.
    pub fn extract_string(&self) -> (r: Option<String>)
        ensures
            opt_string_view(r) == opt_payload_text(self@.payload),
    {
        match &self.payload {
            Some(p) => p.extract_string(),
            None => None,
        }
    }

    /// An independent copy of this message.
    pub fn duplicate(&self) -> (r: UMessage)
        ensures
            r@ == self@,
    {
        UMessage {
            id: self.id,
            kind: self.kind,
            source: duplicate_option(&self.source),
            sink: duplicate_option(&self.sink),
            payload: duplicate_payload(&self.payload),
        }
    }
}

} // verus!
