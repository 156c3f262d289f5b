use vstd::prelude::*;
use vstd::string::StringExecFns;

verus! {

/// Why a transport refused a call.
#[derive(PartialEq, Eq, Structural, Clone, Copy, Debug)]
pub enum TransportError {
    /// A required addressing field (the source) is missing.
    InvalidMessage,
    /// The same listener is already registered for the same topic and sink filter.
    AlreadyRegistered,
    /// No active registration matches.
    NotFound,
    /// The transport cannot accept the call now.
    Unavailable,
}

/// Why a publish failed: the transport's refusal.
#[derive(PartialEq, Eq, Structural, Clone, Copy, Debug)]
pub enum PublishError {
    Transport(TransportError),
}

/// Why a notifier call failed.
#[derive(PartialEq, Eq, Structural, Clone, Copy, Debug)]
pub enum NotificationError {
    /// No listener of this notifier is registered for the topic.
    NoListener,
    /// This notifier already listens on the topic.
    AlreadyListening,
    /// The transport's refusal.
    Transport(TransportError),
}

/// The human-readable cause of a transport refusal.
pub open spec fn transport_error_text(e: TransportError) -> Seq<char> {
    match e {
        TransportError::InvalidMessage => "invalid message: the source address is missing"@,
        TransportError::AlreadyRegistered => "already registered: the listener already holds this topic and sink filter"@,
        TransportError::NotFound => "not found: no such registration is active"@,
        TransportError::Unavailable => "unavailable: the transport cannot accept the call"@,
    }
}

/// The human-readable cause of a failed publish.
pub open spec fn publish_error_text(e: PublishError) -> Seq<char> {
    match e {
        PublishError::Transport(t) => "publish failed: "@ + transport_error_text(t),
    }
}

/// The human-readable cause of a failed notifier call.
pub open spec fn notification_error_text(e: NotificationError) -> Seq<char> {
    match e {
        NotificationError::NoListener => "no listener: this notifier has no such listener on the topic"@,
        NotificationError::AlreadyListening => "already listening: this notifier already listens on the topic"@,
        NotificationError::Transport(t) => "notification failed: "@ + transport_error_text(t),
    }
}

impl TransportError {
    /// The human-readable cause of this refusal.
    pub fn describe(&self) -> (r: String)
        ensures
            r@ == transport_error_text(*self),
    {
        match self {
            TransportError::InvalidMessage => String::from_str(
                "invalid message: the source address is missing",
            ),
            TransportError::AlreadyRegistered => String::from_str(
                "already registered: the listener already holds this topic and sink filter",
            ),
            TransportError::NotFound => String::from_str("not found: no such registration is active"),
            TransportError::Unavailable => String::from_str(
                "unavailable: the transport cannot accept the call",
            ),
        }
    }
}

impl PublishError {
    /// The human-readable cause of this failure.
    pub fn describe(&self) -> (r: String)
        ensures
            r@ == publish_error_text(*self),
    {
        match self {
            PublishError::Transport(t) => {
                let cause = t.describe();
                String::from_str("publish failed: ").concat(cause.as_str())
            },
        }
    }
}

impl NotificationError {
    /// The human-readable cause of this failure.
    pub fn describe(&self) -> (r: String)
        ensures
            r@ == notification_error_text(*self),
    {
        match self {
            NotificationError::NoListener => String::from_str(
                "no listener: this notifier has no such listener on the topic",
            ),
            NotificationError::AlreadyListening => String::from_str(
                "already listening: this notifier already listens on the topic",
            ),
            NotificationError::Transport(t) => {
                let cause = t.describe();
                String::from_str("notification failed: ").concat(cause.as_str())
            },
        }
    }
}

} // verus!
