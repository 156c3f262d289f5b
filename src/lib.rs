//! An in-process publish/subscribe and notification layer for uProtocol
//! entities addressed by structured URIs.
//!
//! A [`LocalTransport`] keeps the listener registrations and turns each sent
//! message into the dispatches that its listeners are owed; [`SimplePublisher`]
//! and [`SimpleNotifier`] build the messages of the publish and notification
//! patterns on top of it.

pub mod error;
pub mod laws;
pub mod message;
pub mod notifier;
pub mod payload;
pub mod publisher;
pub mod registry;
pub mod transport;
pub mod uri;

pub use error::{NotificationError, PublishError, TransportError};
pub use message::{MessageId, MessageType, MessageView, UMessage};
pub use notifier::SimpleNotifier;
pub use payload::{PayloadError, PayloadFormat, PayloadView, UPayload};
pub use publisher::SimplePublisher;
pub use registry::{Delivery, DeliveryView, ListenerRegistry, Registration, RegistrationHandle};
pub use transport::LocalTransport;
pub use uri::{StaticUriProvider, UUri, UriView};
