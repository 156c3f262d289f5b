use vstd::prelude::*;
use crate::error::{PublishError, TransportError};
use crate::message::{is_uprotocol_id, publish_view, MessageId, UMessage};
use crate::payload::{opt_payload_view, UPayload};
use crate::registry::{deliveries_view, Delivery, DeliveryView};
use crate::transport::{send_outcome, LocalTransport, TransportView};
use crate::uri::StaticUriProvider;

verus! {

/// A transport outcome as a publisher reports it.
pub open spec fn publish_outcome(o: Result<Seq<DeliveryView>, TransportError>) -> Result<
    Seq<DeliveryView>,
    PublishError,
> {
    match o {
        Ok(ds) => Ok(ds),
        Err(e) => Err(PublishError::Transport(e)),
    }
}

/// The view of the result of a publish.
pub open spec fn published_view(r: Result<Vec<Delivery>, PublishError>) -> Result<
    Seq<DeliveryView>,
    PublishError,
> {
    match r {
        Ok(ds) => Ok(deliveries_view(ds@)),
        Err(e) => Err(e),
    }
}

/// Sends publish messages from the resources of one entity.
pub struct SimplePublisher {
    pub uri_provider: StaticUriProvider,
}

impl SimplePublisher {
    /// What publishing with id `id` from resource `resource_id` gives through a
    /// transport in state `t`.
    pub open spec fn publish_spec(
        &self,
        t: TransportView,
        id: MessageId,
        resource_id: u16,
        payload: Option<UPayload>,
    ) -> Result<Seq<DeliveryView>, PublishError> {
        publish_outcome(
            send_outcome(
                t,
                publish_view(
                    id,
                    self.uri_provider.resource_uri_spec(resource_id),
                    opt_payload_view(payload),
                ),
            ),
        )
    }

    /// A publisher for the entity that `uri_provider` identifies.
    pub fn new(uri_provider: StaticUriProvider) -> (r: SimplePublisher)
        ensures
            r.uri_provider == uri_provider,
    {
        SimplePublisher { uri_provider }
    }

    /// Publishes `payload` from resource `resource_id` under message id `id`:
    /// the message goes to every listener registered for that resource's
    /// address; a transport refusal comes back wrapped.
    pub fn publish_with_id(
        &self,
        transport: &LocalTransport,
        id: MessageId,
        resource_id: u16,
        payload: Option<UPayload>,
    ) -> (r: Result<Vec<Delivery>, PublishError>)
        ensures
            published_view(r) == self.publish_spec(transport@, id, resource_id, payload),
    {
        let source = self.uri_provider.get_resource_uri(resource_id);
        let message = UMessage::publish(id, source, payload);
        match transport.send(message) {
            Ok(ds) => Ok(ds),
            Err(e) => Err(PublishError::Transport(e)),
        }
    }

    /// Publishes `payload` from resource `resource_id` under a fresh message id.
    pub fn publish(&self, transport: &LocalTransport, resource_id: u16, payload: Option<UPayload>) -> (r:
        Result<Vec<Delivery>, PublishError>)
        ensures
            exists|id: MessageId|
                is_uprotocol_id(id) && published_view(r) == #[trigger] self.publish_spec(
                    transport@,
                    id,
                    resource_id,
                    payload,
                ),
    {
        let id = MessageId::generate();
        let r = self.publish_with_id(transport, id, resource_id, payload);
        assert(is_uprotocol_id(id) && published_view(r) == self.publish_spec(
            transport@,
            id,
            resource_id,
            payload,
        ));
        r
    }
}

} // verus!
