use vstd::prelude::*;
use crate::error::{NotificationError, TransportError};
use crate::message::{is_uprotocol_id, notification_view, MessageId, UMessage};
use crate::payload::{opt_payload_view, UPayload};
use crate::registry::{
    deliveries_view, has_handle, register_outcome, registered_state, without_handle, Delivery,
    DeliveryView, RegistrationHandle, RegistryView,
};
use crate::transport::{send_outcome, LocalTransport, TransportView};
use crate::uri::{StaticUriProvider, UUri, UriView};

verus! {

/// The mathematical value of one topic that a notifier listens on.
pub struct ListeningView {
    pub topic: UriView,
    pub listener: u64,
    pub handle: RegistrationHandle,
}

/// One topic that a notifier listens on: the listener and the handle of its
/// registration with the transport.
struct Listening {
    topic: UUri,
    listener: u64,
    handle: RegistrationHandle,
}

impl View for Listening {
    type V = ListeningView;

    closed spec fn view(&self) -> ListeningView {
        ListeningView { topic: self.topic@, listener: self.listener, handle: self.handle }
    }
}

/// Whether one of `s` is on `topic`.
pub open spec fn listening_on(s: Seq<ListeningView>, topic: UriView) -> bool {
    exists|i: int| 0 <= i < s.len() && #[trigger] s[i].topic == topic
}

/// Whether one of `s` is `listener` on `topic`.
pub open spec fn listening_with(s: Seq<ListeningView>, topic: UriView, listener: u64) -> bool {
    exists|i: int| 0 <= i < s.len() && #[trigger] s[i].topic == topic && s[i].listener == listener
}

/// A transport outcome as a notifier reports it.
pub open spec fn notify_outcome(o: Result<Seq<DeliveryView>, TransportError>) -> Result<
    Seq<DeliveryView>,
    NotificationError,
> {
    match o {
        Ok(ds) => Ok(ds),
        Err(e) => Err(NotificationError::Transport(e)),
    }
}

/// The view of the result of a notification.
pub open spec fn notified_view(r: Result<Vec<Delivery>, NotificationError>) -> Result<
    Seq<DeliveryView>,
    NotificationError,
> {
    match r {
        Ok(ds) => Ok(deliveries_view(ds@)),
        Err(e) => Err(e),
    }
}

/// What stopping entry `i` of `s` does: where the transport still holds its
/// registration, that registration and the entry go; otherwise the transport
/// refuses with `NotFound` and nothing changes.
pub open spec fn stop_effect(
    s: Seq<ListeningView>,
    t: TransportView,
    i: int,
    s2: Seq<ListeningView>,
    t2: TransportView,
    r: Result<(), NotificationError>,
) -> bool {
    if has_handle(t.registry.entries, s[i].topic, None, s[i].handle) {
        &&& r == Ok::<(), NotificationError>(())
        &&& s2 == s.remove(i)
        &&& t2 == (TransportView {
            registry: RegistryView {
                entries: without_handle(t.registry.entries, s[i].handle),
                next_handle: t.registry.next_handle,
            },
            open: t.open,
        })
    } else {
        &&& r == Err::<(), NotificationError>(NotificationError::Transport(TransportError::NotFound))
        &&& s2 == s
        &&& t2 == t
    }
}

/// Sends notifications from the resources of one entity, and registers
/// listeners for notifications, at most one per topic.
pub struct SimpleNotifier {
    uri_provider: StaticUriProvider,
    listening: Vec<Listening>,
}

impl View for SimpleNotifier {
    type V = Seq<ListeningView>;

    closed spec fn view(&self) -> Seq<ListeningView> {
        self.listening@.map_values(|l: Listening| l@)
    }
}

impl SimpleNotifier {
    /// The entity on whose behalf this notifier sends.
    pub closed spec fn provider(&self) -> StaticUriProvider {
        self.uri_provider
    }

    /// The notifier's invariant: it listens at most once on each topic.
    pub open spec fn wf(&self) -> bool {
        forall|i: int, j: int|
            0 <= i < self@.len() && 0 <= j < self@.len() && i != j ==> #[trigger] self@[i].topic
                != #[trigger] self@[j].topic
    }

    /// What notifying with id `id` from resource `resource_id` to `destination`
    /// gives through a transport in state `t`.
    pub open spec fn notify_spec(
        &self,
        t: TransportView,
        id: MessageId,
        resource_id: u16,
        destination: UriView,
        payload: Option<UPayload>,
    ) -> Result<Seq<DeliveryView>, NotificationError> {
        notify_outcome(
            send_outcome(
                t,
                notification_view(
                    id,
                    self.provider().resource_uri_spec(resource_id),
                    destination,
                    opt_payload_view(payload),
                ),
            ),
        )
    }

    /// A notifier for the entity that `uri_provider` identifies, listening on
    /// nothing.
    pub fn new(uri_provider: StaticUriProvider) -> (r: SimpleNotifier)
        ensures
            r.wf(),
            r.provider() == uri_provider,
            r@ == Seq::<ListeningView>::empty(),
    {
        let r = SimpleNotifier { uri_provider, listening: Vec::new() };
        assert(r@ =~= Seq::<ListeningView>::empty());
        r
    }

    /// Whether this notifier listens on `topic`.
    pub fn is_listening(&self, topic: &UUri) -> (r: bool)
        ensures
            r == listening_on(self@, topic@),
    {
        match self.position(topic) {
            Some(_) => true,
            None => false,
        }
    }

    /// The position of the entry for `topic`, if there is one.
    fn position(&self, topic: &UUri) -> (r: Option<usize>)
        ensures
            r is None ==> !listening_on(self@, topic@),
            r matches Some(i) ==> i < self@.len() && self@[i as int].topic == topic@,
    {
        let mut i: usize = 0;
        while i < self.listening.len()
            invariant
                i <= self.listening.len(),
                self@ == self.listening@.map_values(|l: Listening| l@),
                forall|k: int| 0 <= k < i ==> #[trigger] self@[k].topic != topic@,
            decreases self.listening.len() - i,
        {
            if self.listening[i].topic.same_address(topic) {
                assert(self@[i as int] == self.listening[i as int]@);
                return Some(i);
            }
            i = i + 1;
        }
        None
    }

    /// Starts listening on `topic` with `listener`: registers it with the
    /// transport, without a sink filter, and remembers the registration. A
    /// topic this notifier already listens on is refused with
    /// `AlreadyListening`; a transport refusal comes back wrapped. A refused
    /// call changes nothing.
    pub fn start_listening(&mut self, transport: &mut LocalTransport, topic: &UUri, listener: u64) -> (r:
        Result<(), NotificationError>)
        requires
            old(self).wf(),
            old(transport).wf(),
        ensures
            final(self).wf(),
            final(transport).wf(),
            final(self).provider() == old(self).provider(),
            listening_on(old(self)@, topic@) ==> r == Err::<(), NotificationError>(
                NotificationError::AlreadyListening,
            ),
            !listening_on(old(self)@, topic@) ==> match register_outcome(
                old(transport)@.registry,
                topic@,
                None,
                listener,
            ) {
                Err(e) => r == Err::<(), NotificationError>(NotificationError::Transport(e)),
                Ok(h) => {
                    &&& r == Ok::<(), NotificationError>(())
                    &&& final(self)@ == old(self)@.push(
                        ListeningView { topic: topic@, listener, handle: h },
                    )
                    &&& final(transport)@ == (TransportView {
                        registry: registered_state(
                            old(transport)@.registry,
                            topic@,
                            None,
                            listener,
                        ),
                        open: old(transport)@.open,
                    })
                },
            },
            r is Err ==> final(self)@ == old(self)@ && final(transport)@ == old(transport)@,
    {
        if self.is_listening(topic) {
            return Err(NotificationError::AlreadyListening);
        }
        match transport.register_listener(topic, &None, listener) {
            Err(e) => Err(NotificationError::Transport(e)),
            Ok(h) => {
                let entry = Listening { topic: topic.duplicate(), listener, handle: h };
                let ghost before = self@;
                self.listening.push(entry);
                assert(self@ =~= before.push(entry@));
                Ok(())
            },
        }
    }

    /// Stops `listener` listening on `topic`: removes its registration from the
    /// transport, and forgets it only where that succeeds. Where this notifier
    /// has no such listener on `topic`, the call is refused with `NoListener`.
    pub fn stop_listening(&mut self, transport: &mut LocalTransport, topic: &UUri, listener: u64) -> (r:
        Result<(), NotificationError>)
        requires
            old(self).wf(),
            old(transport).wf(),
        ensures
            final(self).wf(),
            final(transport).wf(),
            final(self).provider() == old(self).provider(),
            !listening_with(old(self)@, topic@, listener) ==> r == Err::<(), NotificationError>(
                NotificationError::NoListener,
            ) && final(self)@ == old(self)@ && final(transport)@ == old(transport)@,
            listening_with(old(self)@, topic@, listener) ==> exists|i: int|
                0 <= i < old(self)@.len() && #[trigger] old(self)@[i].topic == topic@ && old(
                    self,
                )@[i].listener == listener && stop_effect(
                    old(self)@,
                    old(transport)@,
                    i,
                    final(self)@,
                    final(transport)@,
                    r,
                ),
    {
        let found = self.position(topic);
        match found {
            None => Err(NotificationError::NoListener),
            Some(i) => {
                if self.listening[i].listener != listener {
                    assert(self@[i as int] == self.listening[i as int]@);
                    return Err(NotificationError::NoListener);
                }
                let h = self.listening[i].handle;
                assert(self@[i as int] == self.listening[i as int]@);
                match transport.unregister_listener(topic, &None, h) {
                    Err(e) => Err(NotificationError::Transport(e)),
                    Ok(()) => {
                        let ghost before = self@;
                        self.listening.remove(i);
                        assert(self@ =~= before.remove(i as int));
                        Ok(())
                    },
                }
            },
        }
    }

    /// Sends a notification with id `id` from resource `resource_id` to
    /// `destination`; a transport refusal comes back wrapped.
    pub fn notify_with_id(
        &self,
        transport: &LocalTransport,
        id: MessageId,
        resource_id: u16,
        destination: &UUri,
        payload: Option<UPayload>,
    ) -> (r: Result<Vec<Delivery>, NotificationError>)
        ensures
            notified_view(r) == self.notify_spec(
                transport@,
                id,
                resource_id,
                destination@,
                payload,
            ),
    {
        let source = self.uri_provider.get_resource_uri(resource_id);
        let message = UMessage::notification(id, source, destination.duplicate(), payload);
        match transport.send(message) {
            Ok(ds) => Ok(ds),
            Err(e) => Err(NotificationError::Transport(e)),
        }
    }

    /// Sends a notification from resource `resource_id` to `destination` under
    /// a fresh message id.
    pub fn notify(
        &self,
        transport: &LocalTransport,
        resource_id: u16,
        destination: &UUri,
        payload: Option<UPayload>,
    ) -> (r: Result<Vec<Delivery>, NotificationError>)
        ensures
            exists|id: MessageId|
                is_uprotocol_id(id) && notified_view(r) == #[trigger] self.notify_spec(
                    transport@,
                    id,
                    resource_id,
                    destination@,
                    payload,
                ),
    {
        let id = MessageId::generate();
        let r = self.notify_with_id(transport, id, resource_id, destination, payload);
        assert(is_uprotocol_id(id) && notified_view(r) == self.notify_spec(
            transport@,
            id,
            resource_id,
            destination@,
            payload,
        ));
        r
    }
}

} // verus!
