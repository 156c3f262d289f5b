use vstd::prelude::*;
use crate::error::TransportError;
use crate::message::{MessageView, UMessage};
use crate::registry::{
    deliveries, deliveries_view, has_handle, registry_wf, register_outcome, registered_state, without_handle, Delivery,
    DeliveryView, ListenerRegistry, RegistrationHandle, RegistrationView, RegistryView,
};
use crate::uri::{opt_view, UUri};

verus! {

/// The mathematical value of a [`LocalTransport`]: its registrations, and
/// whether it still accepts messages.
pub struct TransportView {
    pub registry: RegistryView,
    pub open: bool,
}

/// What sending `m` through a transport in state `t` gives: `InvalidMessage`
/// without a source, `Unavailable` once the transport is closed, and otherwise
/// one dispatch for each registration that selects `m`.
pub open spec fn send_outcome(t: TransportView, m: MessageView) -> Result<
    Seq<DeliveryView>,
    TransportError,
> {
    if m.source is None {
        Err(TransportError::InvalidMessage)
    } else if !t.open {
        Err(TransportError::Unavailable)
    } else {
        Ok(deliveries(t.registry.entries, m))
    }
}

/// The view of the result of a send.
pub open spec fn sent_view(r: Result<Vec<Delivery>, TransportError>) -> Result<
    Seq<DeliveryView>,
    TransportError,
> {
    match r {
        Ok(ds) => Ok(deliveries_view(ds@)),
        Err(e) => Err(e),
    }
}

/// A transport within one process: it keeps the listener registrations and
/// turns each sent message into the dispatches that its listeners are owed.
pub struct LocalTransport {
    registry: ListenerRegistry,
    open: bool,
}

impl View for LocalTransport {
    type V = TransportView;

    closed spec fn view(&self) -> TransportView {
        TransportView { registry: self.registry@, open: self.open }
    }
}

impl LocalTransport {
    /// The transport's invariant: that of its registry.
    pub open spec fn wf(&self) -> bool {
        registry_wf(self@.registry)
    }

    /// An open transport without registrations.
    pub fn new() -> (r: LocalTransport)
        ensures
            r.wf(),
            r@ == (TransportView {
                registry: RegistryView { entries: Seq::<RegistrationView>::empty(), next_handle: 0 },
                open: true,
            }),
    {
        LocalTransport { registry: ListenerRegistry::new(), open: true }
    }

    /// Whether the transport still accepts messages.
    pub fn is_open(&self) -> (r: bool)
        ensures
            r == self@.open,
    {
        self.open
    }

    /// Stops accepting messages; registrations stay as they are.
    pub fn close(&mut self)
        requires
            old(self).wf(),
        ensures
            final(self).wf(),
            final(self)@ == (TransportView { registry: old(self)@.registry, open: false }),
    {
        self.open = false;
    }

    /// Registers `listener` for messages from `topic` (and, with a sink filter,
    /// meant for that sink). The same listener for the same topic and sink
    /// filter is refused with `AlreadyRegistered`; a refused call changes
    /// nothing.
    pub fn register_listener(
        &mut self,
        topic: &UUri,
        sink_filter: &Option<UUri>,
        listener: u64,
    ) -> (r: Result<RegistrationHandle, TransportError>)
        requires
            old(self).wf(),
        ensures
            final(self).wf(),
            final(self)@.open == old(self)@.open,
            r == register_outcome(old(self)@.registry, topic@, opt_view(*sink_filter), listener),
            r is Err ==> final(self)@ == old(self)@,
            r is Ok ==> final(self)@.registry == registered_state(
                old(self)@.registry,
                topic@,
                opt_view(*sink_filter),
                listener,
            ),
    {
        self.registry.register(topic, sink_filter, listener)
    }

    /// Removes the registration that handle `h` names for `topic` and
    /// `sink_filter`; where there is none, the call is refused with `NotFound`
    /// and changes nothing.
    pub fn unregister_listener(
        &mut self,
        topic: &UUri,
        sink_filter: &Option<UUri>,
        h: RegistrationHandle,
    ) -> (r: Result<(), TransportError>)
        requires
            old(self).wf(),
        ensures
            final(self).wf(),
            r is Ok <==> has_handle(
                old(self)@.registry.entries,
                topic@,
                opt_view(*sink_filter),
                h,
            ),
            r is Err ==> r == Err::<(), TransportError>(TransportError::NotFound) && final(self)@
                == old(self)@,
            r is Ok ==> final(self)@ == (TransportView {
                registry: RegistryView {
                    entries: without_handle(old(self)@.registry.entries, h),
                    next_handle: old(self)@.registry.next_handle,
                },
                open: old(self)@.open,
            }),
    {
        self.registry.unregister(topic, sink_filter, h)
    }

    /// Sends `message`: gives one dispatch, with its own copy of the message,
    /// to each listener whose registration selects it, or the refusal that
    /// [`send_outcome`] names.
    pub fn send(&self, message: UMessage) -> (r: Result<Vec<Delivery>, TransportError>)
        ensures
            sent_view(r) == send_outcome(self@, message@),
    {
        if message.source.is_none() {
            return Err(TransportError::InvalidMessage);
        }
        if !self.open {
            return Err(TransportError::Unavailable);
        }
        Ok(self.registry.deliveries_for(&message))
    }
}

} // verus!
