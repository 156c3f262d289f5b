use vstd::prelude::*;
use crate::error::TransportError;
use crate::message::{notification_view, publish_view, MessageId, MessageView};
use crate::notifier::SimpleNotifier;
use crate::payload::{opt_payload_view, UPayload};
use crate::publisher::SimplePublisher;
use crate::registry::{
    count_handle, deliveries, handles_unique, selects, register_outcome, registered_state,
    registry_wf, without_handle, DeliveryView, RegistrationHandle, RegistrationView, RegistryView,
};
use crate::transport::{send_outcome, TransportView};
use crate::uri::UriView;

verus! {

/// Every dispatch of `m` carries `m` itself.
proof fn lemma_deliveries_carry_message(regs: Seq<RegistrationView>, m: MessageView)
    ensures
        forall|j: int|
            0 <= j < deliveries(regs, m).len() ==> (#[trigger] deliveries(regs, m)[j]).message
                == m,
    decreases regs.len(),
{
    if regs.len() > 0 {
        lemma_deliveries_carry_message(regs.drop_last(), m);
    }
}

/// A handle that selects nothing among `regs` gets no dispatch.
proof fn lemma_count_absent(regs: Seq<RegistrationView>, m: MessageView, h: RegistrationHandle)
    requires
        forall|k: int|
            0 <= k < regs.len() && (#[trigger] regs[k]).handle == h ==> !selects(regs[k], m),
    ensures
        count_handle(deliveries(regs, m), h) == 0,
    decreases regs.len(),
{
    if regs.len() > 0 {
        let prefix = regs.drop_last();
        assert forall|k: int|
            0 <= k < prefix.len() && (#[trigger] prefix[k]).handle == h implies !selects(
            prefix[k],
            m,
        ) by {
            assert(prefix[k] == regs[k]);
        }
        lemma_count_absent(prefix, m, h);
        let r = regs.last();
        assert(regs[regs.len() - 1] == r);
        if selects(r, m) {
            let ds = deliveries(regs, m);
            assert(ds.drop_last() =~= deliveries(prefix, m));
        }
    }
}

/// Where handles are unique, the registration at `i`, if it selects `m`, gets
/// exactly one dispatch of it.
proof fn lemma_count_present(regs: Seq<RegistrationView>, m: MessageView, i: int)
    requires
        handles_unique(regs),
        0 <= i < regs.len(),
        selects(regs[i], m),
    ensures
        count_handle(deliveries(regs, m), regs[i].handle) == 1,
    decreases regs.len(),
{
    let h = regs[i].handle;
    let prefix = regs.drop_last();
    let last = regs.len() - 1;
    let ds = deliveries(regs, m);
    if i == last {
        assert forall|k: int|
            0 <= k < prefix.len() && (#[trigger] prefix[k]).handle == h implies !selects(
            prefix[k],
            m,
        ) by {
            assert(regs[k].handle != regs[i].handle);
        }
        lemma_count_absent(prefix, m, h);
        assert(ds.drop_last() =~= deliveries(prefix, m));
    } else {
        assert(handles_unique(prefix)) by {
            assert forall|a: int, b: int|
                0 <= a < prefix.len() && 0 <= b < prefix.len() && a != b implies #[trigger] prefix[a].handle
                != #[trigger] prefix[b].handle by {
                assert(regs[a].handle != regs[b].handle);
            }
        }
        assert(prefix[i] == regs[i]);
        lemma_count_present(prefix, m, i);
        assert(regs[last].handle != h);
        if selects(regs.last(), m) {
            assert(ds.drop_last() =~= deliveries(prefix, m));
        }
    }
}

/// Sending a message reaches each registration that selects it exactly once,
/// and each dispatch carries the message as it was sent: its id, source, sink
/// and payload.
pub proof fn lemma_send_reaches_each_match_once(t: TransportView, m: MessageView, i: int)
    requires
        registry_wf(t.registry),
        t.open,
        0 <= i < t.registry.entries.len(),
        selects(t.registry.entries[i], m),
    ensures
        send_outcome(t, m) matches Ok(ds) && count_handle(ds, t.registry.entries[i].handle) == 1
            && forall|j: int| 0 <= j < ds.len() ==> (#[trigger] ds[j]).message == m,
{
    lemma_count_present(t.registry.entries, m, i);
    lemma_deliveries_carry_message(t.registry.entries, m);
}

/// After a registration is removed, no send dispatches through it.
pub proof fn lemma_unregistered_receives_nothing(
    t: TransportView,
    h: RegistrationHandle,
    m: MessageView,
)
    ensures
        send_outcome(
            TransportView {
                registry: RegistryView {
                    entries: without_handle(t.registry.entries, h),
                    next_handle: t.registry.next_handle,
                },
                open: t.open,
            },
            m,
        ) matches Ok(ds) ==> count_handle(ds, h) == 0,
{
    lemma_without_handle_drops(t.registry.entries, h);
    lemma_count_absent(without_handle(t.registry.entries, h), m, h);
}

/// No registration that remains after removing `h` holds `h`.
proof fn lemma_without_handle_drops(regs: Seq<RegistrationView>, h: RegistrationHandle)
    ensures
        forall|k: int|
            0 <= k < without_handle(regs, h).len() ==> (#[trigger] without_handle(
                regs,
                h,
            )[k]).handle != h,
    decreases regs.len(),
{
    if regs.len() > 0 {
        lemma_without_handle_drops(regs.drop_last(), h);
    }
}

/// Two registrations that select the same message, such as two listeners on
/// one topic, both get it, each exactly once.
pub proof fn lemma_every_subscriber_receives(t: TransportView, m: MessageView, i: int, j: int)
    requires
        registry_wf(t.registry),
        t.open,
        0 <= i < t.registry.entries.len(),
        0 <= j < t.registry.entries.len(),
        selects(t.registry.entries[i], m),
        selects(t.registry.entries[j], m),
    ensures
        send_outcome(t, m) matches Ok(ds) && count_handle(ds, t.registry.entries[i].handle) == 1
            && count_handle(ds, t.registry.entries[j].handle) == 1,
{
    lemma_send_reaches_each_match_once(t, m, i);
    lemma_send_reaches_each_match_once(t, m, j);
}

/// Registering a listener a second time for the same topic and sink filter,
/// with no removal between, is refused with `AlreadyRegistered`.
pub proof fn lemma_second_registration_refused(
    t: RegistryView,
    topic: UriView,
    sink_filter: Option<UriView>,
    listener: u64,
)
    requires
        register_outcome(t, topic, sink_filter, listener) is Ok,
    ensures
        register_outcome(registered_state(t, topic, sink_filter, listener), topic, sink_filter, listener)
            == Err::<RegistrationHandle, TransportError>(TransportError::AlreadyRegistered),
{
    let s = registered_state(t, topic, sink_filter, listener);
    let k = t.entries.len() as int;
    assert(s.entries[k].topic == topic);
}

/// Publishing from resource `resource_id` through an open transport reaches
/// each registration on that resource's address without a sink filter exactly
/// once, and every dispatch carries the published message: its id, source and
/// payload.
pub proof fn lemma_publish_reaches_each_listener_once(
    p: SimplePublisher,
    t: TransportView,
    id: MessageId,
    resource_id: u16,
    payload: Option<UPayload>,
    i: int,
)
    requires
        registry_wf(t.registry),
        t.open,
        0 <= i < t.registry.entries.len(),
        t.registry.entries[i].topic == p.uri_provider.resource_uri_spec(resource_id),
        t.registry.entries[i].sink_filter is None,
    ensures
        p.publish_spec(t, id, resource_id, payload) matches Ok(ds) && count_handle(
            ds,
            t.registry.entries[i].handle,
        ) == 1 && forall|j: int|
            0 <= j < ds.len() ==> (#[trigger] ds[j]).message == publish_view(
                id,
                p.uri_provider.resource_uri_spec(resource_id),
                opt_payload_view(payload),
            ),
{
    let m = publish_view(id, p.uri_provider.resource_uri_spec(resource_id), opt_payload_view(payload));
    assert(selects(t.registry.entries[i], m));
    lemma_send_reaches_each_match_once(t, m, i);
}

/// Two listeners registered on the address of resource `resource_id`, without
/// sink filters, each get exactly one dispatch of a publish from it.
pub proof fn lemma_publish_reaches_every_subscriber(
    p: SimplePublisher,
    t: TransportView,
    id: MessageId,
    resource_id: u16,
    payload: Option<UPayload>,
    i: int,
    j: int,
)
    requires
        registry_wf(t.registry),
        t.open,
        0 <= i < t.registry.entries.len(),
        0 <= j < t.registry.entries.len(),
        t.registry.entries[i].topic == p.uri_provider.resource_uri_spec(resource_id),
        t.registry.entries[j].topic == p.uri_provider.resource_uri_spec(resource_id),
        t.registry.entries[i].sink_filter is None,
        t.registry.entries[j].sink_filter is None,
    ensures
        p.publish_spec(t, id, resource_id, payload) matches Ok(ds) && count_handle(
            ds,
            t.registry.entries[i].handle,
        ) == 1 && count_handle(ds, t.registry.entries[j].handle) == 1,
{
    lemma_publish_reaches_each_listener_once(p, t, id, resource_id, payload, i);
    lemma_publish_reaches_each_listener_once(p, t, id, resource_id, payload, j);
}

/// A notification from resource `resource_id` to `destination` through an
/// open transport reaches each registration on that resource's address whose
/// sink filter is absent or `destination` exactly once, and every dispatch
/// carries the notification, whose sink is `destination`.
pub proof fn lemma_notification_reaches_listener(
    n: SimpleNotifier,
    t: TransportView,
    id: MessageId,
    resource_id: u16,
    destination: UriView,
    payload: Option<UPayload>,
    i: int,
)
    requires
        registry_wf(t.registry),
        t.open,
        0 <= i < t.registry.entries.len(),
        t.registry.entries[i].topic == n.provider().resource_uri_spec(resource_id),
        t.registry.entries[i].sink_filter is None || t.registry.entries[i].sink_filter == Some(
            destination,
        ),
    ensures
        n.notify_spec(t, id, resource_id, destination, payload) matches Ok(ds) && count_handle(
            ds,
            t.registry.entries[i].handle,
        ) == 1 && forall|j: int|
            0 <= j < ds.len() ==> (#[trigger] ds[j]).message == notification_view(
                id,
                n.provider().resource_uri_spec(resource_id),
                destination,
                opt_payload_view(payload),
            ),
{
    let m = notification_view(
        id,
        n.provider().resource_uri_spec(resource_id),
        destination,
        opt_payload_view(payload),
    );
    assert(selects(t.registry.entries[i], m));
    lemma_send_reaches_each_match_once(t, m, i);
}

} // verus!
