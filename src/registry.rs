use vstd::prelude::*;
use crate::error::TransportError;
use crate::message::{MessageView, UMessage};
use crate::uri::{duplicate_option, opt_view, same_option, UUri, UriView};

verus! {

/// The token that a successful registration hands out; it identifies that
/// registration when it is removed.
#[derive(PartialEq, Eq, Structural, Clone, Copy, Debug)]
pub struct RegistrationHandle {
    pub value: u64,
}

/// The mathematical value of a [`Registration`].
pub struct RegistrationView {
    pub topic: UriView,
    pub sink_filter: Option<UriView>,
    pub listener: u64,
    pub handle: RegistrationHandle,
}

/// One listener registered for a topic, optionally only for messages meant for
/// one sink. A listener is named by an identifier chosen by its owner.
pub struct Registration {
    pub topic: UUri,
    pub sink_filter: Option<UUri>,
    pub listener: u64,
    pub handle: RegistrationHandle,
}

impl View for Registration {
    type V = RegistrationView;

    open spec fn view(&self) -> RegistrationView {
        RegistrationView {
            topic: self.topic@,
            sink_filter: opt_view(self.sink_filter),
            listener: self.listener,
            handle: self.handle,
        }
    }
}

/// The mathematical value of a [`Delivery`].
pub struct DeliveryView {
    pub listener: u64,
    pub handle: RegistrationHandle,
    pub message: MessageView,
}

/// One dispatch of a sent message: the listener to invoke, the registration
/// that selected it, and the listener's own copy of the message.
pub struct Delivery {
    pub listener: u64,
    pub handle: RegistrationHandle,
    pub message: UMessage,
}

impl View for Delivery {
    type V = DeliveryView;

    open spec fn view(&self) -> DeliveryView {
        DeliveryView { listener: self.listener, handle: self.handle, message: self.message@ }
    }
}

/// The views of a sequence of registrations.
pub open spec fn entries_view(s: Seq<Registration>) -> Seq<RegistrationView> {
    s.map_values(|r: Registration| r@)
}

/// The views of a sequence of deliveries.
pub open spec fn deliveries_view(s: Seq<Delivery>) -> Seq<DeliveryView> {
    s.map_values(|d: Delivery| d@)
}

/// Whether registration `r` selects message `m`: the topic is the message's
/// source, and a sink filter, where there is one, is the message's sink.
pub open spec fn selects(r: RegistrationView, m: MessageView) -> bool {
    &&& m.source == Some(r.topic)
    &&& (r.sink_filter is None || r.sink_filter == m.sink)
}

/// The dispatches of `m` to the registrations `regs`: one for each registration
/// that selects it, in the order of registration.
pub open spec fn deliveries(regs: Seq<RegistrationView>, m: MessageView) -> Seq<DeliveryView>
    decreases regs.len(),
{
    if regs.len() == 0 {
        Seq::empty()
    } else {
        let prev = deliveries(regs.drop_last(), m);
        let r = regs.last();
        if selects(r, m) {
            prev.push(DeliveryView { listener: r.listener, handle: r.handle, message: m })
        } else {
            prev
        }
    }
}

/// The registrations `regs` without the one(s) holding handle `h`.
pub open spec fn without_handle(regs: Seq<RegistrationView>, h: RegistrationHandle) -> Seq<
    RegistrationView,
>
    decreases regs.len(),
{
    if regs.len() == 0 {
        Seq::empty()
    } else {
        let prev = without_handle(regs.drop_last(), h);
        if regs.last().handle == h {
            prev
        } else {
            prev.push(regs.last())
        }
    }
}

/// How many of the dispatches `ds` go through handle `h`.
pub open spec fn count_handle(ds: Seq<DeliveryView>, h: RegistrationHandle) -> nat
    decreases ds.len(),
{
    if ds.len() == 0 {
        0
    } else {
        count_handle(ds.drop_last(), h) + if ds.last().handle == h {
            1nat
        } else {
            0nat
        }
    }
}

/// Whether `listener` is registered for `topic` with sink filter `sink_filter`.
pub open spec fn has_registration(
    regs: Seq<RegistrationView>,
    topic: UriView,
    sink_filter: Option<UriView>,
    listener: u64,
) -> bool {
    exists|i: int|
        0 <= i < regs.len() && #[trigger] regs[i].topic == topic && regs[i].sink_filter
            == sink_filter && regs[i].listener == listener
}

/// Whether handle `h` names a registration for `topic` with sink filter
/// `sink_filter`.
pub open spec fn has_handle(
    regs: Seq<RegistrationView>,
    topic: UriView,
    sink_filter: Option<UriView>,
    h: RegistrationHandle,
) -> bool {
    exists|i: int|
        0 <= i < regs.len() && #[trigger] regs[i].handle == h && regs[i].topic == topic
            && regs[i].sink_filter == sink_filter
}

/// Whether no two registrations share a handle.
pub open spec fn handles_unique(regs: Seq<RegistrationView>) -> bool {
    forall|i: int, j: int|
        0 <= i < regs.len() && 0 <= j < regs.len() && i != j ==> #[trigger] regs[i].handle
            != #[trigger] regs[j].handle
}

/// Whether no listener is registered twice for one topic and sink filter.
pub open spec fn registrations_unique(regs: Seq<RegistrationView>) -> bool {
    forall|i: int, j: int|
        0 <= i < regs.len() && 0 <= j < regs.len() && i != j ==> !(#[trigger] regs[i].topic
            == #[trigger] regs[j].topic && regs[i].sink_filter == regs[j].sink_filter
            && regs[i].listener == regs[j].listener)
}

/// The mathematical value of a [`ListenerRegistry`]: the active registrations in
/// the order in which they were made, and the next handle to hand out.
pub struct RegistryView {
    pub entries: Seq<RegistrationView>,
    pub next_handle: u64,
}

/// What registering `listener` for `topic` with `sink_filter` gives in state
/// `t`: `AlreadyRegistered` for a listener registered there already,
/// `Unavailable` once the handles are used up, and otherwise the next handle.
pub open spec fn register_outcome(
    t: RegistryView,
    topic: UriView,
    sink_filter: Option<UriView>,
    listener: u64,
) -> Result<RegistrationHandle, TransportError> {
    if has_registration(t.entries, topic, sink_filter, listener) {
        Err(TransportError::AlreadyRegistered)
    } else if t.next_handle == u64::MAX {
        Err(TransportError::Unavailable)
    } else {
        Ok(RegistrationHandle { value: t.next_handle })
    }
}

/// The state after a successful registration in state `t`: the new
/// registration comes last, under the next handle.
pub open spec fn registered_state(
    t: RegistryView,
    topic: UriView,
    sink_filter: Option<UriView>,
    listener: u64,
) -> RegistryView {
    RegistryView {
        entries: t.entries.push(
            RegistrationView {
                topic,
                sink_filter,
                listener,
                handle: RegistrationHandle { value: t.next_handle },
            },
        ),
        next_handle: (t.next_handle + 1) as u64,
    }
}

/// The set of active listener registrations.
pub struct ListenerRegistry {
    entries: Vec<Registration>,
    next_handle: u64,
}

impl Registration {
    /// Whether this registration selects `m`.
    pub fn matches_message(&self, m: &UMessage) -> (r: bool)
        ensures
            r == selects(self@, m@),
    {
        match &m.source {
            None => false,
            Some(s) => {
                if !self.topic.same_address(s) {
                    false
                } else {
                    match &self.sink_filter {
                        None => true,
                        Some(f) => match &m.sink {
                            Some(k) => f.same_address(k),
                            None => false,
                        },
                    }
                }
            },
        }
    }
}

impl View for ListenerRegistry {
    type V = RegistryView;

    closed spec fn view(&self) -> RegistryView {
        RegistryView { entries: entries_view(self.entries@), next_handle: self.next_handle }
    }
}

/// The registry's invariant: handles are unique and below the next one, and
/// no listener is registered twice for one topic and sink filter.
pub open spec fn registry_wf(t: RegistryView) -> bool {
    &&& handles_unique(t.entries)
    &&& registrations_unique(t.entries)
    &&& forall|i: int|
        0 <= i < t.entries.len() ==> (#[trigger] t.entries[i]).handle.value < t.next_handle
}

impl ListenerRegistry {
    /// The registry's invariant, [`registry_wf`].
    pub open spec fn wf(&self) -> bool {
        registry_wf(self@)
    }

    /// An empty registry.
    pub fn new() -> (r: ListenerRegistry)
        ensures
            r.wf(),
            r@ == (RegistryView { entries: Seq::<RegistrationView>::empty(), next_handle: 0 }),
    {
        let r = ListenerRegistry { entries: Vec::new(), next_handle: 0 };
        assert(r@.entries =~= Seq::<RegistrationView>::empty());
        r
    }

    /// The number of active registrations.
    pub fn len(&self) -> (r: usize)
        ensures
            r == self@.entries.len(),
    {
        self.entries.len()
    }

    /// Whether `listener` is registered for `topic` with `sink_filter`.
    pub fn contains(&self, topic: &UUri, sink_filter: &Option<UUri>, listener: u64) -> (r: bool)
        ensures
            r == has_registration(self@.entries, topic@, opt_view(*sink_filter), listener),
    {
        let mut i: usize = 0;
        while i < self.entries.len()
            invariant
                i <= self.entries.len(),
                self@.entries == entries_view(self.entries@),
                forall|k: int|
                    0 <= k < i ==> !(#[trigger] self@.entries[k].topic == topic@
                        && self@.entries[k].sink_filter == opt_view(*sink_filter)
                        && self@.entries[k].listener == listener),
            decreases self.entries.len() - i,
        {
            let e = &self.entries[i];
            if e.listener == listener && e.topic.same_address(topic) && same_option(
                &e.sink_filter,
                sink_filter,
            ) {
                assert(self@.entries[i as int] == e@);
                assert(self@.entries[i as int].topic == topic@);
                return true;
            }
            i = i + 1;
        }
        false
    }

    /// Registers `listener` for `topic` with `sink_filter` and hands out a fresh
    /// handle. A listener already registered for the same topic and sink filter
    /// is refused with `AlreadyRegistered`; when the handles are used up, the
    /// call is refused with `Unavailable`. A refused call changes nothing.
    pub fn register(&mut self, topic: &UUri, sink_filter: &Option<UUri>, listener: u64) -> (r:
        Result<RegistrationHandle, TransportError>)
        requires
            old(self).wf(),
        ensures
            final(self).wf(),
            r == register_outcome(old(self)@, topic@, opt_view(*sink_filter), listener),
            r is Err ==> final(self)@ == old(self)@,
            r is Ok ==> final(self)@ == registered_state(
                old(self)@,
                topic@,
                opt_view(*sink_filter),
                listener,
            ),
    {
        if self.contains(topic, sink_filter, listener) {
            return Err(TransportError::AlreadyRegistered);
        }
        if self.next_handle == u64::MAX {
            return Err(TransportError::Unavailable);
        }
        let h = RegistrationHandle { value: self.next_handle };
        let reg = Registration {
            topic: topic.duplicate(),
            sink_filter: duplicate_option(sink_filter),
            listener,
            handle: h,
        };
        let ghost old_entries = self@.entries;
        self.entries.push(reg);
        self.next_handle = self.next_handle + 1;
        assert(self@.entries =~= old_entries.push(reg@));
        Ok(h)
    }

    /// The position of the registration with handle `h` for `topic` and
    /// `sink_filter`, if there is one.
    fn find_handle(&self, topic: &UUri, sink_filter: &Option<UUri>, h: RegistrationHandle) -> (r:
        Option<usize>)
        ensures
            r is None ==> !has_handle(self@.entries, topic@, opt_view(*sink_filter), h),
            r matches Some(i) ==> i < self@.entries.len() && self@.entries[i as int].handle == h
                && self@.entries[i as int].topic == topic@ && self@.entries[i as int].sink_filter
                == opt_view(*sink_filter),
    {
        let mut i: usize = 0;
        while i < self.entries.len()
            invariant
                i <= self.entries.len(),
                self@.entries == entries_view(self.entries@),
                forall|k: int|
                    0 <= k < i ==> !(#[trigger] self@.entries[k].handle == h
                        && self@.entries[k].topic == topic@ && self@.entries[k].sink_filter
                        == opt_view(*sink_filter)),
            decreases self.entries.len() - i,
        {
            let e = &self.entries[i];
            if e.handle == h && e.topic.same_address(topic) && same_option(
                &e.sink_filter,
                sink_filter,
            ) {
                assert(self@.entries[i as int] == e@);
                return Some(i);
            }
            i = i + 1;
        }
        None
    }

    /// Removes the registration with handle `h` for `topic` and `sink_filter`;
    /// where there is none, the call is refused with `NotFound` and changes
    /// nothing.
    pub fn unregister(&mut self, topic: &UUri, sink_filter: &Option<UUri>, h: RegistrationHandle) -> (r:
        Result<(), TransportError>)
        requires
            old(self).wf(),
        ensures
            final(self).wf(),
            r is Ok <==> has_handle(old(self)@.entries, topic@, opt_view(*sink_filter), h),
            r is Err ==> r == Err::<(), TransportError>(TransportError::NotFound) && final(self)@
                == old(self)@,
            r is Ok ==> final(self)@ == (RegistryView {
                entries: without_handle(old(self)@.entries, h),
                next_handle: old(self)@.next_handle,
            }),
    {
        match self.find_handle(topic, sink_filter, h) {
            None => Err(TransportError::NotFound),
            Some(i) => {
                let ghost old_entries = self@.entries;
                self.entries.remove(i);
                assert(self@.entries =~= old_entries.remove(i as int));
                proof {
                    lemma_remove_unique_handle(old_entries, i as int);
                }
                Ok(())
            },
        }
    }

    /// The dispatches of `m`: one for each registration that selects it, in the
    /// order of registration, each with its own copy of `m`.
    pub fn deliveries_for(&self, m: &UMessage) -> (r: Vec<Delivery>)
        ensures
            deliveries_view(r@) == deliveries(self@.entries, m@),
    {
        let mut out: Vec<Delivery> = Vec::new();
        let mut i: usize = 0;
        while i < self.entries.len()
            invariant
                i <= self.entries.len(),
                self@.entries == entries_view(self.entries@),
                deliveries_view(out@) == deliveries(self@.entries.subrange(0, i as int), m@),
            decreases self.entries.len() - i,
        {
            let e = &self.entries[i];
            let ghost prefix = self@.entries.subrange(0, i as int + 1);
            assert(prefix.drop_last() =~= self@.entries.subrange(0, i as int));
            assert(prefix.last() == e@);
            if e.matches_message(m) {
                let d = Delivery { listener: e.listener, handle: e.handle, message: m.duplicate() };
                let ghost before = out@;
                out.push(d);
                assert(deliveries_view(out@) =~= deliveries_view(before).push(d@));
            }
            i = i + 1;
        }
        assert(self@.entries.subrange(0, self.entries.len() as int) =~= self@.entries);
        out
    }
}

/// Without a registration holding `h`, removing `h` removes nothing.
proof fn lemma_without_absent_handle(regs: Seq<RegistrationView>, h: RegistrationHandle)
    requires
        forall|i: int| 0 <= i < regs.len() ==> (#[trigger] regs[i]).handle != h,
    ensures
        without_handle(regs, h) == regs,
    decreases regs.len(),
{
    if regs.len() > 0 {
        lemma_without_absent_handle(regs.drop_last(), h);
        assert(regs.drop_last().push(regs.last()) =~= regs);
    }
}

/// Where handles are unique, removing the registration at `i` is removing its
/// handle.
proof fn lemma_remove_unique_handle(regs: Seq<RegistrationView>, i: int)
    requires
        handles_unique(regs),
        0 <= i < regs.len(),
    ensures
        regs.remove(i) == without_handle(regs, regs[i].handle),
    decreases regs.len(),
{
    let h = regs[i].handle;
    let last = regs.len() - 1;
    if i == last {
        assert(regs.remove(i) =~= regs.drop_last());
        assert forall|k: int| 0 <= k < regs.drop_last().len() implies (
        #[trigger] regs.drop_last()[k]).handle != h by {
            assert(regs[k].handle != regs[i].handle);
        }
        lemma_without_absent_handle(regs.drop_last(), h);
    } else {
        assert(regs[last].handle != h);
        lemma_remove_unique_handle(regs.drop_last(), i);
        assert(regs.remove(i) =~= regs.drop_last().remove(i).push(regs.last()));
    }
}

} // verus!
