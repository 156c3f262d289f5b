use up_local::{
    LocalTransport, MessageId, MessageType, NotificationError, PayloadFormat, PublishError,
    RegistrationHandle, SimpleNotifier, SimplePublisher, StaticUriProvider, TransportError,
    UMessage, UPayload, UUri,
};

fn uri(authority: &str, entity_id: u32, version: u8, resource_id: u16) -> UUri {
    UUri::new(authority.to_string(), entity_id, version, resource_id)
}

fn publish_msg(source: &UUri, payload: Option<UPayload>) -> UMessage {
    UMessage::publish(MessageId { msb: 1, lsb: 2 }, source.duplicate(), payload)
}

#[test]
fn resource_uri_holds_entity_and_resource() {
    let p = StaticUriProvider::new("veh-1".to_string(), 0x1001, 1);
    let u = p.get_resource_uri(0xB4C1);
    assert_eq!(u.authority, "veh-1");
    assert_eq!(u.entity_id, 0x1001);
    assert_eq!(u.entity_version, 1);
    assert_eq!(u.resource_id, 0xB4C1);
    assert_eq!(p.get_source_uri().resource_id, 0);
    assert!(u == uri("veh-1", 0x1001, 1, 0xB4C1));
    assert!(u != uri("veh-2", 0x1001, 1, 0xB4C1));
    assert!(!u.same_address(&uri("veh-1", 0x1001, 2, 0xB4C1)));
}

#[test]
fn text_payload_round_trip() {
    let p = UPayload::from_string("hello".to_string()).unwrap();
    assert_eq!(p.format, PayloadFormat::ProtobufWrappedInAny);
    assert_ne!(p.data, b"hello".to_vec());
    assert!(!p.data.is_empty());
    assert_eq!(p.extract_string(), Some("hello".to_string()));
}

#[test]
fn empty_text_payload_round_trip() {
    let p = UPayload::from_string(String::new()).unwrap();
    assert_eq!(p.extract_string(), Some(String::new()));
}

#[test]
fn bytes_payload_holds_no_text() {
    let p = UPayload::from_bytes(vec![72, 101, 108, 108, 111]);
    assert_eq!(p.format, PayloadFormat::Raw);
    assert_eq!(p.data, vec![72, 101, 108, 108, 111]);
    assert_eq!(p.extract_string(), None);
}

#[test]
fn message_without_payload_holds_no_text() {
    let m = publish_msg(&uri("a", 1, 1, 1), None);
    assert_eq!(m.extract_string(), None);
}

#[test]
fn send_reaches_registered_listener_once() {
    let mut t = LocalTransport::new();
    let topic = uri("veh-1", 0x1001, 1, 0x8001);
    let h = t.register_listener(&topic, &None, 11).unwrap();
    let m = UMessage::publish(
        MessageId { msb: 0x17000, lsb: 0x8000_0000_0000_0001 },
        topic.duplicate(),
        Some(UPayload::from_string("x".to_string()).unwrap()),
    );
    let ds = t.send(m).unwrap();
    assert_eq!(ds.len(), 1);
    assert_eq!(ds[0].listener, 11);
    assert_eq!(ds[0].handle, h);
    assert_eq!(ds[0].message.id, MessageId { msb: 0x17000, lsb: 0x8000_0000_0000_0001 });
    assert!(ds[0].message.source.as_ref().unwrap() == &topic);
    assert_eq!(ds[0].message.extract_string(), Some("x".to_string()));
}

#[test]
fn send_to_other_topic_reaches_nobody() {
    let mut t = LocalTransport::new();
    t.register_listener(&uri("a", 1, 1, 1), &None, 1).unwrap();
    let ds = t.send(publish_msg(&uri("a", 1, 1, 2), None)).unwrap();
    assert!(ds.is_empty());
}

#[test]
fn unregistered_listener_receives_nothing() {
    let mut t = LocalTransport::new();
    let topic = uri("a", 1, 1, 1);
    let h = t.register_listener(&topic, &None, 5).unwrap();
    assert_eq!(t.unregister_listener(&topic, &None, h), Ok(()));
    let ds = t.send(publish_msg(&topic, None)).unwrap();
    assert!(ds.is_empty());
}

#[test]
fn two_listeners_on_one_topic_both_receive() {
    let mut t = LocalTransport::new();
    let topic = uri("a", 1, 1, 1);
    t.register_listener(&topic, &None, 1).unwrap();
    t.register_listener(&topic, &None, 2).unwrap();
    for _ in 0..3 {
        let ds = t.send(publish_msg(&topic, None)).unwrap();
        let ids: Vec<u64> = ds.iter().map(|d| d.listener).collect();
        assert_eq!(ids, vec![1, 2]);
    }
}

#[test]
fn each_dispatch_owns_its_message() {
    let mut t = LocalTransport::new();
    let topic = uri("a", 1, 1, 1);
    t.register_listener(&topic, &None, 1).unwrap();
    t.register_listener(&topic, &None, 2).unwrap();
    let mut ds = t.send(publish_msg(&topic, Some(UPayload::from_bytes(vec![1, 2])))).unwrap();
    // One listener spoiling its copy leaves the other's intact.
    ds[0].message.payload = None;
    ds[0].message.source = None;
    assert_eq!(ds[1].message.payload.as_ref().unwrap().data, vec![1, 2]);
    assert!(ds[1].message.source.as_ref().unwrap() == &topic);
}

#[test]
fn registering_twice_is_refused() {
    let mut t = LocalTransport::new();
    let topic = uri("a", 1, 1, 1);
    t.register_listener(&topic, &None, 9).unwrap();
    assert_eq!(t.register_listener(&topic, &None, 9), Err(TransportError::AlreadyRegistered));
    assert_eq!(t.send(publish_msg(&topic, None)).unwrap().len(), 1);
    // Another sink filter is another registration.
    assert!(t.register_listener(&topic, &Some(uri("b", 2, 1, 0)), 9).is_ok());
}

#[test]
fn handles_are_fresh() {
    let mut t = LocalTransport::new();
    let h0 = t.register_listener(&uri("a", 1, 1, 1), &None, 1).unwrap();
    let h1 = t.register_listener(&uri("a", 1, 1, 2), &None, 1).unwrap();
    assert_eq!(h0, RegistrationHandle { value: 0 });
    assert_eq!(h1, RegistrationHandle { value: 1 });
}

#[test]
fn unregister_unknown_is_not_found() {
    let mut t = LocalTransport::new();
    let topic = uri("a", 1, 1, 1);
    let h = t.register_listener(&topic, &None, 1).unwrap();
    assert_eq!(
        t.unregister_listener(&topic, &None, RegistrationHandle { value: 77 }),
        Err(TransportError::NotFound)
    );
    assert_eq!(t.unregister_listener(&uri("a", 1, 1, 2), &None, h), Err(TransportError::NotFound));
    assert_eq!(t.unregister_listener(&topic, &None, h), Ok(()));
    assert_eq!(t.unregister_listener(&topic, &None, h), Err(TransportError::NotFound));
}

#[test]
fn message_without_source_is_invalid() {
    let t = LocalTransport::new();
    let m = UMessage {
        id: MessageId { msb: 0, lsb: 0 },
        kind: MessageType::Publish,
        source: None,
        sink: None,
        payload: None,
    };
    assert!(matches!(t.send(m), Err(TransportError::InvalidMessage)));
}

#[test]
fn closed_transport_is_unavailable() {
    let mut t = LocalTransport::new();
    let topic = uri("a", 1, 1, 1);
    t.register_listener(&topic, &None, 1).unwrap();
    assert!(t.is_open());
    t.close();
    assert!(!t.is_open());
    assert!(matches!(t.send(publish_msg(&topic, None)), Err(TransportError::Unavailable)));
}

#[test]
fn sink_filter_selects_by_sink() {
    let mut t = LocalTransport::new();
    let topic = uri("a", 1, 1, 0x8000);
    let me = uri("me", 3, 1, 0);
    t.register_listener(&topic, &Some(me.duplicate()), 1).unwrap();
    t.register_listener(&topic, &None, 2).unwrap();
    let to_me = UMessage::notification(MessageId { msb: 0, lsb: 0 }, topic.duplicate(), me.duplicate(), None);
    let ids: Vec<u64> = t.send(to_me).unwrap().iter().map(|d| d.listener).collect();
    assert_eq!(ids, vec![1, 2]);
    let to_other = UMessage::notification(
        MessageId { msb: 0, lsb: 0 },
        topic.duplicate(),
        uri("other", 4, 1, 0),
        None,
    );
    let ids: Vec<u64> = t.send(to_other).unwrap().iter().map(|d| d.listener).collect();
    assert_eq!(ids, vec![2]);
    let ids: Vec<u64> = t.send(publish_msg(&topic, None)).unwrap().iter().map(|d| d.listener).collect();
    assert_eq!(ids, vec![2]);
}

#[test]
fn publish_ping_reaches_listener() {
    let provider = StaticUriProvider::new("veh-1".to_string(), 0x1001, 1);
    let mut t = LocalTransport::new();
    t.register_listener(&provider.get_resource_uri(0xB4C1), &None, 42).unwrap();
    let publisher = SimplePublisher::new(provider);
    let ds = publisher
        .publish(&t, 0xB4C1, Some(UPayload::from_string("ping".to_string()).unwrap()))
        .unwrap();
    assert_eq!(ds.len(), 1);
    assert_eq!(ds[0].listener, 42);
    assert_eq!(ds[0].message.kind, MessageType::Publish);
    assert!(ds[0].message.sink.is_none());
    assert_eq!(ds[0].message.extract_string(), Some("ping".to_string()));
}

#[test]
fn publish_uses_fresh_uprotocol_ids() {
    let provider = StaticUriProvider::new("veh-1".to_string(), 0x1001, 1);
    let mut t = LocalTransport::new();
    t.register_listener(&provider.get_resource_uri(1), &None, 1).unwrap();
    let publisher = SimplePublisher::new(provider);
    let a = publisher.publish(&t, 1, None).unwrap();
    let b = publisher.publish(&t, 1, None).unwrap();
    for id in [a[0].message.id, b[0].message.id] {
        assert_eq!(id.msb & 0xf000, 0x7000);
        assert_eq!(id.lsb >> 62, 0b10);
    }
    assert_ne!(a[0].message.id, b[0].message.id);
}

#[test]
fn publish_with_id_keeps_id() {
    let provider = StaticUriProvider::new("d".to_string(), 0x1234, 1);
    let mut t = LocalTransport::new();
    t.register_listener(&provider.get_resource_uri(7), &None, 1).unwrap();
    let publisher = SimplePublisher::new(provider);
    let ds = publisher.publish_with_id(&t, MessageId { msb: 5, lsb: 6 }, 7, None).unwrap();
    assert_eq!(ds[0].message.id, MessageId { msb: 5, lsb: 6 });
}

#[test]
fn publish_on_closed_transport_fails() {
    let provider = StaticUriProvider::new("d".to_string(), 0x1234, 1);
    let mut t = LocalTransport::new();
    t.close();
    let publisher = SimplePublisher::new(provider);
    assert!(matches!(
        publisher.publish(&t, 1, None),
        Err(PublishError::Transport(TransportError::Unavailable))
    ));
}

#[test]
fn notification_reaches_listening_entity() {
    let mut t = LocalTransport::new();
    let listener_side = SimpleNotifier::new(StaticUriProvider::new("veh-1".to_string(), 0xa34b, 1));
    let mut listener_side = listener_side;
    let sender = SimpleNotifier::new(StaticUriProvider::new("veh-1".to_string(), 0xb000, 1));
    let topic = uri("veh-1", 0xb000, 1, 0xd100);
    assert_eq!(listener_side.start_listening(&mut t, &topic, 3), Ok(()));
    assert!(listener_side.is_listening(&topic));
    let ds = sender.notify(&t, 0xd100, &topic, None).unwrap();
    assert_eq!(ds.len(), 1);
    assert_eq!(ds[0].listener, 3);
    assert_eq!(ds[0].message.kind, MessageType::Notification);
    assert!(ds[0].message.sink.as_ref().unwrap() == &topic);
    assert!(ds[0].message.payload.is_none());
    assert_eq!(ds[0].message.extract_string(), None);
}

#[test]
fn notifier_listens_once_per_topic() {
    let mut t = LocalTransport::new();
    let mut n = SimpleNotifier::new(StaticUriProvider::new("v".to_string(), 1, 1));
    let topic = uri("v", 2, 1, 0xd100);
    assert_eq!(n.start_listening(&mut t, &topic, 1), Ok(()));
    assert_eq!(n.start_listening(&mut t, &topic, 2), Err(NotificationError::AlreadyListening));
    assert_eq!(t.send(publish_msg(&topic, None)).unwrap().len(), 1);
}

#[test]
fn stop_listening_removes_registration() {
    let mut t = LocalTransport::new();
    let mut n = SimpleNotifier::new(StaticUriProvider::new("v".to_string(), 1, 1));
    let topic = uri("v", 2, 1, 0xd100);
    n.start_listening(&mut t, &topic, 1).unwrap();
    assert_eq!(n.stop_listening(&mut t, &topic, 2), Err(NotificationError::NoListener));
    assert_eq!(n.stop_listening(&mut t, &topic, 1), Ok(()));
    assert!(!n.is_listening(&topic));
    assert!(t.send(publish_msg(&topic, None)).unwrap().is_empty());
    assert_eq!(n.stop_listening(&mut t, &topic, 1), Err(NotificationError::NoListener));
    // The topic can be listened on again.
    assert_eq!(n.start_listening(&mut t, &topic, 1), Ok(()));
}

#[test]
fn stop_listening_after_transport_removal_reports_not_found() {
    let mut t = LocalTransport::new();
    let mut n = SimpleNotifier::new(StaticUriProvider::new("v".to_string(), 1, 1));
    let topic = uri("v", 2, 1, 0xd100);
    n.start_listening(&mut t, &topic, 1).unwrap();
    t.unregister_listener(&topic, &None, RegistrationHandle { value: 0 }).unwrap();
    assert_eq!(
        n.stop_listening(&mut t, &topic, 1),
        Err(NotificationError::Transport(TransportError::NotFound))
    );
    assert!(n.is_listening(&topic));
}

#[test]
fn start_listening_wraps_transport_refusal() {
    let mut t = LocalTransport::new();
    let topic = uri("v", 2, 1, 0xd100);
    t.register_listener(&topic, &None, 1).unwrap();
    let mut n = SimpleNotifier::new(StaticUriProvider::new("v".to_string(), 1, 1));
    assert_eq!(
        n.start_listening(&mut t, &topic, 1),
        Err(NotificationError::Transport(TransportError::AlreadyRegistered))
    );
    assert!(!n.is_listening(&topic));
}

#[test]
fn hundred_sends_ten_listeners_thousand_dispatches() {
    let mut t = LocalTransport::new();
    let topic = uri("a", 1, 1, 1);
    for l in 0..10u64 {
        t.register_listener(&topic, &None, l).unwrap();
    }
    let mut per_listener = [0u32; 10];
    let mut total = 0u32;
    for i in 0..100u16 {
        // Registration churn on unrelated topics between sends.
        let other = uri("b", 2, 1, i);
        let h = t.register_listener(&other, &None, 99).unwrap();
        for d in t.send(publish_msg(&topic, None)).unwrap() {
            per_listener[d.listener as usize] += 1;
            total += 1;
        }
        if i % 2 == 0 {
            t.unregister_listener(&other, &None, h).unwrap();
        }
    }
    assert_eq!(total, 1000);
    assert!(per_listener.iter().all(|&c| c == 100));
}

#[test]
fn errors_describe_their_cause() {
    assert_eq!(
        TransportError::InvalidMessage.describe(),
        "invalid message: the source address is missing"
    );
    assert_eq!(TransportError::NotFound.describe(), "not found: no such registration is active");
    assert_eq!(
        PublishError::Transport(TransportError::Unavailable).describe(),
        "publish failed: unavailable: the transport cannot accept the call"
    );
    assert_eq!(
        NotificationError::NoListener.describe(),
        "no listener: this notifier has no such listener on the topic"
    );
    assert_eq!(
        NotificationError::Transport(TransportError::AlreadyRegistered).describe(),
        "notification failed: already registered: the listener already holds this topic and sink filter"
    );
}

#[test]
fn long_text_payload_encodes() {
    let text = "x".repeat(100_000);
    let p = UPayload::from_string(text.clone()).unwrap();
    assert_eq!(p.extract_string(), Some(text));
}
