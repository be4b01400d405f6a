use eink::topic::{Event, EventListeners, Eventbus, Topic, TopicKey};

#[test]
fn topic_events_carry_its_key() {
    let topic: Topic<u32> = Topic::new(TopicKey::new("display".to_string()), Eventbus { name: "bus".to_string() });
    let e: Event<u32> = topic.create_event(7);
    assert_eq!(e.topic_key.name, "display");
    assert_eq!(e.message, 7);
    assert_eq!(topic.get_key().name, "display");
    assert_eq!(topic.get_bus().name, "bus");
    assert!(topic.get_listeners().ids.is_empty());
}

#[test]
fn topic_key_duplicate_is_equal() {
    let k = TopicKey::new("k".to_string());
    assert_eq!(k.duplicate().name, "k");
    let l: EventListeners<String> = EventListeners::new();
    assert!(l.ids.is_empty());
    let e = Event::new(k, "m".to_string());
    assert_eq!(e.message, "m");
}
