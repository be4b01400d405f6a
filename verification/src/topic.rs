//! Topics of the event bus: a topic names its key, its bus and its listeners,
//! and turns messages into events addressed to its key.
use vstd::prelude::*;

verus! {

/// The key that identifies a topic on the event bus.
pub struct TopicKey {
    pub name: String,
}

impl TopicKey {
    /// A key with the given name.
    pub fn new(name: String) -> (k: TopicKey)
        ensures
            k.name@ == name@,
    {
        TopicKey { name }
    }

    /// A copy of this key.
    pub fn duplicate(&self) -> (k: TopicKey)
        ensures
            k.name@ == self.name@,
    {
        TopicKey { name: self.name.clone() }
    }
}

/// The event bus a topic belongs to, identified by name.
pub struct Eventbus {
    pub name: String,
}

/// The listeners subscribed to a topic carrying messages of type `T`,
/// identified by their subscription numbers.
pub struct EventListeners<T> {
    pub ids: Vec<u64>,
    pub marker: std::marker::PhantomData<T>,
}

impl<T> EventListeners<T> {
    /// No listeners.
    pub fn new() -> (l: EventListeners<T>)
        ensures
            l.ids@ == Seq::<u64>::empty(),
    {
        EventListeners { ids: Vec::new(), marker: std::marker::PhantomData }
    }
}

/// A message addressed to a topic.
pub struct Event<T> {
    pub topic_key: TopicKey,
    pub message: T,
}

impl<T> Event<T> {
    /// An event carrying `message` to the topic with key `topic_key`.
    pub fn new(topic_key: TopicKey, message: T) -> (e: Event<T>)
        ensures
            e.topic_key.name@ == topic_key.name@,
            e.message == message,
    {
        Event { topic_key, message }
    }
}

/// A topic of the event bus for messages of type `T`.
pub struct Topic<T> {
    pub key: TopicKey,
    pub bus: Eventbus,
    pub event_listeners: EventListeners<T>,
}

impl<T> Topic<T> {
    /// A topic with its key and bus, without listeners.
    pub fn new(key: TopicKey, bus: Eventbus) -> (t: Topic<T>)
        ensures
            t.key.name@ == key.name@,
            t.bus.name@ == bus.name@,
            t.event_listeners.ids@ == Seq::<u64>::empty(),
    {
        Topic { key, bus, event_listeners: EventListeners::new() }
    }

    /// An event carrying `message` to this topic.
    pub fn create_event(&self, message: T) -> (e: Event<T>)
        ensures
            e.topic_key.name@ == self.key.name@,
            e.message == message,
    {
        Event::new(self.key.duplicate(), message)
    }

    /// The key of this topic.
    pub fn get_key(&self) -> (k: &TopicKey)
        ensures
            *k == self.key,
    {
        &self.key
    }

    /// The bus of this topic.
    pub fn get_bus(&self) -> (b: &Eventbus)
        ensures
            *b == self.bus,
    {
        &self.bus
    }

    /// The listeners subscribed to this topic.
    pub fn get_listeners(&self) -> (l: &EventListeners<T>)
        ensures
            *l == self.event_listeners,
    {
        &self.event_listeners
    }
}

} // verus!
