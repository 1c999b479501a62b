use message_proxy::broker::{Broker, BrokerBuilder, BrokerMessage, Routable, BUFFER_SIZE};
use message_proxy::channel::Polled;

fn registry(depth: usize) -> Broker<BrokerMessage> {
    BrokerBuilder::default().buffer_size(depth).build::<BrokerMessage>()
}

fn message(origin: &str, payload: &str) -> BrokerMessage {
    BrokerMessage { connection_id: origin.to_string(), payload: payload.to_string() }
}

#[test]
fn default_depth_is_one_hundred() {
    assert_eq!(BUFFER_SIZE, 100);
    let broker = BrokerBuilder::default().build::<BrokerMessage>();
    assert_eq!(broker.buffer_depth(), 100);
    assert_eq!(broker.topic_count(), 0);
}

#[test]
fn buffer_size_sets_the_depth() {
    let broker = BrokerBuilder::default().buffer_size(7).build::<BrokerMessage>();
    assert_eq!(broker.buffer_depth(), 7);
    let broker = BrokerBuilder::default().buffer_size(7).buffer_size(3).build::<BrokerMessage>();
    assert_eq!(broker.buffer_depth(), 3);
}

#[test]
fn only_depths_that_a_channel_takes_are_buildable() {
    assert!(BrokerBuilder::default().is_buildable());
    assert!(!BrokerBuilder::default().buffer_size(0).is_buildable());
    assert!(BrokerBuilder::default().buffer_size(1).is_buildable());
    assert!(BrokerBuilder::default().buffer_size(usize::MAX / 2).is_buildable());
    assert!(!BrokerBuilder::default().buffer_size(usize::MAX / 2 + 1).is_buildable());
    assert!(!BrokerBuilder::default().buffer_size(usize::MAX).is_buildable());
}

#[test]
fn envelope_key_is_its_origin() {
    let envelope = message("17", "hello");
    assert_eq!(envelope.key(), "17");
    assert_eq!(envelope.payload, "hello");
}

#[test]
fn first_registration_creates_the_topic() {
    let mut broker = registry(4);
    let topic = "t1".to_string();
    assert!(!broker.has_topic(&topic));
    let (publisher, subscription) = broker.register(topic.clone());
    assert!(broker.has_topic(&topic));
    assert_eq!(broker.topic_count(), 1);
    assert_eq!(subscription.topic(), "t1");
    assert_eq!(publisher.receiver_count(), 1);
    assert_eq!(broker.buffer_depth(), 4);
}

#[test]
fn same_topic_shares_one_channel() {
    let mut broker = registry(4);
    let (first, mut first_subscription) = broker.register("t1".to_string());
    let (second, mut second_subscription) = broker.register("t1".to_string());
    assert!(first.same_channel(&second));
    assert_eq!(broker.topic_count(), 1);
    assert_eq!(first.receiver_count(), 2);
    assert_eq!(second.send(message("2", "shared")).ok(), Some(2));
    assert_eq!(first_subscription.try_receive(), Polled::Message(message("2", "shared")));
    assert_eq!(second_subscription.try_receive(), Polled::Message(message("2", "shared")));
}

#[test]
fn different_topics_do_not_cross() {
    let mut broker = registry(4);
    let (first, mut first_subscription) = broker.register("t1".to_string());
    let (second, mut second_subscription) = broker.register("t2".to_string());
    assert!(!first.same_channel(&second));
    assert_eq!(broker.topic_count(), 2);
    assert!(first.send(message("1", "for t1")).is_ok());
    assert_eq!(second_subscription.try_receive(), Polled::Empty);
    assert_eq!(first_subscription.try_receive(), Polled::Message(message("1", "for t1")));
    assert_eq!(first_subscription.try_receive(), Polled::Empty);
    assert!(second.send(message("2", "for t2")).is_ok());
    assert_eq!(first_subscription.try_receive(), Polled::Empty);
    assert_eq!(second_subscription.try_receive(), Polled::Message(message("2", "for t2")));
}

#[test]
fn subscription_sees_only_what_is_sent_after_it_joined() {
    let mut broker = registry(4);
    let (publisher, mut early) = broker.register("t1".to_string());
    assert!(publisher.send(message("1", "before")).is_ok());
    let (_, mut late) = broker.register("t1".to_string());
    assert!(publisher.send(message("1", "after")).is_ok());
    assert_eq!(early.try_receive(), Polled::Message(message("1", "before")));
    assert_eq!(early.try_receive(), Polled::Message(message("1", "after")));
    assert_eq!(late.try_receive(), Polled::Message(message("1", "after")));
    assert_eq!(late.try_receive(), Polled::Empty);
}

#[test]
fn subscribers_agree_on_the_publish_order() {
    let mut broker = registry(8);
    let (first, mut first_subscription) = broker.register("t1".to_string());
    let (second, mut second_subscription) = broker.register("t1".to_string());
    assert!(first.send(message("1", "a")).is_ok());
    assert!(second.send(message("2", "b")).is_ok());
    assert!(first.send(message("1", "c")).is_ok());
    for subscription in [&mut first_subscription, &mut second_subscription] {
        assert_eq!(subscription.try_receive(), Polled::Message(message("1", "a")));
        assert_eq!(subscription.try_receive(), Polled::Message(message("2", "b")));
        assert_eq!(subscription.try_receive(), Polled::Message(message("1", "c")));
        assert_eq!(subscription.try_receive(), Polled::Empty);
    }
}

#[test]
fn last_disposal_removes_the_topic() {
    let mut broker = registry(4);
    let topic = "t1".to_string();
    let (_publisher, first) = broker.register(topic.clone());
    let (_, second) = broker.register(topic.clone());
    broker.dispose(first);
    assert!(broker.has_topic(&topic));
    assert_eq!(broker.topic_count(), 1);
    broker.dispose(second);
    assert!(!broker.has_topic(&topic));
    assert_eq!(broker.topic_count(), 0);
}

#[test]
fn disposal_leaves_other_topics_alone() {
    let mut broker = registry(4);
    let (_, first) = broker.register("t1".to_string());
    let (_, _second) = broker.register("t2".to_string());
    broker.dispose(first);
    assert!(!broker.has_topic(&"t1".to_string()));
    assert!(broker.has_topic(&"t2".to_string()));
    assert_eq!(broker.topic_count(), 1);
}

#[test]
fn registration_after_removal_gets_a_fresh_channel_without_replay() {
    let mut broker = registry(4);
    let topic = "t1".to_string();
    let (old_publisher, old_subscription) = broker.register(topic.clone());
    assert!(old_publisher.send(message("1", "old")).is_ok());
    broker.dispose(old_subscription);
    assert!(!broker.has_topic(&topic));
    let (new_publisher, mut new_subscription) = broker.register(topic.clone());
    assert!(broker.has_topic(&topic));
    assert!(!new_publisher.same_channel(&old_publisher));
    assert_eq!(new_subscription.try_receive(), Polled::Empty);
    assert!(new_publisher.send(message("2", "new")).is_ok());
    assert_eq!(new_subscription.try_receive(), Polled::Message(message("2", "new")));
    assert_eq!(new_subscription.try_receive(), Polled::Empty);
}

#[test]
fn deregister_keeps_a_topic_with_a_live_consumer() {
    let mut broker = registry(4);
    let topic = "t1".to_string();
    let (_publisher, _subscription) = broker.register(topic.clone());
    broker.deregister(&topic);
    assert!(broker.has_topic(&topic));
}

#[test]
fn deregister_removes_a_topic_without_consumers() {
    let mut broker = registry(4);
    let topic = "t1".to_string();
    let (publisher, subscription) = broker.register(topic.clone());
    drop(subscription);
    assert_eq!(publisher.receiver_count(), 0);
    broker.deregister(&topic);
    assert!(!broker.has_topic(&topic));
}

#[test]
fn deregister_of_an_unknown_topic_changes_nothing() {
    let mut broker = registry(4);
    let (_publisher, _subscription) = broker.register("t1".to_string());
    broker.deregister(&"t2".to_string());
    assert!(broker.has_topic(&"t1".to_string()));
    assert_eq!(broker.topic_count(), 1);
}

#[test]
fn settle_removes_only_on_a_count_of_zero() {
    let mut broker = registry(4);
    let topic = "t1".to_string();
    let (_publisher, _subscription) = broker.register(topic.clone());
    broker.settle(&topic, 3);
    assert!(broker.has_topic(&topic));
    broker.settle(&topic, 1);
    assert!(broker.has_topic(&topic));
    broker.settle(&topic, 0);
    assert!(!broker.has_topic(&topic));
    broker.settle(&topic, 0);
    assert_eq!(broker.topic_count(), 0);
}

#[test]
fn disposal_then_registration_leaves_a_fresh_entry() {
    let mut broker = registry(4);
    let topic = "t1".to_string();
    let (old_publisher, last) = broker.register(topic.clone());
    broker.dispose(last);
    let (new_publisher, _newcomer) = broker.register(topic.clone());
    assert!(broker.has_topic(&topic));
    assert!(!new_publisher.same_channel(&old_publisher));
    assert_eq!(new_publisher.receiver_count(), 1);
}

#[test]
fn registration_then_disposal_keeps_the_entry() {
    let mut broker = registry(4);
    let topic = "t1".to_string();
    let (old_publisher, last) = broker.register(topic.clone());
    let (new_publisher, mut newcomer) = broker.register(topic.clone());
    broker.dispose(last);
    assert!(broker.has_topic(&topic));
    assert!(new_publisher.same_channel(&old_publisher));
    assert!(new_publisher.send(message("1", "still here")).is_ok());
    assert_eq!(newcomer.try_receive(), Polled::Message(message("1", "still here")));
    broker.dispose(newcomer);
    assert!(!broker.has_topic(&topic));
}

#[test]
fn lagging_subscriber_is_told_how_much_it_missed() {
    let mut broker = registry(2);
    let (publisher, mut slow) = broker.register("t1".to_string());
    for payload in ["m1", "m2", "m3", "m4", "m5"] {
        assert!(publisher.send(message("9", payload)).is_ok());
    }
    match slow.try_receive() {
        Polled::Lagged(missed) => {
            assert!(missed >= 3);
            assert_eq!(missed, 3);
        },
        other => panic!("expected a lag, found {:?}", other),
    }
    assert_eq!(slow.try_receive(), Polled::Message(message("9", "m4")));
    assert_eq!(slow.try_receive(), Polled::Message(message("9", "m5")));
    assert_eq!(slow.try_receive(), Polled::Empty);
}

#[test]
fn slow_subscriber_does_not_hold_back_a_fast_one() {
    let mut broker = registry(2);
    let (publisher, mut slow) = broker.register("t1".to_string());
    let (_, mut fast) = broker.register("t1".to_string());
    for payload in ["m1", "m2", "m3", "m4", "m5"] {
        assert_eq!(publisher.send(message("9", payload)).ok(), Some(2));
        assert_eq!(fast.try_receive(), Polled::Message(message("9", payload)));
    }
    assert_eq!(fast.try_receive(), Polled::Empty);
    assert_eq!(slow.try_receive(), Polled::Lagged(3));
}

#[test]
fn subscription_reports_closed_when_no_publisher_is_left() {
    let mut broker = registry(4);
    let topic = "t1".to_string();
    let (publisher, mut subscription) = broker.register(topic.clone());
    assert!(publisher.send(message("1", "last words")).is_ok());
    drop(publisher);
    broker.settle(&topic, 0);
    assert_eq!(subscription.try_receive(), Polled::Message(message("1", "last words")));
    assert_eq!(subscription.try_receive(), Polled::Closed);
}

#[test]
fn publish_without_any_subscriber_is_refused_by_the_channel() {
    let mut broker = registry(4);
    let topic = "t1".to_string();
    let (publisher, subscription) = broker.register(topic.clone());
    broker.dispose(subscription);
    let refused = publisher.send(message("1", "nobody"));
    assert_eq!(refused.err().map(|error| error.0), Some(message("1", "nobody")));
}
