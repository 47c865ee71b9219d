use worker_channel::control::{deserialize_message, ChannelMessage};
use worker_channel::rtp_observer::{ProducerId, RtpObserverAddProducerOptions};
use worker_channel::subscriptions::SubscriptionRegistry;

#[test]
fn notification_dispatch_hits_the_subscriber_once() {
    let mut reg = SubscriptionRegistry::new();
    let handle = reg.subscribe("R1".to_string());
    assert_eq!(handle.target_id, "R1");
    // One notification for the target hits exactly that slot.
    assert_eq!(reg.dispatch_targets(&"R1".to_string()), vec![handle.index]);
    // Another target hits nothing.
    assert_eq!(reg.dispatch_targets(&"R2".to_string()), Vec::<usize>::new());
}

#[test]
fn dispatch_keeps_insertion_order() {
    let mut reg = SubscriptionRegistry::new();
    let first = reg.subscribe("T".to_string());
    let other = reg.subscribe("other".to_string());
    let second = reg.subscribe("T".to_string());
    let third = reg.subscribe("T".to_string());
    assert_eq!(
        reg.dispatch_targets(&"T".to_string()),
        vec![first.index, second.index, third.index]
    );
    assert_eq!(reg.dispatch_targets(&"other".to_string()), vec![other.index]);
}

#[test]
fn released_handle_is_never_hit_again() {
    let mut reg = SubscriptionRegistry::new();
    let first = reg.subscribe("T".to_string());
    let second = reg.subscribe("T".to_string());
    reg.unsubscribe(&first);
    // The released slot is gone; the other keeps its place.
    assert_eq!(reg.dispatch_targets(&"T".to_string()), vec![second.index]);
    reg.unsubscribe(&second);
    assert_eq!(reg.dispatch_targets(&"T".to_string()), Vec::<usize>::new());
    // Subscribing again after releases starts delivery afresh.
    let third = reg.subscribe("T".to_string());
    assert_eq!(reg.dispatch_targets(&"T".to_string()), vec![third.index]);
}

#[test]
fn control_lane_classifies_by_command_byte() {
    assert_eq!(
        deserialize_message(b'{', br#""id":1}"#.to_vec()),
        ChannelMessage::Json(br#""id":1}"#.to_vec())
    );
    assert_eq!(
        deserialize_message(b'D', b"debug line".to_vec()),
        ChannelMessage::Debug(b"debug line".to_vec())
    );
    assert_eq!(
        deserialize_message(b'W', b"warn line".to_vec()),
        ChannelMessage::Warn(b"warn line".to_vec())
    );
    assert_eq!(
        deserialize_message(b'E', b"error line".to_vec()),
        ChannelMessage::Error(b"error line".to_vec())
    );
    assert_eq!(
        deserialize_message(b'X', b"dump line".to_vec()),
        ChannelMessage::Dump(b"dump line".to_vec())
    );
    assert_eq!(
        deserialize_message(b'?', vec![1, 2]),
        ChannelMessage::Unknown {
            command: b'?',
            data: vec![1, 2]
        }
    );
}

#[test]
fn add_producer_options_carry_the_id() {
    let id = ProducerId(0x1234_5678_9abc_def0_1122_3344_5566_7788);
    let options = RtpObserverAddProducerOptions::new(id);
    assert_eq!(options.producer_id, id);
}
