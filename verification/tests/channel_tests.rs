use tread_test::channel::child_message;
use tread_test::channel::message_passing_round_trip;
use tread_test::channel::round_trip;
use tread_test::channel::ChannelClosed;
use tread_test::channel::OneShotChannel;

const MESSAGE: &str = "I was created in the child thread, will be sent to main thread";

#[test]
fn single_message_round_trip() {
    let mut channel = OneShotChannel::new();
    channel.send(String::from(MESSAGE));
    channel.drop_sender();
    let received = channel.recv().unwrap();
    assert_eq!(received, MESSAGE);
    assert_eq!(received.as_bytes(), MESSAGE.as_bytes());
}

#[test]
fn round_trip_keeps_any_value_unchanged() {
    assert_eq!(round_trip(String::from("")), "");
    assert_eq!(round_trip(String::from("one value")), "one value");
}

#[test]
fn message_passing_yields_the_child_message() {
    assert_eq!(child_message(), MESSAGE);
    assert_eq!(message_passing_round_trip(), MESSAGE);
}

#[test]
fn fatal_propagation_when_closed_without_send() {
    let mut channel = OneShotChannel::new();
    channel.drop_sender();
    assert!(matches!(channel.recv(), Err(ChannelClosed)));
}

#[test]
fn value_sent_before_close_is_still_received() {
    let mut channel = OneShotChannel::new();
    channel.send(String::from("still here"));
    channel.drop_sender();
    assert_eq!(channel.recv().unwrap(), "still here");
    // The single value was consumed; nothing further can arrive.
    assert!(matches!(channel.recv(), Err(ChannelClosed)));
}
