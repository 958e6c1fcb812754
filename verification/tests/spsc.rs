use fika::spsc::{Channel, Receiver, Sender};

#[test]
fn capacity_one_works() {
    let mut channel = Channel::<i32, 1>::new();
    let (sender, receiver) = channel.split();

    let value = 42;
    assert_eq!(None, receiver.recv(&mut channel));
    assert_eq!(Ok(()), sender.send(&mut channel, value));
    assert_eq!(Err(value), sender.send(&mut channel, value));
    assert_eq!(Some(value), receiver.recv(&mut channel));
    assert_eq!(None, receiver.recv(&mut channel));
}

#[test]
fn fifo_order() {
    let mut channel = Channel::<i32, 2>::new();
    let (sender, receiver) = channel.split();

    let value1 = 42;
    let value2 = 24;
    assert_eq!(Ok(()), sender.send(&mut channel, value1));
    assert_eq!(Ok(()), sender.send(&mut channel, value2));

    assert_eq!(Some(value1), receiver.recv(&mut channel));
    assert_eq!(Some(value2), receiver.recv(&mut channel));
}

#[test]
fn works_with_non_power_of_two() {
    let mut channel = Channel::<i32, 3>::new();
    let (sender, receiver) = channel.split();

    let value1 = 42;
    let value2 = 24;
    let value3 = 123;

    assert_eq!(None, receiver.recv(&mut channel));

    assert_eq!(Ok(()), sender.send(&mut channel, value1));
    assert_eq!(Ok(()), sender.send(&mut channel, value2));
    assert_eq!(Ok(()), sender.send(&mut channel, value3));
    assert_eq!(Err(value3), sender.send(&mut channel, value3));

    assert_eq!(Some(value1), receiver.recv(&mut channel));
    assert_eq!(Some(value2), receiver.recv(&mut channel));
    assert_eq!(Some(value3), receiver.recv(&mut channel));
    assert_eq!(None, receiver.recv(&mut channel));
}

#[test]
fn cursor_wrap_around() {
    let mut channel = Channel::<i32, 2>::with_cursor(usize::MAX);
    let (sender, receiver) = channel.split();

    let value1 = 42;
    let value2 = 24;
    assert_eq!(None, receiver.recv(&mut channel));
    assert_eq!(Ok(()), sender.send(&mut channel, value1));
    assert_eq!(Ok(()), sender.send(&mut channel, value2));
    assert_eq!(Err(value1), sender.send(&mut channel, value1));
    assert_eq!(Some(value1), receiver.recv(&mut channel));
    assert_eq!(Some(value2), receiver.recv(&mut channel));
    assert_eq!(None, receiver.recv(&mut channel));
}

#[test]
fn wrap_around_matches_zero_start() {
    // a capacity-worth of traffic behaves the same however the cursors start
    let mut from_zero = Channel::<u8, 3>::new();
    let mut from_max = Channel::<u8, 3>::with_cursor(usize::MAX);
    let (sender_a, receiver_a) = from_zero.split();
    let (sender_b, receiver_b) = from_max.split();

    for step in 0..3u8 {
        assert_eq!(
            sender_a.send(&mut from_zero, step),
            sender_b.send(&mut from_max, step)
        );
    }
    assert_eq!(
        sender_a.send(&mut from_zero, 9),
        sender_b.send(&mut from_max, 9)
    );
    for _ in 0..4 {
        assert_eq!(
            receiver_a.recv(&mut from_zero),
            receiver_b.recv(&mut from_max)
        );
    }
}

#[test]
fn check_sender_is_send() {
    is_send::<Sender<i32>>();
}

#[test]
fn check_receiver_is_send() {
    is_send::<Receiver<i32>>();
}

fn is_send<T>()
where
    T: Send,
{
}
