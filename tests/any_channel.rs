use any_channel::{channel, downcast, AnyRecvError, ChannelError, SendError, TypeTag, Value};
use std::time::Duration;

#[test]
pub fn any_channel_test() {
    let (atx, arx) = channel();
    atx.send(67 as i32).unwrap();
    let r = arx.recv::<u32>();
    println!("{:?}", r);
    assert_eq!(r, Err(AnyRecvError::WrongType(Value::I32(67))));
}

#[test]
pub fn any_channel_test_1() {
    let (atx, arx) = channel();
    atx.send(88 as i32).unwrap();
    let r = arx.recv::<i32>();
    println!("{:?}", r);
    assert_eq!(r, Ok(88));
}

#[test]
fn round_trip_of_each_kind() {
    let (tx, rx) = channel();
    tx.send(true).unwrap();
    tx.send('x').unwrap();
    tx.send(u64::MAX).unwrap();
    tx.send(-5i8).unwrap();
    tx.send(String::from("hello")).unwrap();
    assert_eq!(rx.recv::<bool>(), Ok(true));
    assert_eq!(rx.recv::<char>(), Ok('x'));
    assert_eq!(rx.recv::<u64>(), Ok(u64::MAX));
    assert_eq!(rx.recv::<i8>(), Ok(-5));
    assert_eq!(rx.recv::<String>(), Ok(String::from("hello")));
}

#[test]
fn unbuffered_mismatch_returns_the_value() {
    let (tx, rx) = channel();
    tx.send(String::from("s")).unwrap();
    tx.send(7u8).unwrap();
    assert_eq!(
        rx.recv::<u8>(),
        Err(AnyRecvError::WrongType(Value::Str(String::from("s"))))
    );
    // the mismatched value was not kept: the next one is the u8
    assert_eq!(rx.recv::<u8>(), Ok(7));
}

#[test]
fn closed_channel_is_reported_by_each_mode() {
    let (tx, rx) = channel();
    drop(tx);
    assert_eq!(rx.recv::<i32>(), Err(AnyRecvError::RecvError(ChannelError::Disconnected)));
    assert_eq!(
        rx.recv_timeout::<i32>(Duration::from_millis(10)),
        Err(AnyRecvError::RecvTimeoutError(ChannelError::Disconnected))
    );
    assert_eq!(
        rx.try_recv::<i32>(),
        Err(AnyRecvError::TryRecvError(ChannelError::Disconnected))
    );
}

#[test]
fn empty_open_channel_times_out_or_is_empty() {
    let (_tx, rx) = channel();
    assert_eq!(
        rx.recv_timeout::<i32>(Duration::from_millis(10)),
        Err(AnyRecvError::RecvTimeoutError(ChannelError::Timeout))
    );
    assert_eq!(rx.try_recv::<i32>(), Err(AnyRecvError::TryRecvError(ChannelError::Empty)));
}

#[test]
fn timeout_and_try_receive_deliver_values() {
    let (tx, rx) = channel();
    tx.send(3u16).unwrap();
    tx.send(4i64).unwrap();
    assert_eq!(rx.recv_timeout::<u16>(Duration::from_millis(10)), Ok(3));
    assert_eq!(rx.try_recv::<u16>(), Err(AnyRecvError::WrongType(Value::I64(4))));
}

#[test]
fn send_after_receiver_dropped_hands_value_back() {
    let (tx, rx) = channel();
    drop(rx);
    assert_eq!(tx.send(9usize), Err(SendError(Value::Usize(9))));
}

#[test]
fn downcast_recovers_or_hands_back() {
    assert_eq!(downcast::<isize>(Value::Isize(-2)), Ok(-2));
    assert_eq!(
        downcast::<isize>(Value::I16(-2)),
        Err(AnyRecvError::WrongType(Value::I16(-2)))
    );
    assert_eq!(Value::Char('c').type_tag(), TypeTag::Char);
    assert_eq!(Value::U32(1).type_tag(), TypeTag::U32);
}

#[test]
fn cloned_senders_share_the_channel() {
    let (tx, rx) = channel();
    let tx2 = tx.clone();
    tx.send(1u8).unwrap();
    tx2.send(2u8).unwrap();
    drop(tx);
    drop(tx2);
    assert_eq!(rx.recv::<u8>(), Ok(1));
    assert_eq!(rx.recv::<u8>(), Ok(2));
    assert_eq!(rx.recv::<u8>(), Err(AnyRecvError::RecvError(ChannelError::Disconnected)));
}
