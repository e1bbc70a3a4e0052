use any_channel::{buffered_channel, AnyRecvError, BufferedReceiver, ChannelError, Payload, TypeTag, Value};
use std::time::Duration;

fn recv_until<T: Payload>(rx: &mut BufferedReceiver) -> Result<T, AnyRecvError> {
    loop {
        if let Some(r) = rx.recv_until_step::<T>() {
            return r;
        }
    }
}

#[test]
fn readme_test() {
    let (tx, mut rx) = buffered_channel();
    tx.send(55u32).unwrap();
    tx.send(String::from("example")).unwrap();
    assert_eq!(rx.recv::<u32>(), Ok(55));
    assert_eq!(rx.recv::<u32>(), Err(AnyRecvError::BufRecvError(TypeTag::Str)));
    assert_eq!(rx.recv::<String>(), Ok(String::from("example")));
}

#[test]
fn mismatch_is_buffered_and_returned_later() {
    let (tx, mut rx) = buffered_channel();
    tx.send(1i32).unwrap();
    assert_eq!(rx.recv::<String>(), Err(AnyRecvError::BufRecvError(TypeTag::I32)));
    assert_eq!(rx.recv::<i32>(), Ok(1));
    assert_eq!(rx.recv_buf::<i32>(), Err(AnyRecvError::EmptyBuffer));
}

#[test]
fn per_type_order_is_kept() {
    let (tx, mut rx) = buffered_channel();
    tx.send(1u32).unwrap();
    tx.send(String::from("a")).unwrap();
    tx.send(2u32).unwrap();
    tx.send('c').unwrap();
    tx.send(String::from("b")).unwrap();
    tx.send(3u32).unwrap();
    assert_eq!(recv_until::<char>(&mut rx), Ok('c'));
    assert_eq!(recv_until::<u32>(&mut rx), Ok(1));
    assert_eq!(recv_until::<u32>(&mut rx), Ok(2));
    assert_eq!(recv_until::<String>(&mut rx), Ok(String::from("a")));
    assert_eq!(recv_until::<String>(&mut rx), Ok(String::from("b")));
    assert_eq!(recv_until::<u32>(&mut rx), Ok(3));
}

#[test]
fn buffer_only_receive_leaves_channel_alone() {
    let (tx, mut rx) = buffered_channel();
    tx.send(5i64).unwrap();
    assert_eq!(rx.recv_buf::<bool>(), Err(AnyRecvError::EmptyBuffer));
    assert_eq!(rx.recv_buf::<i64>(), Err(AnyRecvError::EmptyBuffer));
    assert_eq!(rx.recv::<i64>(), Ok(5));
}

#[test]
fn until_matched_parks_what_comes_first() {
    let (tx, mut rx) = buffered_channel();
    tx.send(String::from("b")).unwrap();
    tx.send(2u8).unwrap();
    assert_eq!(recv_until::<u8>(&mut rx), Ok(2));
    assert_eq!(rx.recv_buf::<String>(), Ok(String::from("b")));
}

#[test]
fn until_matched_stops_on_closed_channel() {
    let (tx, mut rx) = buffered_channel();
    tx.send(true).unwrap();
    drop(tx);
    assert_eq!(
        recv_until::<i32>(&mut rx),
        Err(AnyRecvError::RecvError(ChannelError::Disconnected))
    );
    assert_eq!(rx.recv::<bool>(), Ok(true));
}

#[test]
fn closed_buffered_channel_reports_each_mode() {
    let (tx, mut rx) = buffered_channel();
    drop(tx);
    assert_eq!(rx.recv::<i32>(), Err(AnyRecvError::RecvError(ChannelError::Disconnected)));
    assert_eq!(rx.recv_live::<i32>(), Err(AnyRecvError::RecvError(ChannelError::Disconnected)));
    assert_eq!(
        rx.recv_timeout::<i32>(Duration::from_millis(10)),
        Err(AnyRecvError::RecvTimeoutError(ChannelError::Disconnected))
    );
    assert_eq!(
        rx.try_recv_live::<i32>(),
        Err(AnyRecvError::TryRecvError(ChannelError::Disconnected))
    );
    assert_eq!(rx.recv_nobuf::<i32>(), Err(AnyRecvError::RecvError(ChannelError::Disconnected)));
}

#[test]
fn bypass_hands_value_back_without_buffering() {
    let (tx, mut rx) = buffered_channel();
    tx.send(3i32).unwrap();
    assert_eq!(rx.recv_nobuf::<u8>(), Err(AnyRecvError::WrongType(Value::I32(3))));
    assert_eq!(rx.recv_buf::<i32>(), Err(AnyRecvError::EmptyBuffer));
    tx.send(4i32).unwrap();
    assert_eq!(rx.try_recv_nobuf::<u8>(), Err(AnyRecvError::WrongType(Value::I32(4))));
    tx.send(6i32).unwrap();
    assert_eq!(
        rx.recv_timeout_nobuf::<u8>(Duration::from_millis(10)),
        Err(AnyRecvError::WrongType(Value::I32(6)))
    );
    assert_eq!(rx.try_recv::<i32>(), Err(AnyRecvError::TryRecvError(ChannelError::Empty)));
}

#[test]
fn live_receive_skips_the_buffer() {
    let (tx, mut rx) = buffered_channel();
    tx.send(1i32).unwrap();
    tx.send(2i32).unwrap();
    assert_eq!(rx.recv::<u8>(), Err(AnyRecvError::BufRecvError(TypeTag::I32)));
    assert_eq!(rx.recv_live::<i32>(), Ok(2));
    assert_eq!(rx.recv::<i32>(), Ok(1));
}

#[test]
fn live_timeout_receive_skips_the_buffer() {
    let (tx, mut rx) = buffered_channel();
    tx.send(1i32).unwrap();
    tx.send(2i32).unwrap();
    assert_eq!(rx.recv::<u8>(), Err(AnyRecvError::BufRecvError(TypeTag::I32)));
    assert_eq!(rx.recv_timeout_live::<i32>(Duration::from_millis(10)), Ok(2));
    assert_eq!(
        rx.recv_timeout_live::<i32>(Duration::from_millis(10)),
        Err(AnyRecvError::RecvTimeoutError(ChannelError::Timeout))
    );
    assert_eq!(rx.recv_buf::<i32>(), Ok(1));
}

#[test]
fn live_try_receive_skips_the_buffer() {
    let (tx, mut rx) = buffered_channel();
    tx.send(String::from("first")).unwrap();
    tx.send(String::from("second")).unwrap();
    assert_eq!(rx.try_recv::<bool>(), Err(AnyRecvError::BufRecvError(TypeTag::Str)));
    assert_eq!(rx.try_recv_live::<String>(), Ok(String::from("second")));
    assert_eq!(rx.try_recv_live::<String>(), Err(AnyRecvError::TryRecvError(ChannelError::Empty)));
    assert_eq!(rx.try_recv::<String>(), Ok(String::from("first")));
}

#[test]
fn timeout_and_try_modes_use_buffer_first() {
    let (tx, mut rx) = buffered_channel();
    tx.send(7u16).unwrap();
    tx.send(8u16).unwrap();
    assert_eq!(
        rx.try_recv::<u64>(),
        Err(AnyRecvError::BufRecvError(TypeTag::U16))
    );
    assert_eq!(
        rx.recv_timeout_live::<u64>(Duration::from_millis(10)),
        Err(AnyRecvError::BufRecvError(TypeTag::U16))
    );
    assert_eq!(rx.recv_timeout::<u16>(Duration::from_millis(10)), Ok(7));
    assert_eq!(rx.try_recv::<u16>(), Ok(8));
    assert_eq!(
        rx.recv_timeout::<u16>(Duration::from_millis(10)),
        Err(AnyRecvError::RecvTimeoutError(ChannelError::Timeout))
    );
    assert_eq!(rx.try_recv_live::<u16>(), Err(AnyRecvError::TryRecvError(ChannelError::Empty)));
}

#[test]
fn deliver_settles_a_value() {
    let (_tx, mut rx) = buffered_channel();
    assert_eq!(rx.deliver::<i32>(Value::I32(4)), Ok(4));
    assert_eq!(
        rx.deliver::<i32>(Value::Bool(true)),
        Err(AnyRecvError::BufRecvError(TypeTag::Bool))
    );
    assert_eq!(rx.recv_buf::<bool>(), Ok(true));
    assert_eq!(rx.recv_buf::<bool>(), Err(AnyRecvError::EmptyBuffer));
}

#[test]
fn error_messages() {
    assert_eq!(AnyRecvError::EmptyBuffer.message(), "Buffer is empty");
    assert_eq!(AnyRecvError::WrongType(Value::U8(1)).message(), "Received wrong type");
    assert_eq!(
        AnyRecvError::RecvError(ChannelError::Disconnected).message(),
        "receiving on a closed channel"
    );
    assert_eq!(
        AnyRecvError::TryRecvError(ChannelError::Empty).message(),
        "receiving on an empty channel"
    );
    assert_eq!(
        AnyRecvError::BufRecvError(TypeTag::Str).message(),
        "Received wrong type: Str"
    );
    assert_eq!(
        AnyRecvError::BufRecvError(TypeTag::I32).message(),
        format!("Received wrong type: {:?}", TypeTag::I32)
    );
}
