//! The type-erased channel: a sender that erases values and a receiver that
//! recovers them, handing back a value of the wrong type.
use vstd::prelude::*;

use crate::value::{Payload, TypeTag, Value};
use std::sync::mpsc::{Receiver, RecvTimeoutError, Sender, TryRecvError};
use std::time::Duration;

verus! {

#[verifier::external_type_specification]
#[verifier::external_body]
#[verifier::reject_recursive_types(T)]
pub struct ExSender<T>(Sender<T>);

#[verifier::external_type_specification]
#[verifier::external_body]
#[verifier::reject_recursive_types(T)]
pub struct ExReceiver<T>(Receiver<T>);

/// Relies on std::sync::mpsc::channel: it makes the two halves of a new channel.
pub assume_specification<T>[ std::sync::mpsc::channel::<T> ]() -> (Sender<T>, Receiver<T>);

/// Relies on std::sync::mpsc::Sender::clone: the clone sends on the same channel.
pub assume_specification<T>[ <Sender<T> as Clone>::clone ](s: &Sender<T>) -> Sender<T>;

/// Why the physical channel gave no value.
#[derive(Clone, Copy, Debug, PartialEq, Eq, Structural)]
pub enum ChannelError {
    /// Every sender is gone and nothing is left to receive.
    Disconnected,
    /// The wait ran out before a value came.
    Timeout,
    /// Nothing was there to take at once.
    Empty,
}

/// Why a receive gave no value of the type asked for.
#[derive(Clone, Debug, PartialEq, Eq)]
pub enum AnyRecvError {
    /// A blocking receive failed on the channel.
    RecvError(ChannelError),
    /// A receive with a timeout failed on the channel.
    RecvTimeoutError(ChannelError),
    /// A non-blocking receive failed on the channel.
    TryRecvError(ChannelError),
    /// An unbuffered receive took a value of another type; here it is.
    WrongType(Value),
    /// A buffered receive took a value of the type with this tag and parked it.
    BufRecvError(TypeTag),
    /// A receive from the buffer alone found nothing of the type asked for.
    EmptyBuffer,
}

impl AnyRecvError {
    /// The text that describes the error; a parked value's type is named by
    /// its tag.
    pub open spec fn text(self) -> Seq<char> {
        match self {
            AnyRecvError::RecvError(_) => "receiving on a closed channel"@,
            AnyRecvError::RecvTimeoutError(ChannelError::Timeout) => "timed out waiting on channel"@,
            AnyRecvError::RecvTimeoutError(_) => "channel is empty and sending half is closed"@,
            AnyRecvError::TryRecvError(ChannelError::Empty) => "receiving on an empty channel"@,
            AnyRecvError::TryRecvError(_) => "receiving on an empty and disconnected channel"@,
            AnyRecvError::WrongType(_) => "Received wrong type"@,
            AnyRecvError::BufRecvError(TypeTag::Bool) => "Received wrong type: Bool"@,
            AnyRecvError::BufRecvError(TypeTag::Char) => "Received wrong type: Char"@,
            AnyRecvError::BufRecvError(TypeTag::U8) => "Received wrong type: U8"@,
            AnyRecvError::BufRecvError(TypeTag::U16) => "Received wrong type: U16"@,
            AnyRecvError::BufRecvError(TypeTag::U32) => "Received wrong type: U32"@,
            AnyRecvError::BufRecvError(TypeTag::U64) => "Received wrong type: U64"@,
            AnyRecvError::BufRecvError(TypeTag::Usize) => "Received wrong type: Usize"@,
            AnyRecvError::BufRecvError(TypeTag::I8) => "Received wrong type: I8"@,
            AnyRecvError::BufRecvError(TypeTag::I16) => "Received wrong type: I16"@,
            AnyRecvError::BufRecvError(TypeTag::I32) => "Received wrong type: I32"@,
            AnyRecvError::BufRecvError(TypeTag::I64) => "Received wrong type: I64"@,
            AnyRecvError::BufRecvError(TypeTag::Isize) => "Received wrong type: Isize"@,
            AnyRecvError::BufRecvError(TypeTag::Str) => "Received wrong type: Str"@,
            AnyRecvError::EmptyBuffer => "Buffer is empty"@,
        }
    }

    /// Describes the error.
    pub fn message(&self) -> (s: &'static str)
        ensures
            s@ == self.text(),
    {
        match self {
            AnyRecvError::RecvError(_) => "receiving on a closed channel",
            AnyRecvError::RecvTimeoutError(ChannelError::Timeout) => "timed out waiting on channel",
            AnyRecvError::RecvTimeoutError(_) => "channel is empty and sending half is closed",
            AnyRecvError::TryRecvError(ChannelError::Empty) => "receiving on an empty channel",
            AnyRecvError::TryRecvError(_) => "receiving on an empty and disconnected channel",
            AnyRecvError::WrongType(_) => "Received wrong type",
            AnyRecvError::BufRecvError(TypeTag::Bool) => "Received wrong type: Bool",
            AnyRecvError::BufRecvError(TypeTag::Char) => "Received wrong type: Char",
            AnyRecvError::BufRecvError(TypeTag::U8) => "Received wrong type: U8",
            AnyRecvError::BufRecvError(TypeTag::U16) => "Received wrong type: U16",
            AnyRecvError::BufRecvError(TypeTag::U32) => "Received wrong type: U32",
            AnyRecvError::BufRecvError(TypeTag::U64) => "Received wrong type: U64",
            AnyRecvError::BufRecvError(TypeTag::Usize) => "Received wrong type: Usize",
            AnyRecvError::BufRecvError(TypeTag::I8) => "Received wrong type: I8",
            AnyRecvError::BufRecvError(TypeTag::I16) => "Received wrong type: I16",
            AnyRecvError::BufRecvError(TypeTag::I32) => "Received wrong type: I32",
            AnyRecvError::BufRecvError(TypeTag::I64) => "Received wrong type: I64",
            AnyRecvError::BufRecvError(TypeTag::Isize) => "Received wrong type: Isize",
            AnyRecvError::BufRecvError(TypeTag::Str) => "Received wrong type: Str",
            AnyRecvError::EmptyBuffer => "Buffer is empty",
        }
    }
}

/// A send failed because the receiving half is gone; the value comes back.
#[derive(Clone, Debug, PartialEq, Eq)]
pub struct SendError(pub Value);

/// Relies on std::sync::mpsc::Sender::send: it fails only when the receiving
/// half is gone, and then hands the value back.
#[verifier::external_body]
pub(crate) fn send_value(tx: &Sender<Value>, v: Value) -> (r: Result<(), Value>)
    ensures
        r matches Err(back) ==> back == v,
{
    tx.send(v).map_err(|e| e.0)
}

/// Relies on std::sync::mpsc::Receiver::recv: it waits for the next value and
/// fails only when every sender is gone.
#[verifier::external_body]
pub(crate) fn recv_value(rx: &Receiver<Value>) -> (r: Result<Value, ChannelError>)
    ensures
        r matches Err(e) ==> e == ChannelError::Disconnected,
{
    match rx.recv() {
        Ok(v) => Ok(v),
        Err(std::sync::mpsc::RecvError) => Err(ChannelError::Disconnected),
    }
}

/// Relies on std::sync::mpsc::Receiver::recv_timeout: it waits at most
/// `timeout` for the next value, and fails on a timeout or a disconnection.
#[verifier::external_body]
pub(crate) fn recv_value_timeout(rx: &Receiver<Value>, timeout: Duration) -> (r: Result<
    Value,
    ChannelError,
>)
    ensures
        r matches Err(e) ==> e != ChannelError::Empty,
{
    match rx.recv_timeout(timeout) {
        Ok(v) => Ok(v),
        Err(RecvTimeoutError::Timeout) => Err(ChannelError::Timeout),
        Err(RecvTimeoutError::Disconnected) => Err(ChannelError::Disconnected),
    }
}

/// Relies on std::sync::mpsc::Receiver::try_recv: it never waits, and fails
/// when nothing is there or every sender is gone.
#[verifier::external_body]
pub(crate) fn try_recv_value(rx: &Receiver<Value>) -> (r: Result<Value, ChannelError>)
    ensures
        r matches Err(e) ==> e != ChannelError::Timeout,
{
    match rx.try_recv() {
        Ok(v) => Ok(v),
        Err(TryRecvError::Empty) => Err(ChannelError::Empty),
        Err(TryRecvError::Disconnected) => Err(ChannelError::Disconnected),
    }
}

/// What an unbuffered request for `T` gives for the value `got` taken off the
/// channel: the value itself if it is a `T`, else `got` back in the error.
pub open spec fn unbuffered<T: Payload>(got: Value) -> Result<T, AnyRecvError> {
    if got.tag() == T::tag() {
        Ok(T::unwrap(got))
    } else {
        Err(AnyRecvError::WrongType(got))
    }
}

/// `r` is what an unbuffered request for `T` gives for some value.
pub open spec fn unbuffered_some<T: Payload>(r: Result<T, AnyRecvError>) -> bool {
    exists|got: Value| r == unbuffered::<T>(got)
}

/// `r` is the failure of a blocking receive on the channel.
pub open spec fn blocking_fault<T>(r: Result<T, AnyRecvError>) -> bool {
    r == Err::<T, AnyRecvError>(AnyRecvError::RecvError(ChannelError::Disconnected))
}

/// `r` is a failure of a receive with a timeout on the channel.
pub open spec fn timeout_fault<T>(r: Result<T, AnyRecvError>) -> bool {
    r == Err::<T, AnyRecvError>(AnyRecvError::RecvTimeoutError(ChannelError::Timeout)) || r
        == Err::<T, AnyRecvError>(AnyRecvError::RecvTimeoutError(ChannelError::Disconnected))
}

/// `r` is a failure of a non-blocking receive on the channel.
pub open spec fn try_fault<T>(r: Result<T, AnyRecvError>) -> bool {
    r == Err::<T, AnyRecvError>(AnyRecvError::TryRecvError(ChannelError::Empty)) || r == Err::<
        T,
        AnyRecvError,
    >(AnyRecvError::TryRecvError(ChannelError::Disconnected))
}

/// Recovers a `T` from the value `got` taken off the channel, or hands `got`
/// back in the error.
pub fn downcast<T: Payload>(got: Value) -> (r: Result<T, AnyRecvError>)
    ensures
        r == unbuffered::<T>(got),
        r matches Ok(x) ==> x.wrap() == got,
{
    proof {
        if got.tag() == T::tag() {
            T::lemma_unwrap(got);
        }
    }
    match T::from_value(got) {
        Ok(x) => Ok(x),
        Err(v) => Err(AnyRecvError::WrongType(v)),
    }
}

/// Makes a channel that carries values of every [`Payload`] type.
pub fn channel() -> (AnySender, AnyReceiver) {
    let (tx, rx) = std::sync::mpsc::channel::<Value>();
    (AnySender(tx), AnyReceiver(rx))
}

/// The sending half: it erases each value before it goes on the channel.
/// Clones send on the same channel.
#[derive(Clone, Debug)]
pub struct AnySender(pub Sender<Value>);

impl AnySender {
    /// Sends `t`; fails, handing its erasure back, only if the receiving half is gone.
    pub fn send<T: Payload>(&self, t: T) -> (r: Result<(), SendError>)
        ensures
            r matches Err(e) ==> e.0 == t.wrap(),
    {
        match send_value(&self.0, t.into_value()) {
            Ok(()) => Ok(()),
            Err(v) => Err(SendError(v)),
        }
    }
}

/// The receiving half without a buffer: a value of the wrong type comes back
/// to the caller in the error.
#[derive(Debug)]
pub struct AnyReceiver(pub Receiver<Value>);

impl AnyReceiver {
    /// Waits for the next value and recovers it as a `T`.
    pub fn recv<T: Payload>(&self) -> (r: Result<T, AnyRecvError>)
        ensures
            blocking_fault(r) || unbuffered_some(r),
    {
        match recv_value(&self.0) {
            Ok(v) => downcast(v),
            Err(e) => Err(AnyRecvError::RecvError(e)),
        }
    }

    /// Waits at most `timeout` for the next value and recovers it as a `T`.
    pub fn recv_timeout<T: Payload>(&self, timeout: Duration) -> (r: Result<T, AnyRecvError>)
        ensures
            timeout_fault(r) || unbuffered_some(r),
    {
        match recv_value_timeout(&self.0, timeout) {
            Ok(v) => downcast(v),
            Err(e) => Err(AnyRecvError::RecvTimeoutError(e)),
        }
    }

    /// Takes the next value without waiting and recovers it as a `T`.
    pub fn try_recv<T: Payload>(&self) -> (r: Result<T, AnyRecvError>)
        ensures
            try_fault(r) || unbuffered_some(r),
    {
        match try_recv_value(&self.0) {
            Ok(v) => downcast(v),
            Err(e) => Err(AnyRecvError::TryRecvError(e)),
        }
    }
}

} // verus!
