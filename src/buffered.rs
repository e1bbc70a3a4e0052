//! The buffered receiver: a value of the wrong type is parked, by type, and
//! handed to a later request for its type.
use vstd::prelude::*;

use crate::buffer::{
    dfb_queues, insert_value, lemma_park_wf, park, queue_of, queues_wf, remove_value, unpark,
    Queues,
};
use crate::channel::{
    blocking_fault, timeout_fault, try_fault, AnyRecvError, AnySender,
    recv_value, recv_value_timeout, try_recv_value, downcast, unbuffered_some,
};
use crate::value::{Payload, Value};
use dfb::Dfb;
use std::sync::mpsc::Receiver;
use std::time::Duration;

verus! {

/// Whether the queues hold a value with the type of `T`.
pub open spec fn has_queued<T: Payload>(m: Queues) -> bool {
    queue_of(m, T::tag()).len() > 0
}

/// The value of type `T` at the front of its queue.
pub open spec fn front<T: Payload>(m: Queues) -> T {
    T::unwrap(queue_of(m, T::tag())[0])
}

/// What a buffered request for `T` does with the value `got` taken off the
/// channel: the queues after it, and its result. A `T` is returned; a value
/// of another type is parked and its tag reported.
pub open spec fn settle<T: Payload>(m: Queues, got: Value) -> (Queues, Result<T, AnyRecvError>) {
    if got.tag() == T::tag() {
        (m, Ok(T::unwrap(got)))
    } else {
        (park(m, got), Err(AnyRecvError::BufRecvError(got.tag())))
    }
}

/// Some value taken off the channel, settled on `before`, gives `after` and `r`.
pub open spec fn settled<T: Payload>(before: Queues, after: Queues, r: Result<T, AnyRecvError>) -> bool {
    exists|got: Value| #[trigger] settle::<T>(before, got) == (after, r)
}

/// A buffered request for `T` that first looks in the buffer: a queued `T`
/// comes from there; else the channel failed as `fault` says and nothing
/// changed, or a value taken off it was settled.
pub open spec fn buffer_first<T: Payload>(
    before: Queues,
    after: Queues,
    r: Result<T, AnyRecvError>,
    fault: bool,
) -> bool {
    if has_queued::<T>(before) {
        r == Ok::<T, AnyRecvError>(front::<T>(before)) && after == unpark(before, T::tag())
    } else {
        live::<T>(before, after, r, fault)
    }
}

/// A request for `T` that goes to the channel: it failed as `fault` says and
/// nothing changed, or a value taken off it was settled.
pub open spec fn live<T: Payload>(
    before: Queues,
    after: Queues,
    r: Result<T, AnyRecvError>,
    fault: bool,
) -> bool {
    (fault && after == before) || settled::<T>(before, after, r)
}

/// What buffered requests for `T`, repeated while they park values, give when
/// the channel hands over `incoming` in order: the queues after them, what is
/// left of `incoming`, and the `T` (`None` where `incoming` ran out first).
pub open spec fn until<T: Payload>(m: Queues, incoming: Seq<Value>) -> (Queues, Seq<Value>, Option<T>)
    decreases incoming.len(),
{
    if has_queued::<T>(m) {
        (unpark(m, T::tag()), incoming, Some(front::<T>(m)))
    } else if incoming.len() == 0 {
        (m, incoming, None)
    } else if incoming[0].tag() == T::tag() {
        (m, incoming.drop_first(), Some(T::unwrap(incoming[0])))
    } else {
        until::<T>(park(m, incoming[0]), incoming.drop_first())
    }
}

/// Makes a channel whose receiving half parks values of the wrong type.
pub fn buffered_channel() -> (r: (AnySender, BufferedReceiver))
    ensures
        r.1.buffered() == Queues::empty(),
        r.1.wf(),
{
    let (tx, rx) = std::sync::mpsc::channel::<Value>();
    (AnySender(tx), BufferedReceiver { rx, buf: Dfb::new() })
}

/// The receiving half of a channel, with a buffer of parked values.
#[derive(Debug)]
pub struct BufferedReceiver {
    pub rx: Receiver<Value>,
    pub buf: Dfb,
}

impl BufferedReceiver {
    /// The parked values, by type.
    pub open spec fn buffered(&self) -> Queues {
        dfb_queues(self.buf)
    }

    /// Every parked value sits in the queue of its own type.
    pub open spec fn wf(&self) -> bool {
        queues_wf(self.buffered())
    }

    /// Settles `got`, a value taken off the channel, for a request for `T`.
    pub fn deliver<T: Payload>(&mut self, got: Value) -> (r: Result<T, AnyRecvError>)
        requires
            old(self).wf(),
        ensures
            (final(self).buffered(), r) == settle::<T>(old(self).buffered(), got),
            r matches Ok(x) ==> x.wrap() == got,
            final(self).wf(),
    {
        proof {
            lemma_park_wf(self.buffered(), got);
            if got.tag() == T::tag() {
                T::lemma_unwrap(got);
            }
        }
        let tag = got.type_tag();
        match T::from_value(got) {
            Ok(x) => Ok(x),
            Err(v) => {
                insert_value(&mut self.buf, v);
                Err(AnyRecvError::BufRecvError(tag))
            },
        }
    }

    /// Waits for a value from the channel, whatever is buffered.
    pub fn recv_live<T: Payload>(&mut self) -> (r: Result<T, AnyRecvError>)
        requires
            old(self).wf(),
        ensures
            live::<T>(old(self).buffered(), final(self).buffered(), r, blocking_fault(r)),
            final(self).wf(),
    {
        match recv_value(&self.rx) {
            Ok(v) => self.deliver(v),
            Err(e) => Err(AnyRecvError::RecvError(e)),
        }
    }

    /// Returns a buffered `T` if there is one, else waits for the channel.
    pub fn recv<T: Payload>(&mut self) -> (r: Result<T, AnyRecvError>)
        requires
            old(self).wf(),
        ensures
            buffer_first::<T>(old(self).buffered(), final(self).buffered(), r, blocking_fault(r)),
            final(self).wf(),
    {
        match remove_value::<T>(&mut self.buf) {
            Some(x) => Ok(x),
            None => self.recv_live(),
        }
    }

    /// Waits at most `timeout` for a value from the channel, whatever is buffered.
    pub fn recv_timeout_live<T: Payload>(&mut self, timeout: Duration) -> (r: Result<
        T,
        AnyRecvError,
    >)
        requires
            old(self).wf(),
        ensures
            live::<T>(old(self).buffered(), final(self).buffered(), r, timeout_fault(r)),
            final(self).wf(),
    {
        match recv_value_timeout(&self.rx, timeout) {
            Ok(v) => self.deliver(v),
            Err(e) => Err(AnyRecvError::RecvTimeoutError(e)),
        }
    }

    /// Returns a buffered `T` if there is one, else waits at most `timeout`
    /// for the channel.
    pub fn recv_timeout<T: Payload>(&mut self, timeout: Duration) -> (r: Result<T, AnyRecvError>)
        requires
            old(self).wf(),
        ensures
            buffer_first::<T>(old(self).buffered(), final(self).buffered(), r, timeout_fault(r)),
            final(self).wf(),
    {
        match remove_value::<T>(&mut self.buf) {
            Some(x) => Ok(x),
            None => self.recv_timeout_live(timeout),
        }
    }

    /// Takes a value from the channel without waiting, whatever is buffered.
    pub fn try_recv_live<T: Payload>(&mut self) -> (r: Result<T, AnyRecvError>)
        requires
            old(self).wf(),
        ensures
            live::<T>(old(self).buffered(), final(self).buffered(), r, try_fault(r)),
            final(self).wf(),
    {
        match try_recv_value(&self.rx) {
            Ok(v) => self.deliver(v),
            Err(e) => Err(AnyRecvError::TryRecvError(e)),
        }
    }

    /// Returns a buffered `T` if there is one, else takes a value from the
    /// channel without waiting.
    pub fn try_recv<T: Payload>(&mut self) -> (r: Result<T, AnyRecvError>)
        requires
            old(self).wf(),
        ensures
            buffer_first::<T>(old(self).buffered(), final(self).buffered(), r, try_fault(r)),
            final(self).wf(),
    {
        match remove_value::<T>(&mut self.buf) {
            Some(x) => Ok(x),
            None => self.try_recv_live(),
        }
    }

    /// One round of receiving until a `T` comes: a blocking buffered request
    /// for `T`. `None` where it parked a value of another type and the request
    /// is to be made again; else the result to return.
    pub fn recv_until_step<T: Payload>(&mut self) -> (r: Option<Result<T, AnyRecvError>>)
        requires
            old(self).wf(),
        ensures
            r matches Some(x) ==> buffer_first::<T>(
                old(self).buffered(),
                final(self).buffered(),
                x,
                blocking_fault(x),
            ) && !(x matches Err(AnyRecvError::BufRecvError(_))),
            r is None ==> !has_queued::<T>(old(self).buffered()) && exists|got: Value|
                got.tag() != T::tag() && final(self).buffered() == #[trigger] park(
                    old(self).buffered(),
                    got,
                ),
            final(self).wf(),
    {
        let r = self.recv::<T>();
        match r {
            Err(AnyRecvError::BufRecvError(_)) => None,
            other => Some(other),
        }
    }

    /// Waits for a value from the channel and hands a value of the wrong type
    /// back; the buffer is neither read nor changed.
    pub fn recv_nobuf<T: Payload>(&self) -> (r: Result<T, AnyRecvError>)
        ensures
            blocking_fault(r) || unbuffered_some(r),
    {
        match recv_value(&self.rx) {
            Ok(v) => downcast(v),
            Err(e) => Err(AnyRecvError::RecvError(e)),
        }
    }

    /// Waits at most `timeout` for a value from the channel and hands a value
    /// of the wrong type back; the buffer is neither read nor changed.
    pub fn recv_timeout_nobuf<T: Payload>(&self, timeout: Duration) -> (r: Result<
        T,
        AnyRecvError,
    >)
        ensures
            timeout_fault(r) || unbuffered_some(r),
    {
        match recv_value_timeout(&self.rx, timeout) {
            Ok(v) => downcast(v),
            Err(e) => Err(AnyRecvError::RecvTimeoutError(e)),
        }
    }

    /// Takes a value from the channel without waiting and hands a value of
    /// the wrong type back; the buffer is neither read nor changed.
    pub fn try_recv_nobuf<T: Payload>(&self) -> (r: Result<T, AnyRecvError>)
        ensures
            try_fault(r) || unbuffered_some(r),
    {
        match try_recv_value(&self.rx) {
            Ok(v) => downcast(v),
            Err(e) => Err(AnyRecvError::TryRecvError(e)),
        }
    }

    /// Returns a buffered `T`, never touching the channel; fails with
    /// `EmptyBuffer` when none is parked.
    pub fn recv_buf<T: Payload>(&mut self) -> (r: Result<T, AnyRecvError>)
        requires
            old(self).wf(),
        ensures
            has_queued::<T>(old(self).buffered()) ==> r == Ok::<T, AnyRecvError>(
                front::<T>(old(self).buffered()),
            ),
            !has_queued::<T>(old(self).buffered()) ==> r == Err::<T, AnyRecvError>(
                AnyRecvError::EmptyBuffer,
            ) && final(self).buffered() == old(self).buffered(),
            final(self).buffered() == unpark(old(self).buffered(), T::tag()),
            final(self).rx == old(self).rx,
            final(self).wf(),
    {
        match remove_value::<T>(&mut self.buf) {
            Some(x) => Ok(x),
            None => Err(AnyRecvError::EmptyBuffer),
        }
    }
}

} // verus!
