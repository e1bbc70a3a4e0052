//! Many typed streams over one FIFO channel.
//!
//! Values of several types travel together over one physical channel, each
//! tagged with the identity of its type. A receive call asks for one type; a
//! value of another type is either handed back to the caller or parked in a
//! per-type buffer until a later request for its type.
use vstd::prelude::*;

pub mod buffer;
pub mod buffered;
pub mod channel;
pub mod laws;
mod sealed;
pub mod value;

pub use buffered::{buffered_channel, BufferedReceiver};
pub use channel::{channel, downcast, AnyReceiver, AnyRecvError, AnySender, ChannelError, SendError};
pub use value::{Payload, TypeTag, Value};

verus! {

} // verus!
