//! Keeps the set of payload types closed, so that each has a tag of its own.
use vstd::prelude::*;

verus! {

/// Implemented by exactly the types that implement `Payload`.
pub trait Sealed {}

impl Sealed for bool {}
impl Sealed for char {}
impl Sealed for u8 {}
impl Sealed for u16 {}
impl Sealed for u32 {}
impl Sealed for u64 {}
impl Sealed for usize {}
impl Sealed for i8 {}
impl Sealed for i16 {}
impl Sealed for i32 {}
impl Sealed for i64 {}
impl Sealed for isize {}
impl Sealed for String {}

} // verus!
