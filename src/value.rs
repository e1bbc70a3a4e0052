//! Type-erased values and the identity of their types.
use vstd::prelude::*;

use crate::sealed::Sealed;

verus! {

/// The runtime identity of a type that can travel over a channel.
#[derive(Clone, Copy, Debug, PartialEq, Eq, Hash, Structural)]
pub enum TypeTag {
    Bool,
    Char,
    U8,
    U16,
    U32,
    U64,
    Usize,
    I8,
    I16,
    I32,
    I64,
    Isize,
    Str,
}

/// A value whose static type has been erased; its variant keeps the type.
#[derive(Clone, Debug, PartialEq, Eq, Hash)]
pub enum Value {
    Bool(bool),
    Char(char),
    U8(u8),
    U16(u16),
    U32(u32),
    U64(u64),
    Usize(usize),
    I8(i8),
    I16(i16),
    I32(i32),
    I64(i64),
    Isize(isize),
    Str(String),
}

impl Value {
    /// The identity of the type of the value held.
    pub open spec fn tag(self) -> TypeTag {
        match self {
            Value::Bool(_) => TypeTag::Bool,
            Value::Char(_) => TypeTag::Char,
            Value::U8(_) => TypeTag::U8,
            Value::U16(_) => TypeTag::U16,
            Value::U32(_) => TypeTag::U32,
            Value::U64(_) => TypeTag::U64,
            Value::Usize(_) => TypeTag::Usize,
            Value::I8(_) => TypeTag::I8,
            Value::I16(_) => TypeTag::I16,
            Value::I32(_) => TypeTag::I32,
            Value::I64(_) => TypeTag::I64,
            Value::Isize(_) => TypeTag::Isize,
            Value::Str(_) => TypeTag::Str,
        }
    }

    /// The identity of the type of the value held.
    pub fn type_tag(&self) -> (t: TypeTag)
        ensures
            t == self.tag(),
    {
        match self {
            Value::Bool(_) => TypeTag::Bool,
            Value::Char(_) => TypeTag::Char,
            Value::U8(_) => TypeTag::U8,
            Value::U16(_) => TypeTag::U16,
            Value::U32(_) => TypeTag::U32,
            Value::U64(_) => TypeTag::U64,
            Value::Usize(_) => TypeTag::Usize,
            Value::I8(_) => TypeTag::I8,
            Value::I16(_) => TypeTag::I16,
            Value::I32(_) => TypeTag::I32,
            Value::I64(_) => TypeTag::I64,
            Value::Isize(_) => TypeTag::Isize,
            Value::Str(_) => TypeTag::Str,
        }
    }
}

/// A type whose values can be erased into a [`Value`] and recovered from one.
///
/// Each implementing type has its own tag, and erasing is one to one: a value
/// recovered from the erasure of `x` is `x` again. The trait is sealed: the
/// types below are all that implement it.
pub trait Payload: Sized + Sealed + 'static {
    /// The tag of this type.
    spec fn tag() -> TypeTag;

    /// The erasure of `self`.
    spec fn wrap(self) -> Value;

    /// The value of this type held in `v`, if `v` holds one.
    spec fn unwrap(v: Value) -> Self;

    /// Erasing keeps the tag, and recovering undoes erasing.
    proof fn lemma_wrap(x: Self)
        ensures
            x.wrap().tag() == Self::tag(),
            Self::unwrap(x.wrap()) == x,
    ;

    /// Every value with this type's tag is the erasure of one of its values.
    proof fn lemma_unwrap(v: Value)
        requires
            v.tag() == Self::tag(),
        ensures
            Self::unwrap(v).wrap() == v,
    ;

    /// Erases `self`.
    fn into_value(self) -> (v: Value)
        ensures
            v == self.wrap(),
    ;

    /// Recovers a value of this type from `v`, or hands `v` back.
    fn from_value(v: Value) -> (r: Result<Self, Value>)
        ensures
            v.tag() == Self::tag() ==> r == Ok::<Self, Value>(Self::unwrap(v)),
            v.tag() != Self::tag() ==> r == Err::<Self, Value>(v),
    ;
}

impl Payload for bool {
    open spec fn tag() -> TypeTag {
        TypeTag::Bool
    }

    open spec fn wrap(self) -> Value {
        Value::Bool(self)
    }

    open spec fn unwrap(v: Value) -> bool {
        match v {
            Value::Bool(x) => x,
            _ => arbitrary(),
        }
    }

    proof fn lemma_wrap(x: bool) {
    }

    proof fn lemma_unwrap(v: Value) {
    }

    fn into_value(self) -> (v: Value) {
        Value::Bool(self)
    }

    fn from_value(v: Value) -> (r: Result<bool, Value>) {
        match v {
            Value::Bool(x) => Ok(x),
            other => Err(other),
        }
    }
}

impl Payload for char {
    open spec fn tag() -> TypeTag {
        TypeTag::Char
    }

    open spec fn wrap(self) -> Value {
        Value::Char(self)
    }

    open spec fn unwrap(v: Value) -> char {
        match v {
            Value::Char(x) => x,
            _ => arbitrary(),
        }
    }

    proof fn lemma_wrap(x: char) {
    }

    proof fn lemma_unwrap(v: Value) {
    }

    fn into_value(self) -> (v: Value) {
        Value::Char(self)
    }

    fn from_value(v: Value) -> (r: Result<char, Value>) {
        match v {
            Value::Char(x) => Ok(x),
            other => Err(other),
        }
    }
}

impl Payload for u8 {
    open spec fn tag() -> TypeTag {
        TypeTag::U8
    }

    open spec fn wrap(self) -> Value {
        Value::U8(self)
    }

    open spec fn unwrap(v: Value) -> u8 {
        match v {
            Value::U8(x) => x,
            _ => arbitrary(),
        }
    }

    proof fn lemma_wrap(x: u8) {
    }

    proof fn lemma_unwrap(v: Value) {
    }

    fn into_value(self) -> (v: Value) {
        Value::U8(self)
    }

    fn from_value(v: Value) -> (r: Result<u8, Value>) {
        match v {
            Value::U8(x) => Ok(x),
            other => Err(other),
        }
    }
}

impl Payload for u16 {
    open spec fn tag() -> TypeTag {
        TypeTag::U16
    }

    open spec fn wrap(self) -> Value {
        Value::U16(self)
    }

    open spec fn unwrap(v: Value) -> u16 {
        match v {
            Value::U16(x) => x,
            _ => arbitrary(),
        }
    }

    proof fn lemma_wrap(x: u16) {
    }

    proof fn lemma_unwrap(v: Value) {
    }

    fn into_value(self) -> (v: Value) {
        Value::U16(self)
    }

    fn from_value(v: Value) -> (r: Result<u16, Value>) {
        match v {
            Value::U16(x) => Ok(x),
            other => Err(other),
        }
    }
}

impl Payload for u32 {
    open spec fn tag() -> TypeTag {
        TypeTag::U32
    }

    open spec fn wrap(self) -> Value {
        Value::U32(self)
    }

    open spec fn unwrap(v: Value) -> u32 {
        match v {
            Value::U32(x) => x,
            _ => arbitrary(),
        }
    }

    proof fn lemma_wrap(x: u32) {
    }

    proof fn lemma_unwrap(v: Value) {
    }

    fn into_value(self) -> (v: Value) {
        Value::U32(self)
    }

    fn from_value(v: Value) -> (r: Result<u32, Value>) {
        match v {
            Value::U32(x) => Ok(x),
            other => Err(other),
        }
    }
}

impl Payload for u64 {
    open spec fn tag() -> TypeTag {
        TypeTag::U64
    }

    open spec fn wrap(self) -> Value {
        Value::U64(self)
    }

    open spec fn unwrap(v: Value) -> u64 {
        match v {
            Value::U64(x) => x,
            _ => arbitrary(),
        }
    }

    proof fn lemma_wrap(x: u64) {
    }

    proof fn lemma_unwrap(v: Value) {
    }

    fn into_value(self) -> (v: Value) {
        Value::U64(self)
    }

    fn from_value(v: Value) -> (r: Result<u64, Value>) {
        match v {
            Value::U64(x) => Ok(x),
            other => Err(other),
        }
    }
}

impl Payload for usize {
    open spec fn tag() -> TypeTag {
        TypeTag::Usize
    }

    open spec fn wrap(self) -> Value {
        Value::Usize(self)
    }

    open spec fn unwrap(v: Value) -> usize {
        match v {
            Value::Usize(x) => x,
            _ => arbitrary(),
        }
    }

    proof fn lemma_wrap(x: usize) {
    }

    proof fn lemma_unwrap(v: Value) {
    }

    fn into_value(self) -> (v: Value) {
        Value::Usize(self)
    }

    fn from_value(v: Value) -> (r: Result<usize, Value>) {
        match v {
            Value::Usize(x) => Ok(x),
            other => Err(other),
        }
    }
}

impl Payload for i8 {
    open spec fn tag() -> TypeTag {
        TypeTag::I8
    }

    open spec fn wrap(self) -> Value {
        Value::I8(self)
    }

    open spec fn unwrap(v: Value) -> i8 {
        match v {
            Value::I8(x) => x,
            _ => arbitrary(),
        }
    }

    proof fn lemma_wrap(x: i8) {
    }

    proof fn lemma_unwrap(v: Value) {
    }

    fn into_value(self) -> (v: Value) {
        Value::I8(self)
    }

    fn from_value(v: Value) -> (r: Result<i8, Value>) {
        match v {
            Value::I8(x) => Ok(x),
            other => Err(other),
        }
    }
}

impl Payload for i16 {
    open spec fn tag() -> TypeTag {
        TypeTag::I16
    }

    open spec fn wrap(self) -> Value {
        Value::I16(self)
    }

    open spec fn unwrap(v: Value) -> i16 {
        match v {
            Value::I16(x) => x,
            _ => arbitrary(),
        }
    }

    proof fn lemma_wrap(x: i16) {
    }

    proof fn lemma_unwrap(v: Value) {
    }

    fn into_value(self) -> (v: Value) {
        Value::I16(self)
    }

    fn from_value(v: Value) -> (r: Result<i16, Value>) {
        match v {
            Value::I16(x) => Ok(x),
            other => Err(other),
        }
    }
}

impl Payload for i32 {
    open spec fn tag() -> TypeTag {
        TypeTag::I32
    }

    open spec fn wrap(self) -> Value {
        Value::I32(self)
    }

    open spec fn unwrap(v: Value) -> i32 {
        match v {
            Value::I32(x) => x,
            _ => arbitrary(),
        }
    }

    proof fn lemma_wrap(x: i32) {
    }

    proof fn lemma_unwrap(v: Value) {
    }

    fn into_value(self) -> (v: Value) {
        Value::I32(self)
    }

    fn from_value(v: Value) -> (r: Result<i32, Value>) {
        match v {
            Value::I32(x) => Ok(x),
            other => Err(other),
        }
    }
}

impl Payload for i64 {
    open spec fn tag() -> TypeTag {
        TypeTag::I64
    }

    open spec fn wrap(self) -> Value {
        Value::I64(self)
    }

    open spec fn unwrap(v: Value) -> i64 {
        match v {
            Value::I64(x) => x,
            _ => arbitrary(),
        }
    }

    proof fn lemma_wrap(x: i64) {
    }

    proof fn lemma_unwrap(v: Value) {
    }

    fn into_value(self) -> (v: Value) {
        Value::I64(self)
    }

    fn from_value(v: Value) -> (r: Result<i64, Value>) {
        match v {
            Value::I64(x) => Ok(x),
            other => Err(other),
        }
    }
}

impl Payload for isize {
    open spec fn tag() -> TypeTag {
        TypeTag::Isize
    }

    open spec fn wrap(self) -> Value {
        Value::Isize(self)
    }

    open spec fn unwrap(v: Value) -> isize {
        match v {
            Value::Isize(x) => x,
            _ => arbitrary(),
        }
    }

    proof fn lemma_wrap(x: isize) {
    }

    proof fn lemma_unwrap(v: Value) {
    }

    fn into_value(self) -> (v: Value) {
        Value::Isize(self)
    }

    fn from_value(v: Value) -> (r: Result<isize, Value>) {
        match v {
            Value::Isize(x) => Ok(x),
            other => Err(other),
        }
    }
}

impl Payload for String {
    open spec fn tag() -> TypeTag {
        TypeTag::Str
    }

    open spec fn wrap(self) -> Value {
        Value::Str(self)
    }

    open spec fn unwrap(v: Value) -> String {
        match v {
            Value::Str(x) => x,
            _ => arbitrary(),
        }
    }

    proof fn lemma_wrap(x: String) {
    }

    proof fn lemma_unwrap(v: Value) {
    }

    fn into_value(self) -> (v: Value) {
        Value::Str(self)
    }

    fn from_value(v: Value) -> (r: Result<String, Value>) {
        match v {
            Value::Str(x) => Ok(x),
            other => Err(other),
        }
    }
}

} // verus!
