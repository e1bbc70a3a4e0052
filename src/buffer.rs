//! The per-type retry buffer: a FIFO queue of parked values for each type tag.
use vstd::prelude::*;

use crate::value::{Payload, TypeTag, Value};
use dfb::Dfb;

verus! {

/// Queues of parked values, by the tag of the type of their values.
pub type Queues = Map<TypeTag, Seq<Value>>;

#[verifier::external_type_specification]
#[verifier::external_body]
pub struct ExDfb(Dfb);

/// The queues that a buffer holds, by the tag of the type of their values.
pub uninterp spec fn dfb_queues(b: Dfb) -> Queues;

/// The queue held for tag `t`; empty where there is none.
pub open spec fn queue_of(m: Queues, t: TypeTag) -> Seq<Value> {
    if m.contains_key(t) {
        m[t]
    } else {
        Seq::empty()
    }
}

/// `m` with `v` appended to the back of the queue of its type.
pub open spec fn park(m: Queues, v: Value) -> Queues {
    m.insert(v.tag(), queue_of(m, v.tag()).push(v))
}

/// `m` with the front of the queue for `t` taken off; a queue left empty goes.
pub open spec fn unpark(m: Queues, t: TypeTag) -> Queues {
    if queue_of(m, t).len() <= 1 {
        m.remove(t)
    } else {
        m.insert(t, queue_of(m, t).drop_first())
    }
}

/// Every queue holds only values of the type of its tag, and none is empty.
pub open spec fn queues_wf(m: Queues) -> bool {
    &&& forall|t: TypeTag, i: int|
        #![trigger queue_of(m, t)[i]]
        0 <= i < queue_of(m, t).len() ==> queue_of(m, t)[i].tag() == t
    &&& forall|t: TypeTag| #[trigger] m.contains_key(t) ==> m[t].len() > 0
}

/// Relies on dfb::Dfb::new: a new buffer holds no queue.
pub assume_specification[ Dfb::new ]() -> (r: Dfb)
    ensures
        dfb_queues(r) == Queues::empty(),
;

/// Relies on dfb::Dfb::insert: the value goes to the back of the queue kept
/// for its type, which is made if there was none.
#[verifier::external_body]
fn stash<T: Payload>(buf: &mut Dfb, x: T)
    ensures
        dfb_queues(*final(buf)) == park(dfb_queues(*old(buf)), x.wrap()),
{
    buf.insert(x)
}

/// Relies on dfb::Dfb::remove: the front of the queue kept for `T` is taken
/// off and returned, and a queue left empty is dropped. It unwraps a downcast,
/// so the front must be of type `T`.
#[verifier::external_body]
fn unstash<T: Payload>(buf: &mut Dfb) -> (r: Option<T>)
    requires
        queue_of(dfb_queues(*old(buf)), T::tag()).len() > 0 ==> queue_of(
            dfb_queues(*old(buf)),
            T::tag(),
        )[0].tag() == T::tag(),
    ensures
        dfb_queues(*final(buf)) == unpark(dfb_queues(*old(buf)), T::tag()),
        queue_of(dfb_queues(*old(buf)), T::tag()).len() > 0 ==> r == Some(
            T::unwrap(queue_of(dfb_queues(*old(buf)), T::tag())[0]),
        ),
        queue_of(dfb_queues(*old(buf)), T::tag()).len() == 0 ==> r is None,
{
    buf.remove::<T>()
}

/// Appends `v` to the back of the queue of its type.
pub fn insert_value(buf: &mut Dfb, v: Value)
    ensures
        dfb_queues(*final(buf)) == park(dfb_queues(*old(buf)), v),
{
    match v {
        Value::Bool(x) => stash(buf, x),
        Value::Char(x) => stash(buf, x),
        Value::U8(x) => stash(buf, x),
        Value::U16(x) => stash(buf, x),
        Value::U32(x) => stash(buf, x),
        Value::U64(x) => stash(buf, x),
        Value::Usize(x) => stash(buf, x),
        Value::I8(x) => stash(buf, x),
        Value::I16(x) => stash(buf, x),
        Value::I32(x) => stash(buf, x),
        Value::I64(x) => stash(buf, x),
        Value::Isize(x) => stash(buf, x),
        Value::Str(x) => stash(buf, x),
    }
}

/// Takes the front of the queue of `T` off the buffer, if there is one.
pub fn remove_value<T: Payload>(buf: &mut Dfb) -> (r: Option<T>)
    requires
        queues_wf(dfb_queues(*old(buf))),
    ensures
        dfb_queues(*final(buf)) == unpark(dfb_queues(*old(buf)), T::tag()),
        queue_of(dfb_queues(*old(buf)), T::tag()).len() > 0 ==> r == Some(
            T::unwrap(queue_of(dfb_queues(*old(buf)), T::tag())[0]),
        ),
        queue_of(dfb_queues(*old(buf)), T::tag()).len() == 0 ==> r is None && dfb_queues(
            *final(buf),
        ) == dfb_queues(*old(buf)),
        queues_wf(dfb_queues(*final(buf))),
{
    proof {
        lemma_unpark_wf(dfb_queues(*buf), T::tag());
        if queue_of(dfb_queues(*buf), T::tag()).len() == 0 {
            assert(unpark(dfb_queues(*buf), T::tag()) =~= dfb_queues(*buf));
        }
    }
    let r = unstash::<T>(buf);
    r
}

/// Taking a value off a well-formed buffer keeps it well-formed.
pub proof fn lemma_unpark_wf(m: Queues, t: TypeTag)
    requires
        queues_wf(m),
    ensures
        queues_wf(unpark(m, t)),
{
    let r = unpark(m, t);
    assert forall|u: TypeTag, i: int| 0 <= i < queue_of(r, u).len() implies queue_of(r, u)[i].tag()
        == u by {
        if u == t && queue_of(m, t).len() > 1 {
            assert(queue_of(r, u)[i] == queue_of(m, t)[i + 1]);
        } else if u != t {
            assert(queue_of(r, u) == queue_of(m, u));
        }
    }
}

/// Parking a value keeps a buffer well-formed.
pub proof fn lemma_park_wf(m: Queues, v: Value)
    requires
        queues_wf(m),
    ensures
        queues_wf(park(m, v)),
{
    let r = park(m, v);
    assert forall|u: TypeTag, i: int| 0 <= i < queue_of(r, u).len() implies queue_of(r, u)[i].tag()
        == u by {
        if u == v.tag() {
            if i < queue_of(m, u).len() {
                assert(queue_of(r, u)[i] == queue_of(m, u)[i]);
            }
        } else {
            assert(queue_of(r, u) == queue_of(m, u));
        }
    }
}

} // verus!
