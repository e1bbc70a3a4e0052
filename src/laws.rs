//! Laws of the channel, stated over the models that the receive operations
//! are specified with.
use vstd::prelude::*;

use crate::buffer::{park, queue_of, unpark, Queues};
use crate::buffered::{front, has_queued, settle, until};
use crate::channel::{unbuffered, AnyRecvError};
use crate::value::{Payload, TypeTag, Value};

verus! {

/// `m` with each value of `vs` parked in turn.
pub open spec fn park_all(m: Queues, vs: Seq<Value>) -> Queues
    decreases vs.len(),
{
    if vs.len() == 0 {
        m
    } else {
        park_all(park(m, vs[0]), vs.drop_first())
    }
}

/// No value of `vs` is of type `T`.
pub open spec fn none_of<T: Payload>(vs: Seq<Value>) -> bool {
    forall|i: int| 0 <= i < vs.len() ==> (#[trigger] vs[i]).tag() != T::tag()
}

/// The values of `vs` with tag `t`, in order.
pub open spec fn of_type(vs: Seq<Value>, t: TypeTag) -> Seq<Value>
    decreases vs.len(),
{
    if vs.len() == 0 {
        vs
    } else if vs[0].tag() == t {
        seq![vs[0]] + of_type(vs.drop_first(), t)
    } else {
        of_type(vs.drop_first(), t)
    }
}

/// The values of type `t` still to be received, in the order in which they
/// will come: those parked, then those on the channel `incoming`.
pub open spec fn stream(m: Queues, incoming: Seq<Value>, t: TypeTag) -> Seq<Value> {
    queue_of(m, t) + of_type(incoming, t)
}

/// Parking a value of another type leaves the queue of `T` as it was.
pub proof fn lemma_park_other<T: Payload>(m: Queues, v: Value)
    requires
        v.tag() != T::tag(),
    ensures
        queue_of(park(m, v), T::tag()) == queue_of(m, T::tag()),
{
}

/// Repeated requests for `T` park every value of another type that comes
/// before the first `T`, and then go on as if those had been parked before.
pub proof fn lemma_until_skips<T: Payload>(m: Queues, others: Seq<Value>, rest: Seq<Value>)
    requires
        !has_queued::<T>(m),
        none_of::<T>(others),
    ensures
        until::<T>(m, others + rest) == until::<T>(park_all(m, others), rest),
        !has_queued::<T>(park_all(m, others)),
    decreases others.len(),
{
    if others.len() > 0 {
        let m2 = park(m, others[0]);
        lemma_park_other::<T>(m, others[0]);
        assert((others + rest)[0] == others[0]);
        assert((others + rest).drop_first() =~= others.drop_first() + rest);
        assert forall|i: int| 0 <= i < others.drop_first().len() implies (
        #[trigger] others.drop_first()[i]).tag() != T::tag() by {
            assert(others.drop_first()[i] == others[i + 1]);
        }
        lemma_until_skips::<T>(m2, others.drop_first(), rest);
    } else {
        assert(others + rest =~= rest);
    }
}

/// Receiving until a `T` comes is a run of single rounds: a queued `T` is
/// taken first; else the channel's next value is returned if it is a `T`, or
/// parked, after which the rounds go on from the new queues.
pub proof fn law_until_rounds<T: Payload>(m: Queues, incoming: Seq<Value>)
    ensures
        has_queued::<T>(m) ==> until::<T>(m, incoming) == (
            unpark(m, T::tag()),
            incoming,
            Some(front::<T>(m)),
        ),
        !has_queued::<T>(m) && incoming.len() > 0 ==> until::<T>(m, incoming) == if settle::<T>(
            m,
            incoming[0],
        ).1 is Ok {
            (m, incoming.drop_first(), Some(T::unwrap(incoming[0])))
        } else {
            until::<T>(settle::<T>(m, incoming[0]).0, incoming.drop_first())
        },
{
}

/// Per-type order for every buffered request that looks in the buffer first:
/// a request for `T` either returns the first value of the stream of `T` and
/// takes it off, or parks a value of another type; every other stream stays
/// as it was.
pub proof fn law_streams_kept<T: Payload>(m: Queues, incoming: Seq<Value>)
    ensures
        has_queued::<T>(m) ==> stream(m, incoming, T::tag()).len() > 0 && front::<T>(m) == T::unwrap(
            stream(m, incoming, T::tag())[0],
        ) && forall|u: TypeTag| #[trigger]
            stream(unpark(m, T::tag()), incoming, u) == if u == T::tag() {
                stream(m, incoming, u).drop_first()
            } else {
                stream(m, incoming, u)
            },
        !has_queued::<T>(m) && incoming.len() > 0 ==> {
            let (m2, r) = settle::<T>(m, incoming[0]);
            &&& r is Ok ==> stream(m, incoming, T::tag()).len() > 0 && r == Ok::<T, AnyRecvError>(
                T::unwrap(stream(m, incoming, T::tag())[0]),
            )
            &&& forall|u: TypeTag| #[trigger]
                stream(m2, incoming.drop_first(), u) == if r is Ok && u == T::tag() {
                    stream(m, incoming, u).drop_first()
                } else {
                    stream(m, incoming, u)
                }
        },
{
    let t = T::tag();
    if has_queued::<T>(m) {
        let q = queue_of(m, t);
        assert forall|u: TypeTag| #[trigger]
            stream(unpark(m, t), incoming, u) == if u == t {
                stream(m, incoming, u).drop_first()
            } else {
                stream(m, incoming, u)
            } by {
            if u == t {
                if q.len() <= 1 {
                    assert(queue_of(unpark(m, t), t) =~= q.drop_first());
                }
                assert(stream(unpark(m, t), incoming, u) =~= stream(m, incoming, u).drop_first());
            } else {
                assert(queue_of(unpark(m, t), u) == queue_of(m, u));
            }
        }
        assert(stream(m, incoming, t)[0] == q[0]);
    } else if incoming.len() > 0 {
        let g = incoming[0];
        let rest = incoming.drop_first();
        let (m2, r) = settle::<T>(m, g);
        assert(queue_of(m, t) =~= Seq::<Value>::empty());
        if g.tag() == t {
            assert(stream(m, incoming, t) =~= seq![g] + of_type(rest, t));
            assert forall|u: TypeTag| #[trigger]
                stream(m2, rest, u) == if r is Ok && u == t {
                    stream(m, incoming, u).drop_first()
                } else {
                    stream(m, incoming, u)
                } by {
                if u == t {
                    assert(stream(m2, rest, u) =~= stream(m, incoming, u).drop_first());
                }
            }
        } else {
            assert forall|u: TypeTag| #[trigger]
                stream(m2, rest, u) == if r is Ok && u == t {
                    stream(m, incoming, u).drop_first()
                } else {
                    stream(m, incoming, u)
                } by {
                if u == g.tag() {
                    assert(queue_of(m2, u) == queue_of(m, u).push(g));
                    assert(of_type(incoming, u) == seq![g] + of_type(rest, u));
                    assert(stream(m2, rest, u) =~= stream(m, incoming, u));
                } else {
                    assert(queue_of(m2, u) == queue_of(m, u));
                }
            }
        }
    }
}

/// Round trip: a value sent and received as its own type comes back equal,
/// whether the receiver has no buffer or has no older value of that type
/// parked.
pub proof fn law_round_trip<T: Payload>(v: T, m: Queues)
    requires
        !has_queued::<T>(m),
    ensures
        unbuffered::<T>(v.wrap()) == Ok::<T, AnyRecvError>(v),
        settle::<T>(m, v.wrap()) == (m, Ok::<T, AnyRecvError>(v)),
        until::<T>(m, seq![v.wrap()]) == (m, Seq::<Value>::empty(), Some(v)),
{
    T::lemma_wrap(v);
    assert(seq![v.wrap()].drop_first() =~= Seq::<Value>::empty());
}

/// Per-type order: when `v1` and then `v2`, both of type `T`, are sent among
/// values of other types, two requests for `T` that go on until a `T` comes
/// give `v1` and then `v2`.
pub proof fn law_per_type_fifo<T: Payload>(
    m: Queues,
    a: Seq<Value>,
    v1: T,
    b: Seq<Value>,
    v2: T,
    c: Seq<Value>,
)
    requires
        !has_queued::<T>(m),
        none_of::<T>(a),
        none_of::<T>(b),
    ensures
        until::<T>(m, a + seq![v1.wrap()] + b + seq![v2.wrap()] + c).2 == Some(v1),
        until::<T>(
            until::<T>(m, a + seq![v1.wrap()] + b + seq![v2.wrap()] + c).0,
            until::<T>(m, a + seq![v1.wrap()] + b + seq![v2.wrap()] + c).1,
        ).2 == Some(v2),
{
    T::lemma_wrap(v1);
    T::lemma_wrap(v2);
    let rest2 = seq![v2.wrap()] + c;
    let rest1 = seq![v1.wrap()] + (b + rest2);
    let all = a + seq![v1.wrap()] + b + seq![v2.wrap()] + c;
    assert(all =~= a + rest1);
    lemma_until_skips::<T>(m, a, rest1);
    let m1 = park_all(m, a);
    assert(rest1[0] == v1.wrap());
    assert(rest1.drop_first() =~= b + rest2);
    assert(until::<T>(m, all) == (m1, b + rest2, Some(v1)));
    lemma_until_skips::<T>(m1, b, rest2);
    assert(rest2[0] == v2.wrap());
}

/// Buffering on a mismatch: a value of type `A` taken off the channel by a
/// buffered request for another type `B` is reported by its tag and parked,
/// and is the next `A` that the buffer hands out.
pub proof fn law_buffering_on_mismatch<A: Payload, B: Payload>(a: A, m: Queues)
    requires
        A::tag() != B::tag(),
        !has_queued::<A>(m),
    ensures
        settle::<B>(m, a.wrap()).1 == Err::<B, AnyRecvError>(AnyRecvError::BufRecvError(A::tag())),
        has_queued::<A>(settle::<B>(m, a.wrap()).0),
        front::<A>(settle::<B>(m, a.wrap()).0) == a,
        unpark(settle::<B>(m, a.wrap()).0, A::tag()) == m.remove(A::tag()),
{
    A::lemma_wrap(a);
    let m2 = park(m, a.wrap());
    assert(queue_of(m2, A::tag()) =~= seq![a.wrap()]);
}

/// Until-matched progress: when a `B` and then an `A` are sent, requests for
/// `A` repeated until one comes return the `A`, and the `B` waits in the
/// buffer for a request for `B`.
pub proof fn law_until_matched_progress<A: Payload, B: Payload>(a: A, b: B, m: Queues)
    requires
        A::tag() != B::tag(),
        !has_queued::<A>(m),
        !has_queued::<B>(m),
    ensures
        until::<A>(m, seq![b.wrap(), a.wrap()]) == (
            park(m, b.wrap()),
            Seq::<Value>::empty(),
            Some(a),
        ),
        has_queued::<B>(park(m, b.wrap())),
        front::<B>(park(m, b.wrap())) == b,
{
    A::lemma_wrap(a);
    B::lemma_wrap(b);
    let s = seq![b.wrap(), a.wrap()];
    lemma_park_other::<A>(m, b.wrap());
    assert(s.drop_first() =~= seq![a.wrap()]);
    assert(seq![a.wrap()].drop_first() =~= Seq::<Value>::empty());
    assert(until::<A>(park(m, b.wrap()), seq![a.wrap()]) == (
        park(m, b.wrap()),
        Seq::<Value>::empty(),
        Some(a),
    ));
    assert(queue_of(park(m, b.wrap()), B::tag()) =~= seq![b.wrap()]);
}

/// Bypass: a request that skips the buffer hands a value of another type
/// straight back in its error, so nothing of it is parked.
pub proof fn law_bypass_never_buffers<A: Payload, B: Payload>(a: A)
    requires
        A::tag() != B::tag(),
    ensures
        unbuffered::<B>(a.wrap()) == Err::<B, AnyRecvError>(AnyRecvError::WrongType(a.wrap())),
{
    A::lemma_wrap(a);
}

} // verus!
