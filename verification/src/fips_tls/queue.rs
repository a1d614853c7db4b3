//! What passes through a connection's queues: octets come in at the end, in the
//! order in which they were made, and go out at the front. Nothing is lost between.
use vstd::prelude::*;

verus! {

/// A queue grew: `all` is what ever came in, `waiting` what has not gone out. More
/// may have come in, at the end; nothing has gone out.
pub open spec fn grown(
    all: Seq<u8>,
    waiting: Seq<u8>,
    all_after: Seq<u8>,
    waiting_after: Seq<u8>,
) -> bool {
    let n = all.len() as int;
    &&& n <= all_after.len()
    &&& all_after.take(n) == all
    &&& waiting_after == waiting + all_after.skip(n)
}

/// `out` has gone out of a queue, from the front; more may have come in.
pub open spec fn handed_on(
    all: Seq<u8>,
    waiting: Seq<u8>,
    all_after: Seq<u8>,
    waiting_after: Seq<u8>,
    out: Seq<u8>,
) -> bool {
    let n = all.len() as int;
    &&& n <= all_after.len()
    &&& all_after.take(n) == all
    &&& out + waiting_after == waiting + all_after.skip(n)
}

/// A queue that stays as it is grew by nothing.
pub proof fn lemma_unchanged_is_grown(all: Seq<u8>, waiting: Seq<u8>)
    ensures
        grown(all, waiting, all, waiting),
{
    assert(all.take(all.len() as int) =~= all);
    assert(waiting + all.skip(all.len() as int) =~= waiting);
}

/// Growing twice is growing.
pub proof fn lemma_grown_twice(
    a: Seq<u8>,
    w: Seq<u8>,
    a1: Seq<u8>,
    w1: Seq<u8>,
    a2: Seq<u8>,
    w2: Seq<u8>,
)
    requires
        grown(a, w, a1, w1),
        grown(a1, w1, a2, w2),
    ensures
        grown(a, w, a2, w2),
{
    let n = a.len() as int;
    let m = a1.len() as int;
    assert(a2.take(n) =~= a2.take(m).take(n));
    assert(a1.skip(n) + a2.skip(m) =~= a2.skip(n)) by {
        assert(a2.take(m).skip(n) + a2.skip(m) =~= a2.skip(n));
    }
    assert(w2 =~= w + a2.skip(n));
}

/// What grew and was then emptied has handed on all that waited.
pub proof fn lemma_grown_then_emptied(a: Seq<u8>, w: Seq<u8>, a1: Seq<u8>, w1: Seq<u8>)
    requires
        grown(a, w, a1, w1),
    ensures
        handed_on(a, w, a1, Seq::empty(), w1),
{
    assert(w1 + Seq::<u8>::empty() =~= w1);
}

/// All that has gone out, in order.
pub open spec fn flat(outs: Seq<Seq<u8>>) -> Seq<u8>
    decreases outs.len(),
{
    if outs.len() == 0 {
        Seq::empty()
    } else {
        flat(outs.drop_last()) + outs.last()
    }
}

/// Nothing is lost, doubled or put out of order, whatever is called: what has gone
/// out of a queue in the course of some calls, with what waits in the end, is what
/// waited in the beginning, with all that has come in since.
pub proof fn law_nothing_is_lost(alls: Seq<Seq<u8>>, waitings: Seq<Seq<u8>>, outs: Seq<Seq<u8>>)
    requires
        alls.len() == outs.len() + 1,
        waitings.len() == outs.len() + 1,
        forall|k: int|
            #![trigger outs[k]]
            0 <= k < outs.len() ==> handed_on(
                alls[k],
                waitings[k],
                alls[k + 1],
                waitings[k + 1],
                outs[k],
            ),
    ensures
        handed_on(alls[0], waitings[0], alls.last(), waitings.last(), flat(outs)),
    decreases outs.len(),
{
    if outs.len() == 0 {
        lemma_unchanged_is_grown(alls[0], waitings[0]);
        assert(flat(outs) + waitings[0] =~= waitings[0]);
    } else {
        let n = outs.len() - 1;
        let (earlier_alls, earlier_waitings, earlier) = (
            alls.drop_last(),
            waitings.drop_last(),
            outs.drop_last(),
        );
        assert forall|k: int|
            #![trigger earlier[k]]
            0 <= k < earlier.len() implies handed_on(
            earlier_alls[k],
            earlier_waitings[k],
            earlier_alls[k + 1],
            earlier_waitings[k + 1],
            earlier[k],
        ) by {
            assert(outs[k] == earlier[k]);
        }
        law_nothing_is_lost(earlier_alls, earlier_waitings, earlier);
        assert(outs[n] == outs.last());
        let (a, a1, a2) = (alls[0], alls[n], alls[n + 1]);
        let (w, w1, w2) = (waitings[0], waitings[n], waitings[n + 1]);
        let (i, j) = (a.len() as int, a1.len() as int);
        assert(a2.take(i) =~= a2.take(j).take(i));
        assert(a1.skip(i) + a2.skip(j) =~= a2.skip(i)) by {
            assert(a2.take(j).skip(i) + a2.skip(j) =~= a2.skip(i));
        }
        assert(flat(outs) + w2 =~= flat(earlier) + (outs[n] + w2));
        assert(flat(earlier) + (w1 + a2.skip(j)) =~= (flat(earlier) + w1) + a2.skip(j));
        assert((w + a1.skip(i)) + a2.skip(j) =~= w + (a1.skip(i) + a2.skip(j)));
    }
}

} // verus!
