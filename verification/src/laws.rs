//! The laws of the adapter, proved from the operation relations alone.
//!
//! Every exec operation of [`crate::Peekable`] promises in its `ensures` the
//! matching relation from [`crate::model`]; the lemmas here quantify over
//! those relations, so each law holds of every sequence of calls on every
//! adapter, whatever the wrapped source does.

use vstd::prelude::*;

use crate::model::PeekState;
use crate::model::next_rel;
use crate::model::peek_bwd_rel;
use crate::model::peek_fwd_rel;
use crate::model::stream;

verus! {

/// Forward peek is idempotent: two consecutive forward peeks at the same
/// depth, with no advancement in between, return the same outcome, and the
/// second one does not change the adapter at all.
pub proof fn lemma_peek_fwd_idempotent<T>(
    s0: PeekState<T>,
    s1: PeekState<T>,
    s2: PeekState<T>,
    i: nat,
    r1: Option<T>,
    r2: Option<T>,
)
    requires
        peek_fwd_rel(s0, s1, i, r1),
        peek_fwd_rel(s1, s2, i, r2),
    ensures
        r2 == r1,
        s2 == s1,
{
    if i >= s0.fwd_cap {
        assert(s2 =~= s1);
    } else {
        match r1 {
            Option::Some(v) => {
                assert(s2.fwd.len() == s1.fwd.len());
                assert(s2.fwd.take(s1.fwd.len() as int) =~= s2.fwd);
                assert(s2 =~= s1);
            },
            Option::None => {
                assert(s2 =~= s1);
            },
        }
    }
}

/// Backward peek is idempotent: two consecutive backward peeks at the same
/// depth, with no advancement in between, return the same outcome and leave
/// the adapter untouched.
pub proof fn lemma_peek_bwd_idempotent<T>(
    s0: PeekState<T>,
    s1: PeekState<T>,
    s2: PeekState<T>,
    i: nat,
    r1: Option<T>,
    r2: Option<T>,
)
    requires
        peek_bwd_rel(s0, s1, i, r1),
        peek_bwd_rel(s1, s2, i, r2),
    ensures
        r2 == r1,
        s2 == s1,
{
}

/// Along a chain of advancements that all draw from the lookahead buffer,
/// the j-th advancement returns the j-th buffered element, and the buffer
/// shrinks from the front, one element per advancement.
proof fn lemma_advance_chain<T>(states: Seq<PeekState<T>>, results: Seq<Option<T>>, j: nat)
    requires
        states.len() == results.len() + 1,
        results.len() <= states[0].fwd.len(),
        forall|k: int|
            0 <= k < results.len() ==> #[trigger] next_rel(states[k], states[k + 1], results[k]),
        j <= results.len(),
    ensures
        states[j as int].fwd == states[0].fwd.skip(j as int),
        forall|k: int| 0 <= k < j ==> results[k] == Option::Some(states[0].fwd[k]),
    decreases j,
{
    if j == 0 {
        assert(states[0].fwd.skip(0) =~= states[0].fwd);
    } else {
        lemma_advance_chain(states, results, (j - 1) as nat);
        let prev: int = j - 1;
        assert(next_rel(states[prev], states[prev + 1], results[prev]));
        assert(states[j - 1].fwd.len() > 0);
        assert(results[j - 1] == Option::Some(states[0].fwd[j - 1]));
        assert(states[j as int].fwd =~= states[0].fwd.skip(j as int));
    }
}

/// Forward peek and advancement are consistent: if a forward peek at depth
/// `i` returns the value `v`, then among the `i + 1` advancements that
/// follow it (with nothing else in between), the last returns exactly `v`.
pub proof fn lemma_fwd_next_consistency<T>(
    pre: PeekState<T>,
    peeked: PeekState<T>,
    i: nat,
    v: T,
    states: Seq<PeekState<T>>,
    results: Seq<Option<T>>,
)
    requires
        peek_fwd_rel(pre, peeked, i, Option::Some(v)),
        states.len() == i + 2,
        results.len() == i + 1,
        states[0] == peeked,
        forall|k: int|
            0 <= k < results.len() ==> #[trigger] next_rel(states[k], states[k + 1], results[k]),
    ensures
        results[i as int] == Option::Some(v),
{
    lemma_advance_chain(states, results, (i + 1) as nat);
}

/// Capacity is a hard ceiling for forward peeks: at any depth at or beyond
/// the forward capacity the outcome is unavailable and the adapter is left
/// exactly as it was, however long the source may be.
pub proof fn lemma_fwd_capacity_ceiling<T>(
    pre: PeekState<T>,
    post: PeekState<T>,
    i: nat,
    r: Option<T>,
)
    requires
        peek_fwd_rel(pre, post, i, r),
        i >= pre.fwd_cap,
    ensures
        r is None,
        post == pre,
{
}

/// Capacity is a hard ceiling for backward peeks: once more elements have
/// been advanced past than the backward capacity retains, peeking at depth
/// `bwd_cap` is unavailable, while depth `bwd_cap - 1` still returns the
/// oldest retained element.
pub proof fn lemma_bwd_capacity_ceiling<T>(
    s: PeekState<T>,
    post_at: PeekState<T>,
    r_at: Option<T>,
    post_below: PeekState<T>,
    r_below: Option<T>,
)
    requires
        s.wf(),
        s.bwd_cap >= 1,
        s.consumed.len() > s.bwd_cap,
        peek_bwd_rel(s, post_at, s.bwd_cap, r_at),
        peek_bwd_rel(s, post_below, (s.bwd_cap - 1) as nat, r_below),
    ensures
        r_at is None,
        r_below == Option::Some(s.consumed[s.consumed.len() - s.bwd_cap]),
{
    assert(s.bwd.len() == s.bwd_cap);
}

/// An advancement that produces nothing leaves the adapter drained: the
/// lookahead buffer is empty and the source is exhausted for good.
pub proof fn lemma_next_none_drains<T>(pre: PeekState<T>, post: PeekState<T>)
    requires
        next_rel(pre, post, Option::None),
    ensures
        post.drained(),
{
}

/// Exhaustion is stable: on a drained adapter every further advancement
/// returns nothing and the adapter stays drained.  Together with
/// [`lemma_next_none_drains`]: once `next` has returned nothing, every later
/// `next` returns nothing.
pub proof fn lemma_exhaustion_stable<T>(pre: PeekState<T>, post: PeekState<T>, r: Option<T>)
    requires
        pre.drained(),
        next_rel(pre, post, r),
    ensures
        r is None,
        post.drained(),
{
}

/// Forward peeks cannot resurrect a drained adapter: they return nothing and
/// leave it drained, so exhaustion stays stable across interleaved peeks.
pub proof fn lemma_drained_fwd_peek<T>(
    pre: PeekState<T>,
    post: PeekState<T>,
    i: nat,
    r: Option<T>,
)
    requires
        pre.drained(),
        peek_fwd_rel(pre, post, i, r),
    ensures
        r is None,
        post.drained(),
{
}

/// Advancement over a well-behaved source follows its stream, skipping,
/// duplicating and reordering nothing: the total stream (consumed, then
/// buffered, then still in the source) is conserved, a produced element is
/// exactly the stream element at the cursor position — so successive
/// advancements produce the stream in order — and an element is produced
/// exactly as long as the stream has one left.
pub proof fn lemma_next_follows_stream<T>(pre: PeekState<T>, post: PeekState<T>, r: Option<T>)
    requires
        pre.wf(),
        pre.src_good,
        next_rel(pre, post, r),
    ensures
        stream(post) == stream(pre),
        r matches Some(v) ==> v == stream(pre)[pre.consumed.len() as int] && post.consumed
            == pre.consumed.push(v),
        r is Some <==> pre.consumed.len() < stream(pre).len(),
{
    match r {
        Option::Some(v) => {
            assert(stream(post) =~= stream(pre));
        },
        Option::None => {
            assert(pre.upcoming.len() == 0);
            assert(stream(post) =~= stream(pre));
        },
    }
}

/// A forward peek over a well-behaved source reads the stream without
/// changing it: at depth `i` within capacity it returns the (i+1)-th
/// not-yet-consumed stream element, exactly when that element exists.
pub proof fn lemma_peek_fwd_follows_stream<T>(
    pre: PeekState<T>,
    post: PeekState<T>,
    i: nat,
    r: Option<T>,
)
    requires
        pre.src_good,
        peek_fwd_rel(pre, post, i, r),
    ensures
        stream(post) == stream(pre),
        post.consumed == pre.consumed,
        r is Some <==> (i < pre.fwd_cap && pre.consumed.len() + i < stream(pre).len()),
        r matches Some(v) ==> v == stream(pre)[pre.consumed.len() + i as int],
{
    assert(stream(post) =~= stream(pre));
    if r is Some {
        assert(stream(pre)[pre.consumed.len() + i as int] == post.fwd[i as int]);
    }
}

/// History ordering: for every depth `k` within capacity and within the
/// number of advancements so far, the backward peek at depth `k` returns the
/// (k+1)-th most recently consumed element.  In particular, after advancing
/// past three values in order, depths 0, 1 and 2 return them newest first.
pub proof fn lemma_history_ordering<T>(
    s: PeekState<T>,
    post: PeekState<T>,
    k: nat,
    r: Option<T>,
)
    requires
        s.wf(),
        peek_bwd_rel(s, post, k, r),
        k < s.bwd_cap,
        k < s.consumed.len(),
    ensures
        r == Option::Some(s.consumed[s.consumed.len() - 1 - k]),
{
}

} // verus!
