//! The mathematical model of the adapter.
//!
//! A [`PeekState`] is the abstract value of a [`crate::Peekable`]: the two
//! buffer contents, the sticky exhaustion flag, the full record of what
//! advancement has produced so far, the wrapped source's model (whether it
//! is well behaved, what it still holds, and how often it has been pulled),
//! and the two capacities.  The spec functions [`next_rel`],
//! [`peek_fwd_rel`] and [`peek_bwd_rel`] say exactly how each operation
//! relates the state before the call, the state after it and the returned
//! outcome; the exec methods promise these relations in their `ensures`,
//! and the laws in [`crate::laws`] are proved from them.

use vstd::prelude::*;

use crate::deque::wrap_push_front;

verus! {

/// The abstract state of an adapter.
#[verifier::ext_equal]
pub ghost struct PeekState<T> {
    /// The forward lookahead buffer: index 0 is the next element that
    /// advancement will return, index k is k steps further ahead.
    pub fwd: Seq<T>,
    /// The backward history buffer: index 0 is the most recently consumed
    /// element, index k is k elements further in the past.
    pub bwd: Seq<T>,
    /// Whether the wrapped source has reported exhaustion; sticky.
    pub exhausted: bool,
    /// Every element advancement has produced so far, oldest first.
    pub consumed: Seq<T>,
    /// Whether the wrapped source is well behaved: it produces exactly
    /// `upcoming`, in order.
    pub src_good: bool,
    /// What the wrapped source will still produce, front first (meaningful
    /// when `src_good`).
    pub upcoming: Seq<T>,
    /// How often the wrapped source has been pulled so far.
    pub pulls: nat,
    /// Capacity of the forward lookahead buffer.
    pub fwd_cap: nat,
    /// Capacity of the backward history buffer.
    pub bwd_cap: nat,
}

/// How many of the `consumed` elements the history retains: all of them,
/// capped at `cap`.
pub open spec fn recent_len<T>(consumed: Seq<T>, cap: nat) -> nat {
    if consumed.len() <= cap {
        consumed.len()
    } else {
        cap
    }
}

/// The retained history of `consumed`: its most recent elements, most recent
/// first, at most `cap` of them.
pub open spec fn recent_of<T>(consumed: Seq<T>, cap: nat) -> Seq<T> {
    Seq::new(recent_len(consumed, cap), |k: int| consumed[consumed.len() - 1 - k])
}

impl<T> PeekState<T> {
    /// The adapter's invariant: the forward buffer never exceeds its
    /// capacity, the backward buffer holds exactly the retained history of
    /// everything consumed so far, and a well-behaved source that has
    /// reported exhaustion has nothing left.
    pub open spec fn wf(self) -> bool {
        &&& self.fwd.len() <= self.fwd_cap
        &&& self.bwd == recent_of(self.consumed, self.bwd_cap)
        &&& (self.src_good && self.exhausted ==> self.upcoming.len() == 0)
    }

    /// Nothing is left: the source is exhausted and the lookahead buffer is
    /// empty, so advancement and forward peeks return nothing, forever.
    pub open spec fn drained(self) -> bool {
        self.exhausted && self.fwd.len() == 0
    }
}

/// The total stream of an adapter over a well-behaved source: everything
/// advancement has already produced, everything buffered ahead of the
/// cursor, and everything the source still holds — in production order.
pub open spec fn stream<T>(s: PeekState<T>) -> Seq<T> {
    s.consumed + s.fwd + s.upcoming
}

/// Both capacities are fixed at construction and never change.
pub open spec fn caps_fixed<T>(pre: PeekState<T>, post: PeekState<T>) -> bool {
    &&& post.fwd_cap == pre.fwd_cap
    &&& post.bwd_cap == pre.bwd_cap
}

/// How one advancement relates the state before the call, the state after it
/// and the produced outcome `r`.
///
/// A produced element comes from the front of the lookahead buffer if that
/// is non-empty — without touching the source — otherwise from a single
/// fresh pull; either way it is appended to the consumption record and
/// pushed onto the history with wrapping eviction.  While the source is well
/// behaved, a fresh pull produces exactly the front of `upcoming`, and an
/// empty outcome happens exactly when nothing is buffered and nothing is
/// left.  An empty outcome changes no buffer and leaves the source
/// exhausted.
pub open spec fn next_rel<T>(pre: PeekState<T>, post: PeekState<T>, r: Option<T>) -> bool {
    &&& caps_fixed(pre, post)
    &&& post.src_good == pre.src_good
    &&& match r {
        Option::Some(v) => {
            &&& post.consumed == pre.consumed.push(v)
            &&& post.bwd == wrap_push_front(pre.bwd, v, pre.bwd_cap)
            &&& if pre.fwd.len() > 0 {
                &&& v == pre.fwd[0]
                &&& post.fwd == pre.fwd.drop_first()
                &&& post.exhausted == pre.exhausted
                &&& post.pulls == pre.pulls
                &&& post.upcoming == pre.upcoming
            } else {
                &&& post.fwd == pre.fwd
                &&& !pre.exhausted
                &&& !post.exhausted
                &&& post.pulls == pre.pulls + 1
                &&& (pre.src_good ==> pre.upcoming.len() > 0 && v == pre.upcoming[0]
                    && post.upcoming == pre.upcoming.drop_first())
            }
        },
        Option::None => {
            &&& pre.fwd.len() == 0
            &&& post.fwd == pre.fwd
            &&& post.bwd == pre.bwd
            &&& post.consumed == pre.consumed
            &&& post.exhausted
            &&& post.pulls == pre.pulls + (if pre.exhausted {
                0int
            } else {
                1int
            })
            &&& (pre.exhausted ==> post.upcoming == pre.upcoming)
            &&& (pre.src_good && !pre.exhausted ==> pre.upcoming.len() == 0 && post.upcoming
                == pre.upcoming)
        },
    }
}

/// How one forward peek at depth `i` relates the state before the call, the
/// state after it and the outcome `r`.
///
/// A depth at or beyond capacity returns nothing and changes nothing.
/// Below capacity, the lookahead buffer is topped up from the source to
/// `i + 1` elements if possible and the element at index `i` is returned;
/// if the source runs out first, the outcome is empty and the buffer
/// stopped short at the exhaustion point.  The source is pulled exactly
/// once per element appended, plus once to discover exhaustion — never
/// after exhaustion, and not at all when nothing is appended.  While the
/// source is well behaved, the appended elements are exactly the front of
/// `upcoming`, and the outcome is an element exactly when the stream still
/// holds one at depth `i`.  The history, the consumption record and the
/// already buffered elements are untouched.
pub open spec fn peek_fwd_rel<T>(
    pre: PeekState<T>,
    post: PeekState<T>,
    i: nat,
    r: Option<T>,
) -> bool {
    let appended: int = post.fwd.len() - pre.fwd.len();
    &&& caps_fixed(pre, post)
    &&& post.src_good == pre.src_good
    &&& post.bwd == pre.bwd
    &&& post.consumed == pre.consumed
    &&& post.fwd.len() >= pre.fwd.len()
    &&& post.fwd.take(pre.fwd.len() as int) == pre.fwd
    &&& (pre.exhausted ==> post.exhausted && post.fwd == pre.fwd)
    &&& post.pulls == pre.pulls + appended + (if post.exhausted && !pre.exhausted {
        1int
    } else {
        0int
    })
    &&& (post.pulls == pre.pulls ==> post.upcoming == pre.upcoming)
    &&& (pre.src_good ==> {
        &&& appended <= pre.upcoming.len()
        &&& post.fwd == pre.fwd + pre.upcoming.take(appended)
        &&& post.upcoming == pre.upcoming.skip(appended)
    })
    &&& (pre.src_good ==> (r is Some <==> i < pre.fwd_cap && i < pre.fwd.len()
        + pre.upcoming.len()))
    &&& if i >= pre.fwd_cap {
        post == pre && r is None
    } else {
        match r {
            Option::Some(v) => {
                &&& post.fwd.len() == if pre.fwd.len() >= i + 1 {
                    pre.fwd.len()
                } else {
                    i + 1
                }
                &&& v == post.fwd[i as int]
                &&& post.exhausted == pre.exhausted
            },
            Option::None => {
                &&& post.exhausted
                &&& post.fwd.len() <= i
            },
        }
    }
}

/// How one backward peek at depth `i` relates the state before the call,
/// the state after it and the outcome `r`: the state — including the
/// source's remainder and the pull count, so the source is never touched —
/// is exactly as before, and `r` is the element at index `i` of the
/// history, or nothing when the history is too short (too few advancements
/// yet, or depth at or beyond capacity).
pub open spec fn peek_bwd_rel<T>(
    pre: PeekState<T>,
    post: PeekState<T>,
    i: nat,
    r: Option<T>,
) -> bool {
    &&& post == pre
    &&& r == if i < pre.bwd.len() {
        Option::Some(pre.bwd[i as int])
    } else {
        Option::None::<T>
    }
}

/// Taking the whole of a sequence leaves it unchanged.
pub proof fn lemma_take_full<T>(s: Seq<T>)
    ensures
        s.take(s.len() as int) == s,
{
    assert(s.take(s.len() as int) =~= s);
}

/// Appending nothing leaves a sequence unchanged, and skipping nothing
/// keeps it whole.
pub proof fn lemma_grow_zero<T>(s: Seq<T>, t: Seq<T>)
    ensures
        s + t.take(0) == s,
        t.skip(0) == t,
{
    assert(s + t.take(0) =~= s);
    assert(t.skip(0) =~= t);
}

/// Pushing a freshly consumed element onto a history that retains the last
/// `cap` consumed elements retains exactly the last `cap` elements of the
/// grown consumption record.
pub proof fn lemma_recent_push<T>(consumed: Seq<T>, v: T, cap: nat)
    ensures
        wrap_push_front(recent_of(consumed, cap), v, cap) == recent_of(consumed.push(v), cap),
{
    assert(wrap_push_front(recent_of(consumed, cap), v, cap) =~= recent_of(
        consumed.push(v),
        cap,
    ));
}

} // verus!
