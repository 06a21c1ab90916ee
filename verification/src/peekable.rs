//! The adapter: bounded forward peek, bounded backward peek, advancement.

use vstd::prelude::*;

use crate::deque::BoundedDeque;
use crate::item::Duplicate;
use crate::model::PeekState;
use crate::model::lemma_grow_zero;
use crate::model::lemma_recent_push;
use crate::model::lemma_take_full;
use crate::model::next_rel;
use crate::model::peek_bwd_rel;
use crate::model::peek_fwd_rel;
use crate::model::recent_of;
use crate::source::Fused;
use crate::source::Source;

verus! {

/// An adapter around a forward-only [`Source`] that adds bounded,
/// non-destructive lookahead and lookbehind.
///
/// Generic parameters:
/// - `S`: the wrapped [`Source`].  Its items must implement [`Duplicate`].
/// - `BWD_SIZE`: capacity of the backward history buffer, in elements.
/// - `FWD_SIZE`: capacity of the forward lookahead buffer, in elements.
///
/// Its abstract value is a [`PeekState`]; every operation's contract is a
/// relation over that state, stated in [`crate::model`].  While the wrapped
/// source is well behaved ([`Source::good`]), the relations fix which
/// element every operation returns; for any source at all they fix the
/// buffer bookkeeping, the pull count and the sticky exhaustion.
pub struct Peekable<S, const BWD_SIZE: usize, const FWD_SIZE: usize> where S: Source {
    cursor: Fused<S>,
    fwd_buf: BoundedDeque<S::Item, FWD_SIZE>,
    bwd_buf: BoundedDeque<S::Item, BWD_SIZE>,
    consumed: Ghost<Seq<S::Item>>,
}

impl<S, const BWD_SIZE: usize, const FWD_SIZE: usize> View for Peekable<
    S,
    BWD_SIZE,
    FWD_SIZE,
> where S: Source {
    type V = PeekState<S::Item>;

    closed spec fn view(&self) -> PeekState<S::Item> {
        PeekState {
            fwd: self.fwd_buf@,
            bwd: self.bwd_buf@,
            exhausted: self.cursor.is_exhausted(),
            consumed: self.consumed@,
            src_good: self.cursor.good(),
            upcoming: self.cursor.remaining(),
            pulls: self.cursor.pulls(),
            fwd_cap: FWD_SIZE as nat,
            bwd_cap: BWD_SIZE as nat,
        }
    }
}

impl<S, const BWD_SIZE: usize, const FWD_SIZE: usize> Peekable<S, BWD_SIZE, FWD_SIZE> where
    S: Source,
    S::Item: Duplicate,
 {
    /// The two buffers' own ring invariants.
    pub closed spec fn bufs_wf(&self) -> bool {
        &&& self.fwd_buf.wf()
        &&& self.bwd_buf.wf()
    }

    /// The adapter's invariant, established by [`Peekable::new`] and kept by
    /// every operation.
    pub open spec fn wf(&self) -> bool {
        &&& self@.wf()
        &&& self.bufs_wf()
    }

    /// Wrap a source into a new adapter: both buffers start empty, nothing
    /// has been consumed, and — the pull count being zero — nothing has
    /// been pulled from the source yet, which is not yet exhausted.
    pub fn new(source: S) -> (r: Self)
        ensures
            r.wf(),
            r@ == (PeekState::<S::Item> {
                fwd: Seq::empty(),
                bwd: Seq::empty(),
                exhausted: false,
                consumed: Seq::empty(),
                src_good: source.good(),
                upcoming: source.remaining(),
                pulls: 0,
                fwd_cap: FWD_SIZE as nat,
                bwd_cap: BWD_SIZE as nat,
            }),
    {
        let r = Peekable {
            cursor: Fused::new(source),
            fwd_buf: BoundedDeque::new(),
            bwd_buf: BoundedDeque::new(),
            consumed: Ghost(Seq::empty()),
        };
        proof {
            assert(recent_of(Seq::<S::Item>::empty(), BWD_SIZE as nat) =~= Seq::<
                S::Item,
            >::empty());
        }
        r
    }

    /// Advance by one element: drain the lookahead buffer first — without
    /// touching the source — otherwise pull once, fresh from the source.
    /// Every produced element is recorded in the backward history buffer
    /// (evicting the oldest entry when full); while the source is well
    /// behaved, a fresh pull produces exactly its next remaining element.
    /// An empty outcome leaves the source exhausted for good.
    pub fn next(&mut self) -> (r: Option<S::Item>)
        requires
            old(self).wf(),
        ensures
            final(self).wf(),
            next_rel(old(self)@, final(self)@, r),
    {
        let item = match self.fwd_buf.pop_front() {
            Some(v) => Some(v),
            None => self.cursor.pull(),
        };
        match &item {
            Some(v) => {
                let d = v.dup();
                self.bwd_buf.push_front(d);
                proof {
                    lemma_recent_push(self.consumed@, *v, BWD_SIZE as nat);
                }
                self.consumed = Ghost(self.consumed@.push(*v));
            },
            None => {},
        }
        item
    }

    /// Peek the element that the (i+1)-th future advancement would return,
    /// without consuming anything.
    ///
    /// A depth at or beyond `FWD_SIZE` is unavailable outright, and the
    /// adapter is left untouched.  Otherwise the lookahead buffer is filled
    /// from the source up to `i + 1` elements — exactly one pull per
    /// element appended, plus at most one that discovers exhaustion — and
    /// the element at position `i` is returned; if the source runs out
    /// first, the outcome is unavailable.  While the source is well
    /// behaved, the outcome is its (i+1)-th not-yet-consumed element,
    /// exactly when that element exists.  Repeating the peek without
    /// advancement returns the same outcome.
    pub fn peek_fwd_nth(&mut self, i: usize) -> (r: Option<S::Item>)
        requires
            old(self).wf(),
        ensures
            final(self).wf(),
            peek_fwd_rel(old(self)@, final(self)@, i as nat, r),
            i >= FWD_SIZE ==> r is None && final(self)@ == old(self)@,
    {
        if i < self.fwd_buf.capacity() {
            proof {
                lemma_take_full(old(self)@.fwd);
                lemma_grow_zero(old(self)@.fwd, old(self)@.upcoming);
            }
            while self.fwd_buf.len() <= i
                invariant
                    old(self).wf(),
                    self.wf(),
                    i < FWD_SIZE,
                    self@.src_good == old(self)@.src_good,
                    self@.bwd == old(self)@.bwd,
                    self@.consumed == old(self)@.consumed,
                    self@.exhausted == old(self)@.exhausted,
                    self@.fwd.len() >= old(self)@.fwd.len(),
                    self@.fwd.take(old(self)@.fwd.len() as int) == old(self)@.fwd,
                    self@.fwd.len() <= if old(self)@.fwd.len() >= i + 1 {
                        old(self)@.fwd.len() as int
                    } else {
                        i + 1
                    },
                    old(self)@.exhausted ==> self@.fwd == old(self)@.fwd,
                    self@.pulls == old(self)@.pulls + self@.fwd.len() - old(self)@.fwd.len(),
                    self@.fwd.len() == old(self)@.fwd.len() ==> self@.upcoming == old(
                        self,
                    )@.upcoming,
                    old(self)@.src_good ==> self@.fwd.len() - old(self)@.fwd.len() <= old(
                        self,
                    )@.upcoming.len(),
                    old(self)@.src_good ==> self@.fwd == old(self)@.fwd + old(
                        self,
                    )@.upcoming.take(self@.fwd.len() - old(self)@.fwd.len()),
                    old(self)@.src_good ==> self@.upcoming == old(self)@.upcoming.skip(
                        self@.fwd.len() - old(self)@.fwd.len(),
                    ),
                decreases i + 1 - self.fwd_buf@.len(),
            {
                match self.cursor.pull() {
                    Some(v) => {
                        self.fwd_buf.push_back(v);
                        proof {
                            if old(self)@.src_good {
                                assert(self@.fwd =~= old(self)@.fwd + old(self)@.upcoming.take(
                                    self@.fwd.len() - old(self)@.fwd.len(),
                                ));
                                assert(self@.upcoming =~= old(self)@.upcoming.skip(
                                    self@.fwd.len() - old(self)@.fwd.len(),
                                ));
                            }
                        }
                    },
                    None => {
                        proof {
                            lemma_grow_zero(old(self)@.fwd, old(self)@.upcoming);
                        }
                        return None;
                    },
                }
            }
            match self.fwd_buf.get(i) {
                Some(v) => Some(v.dup()),
                None => None,
            }
        } else {
            proof {
                lemma_take_full(old(self)@.fwd);
                lemma_grow_zero(old(self)@.fwd, old(self)@.upcoming);
            }
            None
        }
    }

    /// Peek the element that was produced by the (i+1)-th most recent
    /// advancement.  The adapter — source remainder and pull count included
    /// — is left exactly as it was: a backward peek never pulls from the
    /// source.
    ///
    /// Unavailable when fewer than `i + 1` advancements have happened, or
    /// when the entry has already been evicted (`i >= BWD_SIZE`).
    pub fn peek_bwd_nth(&mut self, i: usize) -> (r: Option<S::Item>)
        requires
            old(self).wf(),
        ensures
            final(self).wf(),
            peek_bwd_rel(old(self)@, final(self)@, i as nat, r),
    {
        match self.bwd_buf.get(i) {
            Some(v) => Some(v.dup()),
            None => None,
        }
    }

    /// Peek the next element: [`Peekable::peek_fwd_nth`] at depth 0.
    pub fn peek_fwd(&mut self) -> (r: Option<S::Item>)
        requires
            old(self).wf(),
        ensures
            final(self).wf(),
            peek_fwd_rel(old(self)@, final(self)@, 0, r),
    {
        self.peek_fwd_nth(0)
    }

    /// Alias for [`Peekable::peek_fwd`], for compatibility with other
    /// peekable interfaces.
    pub fn peek(&mut self) -> (r: Option<S::Item>)
        requires
            old(self).wf(),
        ensures
            final(self).wf(),
            peek_fwd_rel(old(self)@, final(self)@, 0, r),
    {
        self.peek_fwd()
    }

    /// Alias for [`Peekable::peek_fwd_nth`], for compatibility with other
    /// peekable interfaces.
    pub fn peek_nth(&mut self, i: usize) -> (r: Option<S::Item>)
        requires
            old(self).wf(),
        ensures
            final(self).wf(),
            peek_fwd_rel(old(self)@, final(self)@, i as nat, r),
    {
        self.peek_fwd_nth(i)
    }

    /// Peek the most recently consumed element:
    /// [`Peekable::peek_bwd_nth`] at depth 0.  Unavailable before the first
    /// advancement, or when `BWD_SIZE` is zero.
    pub fn peek_bwd(&mut self) -> (r: Option<S::Item>)
        requires
            old(self).wf(),
        ensures
            final(self).wf(),
            peek_bwd_rel(old(self)@, final(self)@, 0, r),
    {
        self.peek_bwd_nth(0)
    }
}

} // verus!
