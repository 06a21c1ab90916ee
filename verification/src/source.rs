//! The forward-only sequence producer and its exhaustion-idempotent wrapper.
//!
//! A [`Source`] carries its own model: a well-behaved source (`good`)
//! produces exactly its `remaining` elements, in order, and then keeps
//! reporting "no item".  A source that promises nothing declares itself not
//! good — it may even resume after reporting that it has no item.  [`Fused`]
//! wraps a source and caches the first "no item" answer, so that every later
//! pull short-circuits to "no item" without touching the source again, and
//! counts how often the inner source has been invoked.

use vstd::prelude::*;

use crate::item::Duplicate;

verus! {

/// A forward-only producer of elements: each `pull` either produces the next
/// element or reports that none is available right now.
///
/// An implementation models itself with two spec members.  A `good` source
/// produces the elements of `remaining`, front first, and reports "no item"
/// exactly when `remaining` is empty; whether a source is good never
/// changes.  A source that declares itself not good promises nothing of
/// `pull` — it may produce items again after having reported none.  The
/// adapter guards itself against such sources with [`Fused`].
pub trait Source {
    /// The type of the produced elements.
    type Item;

    /// Whether this source is well behaved: it produces exactly
    /// [`Source::remaining`], in order.
    spec fn good(&self) -> bool;

    /// The elements this source will still produce, front first.  Only a
    /// [`Source::good`] source is held to it.
    spec fn remaining(&self) -> Seq<Self::Item>;

    /// Produce the next element, or report that none is available.
    fn pull(&mut self) -> (r: Option<Self::Item>)
        ensures
            final(self).good() == old(self).good(),
            old(self).good() ==> (if old(self).remaining().len() > 0 {
                r == Some(old(self).remaining()[0]) && final(self).remaining() == old(
                    self,
                ).remaining().drop_first()
            } else {
                r is None && final(self).remaining() == old(self).remaining()
            }),
    ;
}

/// A source that hands out the elements of a vector, in order, and is then
/// exhausted.
pub struct VecSource<T> {
    items: Vec<T>,
}

impl<T> VecSource<T> {
    /// Create a source producing the elements of `items` front to back.
    pub fn new(items: Vec<T>) -> (r: Self)
        ensures
            r.good(),
            r.remaining() == items@,
    {
        VecSource { items }
    }
}

impl<T> Source for VecSource<T> {
    type Item = T;

    /// A vector source is always well behaved.
    closed spec fn good(&self) -> bool {
        true
    }

    /// It still produces exactly the elements it holds.
    closed spec fn remaining(&self) -> Seq<T> {
        self.items@
    }

    fn pull(&mut self) -> (r: Option<T>) {
        if self.items.len() == 0 {
            None
        } else {
            let v = self.items.remove(0);
            proof {
                assert(self.items@ =~= old(self).items@.drop_first());
            }
            Some(v)
        }
    }
}

/// A deliberately ill-behaved source, of the kind the exhaustion-idempotent
/// wrapper exists to guard against: it produces one element, reports "no
/// item" once, and then resumes producing forever after.  It declares
/// itself not [`Source::good`], so nothing is promised of its pulls.
pub struct ResumingSource<T> {
    phase: u8,
    early: T,
    late: T,
}

impl<T> ResumingSource<T> where T: Duplicate {
    /// A source that produces `early`, reports "no item" once, and then
    /// produces `late` on every further pull.
    pub fn new(early: T, late: T) -> Self {
        ResumingSource { phase: 0, early, late }
    }
}

impl<T> Source for ResumingSource<T> where T: Duplicate {
    type Item = T;

    /// A resuming source is not well behaved.
    closed spec fn good(&self) -> bool {
        false
    }

    /// Nothing is promised, so the remainder is immaterial.
    closed spec fn remaining(&self) -> Seq<T> {
        Seq::empty()
    }

    fn pull(&mut self) -> (r: Option<T>) {
        if self.phase == 0 {
            self.phase = 1;
            Some(self.early.dup())
        } else if self.phase == 1 {
            self.phase = 2;
            None
        } else {
            Some(self.late.dup())
        }
    }
}

/// An exhaustion-idempotent wrapper around a [`Source`]: once the inner
/// source has answered "no item" a single time, every later [`Fused::pull`]
/// answers "no item" without invoking the inner source again.  It also
/// counts the pulls made on the inner source, so that contracts can say
/// exactly how often the source is advanced.
pub struct Fused<S> where S: Source {
    inner: S,
    exhausted: bool,
    pulls: Ghost<nat>,
}

impl<S> Fused<S> where S: Source {
    /// Whether a pull has already come back empty; from then on every pull
    /// comes back empty.
    pub closed spec fn is_exhausted(&self) -> bool {
        self.exhausted
    }

    /// Whether the wrapped source is well behaved.
    pub closed spec fn good(&self) -> bool {
        self.inner.good()
    }

    /// What the wrapped source will still produce (meaningful when it is
    /// [`Fused::good`]).
    pub closed spec fn remaining(&self) -> Seq<S::Item> {
        self.inner.remaining()
    }

    /// How often the inner source has been invoked through this wrapper.
    pub closed spec fn pulls(&self) -> nat {
        self.pulls@
    }

    /// Wrap `inner`; no pull has happened yet, so nothing is exhausted.
    pub fn new(inner: S) -> (r: Self)
        ensures
            !r.is_exhausted(),
            r.pulls() == 0,
            r.good() == inner.good(),
            r.remaining() == inner.remaining(),
    {
        Fused { inner, exhausted: false, pulls: Ghost(0) }
    }

    /// Pull the next element.  Exhaustion is sticky: an empty answer is
    /// remembered and repeated forever after, whatever the inner source
    /// would do — once exhausted, the inner source is not even invoked.
    /// While the wrapped source is well behaved, the pulled element is the
    /// front of its remainder.
    pub fn pull(&mut self) -> (r: Option<S::Item>)
        ensures
            final(self).is_exhausted() == (old(self).is_exhausted() || r is None),
            old(self).is_exhausted() ==> r is None && *final(self) == *old(self),
            !old(self).is_exhausted() ==> final(self).pulls() == old(self).pulls() + 1,
            final(self).good() == old(self).good(),
            (old(self).good() && !old(self).is_exhausted()) ==> (if old(
                self,
            ).remaining().len() > 0 {
                r == Some(old(self).remaining()[0]) && final(self).remaining() == old(
                    self,
                ).remaining().drop_first()
            } else {
                r is None && final(self).remaining() == old(self).remaining()
            }),
    {
        if self.exhausted {
            None
        } else {
            self.pulls = Ghost(self.pulls@ + 1);
            let pulled = self.inner.pull();
            if pulled.is_none() {
                self.exhausted = true;
            }
            pulled
        }
    }
}

} // verus!
