//! A fixed-capacity double-ended queue with silent wrapping eviction.
//!
//! [`BoundedDeque`] is a ring over a block of `CAP` slots, allocated once at
//! construction and never grown: a head index and a length select the
//! occupied slots, wrapping around the end of the block.  Pushing into a
//! full deque silently evicts the element at the opposite end — exactly the
//! behaviour the adapter's two peek buffers rely on — and every operation
//! touches a constant number of slots.  Pushing into a deque of capacity
//! zero drops the element.

use vstd::prelude::*;

use vstd::pervasive::VecAdditionalExecFns;

verus! {

/// The contents after a wrapping push at the front: the new element becomes
/// index 0 and, if the deque was full, the oldest element (the back) is
/// evicted.  With capacity zero the deque stays empty.
pub open spec fn wrap_push_front<T>(s: Seq<T>, v: T, cap: nat) -> Seq<T> {
    if cap == 0 {
        s
    } else if s.len() < cap {
        seq![v] + s
    } else {
        seq![v] + s.take(cap - 1)
    }
}

/// The contents after a wrapping push at the back: the new element becomes
/// the last and, if the deque was full, the front element is evicted.  With
/// capacity zero the deque stays empty.
pub open spec fn wrap_push_back<T>(s: Seq<T>, v: T, cap: nat) -> Seq<T> {
    if cap == 0 {
        s
    } else if s.len() < cap {
        s.push(v)
    } else {
        s.drop_first().push(v)
    }
}

/// The slot that holds the element `k` places behind the front, in a ring of
/// `cap` slots whose front element sits in slot `head` (for
/// `0 <= head < cap` and `0 <= k <= cap`, this is `(head + k) % cap`).
spec fn slot_index(head: int, k: int, cap: int) -> int {
    if head + k < cap {
        head + k
    } else {
        head + k - cap
    }
}

/// A deque holding at most `CAP` elements, in order from front (index 0) to
/// back.  Pushes beyond capacity wrap: they evict the element at the
/// opposite end instead of growing or failing.
pub struct BoundedDeque<T, const CAP: usize> {
    slots: Vec<Option<T>>,
    head: usize,
    len: usize,
}

impl<T, const CAP: usize> View for BoundedDeque<T, CAP> {
    type V = Seq<T>;

    closed spec fn view(&self) -> Seq<T> {
        Seq::new(
            self.len as nat,
            |k: int| self.slots@[slot_index(self.head as int, k, CAP as int)].unwrap(),
        )
    }
}

impl<T, const CAP: usize> BoundedDeque<T, CAP> {
    /// The ring's internal invariant: the block holds exactly `CAP` slots,
    /// at most `CAP` of them are occupied, the head index is in range, and
    /// every occupied slot really holds an element.
    pub closed spec fn wf(&self) -> bool {
        &&& self.slots@.len() == CAP
        &&& self.len <= CAP
        &&& (CAP > 0 ==> self.head < CAP)
        &&& (CAP == 0 ==> self.head == 0)
        &&& forall|k: int|
            0 <= k < self.len ==> (#[trigger] self.slots@[slot_index(
                self.head as int,
                k,
                CAP as int,
            )]) is Some
    }

    /// Create an empty deque, allocating its `CAP` slots once and for all.
    pub fn new() -> (r: Self)
        ensures
            r@ == Seq::<T>::empty(),
            r.wf(),
    {
        let mut slots: Vec<Option<T>> = Vec::new();
        let mut k: usize = 0;
        while k < CAP
            invariant
                k <= CAP,
                slots@.len() == k,
            decreases CAP - k,
        {
            slots.push(None);
            k = k + 1;
        }
        let r = BoundedDeque { slots, head: 0, len: 0 };
        proof {
            assert(r@ =~= Seq::<T>::empty());
        }
        r
    }

    /// The number of elements currently held.
    pub fn len(&self) -> (n: usize)
        ensures
            n == self@.len(),
    {
        self.len
    }

    /// The capacity the deque was declared with.
    pub fn capacity(&self) -> (c: usize)
        ensures
            c == CAP,
    {
        CAP
    }

    /// The slot holding the element `k` places behind the front.
    fn index_at(&self, k: usize) -> (idx: usize)
        requires
            self.wf(),
            CAP > 0,
            k < CAP,
        ensures
            idx == slot_index(self.head as int, k as int, CAP as int),
            idx < CAP,
    {
        if k < CAP - self.head {
            self.head + k
        } else {
            k - (CAP - self.head)
        }
    }

    /// Read the element at position `i` from the front, without removing it.
    pub fn get(&self, i: usize) -> (r: Option<&T>)
        requires
            self.wf(),
        ensures
            i < self@.len() ==> (r matches Some(v) && *v == self@[i as int]),
            i >= self@.len() ==> r is None,
    {
        if i < self.len {
            let idx = self.index_at(i);
            match &self.slots[idx] {
                Some(v) => Some(v),
                None => None,
            }
        } else {
            None
        }
    }

    /// Remove and return the front element, if any.
    pub fn pop_front(&mut self) -> (r: Option<T>)
        requires
            old(self).wf(),
        ensures
            final(self).wf(),
            old(self)@.len() == 0 ==> r is None && final(self)@ == old(self)@,
            old(self)@.len() > 0 ==> r == Some(old(self)@[0]) && final(self)@ == old(self)@.drop_first(),
    {
        if self.len == 0 {
            None
        } else {
            let mut taken: Option<T> = None;
            self.slots.set_and_swap(self.head, &mut taken);
            self.head = if self.head + 1 == CAP {
                0
            } else {
                self.head + 1
            };
            self.len = self.len - 1;
            proof {
                assert forall|k: int| 0 <= k < self.len implies (#[trigger] self.slots@[slot_index(
                    self.head as int,
                    k,
                    CAP as int,
                )]) is Some by {
                    let j = k + 1;
                    assert(old(self).slots@[slot_index(old(self).head as int, j, CAP as int)]
                        is Some);
                    assert(slot_index(self.head as int, k, CAP as int) == slot_index(
                        old(self).head as int,
                        j,
                        CAP as int,
                    ));
                }
                assert(self@ =~= old(self)@.drop_first());
            }
            taken
        }
    }

    /// Push `v` at the front; if the deque is full, the back element is
    /// silently evicted, and with capacity zero `v` is dropped.
    pub fn push_front(&mut self, v: T)
        requires
            old(self).wf(),
        ensures
            final(self).wf(),
            final(self)@ == wrap_push_front(old(self)@, v, CAP as nat),
    {
        if CAP == 0 {
        } else {
            let new_head = if self.head == 0 {
                CAP - 1
            } else {
                self.head - 1
            };
            self.slots.set(new_head, Some(v));
            self.head = new_head;
            if self.len < CAP {
                self.len = self.len + 1;
            }
            proof {
                assert forall|k: int| 0 <= k < self.len implies (#[trigger] self.slots@[slot_index(
                    self.head as int,
                    k,
                    CAP as int,
                )]) is Some by {
                    if k > 0 {
                        let j = k - 1;
                        assert(old(self).slots@[slot_index(old(self).head as int, j, CAP as int)]
                            is Some);
                        assert(slot_index(self.head as int, k, CAP as int) == slot_index(
                            old(self).head as int,
                            j,
                            CAP as int,
                        ));
                    }
                }
                assert(self@ =~= wrap_push_front(old(self)@, v, CAP as nat));
            }
        }
    }

    /// Push `v` at the back; if the deque is full, the front element is
    /// silently evicted, and with capacity zero `v` is dropped.
    pub fn push_back(&mut self, v: T)
        requires
            old(self).wf(),
        ensures
            final(self).wf(),
            final(self)@ == wrap_push_back(old(self)@, v, CAP as nat),
    {
        if CAP == 0 {
        } else if self.len < CAP {
            let idx = self.index_at(self.len);
            self.slots.set(idx, Some(v));
            self.len = self.len + 1;
            proof {
                assert forall|k: int| 0 <= k < self.len implies (#[trigger] self.slots@[slot_index(
                    self.head as int,
                    k,
                    CAP as int,
                )]) is Some by {
                    if k < self.len - 1 {
                        assert(old(self).slots@[slot_index(old(self).head as int, k, CAP as int)]
                            is Some);
                    }
                }
                assert(self@ =~= wrap_push_back(old(self)@, v, CAP as nat));
            }
        } else {
            self.slots.set(self.head, Some(v));
            self.head = if self.head + 1 == CAP {
                0
            } else {
                self.head + 1
            };
            proof {
                assert forall|k: int| 0 <= k < self.len implies (#[trigger] self.slots@[slot_index(
                    self.head as int,
                    k,
                    CAP as int,
                )]) is Some by {
                    if k < self.len - 1 {
                        let j = k + 1;
                        assert(old(self).slots@[slot_index(old(self).head as int, j, CAP as int)]
                            is Some);
                        assert(slot_index(self.head as int, k, CAP as int) == slot_index(
                            old(self).head as int,
                            j,
                            CAP as int,
                        ));
                    } else {
                        assert(slot_index(self.head as int, k, CAP as int) == old(
                            self,
                        ).head as int);
                    }
                }
                assert(self@ =~= wrap_push_back(old(self)@, v, CAP as nat));
            }
        }
    }
}

} // verus!
