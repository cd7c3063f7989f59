//! A vector of ids kept in strictly increasing order, holding each id at most
//! once. The multiplexer stores its wait list and its ready list in this form
//! so that membership tests and removals are a binary search.

use vstd::prelude::*;

verus! {

/// A deduplicated vector of ids in strictly increasing order.
pub struct SortedVec {
    data: Vec<usize>,
}

impl View for SortedVec {
    type V = Seq<usize>;

    closed spec fn view(&self) -> Seq<usize> {
        self.data@
    }
}

impl SortedVec {
    /// Strictly increasing: sorted, and no id twice.
    pub open spec fn wf(&self) -> bool {
        forall|i: int, j: int| 0 <= i < j < self@.len() ==> self@[i] < self@[j]
    }

    /// Whether `val` is one of the stored ids.
    pub open spec fn has(&self, val: usize) -> bool {
        self@.contains(val)
    }

    /// Creates an empty `SortedVec`.
    pub fn new() -> (r: SortedVec)
        ensures
            r.wf(),
            r@ =~= Seq::<usize>::empty(),
    {
        SortedVec { data: Vec::new() }
    }

    /// How many ids are stored.
    pub fn len(&self) -> (r: usize)
        ensures
            r == self@.len(),
    {
        self.data.len()
    }

    /// The id at position `i`.
    pub fn get(&self, i: usize) -> (r: usize)
        requires
            i < self@.len(),
        ensures
            r == self@[i as int],
    {
        self.data[i]
    }

    /// The position of the first id that is not below `val`; every id before
    /// it is smaller than `val`, every id from it on is at least `val`.
    fn lower_bound(&self, val: usize) -> (r: usize)
        requires
            self.wf(),
        ensures
            r <= self@.len(),
            forall|i: int| 0 <= i < r ==> self@[i] < val,
            forall|i: int| r <= i < self@.len() ==> val <= self@[i],
    {
        let mut left: usize = 0;
        let mut right: usize = self.data.len();
        while left != right
            invariant
                left <= right <= self@.len(),
                self.wf(),
                forall|i: int| 0 <= i < left ==> self@[i] < val,
                forall|i: int| right <= i < self@.len() ==> val <= self@[i],
            decreases right - left,
        {
            let middle = left + (right - left) / 2;
            if val <= self.data[middle] {
                right = middle;
            } else {
                left = middle + 1;
            }
        }
        left
    }

    /// Inserts `val` at its sorted position; an id already present stays stored once.
    pub fn insert(&mut self, val: usize)
        requires
            old(self).wf(),
        ensures
            final(self).wf(),
            forall|x: usize| final(self).has(x) <==> old(self).has(x) || x == val,
            final(self)@.len() == old(self)@.len() + (if old(self).has(val) {
                0int
            } else {
                1int
            }),
    {
        let pos = self.lower_bound(val);
        if pos == self.data.len() || *(&self.data[pos]) != val {
            assert(forall|i: int|
                0 <= i < self@.len() ==> self@[i] != val) by {
                assert(forall|i: int| 0 <= i < pos ==> self@[i] < val);
                assert(forall|i: int|
                    pos < i < self@.len() ==> self@[pos as int] <= self@[i] ==> val < self@[i]);
            }
            self.data.insert(pos, val);
            assert forall|x: usize| final(self).has(x) implies old(self).has(x) || x == val by {
                let k = choose|k: int| 0 <= k < self@.len() && self@[k] == x;
                if k < pos {
                    assert(old(self)@[k] == x);
                } else if k > pos {
                    assert(old(self)@[k - 1] == x);
                }
            }
            assert forall|x: usize| old(self).has(x) implies final(self).has(x) by {
                let k = choose|k: int| 0 <= k < old(self)@.len() && old(self)@[k] == x;
                if k < pos {
                    assert(self@[k] == x);
                } else {
                    assert(self@[k + 1] == x);
                }
            }
            assert(self@[pos as int] == val);
        } else {
            assert(old(self).has(val));
        }
    }

    /// Whether `val` is stored, by binary search.
    pub fn contains(&self, val: usize) -> (r: bool)
        requires
            self.wf(),
        ensures
            r == self.has(val),
    {
        let pos = self.lower_bound(val);
        if pos < self.data.len() && *(&self.data[pos]) == val {
            true
        } else {
            assert(forall|i: int| 0 <= i < self@.len() ==> self@[i] != val);
            false
        }
    }

    /// Removes `val` if it is stored. Returns `true` iff it was.
    pub fn remove(&mut self, val: usize) -> (r: bool)
        requires
            old(self).wf(),
        ensures
            final(self).wf(),
            r == old(self).has(val),
            forall|x: usize| final(self).has(x) <==> old(self).has(x) && x != val,
            final(self)@.len() == old(self)@.len() - (if old(self).has(val) {
                1int
            } else {
                0int
            }),
    {
        let pos = self.lower_bound(val);
        if pos < self.data.len() && *(&self.data[pos]) == val {
            self.data.remove(pos);
            assert forall|x: usize| final(self).has(x) implies old(self).has(x) && x != val by {
                let k = choose|k: int| 0 <= k < self@.len() && self@[k] == x;
                if k < pos {
                    assert(old(self)@[k] == x);
                } else {
                    assert(old(self)@[k + 1] == x);
                }
            }
            assert forall|x: usize| old(self).has(x) && x != val implies final(self).has(x) by {
                let k = choose|k: int| 0 <= k < old(self)@.len() && old(self)@[k] == x;
                if k < pos {
                    assert(self@[k] == x);
                } else {
                    assert(old(self)@[pos as int] == val);
                    assert(self@[k - 1] == x);
                }
            }
            true
        } else {
            assert(forall|i: int| 0 <= i < self@.len() ==> self@[i] != val);
            false
        }
    }
}

} // verus!
