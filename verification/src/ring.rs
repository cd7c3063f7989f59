//! The fixed-capacity circular buffer that the bounded channel flavors store
//! their messages in: an array of slots, a read position, and a length. A
//! value lives in slot `(read_pos + i) % capacity` where `i` is its distance
//! from the front; slots outside that window are empty.

use vstd::prelude::*;
use vstd::arithmetic::div_mod::{
    lemma_mod_bound, lemma_mod_sub_multiples_vanish, lemma_small_mod,
};
use vstd::pervasive::VecAdditionalExecFns;

verus! {

/// Whether `c` is a power of two.
pub open spec fn is_pow2(c: nat) -> bool
    decreases c,
{
    if c == 0 {
        false
    } else if c == 1 {
        true
    } else {
        c % 2 == 0 && is_pow2(c / 2)
    }
}

/// Powers of two are at least a factor of two apart.
pub proof fn lemma_pow2_double_le(a: nat, b: nat)
    requires
        is_pow2(a),
        is_pow2(b),
        a < b,
    ensures
        2 * a <= b,
    decreases a,
{
    if a == 1 {
        assert(b % 2 == 0);
    } else {
        assert(a % 2 == 0 && b % 2 == 0);
        lemma_pow2_double_le(a / 2, b / 2);
    }
}

/// The smallest power of two that is at least `n`, and at least 1. Bounded
/// buffers round a requested capacity up to this, so that modular indexing
/// stays cheap.
pub fn next_pow2(n: usize) -> (r: usize)
    requires
        n <= usize::MAX / 2 + 1,
    ensures
        is_pow2(r as nat),
        r >= n,
        r >= 1,
        n > 1 ==> r / 2 < n,
        n >= 1 ==> r < 2 * n,
        n <= 1 ==> r == 1,
        forall|p: nat| is_pow2(p) && p >= n ==> r <= p,
{
    let mut c: usize = 1;
    while c < n
        invariant
            is_pow2(c as nat),
            1 <= c,
            n <= usize::MAX / 2 + 1,
            n > 1 ==> c / 2 < n,
            n <= 1 ==> c == 1,
            n == 0 || c < 2 * n,
            forall|p: nat| is_pow2(p) && p >= n ==> c <= p,
        decreases 2 * n - c,
    {
        proof {
            assert forall|p: nat| is_pow2(p) && p >= n implies 2 * c <= p by {
                lemma_pow2_double_le(c as nat, p);
            }
        }
        c = c * 2;
    }
    c
}

pub(crate) struct RingBuf<T> {
    buf: Vec<Option<T>>,
    read_pos: usize,
    len: usize,
}

impl<T> RingBuf<T> {
    /// The number of slots.
    pub(crate) closed spec fn cap(&self) -> int {
        self.buf@.len() as int
    }

    /// The slot that the value at distance `i` from the front occupies.
    pub(crate) closed spec fn slot_of(&self, i: int) -> int {
        (self.read_pos + i) % self.cap()
    }

    /// The slots form a window of `len` occupied cells starting at `read_pos`.
    pub(crate) closed spec fn wf(&self) -> bool {
        &&& 1 <= self.cap()
        &&& self.read_pos < self.cap()
        &&& self.len <= self.cap()
        &&& forall|k: int|
            0 <= k < self.cap() ==> ((#[trigger] self.buf@[k]) is Some <==> exists|i: int|
                0 <= i < self.len && self.slot_of(i) == k)
    }

    /// The stored values, oldest first.
    pub(crate) closed spec fn view(&self) -> Seq<T> {
        Seq::new(self.len as nat, |i: int| self.buf@[self.slot_of(i)]->Some_0)
    }

    proof fn lemma_slot_in_range(&self, i: int)
        requires
            self.cap() >= 1,
            i >= 0,
        ensures
            0 <= self.slot_of(i) < self.cap(),
    {
        lemma_mod_bound(self.read_pos + i, self.cap());
    }

    /// Distinct distances within one rotation use distinct slots.
    proof fn lemma_slot_injective(&self, i: int, j: int)
        requires
            self.cap() >= 1,
            self.read_pos < self.cap(),
            0 <= i < self.cap(),
            0 <= j < self.cap(),
        ensures
            (self.slot_of(i) == self.slot_of(j)) == (i == j),
    {
        let cap = self.cap();
        let r = self.read_pos as int;
        assert forall|x: int| 0 <= x < cap implies #[trigger] ((r + x) % cap) == if r + x < cap {
            r + x
        } else {
            r + x - cap
        } by {
            if r + x < cap {
                lemma_small_mod((r + x) as nat, cap as nat);
            } else {
                lemma_mod_sub_multiples_vanish(r + x, cap);
                lemma_small_mod((r + x - cap) as nat, cap as nat);
            }
        }
    }

    /// Creates a buffer of `cap` empty slots.
    pub(crate) fn new(cap: usize) -> (r: RingBuf<T>)
        requires
            1 <= cap,
        ensures
            r.wf(),
            r.view() =~= Seq::<T>::empty(),
            r.cap() == cap,
    {
        let mut buf: Vec<Option<T>> = Vec::new();
        let mut k: usize = 0;
        while k < cap
            invariant
                k <= cap,
                buf@.len() == k,
                forall|j: int| 0 <= j < k ==> (#[trigger] buf@[j]) is None,
            decreases cap - k,
        {
            buf.push(None);
            k += 1;
        }
        RingBuf { buf, read_pos: 0, len: 0 }
    }

    pub(crate) fn len(&self) -> (r: usize)
        ensures
            r == self.view().len(),
    {
        self.len
    }

    /// A well-formed buffer never holds more values than it has slots.
    pub(crate) proof fn lemma_len_le_cap(&self)
        requires
            self.wf(),
        ensures
            self.view().len() <= self.cap(),
    {
    }

    pub(crate) fn capacity(&self) -> (r: usize)
        ensures
            r == self.cap(),
    {
        self.buf.len()
    }

    /// Stores `v` behind the youngest value.
    pub(crate) fn push(&mut self, v: T)
        requires
            old(self).wf(),
            old(self).view().len() < old(self).cap(),
        ensures
            final(self).wf(),
            final(self).cap() == old(self).cap(),
            final(self).view() =~= old(self).view().push(v),
    {
        proof {
            self.lemma_slot_in_range(self.len as int);
        }
        let room = self.buf.len() - self.read_pos;
        let idx = if self.len < room {
            self.read_pos + self.len
        } else {
            self.len - room
        };
        proof {
            let cap = self.cap();
            let r = self.read_pos as int;
            let l = self.len as int;
            if r + l < cap {
                lemma_small_mod((r + l) as nat, cap as nat);
            } else {
                lemma_mod_sub_multiples_vanish(r + l, cap);
                lemma_small_mod((r + l - cap) as nat, cap as nat);
            }
            assert(idx == self.slot_of(l));
            // The target slot is outside the window, hence empty.
            if self.buf@[idx as int] is Some {
                let i = choose|i: int| 0 <= i < l && self.slot_of(i) == idx;
                self.lemma_slot_injective(i, l);
                assert(false);
            }
        }
        let ghost pre = *self;
        self.buf.set(idx, Some(v));
        self.len = self.len + 1;
        proof {
            assert forall|k: int|
                0 <= k < self.cap() implies ((#[trigger] self.buf@[k]) is Some <==> exists|i: int|
                0 <= i < self.len && self.slot_of(i) == k) by {
                if k == idx {
                    assert(self.slot_of(pre.len as int) == k);
                } else {
                    if exists|i: int| 0 <= i < self.len && self.slot_of(i) == k {
                        let i = choose|i: int| 0 <= i < self.len && self.slot_of(i) == k;
                        assert(0 <= i < pre.len && pre.slot_of(i) == k);
                    }
                    if pre.buf@[k] is Some {
                        let i = choose|i: int| 0 <= i < pre.len && pre.slot_of(i) == k;
                        assert(self.slot_of(i) == k);
                    }
                }
            }
            assert forall|i: int| 0 <= i < pre.len implies self.view()[i] == pre.view()[i] by {
                pre.lemma_slot_injective(i, pre.len as int);
            }
        }
    }

    /// Takes the oldest value out.
    pub(crate) fn pop(&mut self) -> (r: T)
        requires
            old(self).wf(),
            old(self).view().len() > 0,
        ensures
            final(self).wf(),
            final(self).cap() == old(self).cap(),
            r == old(self).view()[0],
            final(self).view() =~= old(self).view().drop_first(),
    {
        proof {
            lemma_small_mod(self.read_pos as nat, self.cap() as nat);
            assert(self.slot_of(0) == self.read_pos as int);
            assert(exists|i: int| 0 <= i < self.len && self.slot_of(i) == self.read_pos as int);
        }
        let ghost pre = *self;
        let mut taken: Option<T> = None;
        self.buf.set_and_swap(self.read_pos, &mut taken);
        let head = self.read_pos;
        self.read_pos = if self.read_pos < self.buf.len() - 1 {
            self.read_pos + 1
        } else {
            0
        };
        self.len = self.len - 1;
        proof {
            let cap = pre.cap();
            // The new window is the old one shifted by one.
            assert forall|i: int| 0 <= i implies self.slot_of(i) == pre.slot_of(i + 1) by {
                if pre.read_pos + 1 == cap {
                    lemma_mod_sub_multiples_vanish(cap + i, cap);
                    assert(self.slot_of(i) == (0 + i) % cap);
                    assert(pre.slot_of(i + 1) == (-cap + (cap + i)) % cap);
                }
            }
            assert forall|k: int|
                0 <= k < self.cap() implies ((#[trigger] self.buf@[k]) is Some <==> exists|i: int|
                0 <= i < self.len && self.slot_of(i) == k) by {
                if k == head as int {
                    if exists|i: int| 0 <= i < self.len && self.slot_of(i) == k {
                        let i = choose|i: int| 0 <= i < self.len && self.slot_of(i) == k;
                        pre.lemma_slot_injective(i + 1, 0);
                    }
                } else {
                    if exists|i: int| 0 <= i < self.len && self.slot_of(i) == k {
                        let i = choose|i: int| 0 <= i < self.len && self.slot_of(i) == k;
                        assert(0 <= i + 1 < pre.len && pre.slot_of(i + 1) == k);
                    }
                    if pre.buf@[k] is Some {
                        let i = choose|i: int| 0 <= i < pre.len && pre.slot_of(i) == k;
                        pre.lemma_slot_injective(i, 0);
                        assert(0 <= i - 1 < self.len && self.slot_of(i - 1) == k);
                    }
                }
            }
            assert forall|i: int| 0 <= i < self.len implies self.view()[i] == pre.view()[i + 1] by {
                pre.lemma_slot_injective(i + 1, 0);
            }
            assert(taken == Some(pre.view()[0]));
        }
        taken.unwrap()
    }
}

} // verus!
