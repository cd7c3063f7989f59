//! A structure for polling channels and other objects.
//!
//! A `Select` keeps a *wait list* of the channel ids it watches and a
//! deduplicated sorted *ready list* of the ids signaled as possibly ready
//! since the last check. Adding a selectable registers the multiplexer in the
//! selectable's wait queue and, when the selectable is already ready, puts its
//! id on the ready list at once. A selectable that becomes ready later reports
//! the registered multiplexer ids through its wait queue; the owner of both
//! sides relays each such report by calling `add_ready` on the multiplexer.
//!
//! `wait` copies a prefix of the ready list into the caller's buffer, after
//! dropping the ids that are no longer on the wait list. An empty multiplexer
//! yields an empty prefix immediately. Suspending until an id turns ready is
//! the affair of the thread shell around this crate, which parks on its own
//! condition variable and calls `check_ready_list` each time it is woken.

use vstd::prelude::*;
use vstd::pervasive::VecAdditionalExecFns;

use crate::sortedvec::SortedVec;

verus! {

/// The sequence `s` with the first occurrence of `id` taken out; `s` itself
/// when `id` does not occur.
pub open spec fn remove_first_id(s: Seq<usize>, id: usize) -> Seq<usize>
    decreases s.len(),
{
    if s.len() == 0 {
        s
    } else if s[0] == id {
        s.drop_first()
    } else {
        seq![s[0]] + remove_first_id(s.drop_first(), id)
    }
}

/// Container passed from the `Select` object to a `WaitQueue`: it carries the
/// multiplexer id under which the selectable registers the `Select`.
pub struct Payload {
    select_id: usize,
}

impl Payload {
    /// The id of the multiplexer this payload stands for.
    pub closed spec fn id(&self) -> usize {
        self.select_id
    }

    /// The id of the multiplexer this payload stands for.
    pub fn select_id(&self) -> (r: usize)
        ensures
            r == self.id(),
    {
        self.select_id
    }
}

/// An object that can be selected on: it reports a stable id, its readiness,
/// and it keeps a wait queue of registered multiplexer ids.
pub trait Selectable {
    /// The id stored by `Select::wait` when this object is ready.
    spec fn sel_id(&self) -> usize;

    /// Whether the next receive would find a value or a disconnect.
    spec fn sel_ready(&self) -> bool;

    /// The multiplexer ids registered in the wait queue, in registration order.
    spec fn sel_registered(&self) -> Seq<usize>;

    /// Well-formedness of the selectable.
    spec fn sel_inv(&self) -> bool;

    /// Returns the id stored by `Select::wait` when this object is ready.
    fn id(&self) -> (r: usize)
        ensures
            r == self.sel_id(),
    ;

    /// Returns `true` if the object is ready, `false` otherwise.
    fn ready(&self) -> (r: bool)
        requires
            self.sel_inv(),
        ensures
            r == self.sel_ready(),
    ;

    /// Registers a `Select` object with the `Selectable` object. The payload
    /// is appended to the wait queue; nothing else changes.
    fn register(&mut self, load: Payload)
        requires
            old(self).sel_inv(),
        ensures
            final(self).sel_inv(),
            final(self).sel_registered() == old(self).sel_registered().push(load.id()),
            final(self).sel_id() == old(self).sel_id(),
            final(self).sel_ready() == old(self).sel_ready(),
    ;

    /// Unregisters a `Select` object from the `Selectable` object: the first
    /// occurrence of `id` leaves the wait queue; nothing else changes.
    fn unregister(&mut self, id: usize)
        requires
            old(self).sel_inv(),
        ensures
            final(self).sel_inv(),
            final(self).sel_registered() == remove_first_id(old(self).sel_registered(), id),
            final(self).sel_id() == old(self).sel_id(),
            final(self).sel_ready() == old(self).sel_ready(),
    ;
}

/// A structure stored by `Selectable` objects to interact with `Select`
/// objects that want to be notified when the `Selectable` object becomes
/// ready.
pub struct WaitQueue {
    queue: Vec<usize>,
    id: usize,
}

impl WaitQueue {
    /// The registered multiplexer ids, in registration order.
    pub closed spec fn ids(&self) -> Seq<usize> {
        self.queue@
    }

    /// The id of the selectable that holds this queue.
    pub closed spec fn own_id(&self) -> usize {
        self.id
    }

    /// Creates a new `WaitQueue`.
    pub fn new() -> (r: WaitQueue)
        ensures
            r.ids() =~= Seq::<usize>::empty(),
            r.own_id() == 0,
    {
        WaitQueue { queue: Vec::new(), id: 0 }
    }

    /// Sets the id of the `Selectable` object containing the `WaitQueue`.
    /// This must be called with the selectable's id before any other function.
    pub fn set_id(&mut self, id: usize)
        ensures
            final(self).own_id() == id,
            final(self).ids() == old(self).ids(),
    {
        self.id = id;
    }

    /// Adds a `Select` object to the `WaitQueue`. Returns the number of
    /// `Select` objects contained in the `WaitQueue` after this call.
    pub fn add(&mut self, load: Payload) -> (r: usize)
        ensures
            final(self).ids() == old(self).ids().push(load.id()),
            final(self).own_id() == old(self).own_id(),
            r == final(self).ids().len(),
    {
        self.queue.push(load.select_id());
        self.queue.len()
    }

    /// Removes a `Select` object from the `WaitQueue`. Returns the number of
    /// `Select` objects contained in the `WaitQueue` after this call.
    pub fn remove(&mut self, id: usize) -> (r: usize)
        ensures
            final(self).ids() == remove_first_id(old(self).ids(), id),
            final(self).own_id() == old(self).own_id(),
            r == final(self).ids().len(),
    {
        let mut i: usize = 0;
        while i < self.queue.len()
            invariant
                i <= self.queue@.len(),
                self == old(self),
                forall|j: int| 0 <= j < i ==> self.queue@[j] != id,
            decreases self.queue@.len() - i,
        {
            if *(&self.queue[i]) == id {
                self.queue.remove(i);
                proof {
                    lemma_remove_first_id_at(old(self).ids(), id, i as int);
                }
                return self.queue.len();
            }
            i += 1;
        }
        proof {
            lemma_remove_first_id_absent(old(self).ids(), id);
        }
        self.queue.len()
    }

    /// Returns the registered multiplexer ids. When the selectable becomes
    /// ready, the owner of both sides relays the report by calling
    /// `add_ready` with the selectable's id on each of these multiplexers.
    pub fn notify(&self) -> (r: Vec<usize>)
        ensures
            r@ == self.ids(),
    {
        let mut out: Vec<usize> = Vec::new();
        let mut i: usize = 0;
        while i < self.queue.len()
            invariant
                i <= self.queue@.len(),
                out@ == self.queue@.take(i as int),
            decreases self.queue@.len() - i,
        {
            out.push(self.queue[i]);
            assert(out@ =~= self.queue@.take(i + 1int));
            i += 1;
        }
        assert(out@ =~= self.queue@);
        out
    }

    /// Removes all `Select` objects from this wait queue and returns their
    /// ids; the owner relays `going_away` with the selectable's id to each of
    /// them, so that their `wait` calls return promptly.
    pub fn clear(&mut self) -> (r: Vec<usize>)
        ensures
            r@ == old(self).ids(),
            final(self).ids() =~= Seq::<usize>::empty(),
            final(self).own_id() == old(self).own_id(),
    {
        let out = self.notify();
        self.queue.clear();
        out
    }

    /// The number of registered `Select` objects.
    pub fn len(&self) -> (r: usize)
        ensures
            r == self.ids().len(),
    {
        self.queue.len()
    }
}

proof fn lemma_remove_first_id_at(s: Seq<usize>, id: usize, i: int)
    requires
        0 <= i < s.len(),
        s[i] == id,
        forall|j: int| 0 <= j < i ==> s[j] != id,
    ensures
        remove_first_id(s, id) == s.remove(i),
    decreases s.len(),
{
    if i == 0 {
        assert(remove_first_id(s, id) == s.drop_first());
        assert(s.drop_first() =~= s.remove(0));
    } else {
        lemma_remove_first_id_at(s.drop_first(), id, i - 1);
        assert(remove_first_id(s, id) == seq![s[0]] + s.drop_first().remove(i - 1));
        assert(seq![s[0]] + s.drop_first().remove(i - 1) =~= s.remove(i));
    }
}

proof fn lemma_remove_first_id_absent(s: Seq<usize>, id: usize)
    requires
        forall|j: int| 0 <= j < s.len() ==> s[j] != id,
    ensures
        remove_first_id(s, id) == s,
    decreases s.len(),
{
    if s.len() > 0 {
        lemma_remove_first_id_absent(s.drop_first(), id);
        assert(remove_first_id(s, id) =~= s);
    } else {
        assert(remove_first_id(s, id) =~= s);
    }
}

/// Container for all targets being selected on.
pub struct Select {
    id: usize,
    wait_list: SortedVec,
    ready_list: SortedVec,
    ever_added: Ghost<Set<usize>>,
}

impl Select {
    /// The ids currently being watched.
    pub closed spec fn wait_ids(&self) -> Seq<usize> {
        self.wait_list@
    }

    /// The ids signaled as possibly ready since the last check.
    pub closed spec fn ready_ids(&self) -> Seq<usize> {
        self.ready_list@
    }

    /// Every id that was ever added to this multiplexer.
    pub closed spec fn added_ids(&self) -> Set<usize> {
        self.ever_added@
    }

    /// The id under which this multiplexer registers itself.
    pub closed spec fn select_id(&self) -> usize {
        self.id
    }

    /// Whether `x` is on the wait list.
    pub closed spec fn waiting(&self, x: usize) -> bool {
        self.wait_list.has(x)
    }

    /// Whether `x` is on the ready list.
    pub closed spec fn ready_has(&self, x: usize) -> bool {
        self.ready_list.has(x)
    }

    /// Whether nothing at all is being watched.
    pub open spec fn watching_none(&self) -> bool {
        forall|x: usize| !self.waiting(x)
    }

    /// Both lists are sorted id sets, and neither holds an id that was never
    /// added.
    pub closed spec fn inv(&self) -> bool {
        &&& self.wait_list.wf()
        &&& self.ready_list.wf()
        &&& forall|x: usize| self.wait_list.has(x) ==> self.ever_added@.contains(x)
        &&& forall|x: usize| self.ready_list.has(x) ==> self.ever_added@.contains(x)
    }

    /// Whether a `wait` on the state `pre` may store `id` in its buffer: only
    /// an id that is on the ready list and still on the wait list.
    pub open spec fn may_yield(pre: &Select, id: usize) -> bool {
        pre.ready_has(id) && pre.waiting(id)
    }

    /// Creates a new `Select` object. Its own id starts as 0; where several
    /// multiplexers share selectables, the owner gives each a distinct id
    /// through `set_id`.
    pub fn new() -> (r: Select)
        ensures
            r.inv(),
            r.wait_ids() =~= Seq::<usize>::empty(),
            r.ready_ids() =~= Seq::<usize>::empty(),
            r.added_ids() =~= Set::<usize>::empty(),
            r.watching_none(),
            r.select_id() == 0,
    {
        Select {
            id: 0,
            wait_list: SortedVec::new(),
            ready_list: SortedVec::new(),
            ever_added: Ghost(Set::empty()),
        }
    }

    /// Sets the id under which this multiplexer registers itself.
    pub fn set_id(&mut self, id: usize)
        ensures
            final(self).select_id() == id,
            final(self).wait_ids() == old(self).wait_ids(),
            final(self).ready_ids() == old(self).ready_ids(),
            final(self).added_ids() == old(self).added_ids(),
            final(self).inv() == old(self).inv(),
    {
        self.id = id;
    }

    /// The payload a selectable stores when this multiplexer registers on it.
    pub fn as_payload(&self) -> (r: Payload)
        ensures
            r.id() == self.select_id(),
    {
        Payload { select_id: self.id }
    }

    /// Whether anything is being watched.
    pub fn has_targets(&self) -> (r: bool)
        requires
            self.inv(),
        ensures
            r == !self.watching_none(),
    {
        if self.wait_list.len() == 0 {
            false
        } else {
            proof {
                assert(self.wait_list@.contains(self.wait_list@[0]));
                assert(self.waiting(self.wait_list@[0]));
            }
            true
        }
    }

    /// Puts `id` on the wait list and, where `ready` holds, on the ready
    /// list: the multiplexer-side half of `add`, for an owner that carries
    /// out the registration call on the selectable itself.
    pub fn add_entry(&mut self, id: usize, ready: bool)
        requires
            old(self).inv(),
        ensures
            final(self).inv(),
            final(self).select_id() == old(self).select_id(),
            forall|x: usize| final(self).waiting(x) <==> old(self).waiting(x) || x == id,
            forall|x: usize|
                final(self).ready_has(x) <==> old(self).ready_has(x) || (ready && x == id),
            final(self).added_ids() == old(self).added_ids().insert(id),
    {
        if ready {
            self.ready_list.insert(id);
        }

        self.wait_list.insert(id);
        self.ever_added = Ghost(self.ever_added@.insert(id));
    }

    /// Takes `id` off both lists: the multiplexer-side half of `remove`, for
    /// an owner that carries out the unregistration call on the selectable
    /// itself. Returns whether the id was on the wait list; when it was not,
    /// the ready list is left alone.
    pub fn remove_entry(&mut self, id: usize) -> (r: bool)
        requires
            old(self).inv(),
        ensures
            final(self).inv(),
            final(self).select_id() == old(self).select_id(),
            final(self).added_ids() == old(self).added_ids(),
            r == old(self).waiting(id),
            forall|x: usize| final(self).waiting(x) <==> old(self).waiting(x) && x != id,
            r ==> forall|x: usize|
                final(self).ready_has(x) <==> old(self).ready_has(x) && x != id,
            !r ==> forall|x: usize| final(self).ready_has(x) == old(self).ready_has(x),
    {
        if !self.wait_list.remove(id) {
            return false;
        }
        self.ready_list.remove(id);
        true
    }

    /// Adds a target to the select object: registers this multiplexer in the
    /// target's wait queue, puts the target's id on the ready list when the
    /// target is already ready, and puts it on the wait list.
    pub fn add<T: Selectable>(&mut self, sel: &mut T)
        requires
            old(self).inv(),
            old(sel).sel_inv(),
        ensures
            final(self).inv(),
            final(sel).sel_inv(),
            final(sel).sel_id() == old(sel).sel_id(),
            final(sel).sel_ready() == old(sel).sel_ready(),
            final(sel).sel_registered() == old(sel).sel_registered().push(
                old(self).select_id(),
            ),
            final(self).select_id() == old(self).select_id(),
            forall|x: usize|
                final(self).waiting(x) <==> old(self).waiting(x) || x == old(sel).sel_id(),
            forall|x: usize|
                final(self).ready_has(x) <==> old(self).ready_has(x) || (old(sel).sel_ready()
                    && x == old(sel).sel_id()),
            final(self).added_ids() == old(self).added_ids().insert(old(sel).sel_id()),
    {
        // Register before touching the own lists: a shell that shares the
        // multiplexer must never hold its own lock while entering `register`.
        sel.register(self.as_payload());

        let id = sel.id();
        let ready = sel.ready();
        self.add_entry(id, ready);
    }

    /// Removes a target from the `Select` object and unregisters this
    /// multiplexer from it. Returns `true` if the target was previously
    /// registered in the `Select` object, `false` otherwise.
    pub fn remove<T: Selectable>(&mut self, sel: &mut T) -> (r: bool)
        requires
            old(self).inv(),
            old(sel).sel_inv(),
        ensures
            final(self).inv(),
            final(sel).sel_inv(),
            final(sel).sel_id() == old(sel).sel_id(),
            final(sel).sel_ready() == old(sel).sel_ready(),
            r == old(self).waiting(old(sel).sel_id()),
            final(self).select_id() == old(self).select_id(),
            final(self).added_ids() == old(self).added_ids(),
            forall|x: usize|
                final(self).waiting(x) <==> old(self).waiting(x) && x != old(sel).sel_id(),
            r ==> forall|x: usize|
                final(self).ready_has(x) <==> old(self).ready_has(x) && x != old(sel).sel_id(),
            !r ==> forall|x: usize| final(self).ready_has(x) == old(self).ready_has(x),
            r ==> final(sel).sel_registered() == remove_first_id(
                old(sel).sel_registered(),
                old(self).select_id(),
            ),
            !r ==> final(sel).sel_registered() == old(sel).sel_registered(),
    {
        let id = sel.id();

        if !self.remove_entry(id) {
            return false;
        }

        // Unregister after the own lists are settled, never the other way
        // around: the shell must not hold the multiplexer lock in
        // `unregister`.
        sel.unregister(self.id);

        true
    }

    /// Records that the selectable with id `id` has (possibly) become ready.
    /// An id that is not being watched is ignored. Returns whether it was
    /// watched.
    pub fn add_ready(&mut self, id: usize) -> (r: bool)
        requires
            old(self).inv(),
        ensures
            final(self).inv(),
            r == old(self).waiting(id),
            final(self).select_id() == old(self).select_id(),
            final(self).added_ids() == old(self).added_ids(),
            forall|x: usize| final(self).waiting(x) == old(self).waiting(x),
            forall|x: usize|
                final(self).ready_has(x) <==> old(self).ready_has(x) || (r && x == id),
    {
        if !self.wait_list.contains(id) {
            return false;
        }

        self.ready_list.insert(id);

        true
    }

    /// Takes `id` off the ready list alone: an owner that re-checked the
    /// selectable behind a signaled id and found it no longer ready drops the
    /// stale entry this way. Returns whether the id was on the ready list.
    pub fn drop_ready(&mut self, id: usize) -> (r: bool)
        requires
            old(self).inv(),
        ensures
            final(self).inv(),
            final(self).select_id() == old(self).select_id(),
            final(self).added_ids() == old(self).added_ids(),
            r == old(self).ready_has(id),
            forall|x: usize| final(self).waiting(x) == old(self).waiting(x),
            forall|x: usize|
                final(self).ready_has(x) <==> old(self).ready_has(x) && x != id,
    {
        self.ready_list.remove(id)
    }

    /// Records that the selectable with id `id` is going away: it leaves the
    /// wait list, and its id is put on the ready list so that a pending
    /// `wait` learns of the departure promptly. Returns whether it was
    /// watched.
    pub fn going_away(&mut self, id: usize) -> (r: bool)
        requires
            old(self).inv(),
        ensures
            final(self).inv(),
            r == old(self).waiting(id),
            final(self).select_id() == old(self).select_id(),
            final(self).added_ids() == old(self).added_ids(),
            forall|x: usize|
                final(self).waiting(x) <==> old(self).waiting(x) && x != id,
            forall|x: usize|
                final(self).ready_has(x) <==> old(self).ready_has(x) || (r && x == id),
    {
        if !self.wait_list.remove(id) {
            return false;
        }

        self.ready_list.insert(id);

        true
    }

    /// Drops the ids that left the wait list from the ready list, then copies
    /// a prefix of the remaining ready ids into `ready`. Returns how many ids
    /// were stored, or `None` when none was.
    pub fn check_ready_list(&mut self, ready: &mut Vec<usize>) -> (r: Option<usize>)
        requires
            old(self).inv(),
        ensures
            final(self).inv(),
            final(self).select_id() == old(self).select_id(),
            final(self).added_ids() == old(self).added_ids(),
            forall|x: usize| final(self).waiting(x) == old(self).waiting(x),
            forall|x: usize|
                final(self).ready_has(x) <==> old(self).ready_has(x) && old(self).waiting(x),
            final(ready)@.len() == old(ready)@.len(),
            match r {
                Some(n) => {
                    &&& 0 < n <= final(ready)@.len()
                    &&& n == vstd::math::min(old(ready)@.len() as int, final(self).ready_ids().len() as int)
                    &&& forall|i: int| 0 <= i < n ==> final(ready)@[i] == final(self).ready_ids()[i]
                    &&& forall|i: int, j: int|
                        0 <= i < j < n ==> final(ready)@[i] < final(ready)@[j]
                    &&& forall|i: int| n <= i < final(ready)@.len() ==> final(ready)@[i] == old(ready)@[i]
                },
                None => {
                    &&& final(ready)@ == old(ready)@
                    &&& (final(self).ready_ids().len() == 0 || old(ready)@.len() == 0)
                },
            },
            forall|i: int|
                0 <= i < final(self).ready_ids().len() ==> Self::may_yield(
                    old(self),
                    #[trigger] final(self).ready_ids()[i],
                ),
    {
        let mut kept = SortedVec::new();
        let mut i: usize = 0;
        while i < self.ready_list.len()
            invariant
                self == old(self),
                old(self).inv(),
                kept.wf(),
                i <= self.ready_list@.len(),
                forall|x: usize|
                    kept.has(x) <==> exists|j: int|
                        0 <= j < i && self.ready_list@[j] == x && self.wait_list.has(x),
            decreases self.ready_list@.len() - i,
        {
            let id = self.ready_list.get(i);
            if self.wait_list.contains(id) {
                kept.insert(id);
            }
            i += 1;
        }
        assert(forall|x: usize|
            kept.has(x) <==> self.ready_list.has(x) && self.wait_list.has(x));
        self.ready_list = kept;
        assert forall|i: int|
            0 <= i < self.ready_ids().len() implies Self::may_yield(
            old(self),
            self.ready_ids()[i],
        ) by {
            assert(self.ready_list@.contains(self.ready_list@[i]));
            assert(kept.has(self.ready_list@[i]));
        }
        let ghost snap = *self;

        let n = if ready.len() < self.ready_list.len() {
            ready.len()
        } else {
            self.ready_list.len()
        };
        if n == 0 {
            return None;
        }
        let mut i: usize = 0;
        while i < n
            invariant
                *self == snap,
                n <= ready@.len(),
                n <= self.ready_list@.len(),
                i <= n,
                ready@.len() == old(ready)@.len(),
                forall|j: int| 0 <= j < i ==> ready@[j] == self.ready_list@[j],
                forall|j: int| i <= j < ready@.len() ==> ready@[j] == old(ready)@[j],
            decreases n - i,
        {
            let id = self.ready_list.get(i);
            ready.set(i, id);
            i += 1;
        }
        Some(n)
    }

    /// Waits for any of the targets in the `Select` object to become ready.
    /// The ids of the ready targets are stored in a prefix of `ready`, whose
    /// length is returned.
    ///
    /// If the select object is empty, 0 is returned immediately and the
    /// buffer is untouched. Otherwise at least one id must already have been
    /// signaled ready and the buffer must have room for it: with a single
    /// owner of multiplexer and channels, no id can turn ready while the
    /// caller stands in this function, so a call that would suspend would
    /// never return. A thread shell parks on its own condition variable and
    /// calls `check_ready_list` when woken instead.
    pub fn wait(&mut self, ready: &mut Vec<usize>) -> (n: usize)
        requires
            old(self).inv(),
            old(self).watching_none() || (old(ready)@.len() > 0 && exists|x: usize|
                Self::may_yield(old(self), x)),
        ensures
            final(self).inv(),
            final(self).select_id() == old(self).select_id(),
            final(self).added_ids() == old(self).added_ids(),
            forall|x: usize| final(self).waiting(x) == old(self).waiting(x),
            n <= final(ready)@.len(),
            final(ready)@.len() == old(ready)@.len(),
            old(self).watching_none() ==> n == 0 && final(ready)@ == old(ready)@ && forall|
                x: usize,
            | final(self).ready_has(x) == old(self).ready_has(x),
            !old(self).watching_none() ==> {
                &&& n > 0
                &&& forall|x: usize|
                    final(self).ready_has(x) <==> old(self).ready_has(x) && old(self).waiting(x)
                &&& n == vstd::math::min(
                    old(ready)@.len() as int,
                    final(self).ready_ids().len() as int,
                )
                &&& forall|i: int| 0 <= i < n ==> final(ready)@[i] == final(self).ready_ids()[i]
                &&& forall|i: int, j: int| 0 <= i < j < n ==> final(ready)@[i] < final(ready)@[j]
            },
            forall|i: int|
                0 <= i < n ==> Self::may_yield(old(self), #[trigger] final(ready)@[i]),
            forall|i: int| n <= i < final(ready)@.len() ==> final(ready)@[i] == old(ready)@[i],
    {
        if self.wait_list.len() == 0 {
            return 0;
        }
        proof {
            assert(!old(self).watching_none()) by {
                assert(self.wait_list@.contains(self.wait_list@[0]));
                assert(self.waiting(self.wait_list@[0]));
            }
        }

        let r = self.check_ready_list(ready);
        match r {
            Some(n) => n,
            None => {
                // Unreachable: some id may be yielded and the buffer has room.
                proof {
                    let x = choose|x: usize| Self::may_yield(old(self), x);
                    assert(self.ready_has(x));
                    let j = choose|j: int|
                        0 <= j < self.ready_ids().len() && self.ready_ids()[j] == x;
                    assert(false);
                }
                0
            },
        }
    }

    /// Waits for any of the targets to become ready, for at most `duration`
    /// where one is given; with `None` it only checks and returns at once.
    /// The semantics are as for `wait`, except that expiry stores nothing and
    /// returns an empty prefix: under a single owner no target can turn ready
    /// while the caller sleeps, so a bounded wait that finds nothing ready
    /// ends by expiry, and the prefix length returned is always `Some`.
    pub fn wait_timeout(&mut self, ready: &mut Vec<usize>, duration: Option<core::time::Duration>)
        -> (r: Option<usize>)
        requires
            old(self).inv(),
        ensures
            final(self).inv(),
            final(self).select_id() == old(self).select_id(),
            final(self).added_ids() == old(self).added_ids(),
            forall|x: usize| final(self).waiting(x) == old(self).waiting(x),
            final(ready)@.len() == old(ready)@.len(),
            r is Some,
            match r {
                Some(n) => {
                    &&& n <= final(ready)@.len()
                    &&& (old(self).watching_none() ==> n == 0 && final(ready)@ == old(ready)@
                        && forall|x: usize| final(self).ready_has(x) == old(self).ready_has(x))
                    &&& (old(ready)@.len() > 0 && (exists|x: usize|
                        Self::may_yield(old(self), x)) ==> n > 0)
                    &&& (!old(self).watching_none() ==> {
                        &&& forall|x: usize|
                            final(self).ready_has(x) <==> old(self).ready_has(x) && old(
                                self,
                            ).waiting(x)
                        &&& n == vstd::math::min(
                            old(ready)@.len() as int,
                            final(self).ready_ids().len() as int,
                        )
                        &&& forall|i: int|
                            0 <= i < n ==> final(ready)@[i] == final(self).ready_ids()[i]
                        &&& forall|i: int, j: int|
                            0 <= i < j < n ==> final(ready)@[i] < final(ready)@[j]
                    })
                    &&& forall|i: int|
                        0 <= i < n ==> Self::may_yield(old(self), #[trigger] final(ready)@[i])
                    &&& forall|i: int|
                        n <= i < final(ready)@.len() ==> final(ready)@[i] == old(ready)@[i]
                },
                None => false,
            },
    {
        let _ = duration;
        if self.wait_list.len() == 0 {
            return Some(0);
        }
        proof {
            assert(!old(self).watching_none()) by {
                assert(self.wait_list@.contains(self.wait_list@[0]));
                assert(self.waiting(self.wait_list@[0]));
            }
        }

        match self.check_ready_list(ready) {
            Some(n) => Some(n),
            None => {
                // Nothing was stored, so nothing signaled ready fits the
                // buffer: with room in the buffer, no watched id can have
                // been on the ready list.
                proof {
                    if old(ready)@.len() > 0 && exists|x: usize|
                        Self::may_yield(old(self), x) {
                        let x = choose|x: usize| Self::may_yield(old(self), x);
                        assert(self.ready_has(x));
                        let j = choose|j: int|
                            0 <= j < self.ready_ids().len() && self.ready_ids()[j] == x;
                        assert(false);
                    }
                }
                Some(0)
            },
        }
    }
}

/// The ready list and the wait list hold strictly increasing ids: each id at
/// most once, in increasing order. The prefix that `wait` stores is a prefix
/// of the ready list, so it is strictly increasing as well.
pub proof fn lemma_ready_ids_sorted(s: &Select)
    requires
        s.inv(),
    ensures
        forall|i: int, j: int|
            0 <= i < j < s.ready_ids().len() ==> s.ready_ids()[i] < s.ready_ids()[j],
        forall|i: int, j: int|
            0 <= i < j < s.wait_ids().len() ==> s.wait_ids()[i] < s.wait_ids()[j],
{
}

/// An id that a `wait` may store was added to the multiplexer at some time:
/// `wait` never returns an id for a channel that was never added.
pub proof fn lemma_wait_yields_only_added(s: &Select, id: usize)
    requires
        s.inv(),
        Select::may_yield(s, id),
    ensures
        s.added_ids().contains(id),
{
}

/// After a target leaves both lists — as `remove` ensures — a `wait` on that
/// state never stores the target's id.
pub proof fn lemma_removed_is_never_yielded(s: &Select, id: usize)
    requires
        !s.ready_has(id),
    ensures
        !Select::may_yield(s, id),
{
}

} // verus!
