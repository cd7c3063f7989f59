//! A bounded MPMC channel.
//!
//! The channel keeps two packed counter words, each holding a pair of 32-bit
//! halves in one 64-bit word: `(read_start, next_write)` and `(write_end,
//! next_read)`. A writer reserves a slot by advancing `next_write` and
//! publishes it by advancing `write_end`; a reader mirrors this with
//! `next_read` and `read_start`. Packing both halves into one word is the
//! design primitive that lets concurrent endpoints advance a counter and
//! check its partner in a single compare-and-swap, so a reader can never
//! observe `next_read` pass `write_end` even after the 32-bit halves wrap.
//! Here each reserve/publish pair completes within one operation, so the
//! words always agree between calls; the counters still wrap at 32 bits
//! exactly as the packing dictates. The packed word is one 64-bit integer on
//! every build, so the half width — and with it the capacity bound of half
//! the 32-bit range — does not depend on the machine's word size.

use vstd::prelude::*;

use vstd::arithmetic::div_mod::{
    lemma_add_mod_noop, lemma_mod_add_multiples_vanish, lemma_mod_sub_multiples_vanish,
    lemma_small_mod, lemma_sub_mod_noop,
};

use crate::ring::{is_pow2, next_pow2, RingBuf};
use crate::select::{Payload, Selectable, WaitQueue};
use crate::Error;

verus! {

/// One more than the largest value a 32-bit counter half can hold.
pub const HALF_RANGE: u64 = 0x1_0000_0000;

/// Splits a packed counter word into its `(lower, higher)` halves.
pub fn decompose_pointer(val: u64) -> (r: (u32, u32))
    ensures
        r.0 == val % (HALF_RANGE as u64),
        r.1 == val / (HALF_RANGE as u64),
{
    let lower = (val & 0xFFFF_FFFF) as u32;
    let higher = (val >> 32) as u32;
    proof {
        assert(val & 0xFFFF_FFFF == val % 0x1_0000_0000) by (bit_vector);
        assert(val >> 32 == val / 0x1_0000_0000) by (bit_vector);
        assert(val % 0x1_0000_0000 <= 0xFFFF_FFFF) by (bit_vector);
        assert(val / 0x1_0000_0000 <= 0xFFFF_FFFF) by (bit_vector);
    }
    (lower, higher)
}

/// Packs two 32-bit halves into one counter word.
pub fn compose_pointer(lower: u32, higher: u32) -> (r: u64)
    ensures
        r == lower + higher * (HALF_RANGE as u64),
{
    let r = (lower as u64) | ((higher as u64) << 32);
    proof {
        let l = lower as u64;
        let h = higher as u64;
        assert(l | (h << 32) == l + h * 0x1_0000_0000) by (bit_vector)
            requires
                l <= 0xFFFF_FFFF && h <= 0xFFFF_FFFF,
        ;
    }
    r
}

/// Packing and splitting are inverse to each other: the two halves survive a
/// round trip through the packed word, and a packed word survives a round
/// trip through its halves.
pub proof fn lemma_compose_decompose(lower: u32, higher: u32, val: u64)
    ensures
        (lower + higher * (HALF_RANGE as int)) % (HALF_RANGE as int) == lower,
        (lower + higher * (HALF_RANGE as int)) / (HALF_RANGE as int) == higher,
        val % (HALF_RANGE as u64) + (val / (HALF_RANGE as u64)) * (HALF_RANGE as int) == val,
{
    let m = HALF_RANGE as int;
    vstd::arithmetic::div_mod::lemma_fundamental_div_mod(val as int, m);
    vstd::arithmetic::div_mod::lemma_fundamental_div_mod_converse(
        lower + higher * m,
        m,
        higher as int,
        lower as int,
    );
}

/// `wrapping_add` on a counter half is addition modulo the half range.
proof fn lemma_wrap_add(a: u32, b: u32)
    ensures
        vstd::wrapping::u32_specs::wrapping_add(a, b) == (a + b) % (HALF_RANGE as int),
{
    let m = HALF_RANGE as int;
    if a + b > u32::MAX {
        lemma_mod_sub_multiples_vanish(a + b, m);
        lemma_small_mod((a + b - m) as nat, m as nat);
    } else {
        lemma_small_mod((a + b) as nat, m as nat);
    }
}

/// `wrapping_sub` on counter halves is subtraction modulo the half range.
proof fn lemma_wrap_sub(a: u32, b: u32)
    ensures
        vstd::wrapping::u32_specs::wrapping_sub(a, b) == (a - b) % (HALF_RANGE as int),
{
    let m = HALF_RANGE as int;
    if a - b < 0 {
        lemma_mod_add_multiples_vanish(a - b, m);
        lemma_small_mod((a - b + m) as nat, m as nat);
    } else {
        lemma_small_mod((a - b) as nat, m as nat);
    }
}

/// What a would-be sleeper is told: park on the condition variable, or give
/// up because parking could never end.
#[derive(Debug, Copy, Clone, PartialEq, Eq, Structural)]
pub enum Park {
    Sleep,
    Deadlock,
}

/// The deadlock detector of a bounded MPMC channel: how many peers are awake
/// and how many are parked on each side. A peer about to park on a full or
/// empty channel first asks here; when it is the last peer awake and the
/// opposite side has no sleeper to make progress, nobody could ever wake it,
/// so it is told `Deadlock` instead of `Sleep`. The rule is accurate as long
/// as each live peer is blocked at most once, that is, one endpoint per
/// thread. The thread shell holds this state under its sleep mutex and parks
/// between `try_sleep_*` and `wake_*`.
pub struct SleepState {
    awake: usize,
    sleeping_senders: usize,
    sleeping_receivers: usize,
}

impl SleepState {
    /// How many peers are awake.
    pub closed spec fn awake(&self) -> usize {
        self.awake
    }

    /// How many peers are parked waiting to send.
    pub closed spec fn sleeping_senders(&self) -> usize {
        self.sleeping_senders
    }

    /// How many peers are parked waiting to receive.
    pub closed spec fn sleeping_receivers(&self) -> usize {
        self.sleeping_receivers
    }

    /// Every live peer is awake or parked on one side.
    pub open spec fn total(&self) -> int {
        self.awake() + self.sleeping_senders() + self.sleeping_receivers()
    }

    /// Starts with the one peer the constructor counts, awake.
    pub fn new() -> (r: SleepState)
        ensures
            r.awake() == 1,
            r.sleeping_senders() == 0,
            r.sleeping_receivers() == 0,
    {
        SleepState { awake: 1, sleeping_senders: 0, sleeping_receivers: 0 }
    }

    /// Call this when the channel is cloned: the new peer is awake.
    pub fn peer_joins(&mut self)
        requires
            old(self).total() < usize::MAX,
        ensures
            final(self).awake() == old(self).awake() + 1,
            final(self).sleeping_senders() == old(self).sleeping_senders(),
            final(self).sleeping_receivers() == old(self).sleeping_receivers(),
    {
        self.awake = self.awake + 1;
    }

    /// Call this when an awake peer is dropped.
    pub fn peer_leaves(&mut self)
        requires
            old(self).awake() >= 1,
        ensures
            final(self).awake() == old(self).awake() - 1,
            final(self).sleeping_senders() == old(self).sleeping_senders(),
            final(self).sleeping_receivers() == old(self).sleeping_receivers(),
    {
        self.awake = self.awake - 1;
    }

    /// A peer that found the channel full asks to park until a receiver makes
    /// progress. It is the last one awake and no receiver sleeps: parking
    /// could never end, so it is told `Deadlock` and the counts stay as they
    /// were. Otherwise it is told `Sleep` and counted as a parked sender.
    pub fn try_sleep_sender(&mut self) -> (r: Park)
        requires
            old(self).awake() >= 1,
            old(self).total() <= usize::MAX,
        ensures
            old(self).awake() == 1 && old(self).sleeping_receivers() == 0 ==> r is Deadlock
                && *final(self) == *old(self),
            !(old(self).awake() == 1 && old(self).sleeping_receivers() == 0) ==> {
                &&& r is Sleep
                &&& final(self).awake() == old(self).awake() - 1
                &&& final(self).sleeping_senders() == old(self).sleeping_senders() + 1
                &&& final(self).sleeping_receivers() == old(self).sleeping_receivers()
            },
    {
        if self.awake == 1 && self.sleeping_receivers == 0 {
            return Park::Deadlock;
        }
        self.awake = self.awake - 1;
        self.sleeping_senders = self.sleeping_senders + 1;
        Park::Sleep
    }

    /// A parked sender was woken: it is awake again.
    pub fn wake_sender(&mut self)
        requires
            old(self).sleeping_senders() >= 1,
            old(self).total() <= usize::MAX,
        ensures
            final(self).awake() == old(self).awake() + 1,
            final(self).sleeping_senders() == old(self).sleeping_senders() - 1,
            final(self).sleeping_receivers() == old(self).sleeping_receivers(),
    {
        self.sleeping_senders = self.sleeping_senders - 1;
        self.awake = self.awake + 1;
    }

    /// A peer that found the channel empty asks to park until a sender makes
    /// progress; the mirror of `try_sleep_sender`.
    pub fn try_sleep_receiver(&mut self) -> (r: Park)
        requires
            old(self).awake() >= 1,
            old(self).total() <= usize::MAX,
        ensures
            old(self).awake() == 1 && old(self).sleeping_senders() == 0 ==> r is Deadlock
                && *final(self) == *old(self),
            !(old(self).awake() == 1 && old(self).sleeping_senders() == 0) ==> {
                &&& r is Sleep
                &&& final(self).awake() == old(self).awake() - 1
                &&& final(self).sleeping_receivers() == old(self).sleeping_receivers() + 1
                &&& final(self).sleeping_senders() == old(self).sleeping_senders()
            },
    {
        if self.awake == 1 && self.sleeping_senders == 0 {
            return Park::Deadlock;
        }
        self.awake = self.awake - 1;
        self.sleeping_receivers = self.sleeping_receivers + 1;
        Park::Sleep
    }

    /// A parked receiver was woken: it is awake again.
    pub fn wake_receiver(&mut self)
        requires
            old(self).sleeping_receivers() >= 1,
            old(self).total() <= usize::MAX,
        ensures
            final(self).awake() == old(self).awake() + 1,
            final(self).sleeping_receivers() == old(self).sleeping_receivers() - 1,
            final(self).sleeping_senders() == old(self).sleeping_senders(),
    {
        self.sleeping_receivers = self.sleeping_receivers - 1;
        self.awake = self.awake + 1;
    }
}

/// An endpoint of a bounded MPMC channel.
pub struct Channel<T> {
    id: usize,
    buf: RingBuf<T>,
    read_start_next_write: u64,
    write_end_next_read: u64,
    peers_awake: usize,
    wait_queue_used: bool,
    wait_queue: WaitQueue,
    sent: Ghost<Seq<T>>,
    received: Ghost<Seq<T>>,
}

/// The parts of a channel that no data operation touches: its capacity, its
/// id, and its registered multiplexers.
pub open spec fn same_frame<T>(pre: &Channel<T>, post: &Channel<T>) -> bool {
    &&& post.cap() == pre.cap()
    &&& post.id_spec() == pre.id_spec()
    &&& post.registered() == pre.registered()
}

impl<T> Channel<T> {
    /// The messages in the buffer, oldest first.
    pub closed spec fn queue(&self) -> Seq<T> {
        self.buf.view()
    }

    /// Every value successfully sent, in send order.
    pub closed spec fn sent(&self) -> Seq<T> {
        self.sent@
    }

    /// Every value successfully received, in receive order.
    pub closed spec fn received(&self) -> Seq<T> {
        self.received@
    }

    /// The buffer capacity.
    pub closed spec fn cap(&self) -> int {
        self.buf.cap()
    }

    /// How many peers live (and, with one endpoint per thread, are awake).
    pub closed spec fn peers(&self) -> usize {
        self.peers_awake
    }

    /// The channel id.
    pub closed spec fn id_spec(&self) -> usize {
        self.id
    }

    /// The multiplexer ids registered on this packet.
    pub closed spec fn registered(&self) -> Seq<usize> {
        self.wait_queue.ids()
    }

    /// Well-formedness. The packed words agree between operations — every
    /// reservation is published — and their halves are the operation counts
    /// modulo the half range: `next_write` and `write_end` count the sends,
    /// `next_read` and `read_start` the receives. The receive history
    /// followed by the buffered values is exactly the send history.
    pub closed spec fn inv(&self) -> bool {
        &&& self.buf.wf()
        &&& is_pow2(self.buf.cap() as nat)
        &&& self.buf.cap() <= HALF_RANGE / 2
        &&& self.received@ + self.buf.view() == self.sent@
        &&& self.read_start_next_write % (HALF_RANGE as u64) == (self.received@.len() as int) % (
        HALF_RANGE as int)
        &&& self.read_start_next_write / (HALF_RANGE as u64) == (self.sent@.len() as int) % (
        HALF_RANGE as int)
        &&& self.write_end_next_read % (HALF_RANGE as u64) == (self.sent@.len() as int) % (
        HALF_RANGE as int)
        &&& self.write_end_next_read / (HALF_RANGE as u64) == (self.received@.len() as int) % (
        HALF_RANGE as int)
        &&& self.wait_queue_used <==> self.wait_queue.ids().len() > 0
        &&& self.wait_queue.own_id() == self.id
    }

    /// Creates a new bounded MPMC channel with capacity at least `cap`,
    /// rounded up to a power of two and at least 1, counting one peer.
    /// Capacities above half the 32-bit counter range cannot be represented
    /// by the packed words and are ruled out, as construction refuses them.
    pub fn new(cap: usize) -> (r: Channel<T>)
        requires
            cap <= 0x8000_0000,
        ensures
            r.inv(),
            r.queue() =~= Seq::<T>::empty(),
            r.sent() =~= Seq::<T>::empty(),
            r.received() =~= Seq::<T>::empty(),
            r.peers() == 1,
            r.registered() =~= Seq::<usize>::empty(),
            r.id_spec() == 0,
            is_pow2(r.cap() as nat),
            r.cap() >= cap,
            r.cap() >= 1,
            cap > 1 ==> r.cap() / 2 < cap,
            cap <= 1 ==> r.cap() == 1,
    {
        let size = next_pow2(cap);
        proof {
            if size > 0x8000_0000 {
                reveal_with_fuel(is_pow2, 33);
                assert(is_pow2(0x8000_0000nat));
                crate::ring::lemma_pow2_double_le(0x8000_0000nat, size as nat);
            }
        }
        let r = Channel {
            id: 0,
            buf: RingBuf::new(size),
            read_start_next_write: 0,
            write_end_next_read: 0,
            peers_awake: 1,
            wait_queue_used: false,
            wait_queue: WaitQueue::new(),
            sent: Ghost(Seq::empty()),
            received: Ghost(Seq::empty()),
        };
        proof {
            lemma_small_mod(0nat, HALF_RANGE as nat);
            assert(r.received@ + r.buf.view() =~= r.sent@);
        }
        r
    }

    /// Records the channel id. Must be called before any other function.
    pub fn set_id(&mut self, id: usize)
        requires
            old(self).inv(),
        ensures
            final(self).inv(),
            final(self).id_spec() == id,
            final(self).cap() == old(self).cap(),
            final(self).registered() == old(self).registered(),
            final(self).queue() == old(self).queue(),
            final(self).sent() == old(self).sent(),
            final(self).received() == old(self).received(),
            final(self).peers() == old(self).peers(),
    {
        self.id = id;
        self.wait_queue.set_id(id);
    }

    /// The channel id.
    pub fn id(&self) -> (r: usize)
        ensures
            r == self.id_spec(),
    {
        self.id
    }

    /// Call this when the channel is cloned.
    pub fn add_peer(&mut self)
        requires
            old(self).inv(),
            old(self).peers() < usize::MAX,
        ensures
            final(self).inv(),
            same_frame(old(self), final(self)),
            final(self).queue() == old(self).queue(),
            final(self).sent() == old(self).sent(),
            final(self).received() == old(self).received(),
            final(self).peers() == old(self).peers() + 1,
    {
        self.peers_awake = self.peers_awake + 1;
    }

    /// Call this when a peer is dropped. Once the last one is gone the
    /// channel turns ready; the owner relays the ids of `notify_wait_queue`
    /// to their multiplexers.
    pub fn remove_peer(&mut self)
        requires
            old(self).inv(),
            old(self).peers() > 0,
        ensures
            final(self).inv(),
            same_frame(old(self), final(self)),
            final(self).queue() == old(self).queue(),
            final(self).sent() == old(self).sent(),
            final(self).received() == old(self).received(),
            final(self).peers() == old(self).peers() - 1,
    {
        self.peers_awake = self.peers_awake - 1;
    }

    /// The number of messages a reader may still reserve: the distance from
    /// `next_read` to `write_end`, read off the packed words.
    fn queued(&self) -> (r: usize)
        requires
            self.inv(),
        ensures
            r == self.queue().len(),
    {
        let (write_end, next_read) = decompose_pointer(self.write_end_next_read);
        let diff = write_end.wrapping_sub(next_read);
        proof {
            let m = HALF_RANGE as int;
            self.buf.lemma_len_le_cap();
            lemma_wrap_sub(write_end, next_read);
            lemma_sub_mod_noop(self.sent@.len() as int, self.received@.len() as int, m);
            lemma_small_mod(self.queue().len() as nat, m as nat);
        }
        diff as usize
    }

    /// Advances `next_write` and `write_end` by one: the slot reservation and
    /// the publication that a writer performs around storing a value.
    fn advance_write(&mut self)
        ensures
            *final(self) == (Channel {
                read_start_next_write: final(self).read_start_next_write,
                write_end_next_read: final(self).write_end_next_read,
                ..*old(self)
            }),
            final(self).read_start_next_write % (HALF_RANGE as u64) == old(
                self,
            ).read_start_next_write % (HALF_RANGE as u64),
            final(self).read_start_next_write / (HALF_RANGE as u64) == (old(
                self,
            ).read_start_next_write / (HALF_RANGE as u64) + 1) % (HALF_RANGE as int),
            final(self).write_end_next_read / (HALF_RANGE as u64) == old(
                self,
            ).write_end_next_read / (HALF_RANGE as u64),
            final(self).write_end_next_read % (HALF_RANGE as u64) == (old(
                self,
            ).write_end_next_read % (HALF_RANGE as u64) + 1) % (HALF_RANGE as int),
    {
        let (read_start, next_write) = decompose_pointer(self.read_start_next_write);
        self.read_start_next_write = compose_pointer(read_start, next_write.wrapping_add(1));
        let (write_end, next_read) = decompose_pointer(self.write_end_next_read);
        self.write_end_next_read = compose_pointer(write_end.wrapping_add(1), next_read);
        proof {
            lemma_wrap_add(next_write, 1);
            lemma_wrap_add(write_end, 1);
            lemma_compose_decompose(
                read_start,
                vstd::wrapping::u32_specs::wrapping_add(next_write, 1),
                0,
            );
            lemma_compose_decompose(
                vstd::wrapping::u32_specs::wrapping_add(write_end, 1),
                next_read,
                0,
            );
        }
    }

    /// Advances `next_read` and `read_start` by one: the slot reservation and
    /// the publication that a reader performs around taking a value.
    fn advance_read(&mut self)
        ensures
            *final(self) == (Channel {
                read_start_next_write: final(self).read_start_next_write,
                write_end_next_read: final(self).write_end_next_read,
                ..*old(self)
            }),
            final(self).read_start_next_write / (HALF_RANGE as u64) == old(
                self,
            ).read_start_next_write / (HALF_RANGE as u64),
            final(self).read_start_next_write % (HALF_RANGE as u64) == (old(
                self,
            ).read_start_next_write % (HALF_RANGE as u64) + 1) % (HALF_RANGE as int),
            final(self).write_end_next_read % (HALF_RANGE as u64) == old(
                self,
            ).write_end_next_read % (HALF_RANGE as u64),
            final(self).write_end_next_read / (HALF_RANGE as u64) == (old(
                self,
            ).write_end_next_read / (HALF_RANGE as u64) + 1) % (HALF_RANGE as int),
    {
        let (read_start, next_write) = decompose_pointer(self.read_start_next_write);
        self.read_start_next_write = compose_pointer(read_start.wrapping_add(1), next_write);
        let (write_end, next_read) = decompose_pointer(self.write_end_next_read);
        self.write_end_next_read = compose_pointer(write_end, next_read.wrapping_add(1));
        proof {
            lemma_wrap_add(read_start, 1);
            lemma_wrap_add(next_read, 1);
            lemma_compose_decompose(
                vstd::wrapping::u32_specs::wrapping_add(read_start, 1),
                next_write,
                0,
            );
            lemma_compose_decompose(
                write_end,
                vstd::wrapping::u32_specs::wrapping_add(next_read, 1),
                0,
            );
        }
    }

    /// Sends a message over the channel. Does not block if the channel is
    /// full: `Full` comes back with the value and the channel exactly as it
    /// was.
    pub fn send_async(&mut self, val: T) -> (r: Result<(), (T, Error)>)
        requires
            old(self).inv(),
        ensures
            final(self).inv(),
            old(self).queue().len() == old(self).cap() ==> r == Err::<(), _>((val, Error::Full))
                && *final(self) == *old(self),
            old(self).queue().len() < old(self).cap() ==> {
                &&& r == Ok::<(), (T, Error)>(())
                &&& same_frame(old(self), final(self))
                &&& final(self).peers() == old(self).peers()
                &&& final(self).queue() == old(self).queue().push(val)
                &&& final(self).sent() == old(self).sent().push(val)
                &&& final(self).received() == old(self).received()
            },
    {
        proof {
            self.buf.lemma_len_le_cap();
        }
        if self.queued() == self.buf.capacity() {
            return Err((val, Error::Full));
        }
        self.buf.push(val);
        self.advance_write();
        proof {
            let m = HALF_RANGE as int;
            self.sent@ = self.sent@.push(val);
            assert(self.received@ + self.buf.view() =~= self.sent@);
            lemma_small_mod(1nat, m as nat);
            lemma_add_mod_noop(old(self).sent@.len() as int, 1, m);
        }
        Ok(())
    }

    /// Sends a message over the channel. A send on a full channel suspends
    /// until a peer receives; when every other peer is already suspended the
    /// same way — and with a single owner driving every endpoint there is no
    /// other peer awake — it would sleep forever, so the last awake peer gets
    /// `Deadlock` with its value back instead. A caller with several live
    /// peers rules the full case out; a thread shell loops over `send_async`
    /// and parks between attempts.
    pub fn send_sync(&mut self, val: T) -> (r: Result<(), (T, Error)>)
        requires
            old(self).inv(),
            old(self).queue().len() < old(self).cap() || old(self).peers() <= 1,
        ensures
            final(self).inv(),
            old(self).queue().len() == old(self).cap() ==> r == Err::<(), _>(
                (val, Error::Deadlock),
            ) && *final(self) == *old(self),
            old(self).queue().len() < old(self).cap() ==> {
                &&& r == Ok::<(), (T, Error)>(())
                &&& same_frame(old(self), final(self))
                &&& final(self).peers() == old(self).peers()
                &&& final(self).queue() == old(self).queue().push(val)
                &&& final(self).sent() == old(self).sent().push(val)
                &&& final(self).received() == old(self).received()
            },
    {
        match self.send_async(val) {
            Ok(()) => Ok(()),
            Err((v, _)) => Err((v, Error::Deadlock)),
        }
    }

    /// Receives a message over the channel. Does not block if the channel is
    /// empty: `Empty` comes back with the channel exactly as it was.
    pub fn recv_async(&mut self) -> (r: Result<T, Error>)
        requires
            old(self).inv(),
        ensures
            final(self).inv(),
            old(self).queue().len() == 0 ==> r == Err::<T, _>(Error::Empty) && *final(self)
                == *old(self),
            old(self).queue().len() > 0 ==> {
                &&& r == Ok::<T, Error>(old(self).queue()[0])
                &&& same_frame(old(self), final(self))
                &&& final(self).peers() == old(self).peers()
                &&& final(self).queue() == old(self).queue().drop_first()
                &&& final(self).sent() == old(self).sent()
                &&& final(self).received() == old(self).received().push(old(self).queue()[0])
            },
    {
        if self.queued() == 0 {
            return Err(Error::Empty);
        }
        let val = self.buf.pop();
        self.advance_read();
        proof {
            let m = HALF_RANGE as int;
            self.received@ = self.received@.push(val);
            assert(self.received@ + self.buf.view() =~= self.sent@);
            lemma_small_mod(1nat, m as nat);
            lemma_add_mod_noop(old(self).received@.len() as int, 1, m);
        }
        Ok(val)
    }

    /// Receives a message from the channel. A receive on an empty channel
    /// suspends until a peer sends; when every other peer is already
    /// suspended the same way — and with a single owner driving every
    /// endpoint there is no other peer awake — it would sleep forever, so the
    /// last awake peer gets `Deadlock` instead. A caller with several live
    /// peers rules the empty case out; a thread shell loops over `recv_async`
    /// and parks between attempts.
    pub fn recv_sync(&mut self) -> (r: Result<T, Error>)
        requires
            old(self).inv(),
            old(self).queue().len() > 0 || old(self).peers() <= 1,
        ensures
            final(self).inv(),
            old(self).queue().len() == 0 ==> r == Err::<T, _>(Error::Deadlock) && *final(self)
                == *old(self),
            old(self).queue().len() > 0 ==> {
                &&& r == Ok::<T, Error>(old(self).queue()[0])
                &&& same_frame(old(self), final(self))
                &&& final(self).peers() == old(self).peers()
                &&& final(self).queue() == old(self).queue().drop_first()
                &&& final(self).sent() == old(self).sent()
                &&& final(self).received() == old(self).received().push(old(self).queue()[0])
            },
    {
        match self.recv_async() {
            Ok(v) => Ok(v),
            Err(_) => Err(Error::Deadlock),
        }
    }

    /// The multiplexer ids to be told that this channel may have turned
    /// ready; empty while nothing is registered, without touching the queue.
    pub fn notify_wait_queue(&self) -> (r: Vec<usize>)
        requires
            self.inv(),
        ensures
            r@ == self.registered(),
    {
        if self.wait_queue_used {
            self.wait_queue.notify()
        } else {
            Vec::new()
        }
    }
}

impl<T> Selectable for Channel<T> {
    open spec fn sel_id(&self) -> usize {
        self.id_spec()
    }

    open spec fn sel_ready(&self) -> bool {
        self.peers() == 0 || self.queue().len() > 0
    }

    open spec fn sel_registered(&self) -> Seq<usize> {
        self.registered()
    }

    open spec fn sel_inv(&self) -> bool {
        self.inv()
    }

    fn id(&self) -> (r: usize) {
        self.id
    }

    fn ready(&self) -> (r: bool) {
        self.peers_awake == 0 || self.queued() > 0
    }

    fn register(&mut self, load: Payload) {
        if self.wait_queue.add(load) > 0 {
            self.wait_queue_used = true;
        }
    }

    fn unregister(&mut self, id: usize) {
        if self.wait_queue.remove(id) == 0 {
            self.wait_queue_used = false;
        }
    }
}

/// The receives are a prefix of the sends: each received value was sent, at
/// the same position, per-producer order is preserved under any tagging of
/// the values, and the buffer holds exactly the sends not yet received.
pub proof fn lemma_receives_prefix_of_sends<T>(c: &Channel<T>)
    requires
        c.inv(),
    ensures
        c.received() =~= c.sent().take(c.received().len() as int),
        c.received().len() + c.queue().len() == c.sent().len(),
        c.queue() =~= c.sent().skip(c.received().len() as int),
{
    assert(c.received() + c.queue() == c.sent());
}

/// Once the channel is drained, every sent value has been received, exactly
/// once and in send order: the receive history equals the send history. With
/// producers sending disjoint ranges, the received values are exactly their
/// union, whatever the interleaving was.
pub proof fn lemma_drained_receives_all<T>(c: &Channel<T>)
    requires
        c.inv(),
        c.queue().len() == 0,
    ensures
        c.received() =~= c.sent(),
{
    assert(c.received() + c.queue() == c.sent());
    assert(c.received() =~= c.received() + c.queue());
}

/// Per-producer order: pick out the sends of any one producer by a predicate
/// on the values — a tag the producer stamped on them. The received values of
/// that producer are a prefix of what it sent, in the order it sent them.
pub proof fn lemma_per_producer_order<T>(c: &Channel<T>, from_producer: spec_fn(T) -> bool)
    requires
        c.inv(),
    ensures
        c.received().filter(from_producer).is_prefix_of(c.sent().filter(from_producer)),
{
    lemma_receives_prefix_of_sends(c);
    assert(c.received().is_prefix_of(c.sent()));
    c.received().lemma_filter_monotone(c.sent(), from_producer);
}

} // verus!
