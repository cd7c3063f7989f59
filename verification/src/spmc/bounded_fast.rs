//! A bounded SPMC channel.
//!
//! A circular buffer of per-slot cells shared by one producer and any number
//! of counted consumers. The capacity is the requested size, at least 2,
//! rounded up to a power of two. A non-blocking send fails with `Full` on a
//! full buffer and with `Disconnected` once every receiver is gone.

use vstd::prelude::*;

use crate::ring::{is_pow2, next_pow2, RingBuf};
use crate::select::{Payload, Selectable, WaitQueue};
use crate::Error;

verus! {

/// The shared state of a bounded SPMC channel.
pub struct Packet<T> {
    id: usize,
    buf: RingBuf<T>,
    num_receivers: usize,
    sender_disconnected: bool,
    wait_queue_used: bool,
    wait_queue: WaitQueue,
    sent: Ghost<Seq<T>>,
    received: Ghost<Seq<T>>,
}

/// The parts of a packet that no data operation touches: its capacity, its
/// id, and its registered multiplexers.
pub open spec fn same_frame<T>(pre: &Packet<T>, post: &Packet<T>) -> bool {
    &&& post.cap() == pre.cap()
    &&& post.id_spec() == pre.id_spec()
    &&& post.registered() == pre.registered()
}

/// The endpoint counts are as they were.
pub open spec fn same_peers<T>(pre: &Packet<T>, post: &Packet<T>) -> bool {
    &&& post.receivers() == pre.receivers()
    &&& post.sender_gone() == pre.sender_gone()
}

impl<T> Packet<T> {
    /// The messages in the buffer, oldest first.
    pub closed spec fn queue(&self) -> Seq<T> {
        self.buf.view()
    }

    /// Every value successfully sent, in send order.
    pub closed spec fn sent(&self) -> Seq<T> {
        self.sent@
    }

    /// Every value successfully received, in receive order.
    pub closed spec fn received(&self) -> Seq<T> {
        self.received@
    }

    /// The buffer capacity.
    pub closed spec fn cap(&self) -> int {
        self.buf.cap()
    }

    /// How many receivers live.
    pub closed spec fn receivers(&self) -> usize {
        self.num_receivers
    }

    /// Whether the sending side has disconnected.
    pub closed spec fn sender_gone(&self) -> bool {
        self.sender_disconnected
    }

    /// The channel id.
    pub closed spec fn id_spec(&self) -> usize {
        self.id
    }

    /// The multiplexer ids registered on this packet.
    pub closed spec fn registered(&self) -> Seq<usize> {
        self.wait_queue.ids()
    }

    /// Well-formedness: the buffer is a proper window, the receive history
    /// followed by the buffered values is exactly the send history, and the
    /// wait-queue fast-path flag agrees with the wait queue.
    pub closed spec fn inv(&self) -> bool {
        &&& self.buf.wf()
        &&& is_pow2(self.buf.cap() as nat)
        &&& self.received@ + self.buf.view() == self.sent@
        &&& self.wait_queue_used <==> self.wait_queue.ids().len() > 0
        &&& self.wait_queue.own_id() == self.id
    }

    /// Creates the packet of a bounded SPMC channel with capacity at least
    /// `buf_size` and at least 2, rounded up to a power of two, with one
    /// receiver.
    pub fn new(buf_size: usize) -> (r: Packet<T>)
        requires
            buf_size <= usize::MAX / 2 + 1,
        ensures
            r.inv(),
            r.queue() =~= Seq::<T>::empty(),
            r.sent() =~= Seq::<T>::empty(),
            r.received() =~= Seq::<T>::empty(),
            r.receivers() == 1,
            !r.sender_gone(),
            r.registered() =~= Seq::<usize>::empty(),
            r.id_spec() == 0,
            is_pow2(r.cap() as nat),
            r.cap() >= buf_size,
            r.cap() >= 2,
            buf_size > 2 ==> r.cap() / 2 < buf_size,
            buf_size <= 2 ==> r.cap() == 2,
    {
        let request = if buf_size < 2 {
            2
        } else {
            buf_size
        };
        let cap = next_pow2(request);
        proof {
            if request == 2 {
                reveal_with_fuel(is_pow2, 2);
                assert(is_pow2(2nat));
            }
        }
        Packet {
            id: 0,
            buf: RingBuf::new(cap),
            num_receivers: 1,
            sender_disconnected: false,
            wait_queue_used: false,
            wait_queue: WaitQueue::new(),
            sent: Ghost(Seq::empty()),
            received: Ghost(Seq::empty()),
        }
    }

    /// Records the channel id. Must be called before any other function.
    pub fn set_id(&mut self, id: usize)
        requires
            old(self).inv(),
        ensures
            final(self).inv(),
            final(self).id_spec() == id,
            final(self).cap() == old(self).cap(),
            final(self).registered() == old(self).registered(),
            final(self).queue() == old(self).queue(),
            final(self).sent() == old(self).sent(),
            final(self).received() == old(self).received(),
            same_peers(old(self), final(self)),
    {
        self.id = id;
        self.wait_queue.set_id(id);
    }

    /// The channel id.
    pub fn id(&self) -> (r: usize)
        ensures
            r == self.id_spec(),
    {
        self.id
    }

    /// Call this when a receiver is cloned.
    pub fn add_receiver(&mut self)
        requires
            old(self).inv(),
            old(self).receivers() < usize::MAX,
        ensures
            final(self).inv(),
            same_frame(old(self), final(self)),
            final(self).queue() == old(self).queue(),
            final(self).sent() == old(self).sent(),
            final(self).received() == old(self).received(),
            final(self).sender_gone() == old(self).sender_gone(),
            final(self).receivers() == old(self).receivers() + 1,
    {
        self.num_receivers = self.num_receivers + 1;
    }

    /// Call this when a receiver is dropped.
    pub fn remove_receiver(&mut self)
        requires
            old(self).inv(),
            old(self).receivers() > 0,
        ensures
            final(self).inv(),
            same_frame(old(self), final(self)),
            final(self).queue() == old(self).queue(),
            final(self).sent() == old(self).sent(),
            final(self).received() == old(self).received(),
            final(self).sender_gone() == old(self).sender_gone(),
            final(self).receivers() == old(self).receivers() - 1,
    {
        self.num_receivers = self.num_receivers - 1;
    }

    /// Call this when the producer is dropped. The channel turns ready; the
    /// owner relays the ids of `notify_wait_queue` to their multiplexers.
    pub fn remove_sender(&mut self)
        requires
            old(self).inv(),
        ensures
            final(self).inv(),
            same_frame(old(self), final(self)),
            final(self).queue() == old(self).queue(),
            final(self).sent() == old(self).sent(),
            final(self).received() == old(self).received(),
            final(self).receivers() == old(self).receivers(),
            final(self).sender_gone(),
    {
        self.sender_disconnected = true;
    }

    /// Enqueues `val`, or fails without blocking. On failure the packet is
    /// exactly as it was and `val` comes back with the error: `Disconnected`
    /// once every receiver is gone, `Full` on a full buffer.
    pub fn send_async(&mut self, val: T) -> (r: Result<(), (T, Error)>)
        requires
            old(self).inv(),
        ensures
            final(self).inv(),
            old(self).receivers() == 0 ==> r == Err::<(), _>((val, Error::Disconnected))
                && *final(self) == *old(self),
            old(self).receivers() > 0 && old(self).queue().len() == old(self).cap() ==> r
                == Err::<(), _>((val, Error::Full)) && *final(self) == *old(self),
            old(self).receivers() > 0 && old(self).queue().len() < old(self).cap() ==> {
                &&& r == Ok::<(), (T, Error)>(())
                &&& same_frame(old(self), final(self))
                &&& same_peers(old(self), final(self))
                &&& final(self).queue() == old(self).queue().push(val)
                &&& final(self).sent() == old(self).sent().push(val)
                &&& final(self).received() == old(self).received()
            },
    {
        if self.num_receivers == 0 {
            return Err((val, Error::Disconnected));
        }
        proof {
            self.buf.lemma_len_le_cap();
        }
        if self.buf.len() == self.buf.capacity() {
            return Err((val, Error::Full));
        }
        self.buf.push(val);
        proof {
            self.sent@ = self.sent@.push(val);
            assert(self.received@ + self.buf.view() =~= self.sent@);
        }
        Ok(())
    }

    /// Enqueues `val`; fails only with `Disconnected`. A send on a full
    /// buffer with live receivers would suspend the caller, and with every
    /// endpoint driven by one owner no receive could ever wake it, so the
    /// caller rules that case out; a thread shell loops over `send_async` and
    /// parks between attempts instead.
    pub fn send_sync(&mut self, val: T) -> (r: Result<(), (T, Error)>)
        requires
            old(self).inv(),
            old(self).receivers() == 0 || old(self).queue().len() < old(self).cap(),
        ensures
            final(self).inv(),
            old(self).receivers() == 0 ==> r == Err::<(), _>((val, Error::Disconnected))
                && *final(self) == *old(self),
            old(self).receivers() > 0 ==> {
                &&& r == Ok::<(), (T, Error)>(())
                &&& same_frame(old(self), final(self))
                &&& same_peers(old(self), final(self))
                &&& final(self).queue() == old(self).queue().push(val)
                &&& final(self).sent() == old(self).sent().push(val)
                &&& final(self).received() == old(self).received()
            },
    {
        self.send_async(val)
    }

    /// Dequeues the oldest value, or fails without blocking: `Disconnected`
    /// when the buffer is drained and the sender is gone, `Empty` when it is
    /// merely empty.
    pub fn recv_async(&mut self) -> (r: Result<T, Error>)
        requires
            old(self).inv(),
        ensures
            final(self).inv(),
            old(self).queue().len() == 0 && old(self).sender_gone() ==> r == Err::<T, _>(
                Error::Disconnected,
            ) && *final(self) == *old(self),
            old(self).queue().len() == 0 && !old(self).sender_gone() ==> r == Err::<T, _>(
                Error::Empty,
            ) && *final(self) == *old(self),
            old(self).queue().len() > 0 ==> {
                &&& r == Ok::<T, Error>(old(self).queue()[0])
                &&& same_frame(old(self), final(self))
                &&& same_peers(old(self), final(self))
                &&& final(self).queue() == old(self).queue().drop_first()
                &&& final(self).sent() == old(self).sent()
                &&& final(self).received() == old(self).received().push(old(self).queue()[0])
            },
    {
        if self.buf.len() == 0 {
            if self.sender_disconnected {
                return Err(Error::Disconnected);
            }
            return Err(Error::Empty);
        }
        let val = self.buf.pop();
        proof {
            self.received@ = self.received@.push(val);
            assert(self.received@ + self.buf.view() =~= self.sent@);
        }
        Ok(val)
    }

    /// Dequeues the oldest value; fails only with `Disconnected`. A receive
    /// on an empty buffer with a live sender would suspend the caller, and
    /// with every endpoint driven by one owner no send could ever wake it, so
    /// the caller rules that case out; a thread shell loops over `recv_async`
    /// and parks between attempts instead.
    pub fn recv_sync(&mut self) -> (r: Result<T, Error>)
        requires
            old(self).inv(),
            old(self).queue().len() > 0 || old(self).sender_gone(),
        ensures
            final(self).inv(),
            old(self).queue().len() == 0 ==> r == Err::<T, _>(Error::Disconnected) && *final(self)
                == *old(self),
            old(self).queue().len() > 0 ==> {
                &&& r == Ok::<T, Error>(old(self).queue()[0])
                &&& same_frame(old(self), final(self))
                &&& same_peers(old(self), final(self))
                &&& final(self).queue() == old(self).queue().drop_first()
                &&& final(self).sent() == old(self).sent()
                &&& final(self).received() == old(self).received().push(old(self).queue()[0])
            },
    {
        self.recv_async()
    }

    /// The multiplexer ids to be told that this channel may have turned
    /// ready; empty while nothing is registered, without touching the queue.
    pub fn notify_wait_queue(&self) -> (r: Vec<usize>)
        requires
            self.inv(),
        ensures
            r@ == self.registered(),
    {
        if self.wait_queue_used {
            self.wait_queue.notify()
        } else {
            Vec::new()
        }
    }
}

impl<T> Selectable for Packet<T> {
    open spec fn sel_id(&self) -> usize {
        self.id_spec()
    }

    open spec fn sel_ready(&self) -> bool {
        self.sender_gone() || self.queue().len() > 0
    }

    open spec fn sel_registered(&self) -> Seq<usize> {
        self.registered()
    }

    open spec fn sel_inv(&self) -> bool {
        self.inv()
    }

    fn id(&self) -> (r: usize) {
        self.id
    }

    fn ready(&self) -> (r: bool) {
        self.sender_disconnected || self.buf.len() > 0
    }

    fn register(&mut self, load: Payload) {
        if self.wait_queue.add(load) > 0 {
            self.wait_queue_used = true;
        }
    }

    fn unregister(&mut self, id: usize) {
        if self.wait_queue.remove(id) == 0 {
            self.wait_queue_used = false;
        }
    }
}

/// Each sent value is dequeued at most once, whichever consumer takes it: the
/// receives are a prefix of the sends, and the buffer holds the rest.
pub proof fn lemma_receives_prefix_of_sends<T>(p: &Packet<T>)
    requires
        p.inv(),
    ensures
        p.received() =~= p.sent().take(p.received().len() as int),
        p.received().len() + p.queue().len() == p.sent().len(),
        p.queue() =~= p.sent().skip(p.received().len() as int),
{
    assert(p.received() + p.queue() == p.sent());
}

} // verus!
