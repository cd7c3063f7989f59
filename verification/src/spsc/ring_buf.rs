//! An SPSC ring buffer (overwriting) channel.
//!
//! Like the bounded SPSC channel, but a send on a full buffer does not fail:
//! it drops the oldest unread message out of the buffer and hands it back to
//! the sender, so the buffer always holds the most recent sends. The buffered
//! messages therefore form a contiguous suffix of the send stream.

use vstd::prelude::*;

use crate::ring::{is_pow2, next_pow2, RingBuf};
use crate::select::{Payload, Selectable, WaitQueue};
use crate::Error;

verus! {

/// The shared state of an overwriting SPSC channel.
pub struct Packet<T> {
    id: usize,
    buf: RingBuf<T>,
    sender_disconnected: bool,
    receiver_disconnected: bool,
    wait_queue_used: bool,
    wait_queue: WaitQueue,
    sent: Ghost<Seq<T>>,
    received: Ghost<Seq<T>>,
    overwritten: Ghost<Seq<T>>,
    consumed: Ghost<Seq<T>>,
}

/// The parts of a packet that no data operation touches: its capacity, its
/// id, and its registered multiplexers.
pub open spec fn same_frame<T>(pre: &Packet<T>, post: &Packet<T>) -> bool {
    &&& post.cap() == pre.cap()
    &&& post.id_spec() == pre.id_spec()
    &&& post.registered() == pre.registered()
}

/// Both disconnection flags are as they were.
pub open spec fn same_flags<T>(pre: &Packet<T>, post: &Packet<T>) -> bool {
    &&& post.sender_gone() == pre.sender_gone()
    &&& post.receiver_gone() == pre.receiver_gone()
}

impl<T> Packet<T> {
    /// The messages in the buffer, oldest first.
    pub closed spec fn queue(&self) -> Seq<T> {
        self.buf.view()
    }

    /// Every value successfully sent, in send order.
    pub closed spec fn sent(&self) -> Seq<T> {
        self.sent@
    }

    /// Every value successfully received, in receive order.
    pub closed spec fn received(&self) -> Seq<T> {
        self.received@
    }

    /// Every value dropped on overflow and handed back to the sender, in
    /// drop order.
    pub closed spec fn overwritten(&self) -> Seq<T> {
        self.overwritten@
    }

    /// Every value that left the buffer — by a receive or by an overwrite —
    /// in the order it left.
    pub closed spec fn consumed(&self) -> Seq<T> {
        self.consumed@
    }

    /// The buffer capacity.
    pub closed spec fn cap(&self) -> int {
        self.buf.cap()
    }

    /// Whether the sending side has disconnected.
    pub closed spec fn sender_gone(&self) -> bool {
        self.sender_disconnected
    }

    /// Whether the receiving side has disconnected.
    pub closed spec fn receiver_gone(&self) -> bool {
        self.receiver_disconnected
    }

    /// The channel id.
    pub closed spec fn id_spec(&self) -> usize {
        self.id
    }

    /// The multiplexer ids registered on this packet.
    pub closed spec fn registered(&self) -> Seq<usize> {
        self.wait_queue.ids()
    }

    /// Well-formedness: values leave the buffer in send order, whether a
    /// receive or an overwrite takes them, so what left followed by what
    /// remains is exactly the send history; receives and overwrites together
    /// account for everything that left.
    pub closed spec fn inv(&self) -> bool {
        &&& self.buf.wf()
        &&& is_pow2(self.buf.cap() as nat)
        &&& self.consumed@ + self.buf.view() == self.sent@
        &&& self.received@.len() + self.overwritten@.len() == self.consumed@.len()
        &&& self.wait_queue_used <==> self.wait_queue.ids().len() > 0
        &&& self.wait_queue.own_id() == self.id
    }

    /// Creates the packet of an overwriting SPSC channel with capacity at
    /// least `buf_size`, rounded up to a power of two and at least 1.
    pub fn new(buf_size: usize) -> (r: Packet<T>)
        requires
            buf_size <= usize::MAX / 2 + 1,
        ensures
            r.inv(),
            r.queue() =~= Seq::<T>::empty(),
            r.sent() =~= Seq::<T>::empty(),
            r.received() =~= Seq::<T>::empty(),
            r.overwritten() =~= Seq::<T>::empty(),
            !r.sender_gone(),
            !r.receiver_gone(),
            r.registered() =~= Seq::<usize>::empty(),
            r.id_spec() == 0,
            is_pow2(r.cap() as nat),
            r.cap() >= buf_size,
            r.cap() >= 1,
            buf_size > 1 ==> r.cap() / 2 < buf_size,
            buf_size <= 1 ==> r.cap() == 1,
    {
        let cap = next_pow2(buf_size);
        Packet {
            id: 0,
            buf: RingBuf::new(cap),
            sender_disconnected: false,
            receiver_disconnected: false,
            wait_queue_used: false,
            wait_queue: WaitQueue::new(),
            sent: Ghost(Seq::empty()),
            received: Ghost(Seq::empty()),
            overwritten: Ghost(Seq::empty()),
            consumed: Ghost(Seq::empty()),
        }
    }

    /// Records the channel id. Must be called before any other function.
    pub fn set_id(&mut self, id: usize)
        requires
            old(self).inv(),
        ensures
            final(self).inv(),
            final(self).id_spec() == id,
            final(self).cap() == old(self).cap(),
            final(self).registered() == old(self).registered(),
            final(self).queue() == old(self).queue(),
            final(self).sent() == old(self).sent(),
            final(self).received() == old(self).received(),
            final(self).overwritten() == old(self).overwritten(),
            same_flags(old(self), final(self)),
    {
        self.id = id;
        self.wait_queue.set_id(id);
    }

    /// The channel id.
    pub fn id(&self) -> (r: usize)
        ensures
            r == self.id_spec(),
    {
        self.id
    }

    /// Stores `val`. On a full buffer the oldest unread message is dropped
    /// out of the buffer first and returned as `Ok(Some(..))` so the sender
    /// may inspect or release it. Fails only when the receiver is gone, the
    /// packet then exactly as it was.
    pub fn send(&mut self, val: T) -> (r: Result<Option<T>, (T, Error)>)
        requires
            old(self).inv(),
        ensures
            final(self).inv(),
            old(self).receiver_gone() ==> r == Err::<Option<T>, _>((val, Error::Disconnected))
                && *final(self) == *old(self),
            !old(self).receiver_gone() && old(self).queue().len() < old(self).cap() ==> {
                &&& r == Ok::<Option<T>, (T, Error)>(None)
                &&& same_frame(old(self), final(self))
                &&& same_flags(old(self), final(self))
                &&& final(self).queue() == old(self).queue().push(val)
                &&& final(self).sent() == old(self).sent().push(val)
                &&& final(self).received() == old(self).received()
                &&& final(self).overwritten() == old(self).overwritten()
            },
            !old(self).receiver_gone() && old(self).queue().len() == old(self).cap() ==> {
                &&& r == Ok::<Option<T>, (T, Error)>(Some(old(self).queue()[0]))
                &&& same_frame(old(self), final(self))
                &&& same_flags(old(self), final(self))
                &&& final(self).queue() == old(self).queue().drop_first().push(val)
                &&& final(self).sent() == old(self).sent().push(val)
                &&& final(self).received() == old(self).received()
                &&& final(self).overwritten() == old(self).overwritten().push(
                    old(self).queue()[0],
                )
            },
    {
        if self.receiver_disconnected {
            return Err((val, Error::Disconnected));
        }
        proof {
            self.buf.lemma_len_le_cap();
        }
        let old_val = if self.buf.len() == self.buf.capacity() {
            let displaced = self.buf.pop();
            proof {
                self.overwritten@ = self.overwritten@.push(displaced);
                self.consumed@ = self.consumed@.push(displaced);
            }
            Some(displaced)
        } else {
            None
        };
        self.buf.push(val);
        proof {
            self.sent@ = self.sent@.push(val);
            assert(self.consumed@ + self.buf.view() =~= self.sent@);
        }
        Ok(old_val)
    }

    /// Dequeues the oldest value, or fails without blocking: `Disconnected`
    /// when the buffer is drained and the sender is gone, `Empty` when it is
    /// merely empty.
    pub fn recv_async(&mut self) -> (r: Result<T, Error>)
        requires
            old(self).inv(),
        ensures
            final(self).inv(),
            old(self).queue().len() == 0 && old(self).sender_gone() ==> r == Err::<T, _>(
                Error::Disconnected,
            ) && *final(self) == *old(self),
            old(self).queue().len() == 0 && !old(self).sender_gone() ==> r == Err::<T, _>(
                Error::Empty,
            ) && *final(self) == *old(self),
            old(self).queue().len() > 0 ==> {
                &&& r == Ok::<T, Error>(old(self).queue()[0])
                &&& same_frame(old(self), final(self))
                &&& same_flags(old(self), final(self))
                &&& final(self).queue() == old(self).queue().drop_first()
                &&& final(self).sent() == old(self).sent()
                &&& final(self).received() == old(self).received().push(old(self).queue()[0])
                &&& final(self).overwritten() == old(self).overwritten()
            },
    {
        if self.buf.len() == 0 {
            if self.sender_disconnected {
                return Err(Error::Disconnected);
            }
            return Err(Error::Empty);
        }
        let val = self.buf.pop();
        proof {
            self.received@ = self.received@.push(val);
            self.consumed@ = self.consumed@.push(val);
            assert(self.consumed@ + self.buf.view() =~= self.sent@);
        }
        Ok(val)
    }

    /// Dequeues the oldest value; fails only with `Disconnected`. A receive
    /// on an empty buffer with a live sender would suspend the caller, and
    /// with both endpoints driven by one owner no send could ever wake it, so
    /// the caller rules that case out; a thread shell loops over `recv_async`
    /// and parks between attempts instead.
    pub fn recv_sync(&mut self) -> (r: Result<T, Error>)
        requires
            old(self).inv(),
            old(self).queue().len() > 0 || old(self).sender_gone(),
        ensures
            final(self).inv(),
            old(self).queue().len() == 0 ==> r == Err::<T, _>(Error::Disconnected) && *final(self)
                == *old(self),
            old(self).queue().len() > 0 ==> {
                &&& r == Ok::<T, Error>(old(self).queue()[0])
                &&& same_frame(old(self), final(self))
                &&& same_flags(old(self), final(self))
                &&& final(self).queue() == old(self).queue().drop_first()
                &&& final(self).sent() == old(self).sent()
                &&& final(self).received() == old(self).received().push(old(self).queue()[0])
                &&& final(self).overwritten() == old(self).overwritten()
            },
    {
        self.recv_async()
    }

    /// Call this when the sender disconnects. The channel turns ready; the
    /// owner relays the ids of `notify_wait_queue` to their multiplexers.
    pub fn disconnect_sender(&mut self)
        requires
            old(self).inv(),
        ensures
            final(self).inv(),
            same_frame(old(self), final(self)),
            final(self).queue() == old(self).queue(),
            final(self).sent() == old(self).sent(),
            final(self).received() == old(self).received(),
            final(self).overwritten() == old(self).overwritten(),
            final(self).receiver_gone() == old(self).receiver_gone(),
            final(self).sender_gone(),
    {
        self.sender_disconnected = true;
    }

    /// Call this when the receiver disconnects.
    pub fn disconnect_receiver(&mut self)
        requires
            old(self).inv(),
        ensures
            final(self).inv(),
            same_frame(old(self), final(self)),
            final(self).queue() == old(self).queue(),
            final(self).sent() == old(self).sent(),
            final(self).received() == old(self).received(),
            final(self).overwritten() == old(self).overwritten(),
            final(self).sender_gone() == old(self).sender_gone(),
            final(self).receiver_gone(),
    {
        self.receiver_disconnected = true;
    }

    /// The multiplexer ids to be told that this channel may have turned
    /// ready; empty while nothing is registered, without touching the queue.
    pub fn notify_wait_queue(&self) -> (r: Vec<usize>)
        requires
            self.inv(),
        ensures
            r@ == self.registered(),
    {
        if self.wait_queue_used {
            self.wait_queue.notify()
        } else {
            Vec::new()
        }
    }
}

impl<T> Selectable for Packet<T> {
    open spec fn sel_id(&self) -> usize {
        self.id_spec()
    }

    open spec fn sel_ready(&self) -> bool {
        self.sender_gone() || self.queue().len() > 0
    }

    open spec fn sel_registered(&self) -> Seq<usize> {
        self.registered()
    }

    open spec fn sel_inv(&self) -> bool {
        self.inv()
    }

    fn id(&self) -> (r: usize) {
        self.id
    }

    fn ready(&self) -> (r: bool) {
        self.sender_disconnected || self.buf.len() > 0
    }

    fn register(&mut self, load: Payload) {
        if self.wait_queue.add(load) > 0 {
            self.wait_queue_used = true;
        }
    }

    fn unregister(&mut self, id: usize) {
        if self.wait_queue.remove(id) == 0 {
            self.wait_queue_used = false;
        }
    }
}

/// The buffer always holds the most recent contiguous suffix of the send
/// stream, and the values whose destructors run when the packet is dropped
/// number exactly the successful sends minus the successful receives minus
/// the messages dropped on overflow.
pub proof fn lemma_queue_is_recent_suffix<T>(p: &Packet<T>)
    requires
        p.inv(),
    ensures
        p.queue() =~= p.sent().skip(p.sent().len() - p.queue().len()),
        p.queue().len() + p.received().len() + p.overwritten().len() == p.sent().len(),
{
    assert(p.consumed() + p.queue() == p.sent());
}

} // verus!
