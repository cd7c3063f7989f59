//! An SPSC channel with a buffer size of one.
//!
//! This channel should mostly be used if the sender only sends a single
//! message. The packet holds one optional cell and two disconnection flags; a
//! send on an occupied cell fails with `Full`, a receive empties the cell.

use vstd::prelude::*;

use crate::select::{Payload, Selectable, WaitQueue};
use crate::Error;

verus! {

/// The shared state of a one-space SPSC channel.
pub struct Packet<T> {
    id: usize,
    data: Option<T>,
    sender_disconnected: bool,
    receiver_disconnected: bool,
    wait_queue_used: bool,
    wait_queue: WaitQueue,
    sent: Ghost<Seq<T>>,
    received: Ghost<Seq<T>>,
}

/// The parts of a packet that no data operation touches: its id and its
/// registered multiplexers.
pub open spec fn same_frame<T>(pre: &Packet<T>, post: &Packet<T>) -> bool {
    &&& post.id_spec() == pre.id_spec()
    &&& post.registered() == pre.registered()
}

/// Both disconnection flags are as they were.
pub open spec fn same_flags<T>(pre: &Packet<T>, post: &Packet<T>) -> bool {
    &&& post.sender_gone() == pre.sender_gone()
    &&& post.receiver_gone() == pre.receiver_gone()
}

impl<T> Packet<T> {
    /// The buffered message, as a sequence of length 0 or 1.
    pub closed spec fn queue(&self) -> Seq<T> {
        match self.data {
            Some(v) => seq![v],
            None => Seq::empty(),
        }
    }

    /// Every value successfully sent, in send order.
    pub closed spec fn sent(&self) -> Seq<T> {
        self.sent@
    }

    /// Every value successfully received, in receive order.
    pub closed spec fn received(&self) -> Seq<T> {
        self.received@
    }

    /// Whether the sending side has disconnected.
    pub closed spec fn sender_gone(&self) -> bool {
        self.sender_disconnected
    }

    /// Whether the receiving side has disconnected.
    pub closed spec fn receiver_gone(&self) -> bool {
        self.receiver_disconnected
    }

    /// The channel id.
    pub closed spec fn id_spec(&self) -> usize {
        self.id
    }

    /// The multiplexer ids registered on this packet.
    pub closed spec fn registered(&self) -> Seq<usize> {
        self.wait_queue.ids()
    }

    /// Well-formedness: the receive history followed by the cell's content is
    /// exactly the send history, and the wait-queue fast-path flag agrees
    /// with the wait queue.
    pub closed spec fn inv(&self) -> bool {
        &&& self.received@ + self.queue() == self.sent@
        &&& self.wait_queue_used <==> self.wait_queue.ids().len() > 0
        &&& self.wait_queue.own_id() == self.id
    }

    /// Creates the packet of a one-space SPSC channel.
    pub fn new() -> (r: Packet<T>)
        ensures
            r.inv(),
            r.queue() =~= Seq::<T>::empty(),
            r.sent() =~= Seq::<T>::empty(),
            r.received() =~= Seq::<T>::empty(),
            !r.sender_gone(),
            !r.receiver_gone(),
            r.registered() =~= Seq::<usize>::empty(),
            r.id_spec() == 0,
    {
        Packet {
            id: 0,
            data: None,
            sender_disconnected: false,
            receiver_disconnected: false,
            wait_queue_used: false,
            wait_queue: WaitQueue::new(),
            sent: Ghost(Seq::empty()),
            received: Ghost(Seq::empty()),
        }
    }

    /// Records the channel id. Must be called before any other function.
    pub fn set_id(&mut self, id: usize)
        requires
            old(self).inv(),
        ensures
            final(self).inv(),
            final(self).id_spec() == id,
            final(self).registered() == old(self).registered(),
            final(self).queue() == old(self).queue(),
            final(self).sent() == old(self).sent(),
            final(self).received() == old(self).received(),
            same_flags(old(self), final(self)),
    {
        self.id = id;
        self.wait_queue.set_id(id);
    }

    /// The channel id.
    pub fn id(&self) -> (r: usize)
        ensures
            r == self.id_spec(),
    {
        self.id
    }

    /// Stores `val` if the cell is empty and the receiver has not
    /// disconnected. On failure the packet is exactly as it was and `val`
    /// comes back with the error: `Disconnected` when the receiver is gone,
    /// `Full` while a message is already stored.
    pub fn send(&mut self, val: T) -> (r: Result<(), (T, Error)>)
        requires
            old(self).inv(),
        ensures
            final(self).inv(),
            old(self).receiver_gone() ==> r == Err::<(), _>((val, Error::Disconnected))
                && *final(self) == *old(self),
            !old(self).receiver_gone() && old(self).queue().len() == 1 ==> r == Err::<(), _>(
                (val, Error::Full),
            ) && *final(self) == *old(self),
            !old(self).receiver_gone() && old(self).queue().len() == 0 ==> {
                &&& r == Ok::<(), (T, Error)>(())
                &&& same_frame(old(self), final(self))
                &&& same_flags(old(self), final(self))
                &&& final(self).queue() == seq![val]
                &&& final(self).sent() == old(self).sent().push(val)
                &&& final(self).received() == old(self).received()
            },
    {
        if self.receiver_disconnected {
            return Err((val, Error::Disconnected));
        }
        if self.data.is_some() {
            return Err((val, Error::Full));
        }
        self.data = Some(val);
        proof {
            self.sent@ = self.sent@.push(val);
            assert(self.received@ + self.queue() =~= self.sent@);
        }
        Ok(())
    }

    /// Takes the message out, or fails without blocking: `Disconnected` when
    /// the cell is empty and the sender is gone, `Empty` when it is merely
    /// empty.
    pub fn recv_async(&mut self) -> (r: Result<T, Error>)
        requires
            old(self).inv(),
        ensures
            final(self).inv(),
            old(self).queue().len() == 0 && old(self).sender_gone() ==> r == Err::<T, _>(
                Error::Disconnected,
            ) && *final(self) == *old(self),
            old(self).queue().len() == 0 && !old(self).sender_gone() ==> r == Err::<T, _>(
                Error::Empty,
            ) && *final(self) == *old(self),
            old(self).queue().len() == 1 ==> {
                &&& r == Ok::<T, Error>(old(self).queue()[0])
                &&& same_frame(old(self), final(self))
                &&& same_flags(old(self), final(self))
                &&& final(self).queue() =~= Seq::<T>::empty()
                &&& final(self).sent() == old(self).sent()
                &&& final(self).received() == old(self).received().push(old(self).queue()[0])
            },
    {
        match self.data.take() {
            Some(val) => {
                proof {
                    self.received@ = self.received@.push(val);
                    assert(self.received@ + self.queue() =~= self.sent@);
                }
                Ok(val)
            },
            None => {
                if self.sender_disconnected {
                    Err(Error::Disconnected)
                } else {
                    Err(Error::Empty)
                }
            },
        }
    }

    /// Takes the message out; fails only with `Disconnected`. A receive on an
    /// empty cell with a live sender would suspend the caller, and with both
    /// endpoints driven by one owner no send could ever wake it, so the
    /// caller rules that case out; a thread shell parks on the receiver's
    /// thread handle instead.
    pub fn recv_sync(&mut self) -> (r: Result<T, Error>)
        requires
            old(self).inv(),
            old(self).queue().len() == 1 || old(self).sender_gone(),
        ensures
            final(self).inv(),
            old(self).queue().len() == 0 ==> r == Err::<T, _>(Error::Disconnected) && *final(self)
                == *old(self),
            old(self).queue().len() == 1 ==> {
                &&& r == Ok::<T, Error>(old(self).queue()[0])
                &&& same_frame(old(self), final(self))
                &&& same_flags(old(self), final(self))
                &&& final(self).queue() =~= Seq::<T>::empty()
                &&& final(self).sent() == old(self).sent()
                &&& final(self).received() == old(self).received().push(old(self).queue()[0])
            },
    {
        self.recv_async()
    }

    /// Whether a receive would find a message or a disconnect.
    pub fn can_recv(&self) -> (r: bool)
        ensures
            r == (self.queue().len() > 0 || self.sender_gone()),
    {
        self.data.is_some() || self.sender_disconnected
    }

    /// Call this when the sender disconnects. The channel turns ready; the
    /// owner relays the ids of `notify_wait_queue` to their multiplexers.
    pub fn sender_disconnect(&mut self)
        requires
            old(self).inv(),
        ensures
            final(self).inv(),
            same_frame(old(self), final(self)),
            final(self).queue() == old(self).queue(),
            final(self).sent() == old(self).sent(),
            final(self).received() == old(self).received(),
            final(self).receiver_gone() == old(self).receiver_gone(),
            final(self).sender_gone(),
    {
        self.sender_disconnected = true;
    }

    /// Call this when the receiver disconnects.
    pub fn recv_disconnect(&mut self)
        requires
            old(self).inv(),
        ensures
            final(self).inv(),
            same_frame(old(self), final(self)),
            final(self).queue() == old(self).queue(),
            final(self).sent() == old(self).sent(),
            final(self).received() == old(self).received(),
            final(self).sender_gone() == old(self).sender_gone(),
            final(self).receiver_gone(),
    {
        self.receiver_disconnected = true;
    }

    /// The multiplexer ids to be told that this channel may have turned
    /// ready; empty while nothing is registered, without touching the queue.
    pub fn notify_wait_queue(&self) -> (r: Vec<usize>)
        requires
            self.inv(),
        ensures
            r@ == self.registered(),
    {
        if self.wait_queue_used {
            self.wait_queue.notify()
        } else {
            Vec::new()
        }
    }
}

impl<T> Selectable for Packet<T> {
    open spec fn sel_id(&self) -> usize {
        self.id_spec()
    }

    open spec fn sel_ready(&self) -> bool {
        self.sender_gone() || self.queue().len() > 0
    }

    open spec fn sel_registered(&self) -> Seq<usize> {
        self.registered()
    }

    open spec fn sel_inv(&self) -> bool {
        self.inv()
    }

    fn id(&self) -> (r: usize) {
        self.id
    }

    fn ready(&self) -> (r: bool) {
        self.sender_disconnected || self.data.is_some()
    }

    fn register(&mut self, load: Payload) {
        if self.wait_queue.add(load) > 0 {
            self.wait_queue_used = true;
        }
    }

    fn unregister(&mut self, id: usize) {
        if self.wait_queue.remove(id) == 0 {
            self.wait_queue_used = false;
        }
    }
}

/// The cell holds at most one message, whatever was done to the packet.
pub proof fn lemma_at_most_one_buffered<T>(p: &Packet<T>)
    ensures
        p.queue().len() <= 1,
{
}

/// The receives are a prefix of the sends: each received value was sent, at
/// the same position, so no value is delivered twice. The cell holds exactly
/// the sends that were not yet received.
pub proof fn lemma_receives_prefix_of_sends<T>(p: &Packet<T>)
    requires
        p.inv(),
    ensures
        p.received() =~= p.sent().take(p.received().len() as int),
        p.received().len() + p.queue().len() == p.sent().len(),
{
    assert(p.received() + p.queue() == p.sent());
}

} // verus!
