//! An unbounded MPSC channel.
//!
//! Like the unbounded SPSC channel, but the producing side is counted: the
//! packet tracks how many senders live, and a receive on a drained queue
//! fails with `Disconnected` only once every sender is gone. Sends append in
//! call order, so the values of any single producer are received in the order
//! that producer sent them.

use vstd::prelude::*;

use crate::select::{Payload, Selectable, WaitQueue};
use crate::Error;

verus! {

/// The shared state of an unbounded MPSC channel.
pub struct Packet<T> {
    id: usize,
    buf: Vec<T>,
    num_senders: usize,
    have_receiver: bool,
    wait_queue_used: bool,
    wait_queue: WaitQueue,
    sent: Ghost<Seq<T>>,
    received: Ghost<Seq<T>>,
}

/// The parts of a packet that no data operation touches: its id and its
/// registered multiplexers.
pub open spec fn same_frame<T>(pre: &Packet<T>, post: &Packet<T>) -> bool {
    &&& post.id_spec() == pre.id_spec()
    &&& post.registered() == pre.registered()
}

/// The endpoint counts are as they were.
pub open spec fn same_peers<T>(pre: &Packet<T>, post: &Packet<T>) -> bool {
    &&& post.senders() == pre.senders()
    &&& post.receiver_gone() == pre.receiver_gone()
}

impl<T> Packet<T> {
    /// The messages in the queue, oldest first.
    pub closed spec fn queue(&self) -> Seq<T> {
        self.buf@
    }

    /// Every value successfully sent, in send order.
    pub closed spec fn sent(&self) -> Seq<T> {
        self.sent@
    }

    /// Every value successfully received, in receive order.
    pub closed spec fn received(&self) -> Seq<T> {
        self.received@
    }

    /// How many senders live.
    pub closed spec fn senders(&self) -> usize {
        self.num_senders
    }

    /// Whether the receiving side has disconnected.
    pub closed spec fn receiver_gone(&self) -> bool {
        !self.have_receiver
    }

    /// The channel id.
    pub closed spec fn id_spec(&self) -> usize {
        self.id
    }

    /// The multiplexer ids registered on this packet.
    pub closed spec fn registered(&self) -> Seq<usize> {
        self.wait_queue.ids()
    }

    /// Well-formedness: the receive history followed by the queued values is
    /// exactly the send history, and the wait-queue fast-path flag agrees
    /// with the wait queue.
    pub closed spec fn inv(&self) -> bool {
        &&& self.received@ + self.buf@ == self.sent@
        &&& self.wait_queue_used <==> self.wait_queue.ids().len() > 0
        &&& self.wait_queue.own_id() == self.id
    }

    /// Creates the packet of an unbounded MPSC channel, with one sender.
    pub fn new() -> (r: Packet<T>)
        ensures
            r.inv(),
            r.queue() =~= Seq::<T>::empty(),
            r.sent() =~= Seq::<T>::empty(),
            r.received() =~= Seq::<T>::empty(),
            r.senders() == 1,
            !r.receiver_gone(),
            r.registered() =~= Seq::<usize>::empty(),
            r.id_spec() == 0,
    {
        Packet {
            id: 0,
            buf: Vec::new(),
            num_senders: 1,
            have_receiver: true,
            wait_queue_used: false,
            wait_queue: WaitQueue::new(),
            sent: Ghost(Seq::empty()),
            received: Ghost(Seq::empty()),
        }
    }

    /// Records the channel id. Must be called before any other function.
    pub fn set_id(&mut self, id: usize)
        requires
            old(self).inv(),
        ensures
            final(self).inv(),
            final(self).id_spec() == id,
            final(self).registered() == old(self).registered(),
            final(self).queue() == old(self).queue(),
            final(self).sent() == old(self).sent(),
            final(self).received() == old(self).received(),
            same_peers(old(self), final(self)),
    {
        self.id = id;
        self.wait_queue.set_id(id);
    }

    /// The channel id.
    pub fn id(&self) -> (r: usize)
        ensures
            r == self.id_spec(),
    {
        self.id
    }

    /// Call this when a sender is cloned.
    pub fn add_sender(&mut self)
        requires
            old(self).inv(),
            old(self).senders() < usize::MAX,
        ensures
            final(self).inv(),
            same_frame(old(self), final(self)),
            final(self).queue() == old(self).queue(),
            final(self).sent() == old(self).sent(),
            final(self).received() == old(self).received(),
            final(self).receiver_gone() == old(self).receiver_gone(),
            final(self).senders() == old(self).senders() + 1,
    {
        self.num_senders = self.num_senders + 1;
    }

    /// Call this when a sender is dropped. Once the last one is gone the
    /// channel turns ready; the owner relays the ids of `notify_wait_queue`
    /// to their multiplexers.
    pub fn remove_sender(&mut self)
        requires
            old(self).inv(),
            old(self).senders() > 0,
        ensures
            final(self).inv(),
            same_frame(old(self), final(self)),
            final(self).queue() == old(self).queue(),
            final(self).sent() == old(self).sent(),
            final(self).received() == old(self).received(),
            final(self).receiver_gone() == old(self).receiver_gone(),
            final(self).senders() == old(self).senders() - 1,
    {
        self.num_senders = self.num_senders - 1;
    }

    /// Call this when the receiver is dropped.
    pub fn remove_receiver(&mut self)
        requires
            old(self).inv(),
        ensures
            final(self).inv(),
            same_frame(old(self), final(self)),
            final(self).queue() == old(self).queue(),
            final(self).sent() == old(self).sent(),
            final(self).received() == old(self).received(),
            final(self).senders() == old(self).senders(),
            final(self).receiver_gone(),
    {
        self.have_receiver = false;
    }

    /// Appends `val` to the queue; fails only when the receiver is gone, and
    /// then hands `val` back with `Disconnected`, the packet exactly as it
    /// was.
    pub fn send(&mut self, val: T) -> (r: Result<(), (T, Error)>)
        requires
            old(self).inv(),
        ensures
            final(self).inv(),
            old(self).receiver_gone() ==> r == Err::<(), _>((val, Error::Disconnected))
                && *final(self) == *old(self),
            !old(self).receiver_gone() ==> {
                &&& r == Ok::<(), (T, Error)>(())
                &&& same_frame(old(self), final(self))
                &&& same_peers(old(self), final(self))
                &&& final(self).queue() == old(self).queue().push(val)
                &&& final(self).sent() == old(self).sent().push(val)
                &&& final(self).received() == old(self).received()
            },
    {
        if !self.have_receiver {
            return Err((val, Error::Disconnected));
        }
        self.buf.push(val);
        proof {
            self.sent@ = self.sent@.push(val);
            assert(self.received@ + self.buf@ =~= self.sent@);
        }
        Ok(())
    }

    /// Dequeues the oldest value, or fails without blocking: `Disconnected`
    /// when the queue is drained and every sender is gone, `Empty` when it is
    /// merely empty.
    pub fn recv_async(&mut self) -> (r: Result<T, Error>)
        requires
            old(self).inv(),
        ensures
            final(self).inv(),
            old(self).queue().len() == 0 && old(self).senders() == 0 ==> r == Err::<T, _>(
                Error::Disconnected,
            ) && *final(self) == *old(self),
            old(self).queue().len() == 0 && old(self).senders() > 0 ==> r == Err::<T, _>(
                Error::Empty,
            ) && *final(self) == *old(self),
            old(self).queue().len() > 0 ==> {
                &&& r == Ok::<T, Error>(old(self).queue()[0])
                &&& same_frame(old(self), final(self))
                &&& same_peers(old(self), final(self))
                &&& final(self).queue() == old(self).queue().drop_first()
                &&& final(self).sent() == old(self).sent()
                &&& final(self).received() == old(self).received().push(old(self).queue()[0])
            },
    {
        if self.buf.len() == 0 {
            if self.num_senders == 0 {
                return Err(Error::Disconnected);
            }
            return Err(Error::Empty);
        }
        let val = self.buf.remove(0);
        proof {
            self.received@ = self.received@.push(val);
            assert(self.received@ + self.buf@ =~= self.sent@);
        }
        Ok(val)
    }

    /// Dequeues the oldest value; fails only with `Disconnected`. A receive
    /// on an empty queue with live senders would suspend the caller, and with
    /// every endpoint driven by one owner no send could ever wake it, so the
    /// caller rules that case out; a thread shell loops over `recv_async` and
    /// parks between attempts instead.
    pub fn recv_sync(&mut self) -> (r: Result<T, Error>)
        requires
            old(self).inv(),
            old(self).queue().len() > 0 || old(self).senders() == 0,
        ensures
            final(self).inv(),
            old(self).queue().len() == 0 ==> r == Err::<T, _>(Error::Disconnected) && *final(self)
                == *old(self),
            old(self).queue().len() > 0 ==> {
                &&& r == Ok::<T, Error>(old(self).queue()[0])
                &&& same_frame(old(self), final(self))
                &&& same_peers(old(self), final(self))
                &&& final(self).queue() == old(self).queue().drop_first()
                &&& final(self).sent() == old(self).sent()
                &&& final(self).received() == old(self).received().push(old(self).queue()[0])
            },
    {
        self.recv_async()
    }

    /// The multiplexer ids to be told that this channel may have turned
    /// ready; empty while nothing is registered, without touching the queue.
    pub fn notify_wait_queue(&self) -> (r: Vec<usize>)
        requires
            self.inv(),
        ensures
            r@ == self.registered(),
    {
        if self.wait_queue_used {
            self.wait_queue.notify()
        } else {
            Vec::new()
        }
    }
}

impl<T> Selectable for Packet<T> {
    open spec fn sel_id(&self) -> usize {
        self.id_spec()
    }

    open spec fn sel_ready(&self) -> bool {
        self.senders() == 0 || self.queue().len() > 0
    }

    open spec fn sel_registered(&self) -> Seq<usize> {
        self.registered()
    }

    open spec fn sel_inv(&self) -> bool {
        self.inv()
    }

    fn id(&self) -> (r: usize) {
        self.id
    }

    fn ready(&self) -> (r: bool) {
        self.num_senders == 0 || self.buf.len() > 0
    }

    fn register(&mut self, load: Payload) {
        if self.wait_queue.add(load) > 0 {
            self.wait_queue_used = true;
        }
    }

    fn unregister(&mut self, id: usize) {
        if self.wait_queue.remove(id) == 0 {
            self.wait_queue_used = false;
        }
    }
}

/// The receives are a prefix of the sends: each received value was sent, at
/// the same position, and the queue holds the rest.
pub proof fn lemma_receives_prefix_of_sends<T>(p: &Packet<T>)
    requires
        p.inv(),
    ensures
        p.received() =~= p.sent().take(p.received().len() as int),
        p.received().len() + p.queue().len() == p.sent().len(),
        p.queue() =~= p.sent().skip(p.received().len() as int),
{
    assert(p.received() + p.queue() == p.sent());
}

/// Per-producer order: pick out the sends of any one producer by a predicate
/// on the values — a tag the producer stamped on them. Because the receives
/// are a prefix of the sends, the received values of that producer are a
/// prefix of what it sent, in the order it sent them.
pub proof fn lemma_per_producer_order<T>(p: &Packet<T>, from_producer: spec_fn(T) -> bool)
    requires
        p.inv(),
    ensures
        p.received().filter(from_producer).is_prefix_of(p.sent().filter(from_producer)),
{
    lemma_receives_prefix_of_sends(p);
    assert(p.received().is_prefix_of(p.sent()));
    p.received().lemma_filter_monotone(p.sent(), from_producer);
}

} // verus!
