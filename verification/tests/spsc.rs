use comm::spsc;
use comm::Error;

#[test]
fn send_send() {
    let mut chan = spsc::bounded::Packet::new(1);
    chan.send_sync(1u8).unwrap();
    assert_eq!(chan.send_async(1u8).unwrap_err(), (1, Error::Full));
}

#[test]
fn bounded_send_recv() {
    let mut chan = spsc::bounded::Packet::new(2);
    chan.send_sync(1u8).unwrap();
    assert_eq!(chan.recv_async().unwrap(), 1u8);
}

#[test]
fn bounded_drop_send_recv() {
    let mut chan = spsc::bounded::Packet::<u8>::new(2);
    chan.disconnect_sender();
    assert_eq!(chan.recv_async().unwrap_err(), Error::Disconnected);
}

#[test]
fn bounded_drop_recv_send() {
    let mut chan = spsc::bounded::Packet::new(2);
    chan.disconnect_receiver();
    assert_eq!(chan.send_sync(1u8).unwrap_err(), (1, Error::Disconnected));
}

#[test]
fn bounded_recv_empty() {
    let mut chan = spsc::bounded::Packet::<u8>::new(2);
    assert_eq!(chan.recv_async().unwrap_err(), Error::Empty);
}

// A request for capacity 3 rounds up to 4: four sends fit, the fifth
// non-blocking send is refused, the four receives return the sent values in
// order, and a further receive finds the buffer empty.
#[test]
fn bounded_send_5_recv_5() {
    let mut chan = spsc::bounded::Packet::new(3);
    chan.send_sync(1u8).unwrap();
    chan.send_sync(2u8).unwrap();
    chan.send_sync(3u8).unwrap();
    chan.send_sync(4u8).unwrap();
    assert_eq!(chan.send_async(5).unwrap_err().1, Error::Full);
    assert_eq!(chan.recv_sync().unwrap(), 1);
    assert_eq!(chan.recv_sync().unwrap(), 2);
    assert_eq!(chan.recv_sync().unwrap(), 3);
    assert_eq!(chan.recv_sync().unwrap(), 4);
    assert_eq!(chan.recv_async().unwrap_err(), Error::Empty);
}

#[test]
fn bounded_capacity_zero_and_one_round_to_one() {
    let mut chan = spsc::bounded::Packet::new(0);
    chan.send_async(1u8).unwrap();
    assert_eq!(chan.send_async(2u8).unwrap_err().1, Error::Full);
    assert_eq!(chan.recv_async().unwrap(), 1);
    let mut chan1 = spsc::bounded::Packet::new(1);
    chan1.send_async(1u8).unwrap();
    assert_eq!(chan1.send_async(2u8).unwrap_err().1, Error::Full);
}

// The one-space channel holds a single message; its tests.
#[test]
fn one_space_send_recv() {
    let mut chan = spsc::one_space::Packet::new();
    chan.send(1u8).unwrap();
    assert_eq!(chan.recv_async().unwrap(), 1u8);
}

#[test]
fn one_space_send_send() {
    let mut chan = spsc::one_space::Packet::new();
    chan.send(1u8).unwrap();
    assert_eq!(chan.send(1u8).unwrap_err(), (1, Error::Full));
}

#[test]
fn send_can_recv() {
    let mut chan = spsc::one_space::Packet::new();
    chan.send(1u8).unwrap();
    assert_eq!(chan.can_recv(), true);
}

#[test]
fn can_recv() {
    let chan = spsc::one_space::Packet::<u8>::new();
    assert_eq!(chan.can_recv(), false);
}

#[test]
fn one_space_disconnects() {
    let mut chan = spsc::one_space::Packet::<u8>::new();
    assert_eq!(chan.recv_async().unwrap_err(), Error::Empty);
    chan.sender_disconnect();
    assert_eq!(chan.recv_async().unwrap_err(), Error::Disconnected);
    let mut other = spsc::one_space::Packet::new();
    other.recv_disconnect();
    assert_eq!(other.send(1u8).unwrap_err(), (1, Error::Disconnected));
}

// The unbounded list flavor.
#[test]
fn unbounded_roundtrip() {
    let mut chan = spsc::unbounded::Packet::new();
    chan.send(1u8).unwrap();
    chan.send(2u8).unwrap();
    assert_eq!(chan.recv_sync().unwrap(), 1);
    assert_eq!(chan.recv_async().unwrap(), 2);
    assert_eq!(chan.recv_async().unwrap_err(), Error::Empty);
    chan.disconnect_sender();
    assert_eq!(chan.recv_async().unwrap_err(), Error::Disconnected);
}

#[test]
fn unbounded_drop_recv_send() {
    let mut chan = spsc::unbounded::Packet::new();
    chan.disconnect_receiver();
    assert_eq!(chan.send(1u8).unwrap_err(), (1, Error::Disconnected));
}

// A ring buffer of requested capacity 3 rounds to 4: the fifth send displaces
// the oldest message and hands it back, and the receives yield the most
// recent four values.
#[test]
fn ring_buf_overwrites_oldest() {
    let mut chan = spsc::ring_buf::Packet::new(3);
    assert_eq!(chan.send(1u8).unwrap(), None);
    assert_eq!(chan.send(2u8).unwrap(), None);
    assert_eq!(chan.send(3u8).unwrap(), None);
    assert_eq!(chan.send(4u8).unwrap(), None);
    assert_eq!(chan.send(5u8).unwrap(), Some(1));
    assert_eq!(chan.recv_async().unwrap(), 2);
    assert_eq!(chan.recv_async().unwrap(), 3);
    assert_eq!(chan.recv_async().unwrap(), 4);
    assert_eq!(chan.recv_async().unwrap(), 5);
    assert_eq!(chan.recv_async().unwrap_err(), Error::Empty);
}

#[test]
fn ring_buf_disconnects() {
    let mut chan = spsc::ring_buf::Packet::<u8>::new(2);
    assert_eq!(chan.recv_async().unwrap_err(), Error::Empty);
    chan.disconnect_sender();
    assert_eq!(chan.recv_async().unwrap_err(), Error::Disconnected);
    let mut other = spsc::ring_buf::Packet::new(2);
    other.disconnect_receiver();
    assert_eq!(other.send(1u8).unwrap_err(), (1, Error::Disconnected));
}

// A message type that counts its destructor runs, to watch what a dropped
// packet does with the values still buffered.
#[derive(Debug)]
struct Token(std::rc::Rc<std::cell::Cell<usize>>);

impl Drop for Token {
    fn drop(&mut self) {
        self.0.set(self.0.get() + 1);
    }
}

// Dropping the packet runs the destructor of exactly the buffered messages:
// the successful sends minus the successful receives.
#[test]
fn buffered_messages_drop_with_packet() {
    let drops = std::rc::Rc::new(std::cell::Cell::new(0));
    let mut chan = comm::spsc::bounded::Packet::new(4);
    chan.send_async(Token(drops.clone())).unwrap();
    chan.send_async(Token(drops.clone())).unwrap();
    chan.send_async(Token(drops.clone())).unwrap();
    let received = chan.recv_async().unwrap();
    assert_eq!(drops.get(), 0);
    drop(chan);
    assert_eq!(drops.get(), 2);
    drop(received);
    assert_eq!(drops.get(), 3);
}

// For the overwriting flavor the displaced message goes back to the sender,
// so sends minus receives minus returned overflows are what the packet drops.
#[test]
fn overwriting_accounts_for_displaced_messages() {
    let drops = std::rc::Rc::new(std::cell::Cell::new(0));
    let mut chan = comm::spsc::ring_buf::Packet::new(1);
    assert!(chan.send(Token(drops.clone())).unwrap().is_none());
    let displaced = chan.send(Token(drops.clone())).unwrap();
    assert!(displaced.is_some());
    drop(displaced);
    assert_eq!(drops.get(), 1);
    drop(chan);
    assert_eq!(drops.get(), 2);
}
