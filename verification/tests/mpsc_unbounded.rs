use comm::mpsc::unbounded::Packet;
use comm::Error;

#[test]
fn drop_send_recv() {
    let mut chan = Packet::<u8>::new();
    chan.remove_sender();
    assert_eq!(chan.recv_async().unwrap_err(), Error::Disconnected);
}

#[test]
fn recv() {
    let mut chan = Packet::<u8>::new();
    assert_eq!(chan.recv_async().unwrap_err(), Error::Empty);
}

#[test]
fn mpsc_unbounded_send_recv() {
    let mut chan = Packet::new();
    chan.send(1u8).unwrap();
    assert_eq!(chan.recv_async().unwrap(), 1u8);
}

#[test]
fn mpsc_unbounded_drop_recv_send() {
    let mut chan = Packet::new();
    chan.remove_receiver();
    assert_eq!(chan.send(1u8).unwrap_err(), (1, Error::Disconnected));
}

#[test]
fn mpsc_unbounded_fifo_order() {
    let mut chan = Packet::new();
    chan.send(1u8).unwrap();
    chan.send(2u8).unwrap();
    chan.send(3u8).unwrap();
    chan.send(4u8).unwrap();
    assert_eq!(chan.recv_sync().unwrap(), 1);
    assert_eq!(chan.recv_sync().unwrap(), 2);
    assert_eq!(chan.recv_sync().unwrap(), 3);
    assert_eq!(chan.recv_sync().unwrap(), 4);
    assert_eq!(chan.recv_async().unwrap_err(), Error::Empty);
}

// One owner plays 100 producers of 100 values each; every sent value is
// received exactly once, so the receives sum to (10000 * 9999) / 2.
#[test]
fn hundred_producers_sum() {
    const NUM: usize = 100;
    const RESULT: usize = (NUM * NUM - 1) * (NUM * NUM) / 2;

    let mut chan = Packet::new();
    for i in 0..NUM {
        for j in (i * NUM)..((i + 1) * NUM) {
            chan.send(j).unwrap();
        }
    }
    chan.remove_sender();
    let mut sum = 0;
    while let Ok(n) = chan.recv_sync() {
        sum += n;
    }
    assert_eq!(sum, RESULT);
    assert_eq!(sum, 49995000);
}

// Values tagged with their producer come out in each producer's own send
// order, whatever the interleaving of the producers was.
#[test]
fn per_producer_order_kept() {
    let mut chan = Packet::new();
    chan.send((0usize, 0usize)).unwrap();
    chan.send((1usize, 0usize)).unwrap();
    chan.send((0usize, 1usize)).unwrap();
    chan.send((1usize, 1usize)).unwrap();
    chan.send((0usize, 2usize)).unwrap();
    let mut of_first = Vec::new();
    while let Ok((producer, seq)) = chan.recv_async() {
        if producer == 0 {
            of_first.push(seq);
        }
    }
    assert_eq!(of_first, vec![0, 1, 2]);
}
