use comm::spmc;
use comm::Error;

#[test]
fn drop_recv_send() {
    let mut chan = spmc::bounded_fast::Packet::new(2);
    chan.remove_receiver();
    assert_eq!(chan.send_async(1u8).unwrap_err(), (1, Error::Disconnected));
}

#[test]
fn spmc_send_recv() {
    let mut chan = spmc::bounded_fast::Packet::new(2);
    chan.send_async(1u8).unwrap();
    assert_eq!(chan.recv_async().unwrap(), 1u8);
}

#[test]
fn spmc_drop_send_recv() {
    let mut chan = spmc::bounded_fast::Packet::<u8>::new(2);
    chan.remove_sender();
    assert_eq!(chan.recv_async().unwrap_err(), Error::Disconnected);
}

#[test]
fn spmc_recv_empty() {
    let mut chan = spmc::bounded_fast::Packet::<u8>::new(2);
    assert_eq!(chan.recv_async().unwrap_err(), Error::Empty);
}

#[test]
fn spmc_send_5_recv_5() {
    let mut chan = spmc::bounded_fast::Packet::new(4);
    chan.send_async(1u8).unwrap();
    chan.send_async(2u8).unwrap();
    chan.send_async(3u8).unwrap();
    chan.send_async(4u8).unwrap();
    assert_eq!(chan.send_async(5u8).unwrap_err().1, Error::Full);
    assert_eq!(chan.recv_sync().unwrap(), 1);
    assert_eq!(chan.recv_sync().unwrap(), 2);
    assert_eq!(chan.recv_sync().unwrap(), 3);
    assert_eq!(chan.recv_sync().unwrap(), 4);
    assert_eq!(chan.recv_async().unwrap_err(), Error::Empty);
}

// One owner plays the single producer and 100 counted consumers; the buffer
// is drained whenever it is full and once the producer is done.
fn multiple_consumers(buf_size: usize) {
    const NUM: usize = 100;
    const RESULT: usize = (NUM * NUM - 1) * (NUM * NUM) / 2;

    let mut chan = spmc::bounded_fast::Packet::new(buf_size);
    for _ in 1..NUM {
        chan.add_receiver();
    }
    let mut sum = 0;
    for i in 0..(NUM * NUM) {
        let mut val = i;
        loop {
            match chan.send_async(val) {
                Ok(()) => break,
                Err((v, _)) => {
                    sum += chan.recv_sync().unwrap();
                    val = v;
                }
            }
        }
    }
    chan.remove_sender();
    while let Ok(n) = chan.recv_sync() {
        sum += n;
    }
    assert_eq!(sum, RESULT);
}

#[test]
fn multiple_consumers_1() {
    multiple_consumers(1);
}

#[test]
fn multiple_consumers_10() {
    multiple_consumers(10);
}

#[test]
fn multiple_consumers_100() {
    multiple_consumers(100);
}

#[test]
fn multiple_consumers_1000() {
    multiple_consumers(1000);
}

#[test]
fn spmc_unbounded_send_recv() {
    let mut chan = spmc::unbounded::Packet::new();
    chan.send(1u8).unwrap();
    assert_eq!(chan.recv_async().unwrap(), 1u8);
}

#[test]
fn spmc_unbounded_disconnects() {
    let mut chan = spmc::unbounded::Packet::<u8>::new();
    assert_eq!(chan.recv_async().unwrap_err(), Error::Empty);
    chan.remove_sender();
    assert_eq!(chan.recv_async().unwrap_err(), Error::Disconnected);
    let mut other = spmc::unbounded::Packet::new();
    other.remove_receiver();
    assert_eq!(other.send(1u8).unwrap_err(), (1, Error::Disconnected));
}

#[test]
fn spmc_fast_minimum_capacity_is_two() {
    let mut chan = spmc::bounded_fast::Packet::new(0);
    chan.send_async(1u8).unwrap();
    chan.send_async(2u8).unwrap();
    assert_eq!(chan.send_async(3u8).unwrap_err().1, Error::Full);
    assert_eq!(chan.recv_async().unwrap(), 1);
    assert_eq!(chan.recv_async().unwrap(), 2);
}
