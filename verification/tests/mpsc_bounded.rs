use comm::mpsc::bounded_fast::Packet;
use comm::select::Select;
use comm::Error;

#[test]
fn send_recv() {
    let mut chan = Packet::new(2);
    chan.send_async(1u8).unwrap();
    assert_eq!(chan.recv_async().unwrap(), 1u8);
}

#[test]
fn test_drop_send_recv() {
    let mut chan = Packet::<u8>::new(2);
    chan.remove_sender();
    assert_eq!(chan.recv_async().unwrap_err(), Error::Disconnected);
}

#[test]
fn test_drop_recv_send() {
    let mut chan = Packet::new(2);
    chan.remove_receiver();
    assert_eq!(chan.send_async(1u8).unwrap_err(), (1, Error::Disconnected));
}

#[test]
fn test_recv() {
    let mut chan = Packet::<u8>::new(2);
    assert_eq!(chan.recv_async().unwrap_err(), Error::Empty);
}

#[test]
fn send_5_recv_5() {
    let mut chan = Packet::new(4);
    chan.send_async(1u8).unwrap();
    chan.send_async(2u8).unwrap();
    chan.send_async(3u8).unwrap();
    chan.send_async(4u8).unwrap();
    assert_eq!(chan.send_async(5u8).unwrap_err().1, Error::Full);
    assert_eq!(chan.recv_sync().unwrap(), 1);
    assert_eq!(chan.recv_sync().unwrap(), 2);
    assert_eq!(chan.recv_sync().unwrap(), 3);
    assert_eq!(chan.recv_sync().unwrap(), 4);
    assert_eq!(chan.recv_async().unwrap_err(), Error::Empty);
}

// One owner plays every producer in turn; the consumer drains the buffer
// whenever it is full and once every producer is done.
fn multiple_producers(buf_size: usize) {
    const NUM: usize = 100;
    const RESULT: usize = (NUM * NUM - 1) * (NUM * NUM) / 2;

    let mut chan = Packet::new(buf_size);
    let mut sum = 0;
    for i in 0..NUM {
        for j in (i * NUM)..((i + 1) * NUM) {
            let mut val = j;
            loop {
                match chan.send_async(val) {
                    Ok(()) => break,
                    Err((v, _)) => {
                        sum += chan.recv_sync().unwrap();
                        val = v;
                    }
                }
            }
        }
    }
    chan.remove_sender();
    while let Ok(i) = chan.recv_sync() {
        sum += i;
    }
    assert_eq!(sum, RESULT);
}

#[test]
fn multiple_producers_1() {
    multiple_producers(1);
}

#[test]
fn multiple_producers_10() {
    multiple_producers(10);
}

#[test]
fn multiple_producers_100() {
    multiple_producers(100);
}

#[test]
fn multiple_producers_1000() {
    multiple_producers(1000);
}

#[test]
fn select_no_wait() {
    let mut chan = Packet::new(2);

    chan.send_async(1u8).unwrap();

    let mut select = Select::new();
    select.add(&mut chan);

    let mut buf = vec![0];
    select.wait(&mut buf);

    assert_eq!(buf[0], chan.id());
}
