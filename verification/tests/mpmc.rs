use comm::mpmc::bounded::{compose_pointer, decompose_pointer, Channel, Park, SleepState};
use comm::select::Select;
use comm::Error;

#[test]
fn test_send_recv() {
    let mut channel = Channel::new(2);
    channel.send_sync(1u8).unwrap();
    assert_eq!(channel.recv_async().unwrap(), 1u8);
}

#[test]
fn recv_async() {
    let mut channel = Channel::<u8>::new(1);
    assert_eq!(channel.recv_async().unwrap_err(), Error::Empty);
}

#[test]
fn recv_sync() {
    let mut channel = Channel::<u8>::new(2);
    assert_eq!(channel.recv_sync().unwrap_err(), Error::Deadlock);
}

#[test]
fn send_sync() {
    let mut channel = Channel::<u8>::new(1);
    channel.send_sync(1).unwrap();
    assert_eq!(channel.send_sync(1).unwrap_err().1, Error::Deadlock);
}

#[test]
fn test_send_send() {
    let mut channel = Channel::new(1);
    channel.send_sync(1u8).unwrap();
    assert_eq!(channel.send_async(1u8).unwrap_err().1, Error::Full);
}

#[test]
fn test_send_5_recv_5() {
    let mut chan = Channel::new(4);
    chan.send_sync(1u8).unwrap();
    chan.send_sync(2u8).unwrap();
    chan.send_sync(3u8).unwrap();
    chan.send_sync(4u8).unwrap();
    assert_eq!(chan.recv_sync().unwrap(), 1);
    assert_eq!(chan.recv_sync().unwrap(), 2);
    assert_eq!(chan.recv_sync().unwrap(), 3);
    assert_eq!(chan.recv_sync().unwrap(), 4);
    assert_eq!(chan.recv_async().unwrap_err(), Error::Empty);
}

// One owner plays every endpoint: each producer's range is sent in turn, and
// a consumer drains the channel whenever the buffer is full and at the end.
fn multiple_producers_multiple_consumers(buf_size: usize) {
    const NUM_THREADS_PER_END: usize = 2;
    const NUM_PER_THREAD: usize = 1000;
    const RESULT: usize = (NUM_THREADS_PER_END * NUM_PER_THREAD - 1)
        * (NUM_THREADS_PER_END * NUM_PER_THREAD) / 2;

    let mut chan = Channel::<usize>::new(buf_size);
    let mut sum = 0;
    for i in 0..NUM_THREADS_PER_END {
        for j in (i * NUM_PER_THREAD)..((i + 1) * NUM_PER_THREAD) {
            let mut val = j;
            loop {
                match chan.send_async(val) {
                    Ok(()) => break,
                    Err((v, _)) => {
                        sum += chan.recv_sync().unwrap();
                        val = v;
                    }
                }
            }
        }
    }
    while let Ok(n) = chan.recv_async() {
        sum += n;
    }
    assert_eq!(sum, RESULT);
}

#[test]
fn multiple_producers_multiple_consumers_1() {
    multiple_producers_multiple_consumers(1);
}

#[test]
fn multiple_producers_multiple_consumers_10() {
    multiple_producers_multiple_consumers(10);
}

#[test]
fn multiple_producers_multiple_consumers_100() {
    multiple_producers_multiple_consumers(100);
}

#[test]
fn multiple_producers_multiple_consumers_1000() {
    multiple_producers_multiple_consumers(1000);
}

#[test]
fn test_select_no_wait() {
    let mut chan = Channel::new(2);

    chan.send_sync(1u8).unwrap();

    let mut select = Select::new();
    select.add(&mut chan);

    let mut buf = vec![0];
    select.wait(&mut buf);

    assert_eq!(buf[0], chan.id());
}

#[test]
fn packed_counter_roundtrip() {
    let word = compose_pointer(7, 9);
    assert_eq!(word, 7 + 9 * 0x1_0000_0000);
    assert_eq!(decompose_pointer(word), (7, 9));
    assert_eq!(decompose_pointer(0xFFFF_FFFF_FFFF_FFFF), (0xFFFF_FFFF, 0xFFFF_FFFF));
    assert_eq!(compose_pointer(0xFFFF_FFFF, 0), 0xFFFF_FFFF);
}

#[test]
fn capacity_zero_and_one_round_up() {
    let chan0 = Channel::<u8>::new(0);
    let chan1 = Channel::<u8>::new(1);
    let _ = (chan0, chan1);
    let mut chan = Channel::<u8>::new(0);
    chan.send_sync(5).unwrap();
    assert_eq!(chan.recv_sync().unwrap(), 5);
}

// The deadlock detector: the last awake peer, with no sleeper on the
// opposite side, is refused permission to park; with another peer parked on
// the same side, the second would-be sleeper is refused too, so both report
// the deadlock.
#[test]
fn deadlock_detector_refuses_last_awake_peer() {
    let mut st = SleepState::new();
    assert_eq!(st.try_sleep_receiver(), Park::Deadlock);
    assert_eq!(st.try_sleep_sender(), Park::Deadlock);
    st.peer_joins();
    assert_eq!(st.try_sleep_receiver(), Park::Sleep);
    assert_eq!(st.try_sleep_receiver(), Park::Deadlock);
    st.wake_receiver();
    assert_eq!(st.try_sleep_sender(), Park::Sleep);
    assert_eq!(st.try_sleep_receiver(), Park::Sleep);
    st.wake_sender();
    st.wake_receiver();
    st.peer_leaves();
    assert_eq!(st.try_sleep_sender(), Park::Deadlock);
}
