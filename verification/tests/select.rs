use comm::select::Select;
use comm::sortedvec::SortedVec;
use comm::spsc::unbounded::Packet;

#[test]
fn no_wait_one() {
    let mut chan = Packet::new();
    chan.send(1u8).unwrap();
    let mut select = Select::new();
    select.add(&mut chan);
    let mut buf = vec![0];
    assert!(select.wait(&mut buf) == 1);
}

#[test]
fn ready_list_one() {
    let mut chan = Packet::new();
    let mut select = Select::new();
    select.add(&mut chan);
    chan.send(1u8).unwrap();
    // The owner of both sides relays the readiness report to the multiplexer.
    for _ in chan.notify_wait_queue() {
        select.add_ready(chan.id());
    }
    let mut buf = vec![0];
    assert!(select.wait_timeout(&mut buf, None) == Some(1));
    assert_eq!(buf[0], chan.id());
}

#[test]
fn no_wait_two() {
    let mut chan = Packet::new();
    let mut chan2 = Packet::new();
    chan2.set_id(1);
    chan.send(1u8).unwrap();
    chan2.send(1u8).unwrap();
    let mut select = Select::new();
    select.add(&mut chan);
    select.add(&mut chan2);
    let mut buf = vec![0, 0];
    assert!(select.wait(&mut buf) == 2);
}

// A wait on an empty multiplexer returns an empty prefix immediately.
#[test]
fn wait_on_empty_multiplexer() {
    let mut select = Select::new();
    let mut buf = vec![0, 0];
    assert_eq!(select.wait(&mut buf), 0);
    assert_eq!(select.wait_timeout(&mut buf, None), Some(0));
    assert_eq!(
        select.wait_timeout(&mut buf, Some(std::time::Duration::from_millis(5))),
        Some(0)
    );
    assert_eq!(buf, vec![0, 0]);
}

// After a target is removed, a wait never yields its id again.
#[test]
fn removed_target_never_yielded() {
    let mut chan = Packet::new();
    chan.set_id(3);
    chan.send(1u8).unwrap();
    let mut select = Select::new();
    select.add(&mut chan);
    assert!(select.remove(&mut chan));
    assert!(!select.remove(&mut chan));
    let mut buf = vec![9];
    assert_eq!(select.wait_timeout(&mut buf, None), Some(0));
    assert_eq!(buf[0], 9);
}

// A report for an id that was never added is ignored; a departing target
// wakes a pending wait through the ready list.
#[test]
fn add_ready_and_going_away() {
    let mut chan = Packet::<u8>::new();
    chan.set_id(5);
    let mut select = Select::new();
    select.add(&mut chan);
    assert!(!select.add_ready(17));
    assert!(select.add_ready(5));
    assert!(select.going_away(5));
    let mut buf = vec![0];
    assert_eq!(select.wait_timeout(&mut buf, None), Some(0));
}

#[test]
fn check_ready_list_purges() {
    let mut chan = Packet::new();
    chan.set_id(2);
    chan.send(4u8).unwrap();
    let mut select = Select::new();
    select.add(&mut chan);
    assert!(select.remove(&mut chan));
    let mut buf = vec![0];
    assert_eq!(select.check_ready_list(&mut buf), None);
}

#[test]
fn sorted_vec_keeps_order_and_dedups() {
    let mut v = SortedVec::new();
    v.insert(5);
    v.insert(1);
    v.insert(3);
    v.insert(3);
    assert_eq!(v.len(), 3);
    assert_eq!(v.get(0), 1);
    assert_eq!(v.get(1), 3);
    assert_eq!(v.get(2), 5);
    assert!(v.contains(3));
    assert!(!v.contains(2));
    assert!(v.remove(3));
    assert!(!v.remove(3));
    assert_eq!(v.len(), 2);
    assert_eq!(v.get(0), 1);
    assert_eq!(v.get(1), 5);
}

// Ten one-slot channels watched at once: after one producer sends, a wait
// yields exactly that channel's id, and the following receive returns its
// value.
#[test]
fn select_ten_one_slot_channels() {
    let mut chans: Vec<comm::spsc::one_space::Packet<usize>> = Vec::new();
    let mut select = Select::new();
    for k in 0..10 {
        let mut chan = comm::spsc::one_space::Packet::new();
        chan.set_id(k);
        select.add(&mut chan);
        chans.push(chan);
    }
    let k = 7;
    chans[k].send(k).unwrap();
    for _ in chans[k].notify_wait_queue() {
        select.add_ready(chans[k].id());
    }
    let mut buf = vec![0];
    assert_eq!(select.wait(&mut buf), 1);
    assert_eq!(buf[0], chans[k].id());
    assert_eq!(chans[k].recv_sync().unwrap(), k);
}
