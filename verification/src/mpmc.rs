//! Multiple-producers multiple-consumers (MPMC) channels.
//!
//! MPMC channels are the most general channel type. There is no distinction
//! between peers that can send messages and peers that can receive messages:
//! every endpoint can do both, and endpoints are counted. A bounded MPMC
//! channel can deadlock if all endpoints are trying to send to a full channel
//! or receive from an empty one at the same time; the packet counts the peers
//! that are awake and reports `Deadlock` instead of suspending the last one,
//! which works as long as there is only one endpoint per thread.

pub mod bounded;
