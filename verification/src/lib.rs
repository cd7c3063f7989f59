//! Typed message channels paired with a readiness multiplexer.
//!
//! The crate provides channel packets for every producer/consumer cardinality
//! (SPSC, SPMC, MPSC, MPMC), in bounded, unbounded and overwriting flavors,
//! together with a `Select` multiplexer that reports which of several channels
//! is ready. Each packet is a verified state machine over its buffer, its
//! counters and its disconnection flags: the contracts state exactly which
//! values a send stores, which value a receive yields, and when each error is
//! returned. The thread-sharing shell (reference-counted handles, mutexes,
//! condition variables) stands outside this crate and drives these state
//! machines one operation at a time.

use vstd::prelude::*;

pub mod mpmc;
pub mod mpsc;
mod ring;
pub mod select;
pub mod sortedvec;
pub mod spmc;
pub mod spsc;

verus! {

/// Errors that can happen during receiving and sending.
///
/// See the individual functions for a list of errors they can return and the
/// specific meaning.
#[derive(Debug, Copy, Clone, PartialEq, Eq, Structural)]
pub enum Error {
    /// The counterpart is gone; no further progress is possible in that direction.
    Disconnected,
    /// A non-blocking send found a full bounded buffer while the counterpart lives.
    Full,
    /// A non-blocking receive found an empty buffer while the counterpart lives.
    Empty,
    /// Every live peer of a bounded many-to-many channel is blocked on the same side.
    Deadlock,
}

/// Types able to be transferred across thread boundaries.
///
/// Every `Send` type is `Sendable`. The trait exists so that the shell around
/// this crate can name the capability it needs of a message type.
pub trait Sendable {}

impl<T: Send> Sendable for T {}

} // verus!
