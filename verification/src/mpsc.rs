//! Multiple-producers single-consumer (MPSC) channels.
//!
//! MPSC channels have exactly one consumer and an arbitrary number of
//! producers which can be cloned.

pub mod bounded_fast;
pub mod unbounded;
