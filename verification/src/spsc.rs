//! Single-producer single-consumer (SPSC) channels.
//!
//! An SPSC channel has exactly two endpoints which cannot be cloned.

pub mod bounded;
pub mod one_space;
pub mod ring_buf;
pub mod unbounded;
