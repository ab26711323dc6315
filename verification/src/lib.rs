//! Models of three small concurrency demonstrations: a worker joined by its
//! initiator, a one-shot message channel, and a lock-protected shared counter
//! incremented by a fan-out of workers.
//!
//! Each module holds the protocol state of one demonstration as plain data,
//! with the legal transitions as verified functions. The threads, sleeps and
//! printing that drive the protocols at run time live outside the library;
//! the library proves that the coordination logic itself is correct: the
//! counter read after all joins is exactly the worker count, a join implies
//! the worker's loop ran to completion, and a received message is identical
//! to the one sent.

pub mod channel;
pub mod counter;
pub mod join;
