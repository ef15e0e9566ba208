//! A pull-based sequence over a resumable computation that hands values to a
//! single-slot rendezvous channel.
//!
//! [`AsyncStream`] owns the computation and the receiving end of its channel.
//! Each call of [`AsyncStream::poll_next`] drives the computation by one step
//! and answers with at most one item, with "not ready", or with the end of
//! the sequence.

pub mod async_stream;
pub mod step;
pub mod trace;
pub mod yielder;

pub use crate::async_stream::AsyncStream;
pub use crate::step::{Next, Outcome, Step};
pub use crate::yielder::Receiver;
