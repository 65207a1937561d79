//! A generator-to-stream adapter, with its decision core verified.
//!
//! A producer is straight-line asynchronous code that emits values one at a
//! time through a yield handle; consumers observe those values as an ordered,
//! single-pass, exhaustible sequence. The producer's values travel through a
//! capacity-zero hand-off channel, and a multiplexer combines "the producer is
//! still running" with "a value arrived" into one sequence.
//!
//! This crate holds the verified core of that adapter:
//!
//! * [`multiplex`] — the state machine that merges the producer's completion
//!   signal with the channel's read-end into one sequence, fairly and
//!   exhausted-sticky;
//! * [`rendezvous`] — a model of the capacity-zero hand-off channel;
//! * [`yielding`] — the infallible framing of the yield handle's `send`;
//! * [`schedule`] — cooperative executions of the whole adapter, proving the
//!   ordering, termination and interleaving guarantees end to end.
//!
//! The asynchronous plumbing that drives this core under a real task scheduler
//! lives outside the verified library; it feeds each poll's observations in as
//! plain events and acts on the decisions that come back.

pub mod multiplex;
pub mod rendezvous;
pub mod schedule;
pub mod yielding;
