//! An async completion bridge: the decisions that let a caller without its own
//! notion of asynchrony hand work to a shared scheduler and get exactly one
//! answer back through a completion callback.
//!
//! The library holds what can be decided on plain values: which submissions
//! are accepted, what a finished unit of work turns into at the boundary, and
//! when the shared scheduler is built. The C ABI, the process-wide singleton
//! and the spawning of tasks live with the caller of this library.

pub mod error;
pub mod greeting;
pub mod envelope;
pub mod request;
pub mod dispatch;
pub mod scheduler;
pub mod protocol;
