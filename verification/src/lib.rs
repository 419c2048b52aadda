//! Stoplight: cooperative cancellation for background work.
//!
//! A stoppable worker couples three things: an independently scheduled unit of
//! work, a shared cancellation flag that the work polls voluntarily, and a
//! result handed back exactly once when the work terminates. This crate
//! verifies the two parts of that design that are logic rather than platform
//! plumbing:
//!
//! - [`flag`] is the shared cancellation flag itself: one atomic boolean cell
//!   with a writing endpoint for the owner ([`Stopper`]) and a read-only
//!   endpoint for the worker ([`Flag`]).
//! - [`task`] is the lifecycle of one worker as plain data: which transitions
//!   a task's state can take, what a join may yield, and the laws those
//!   transitions obey (a stop request is idempotent and never resets, and the
//!   joined result is exactly what the worker produced, untouched by stop
//!   requests).
//!
//! Creating a thread and blocking on its termination are the platform's work;
//! an embedding application supplies them around these types, keeps the
//! [`Stopper`], and hands the [`Flag`] to the worker it starts.

pub mod flag;
pub mod task;

pub use flag::Flag;
pub use flag::Stopper;
pub use task::Outcome;
pub use task::Task;
