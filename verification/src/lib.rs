//! Submission side of an `io_uring`-style command ring, without the ring.
//!
//! The crate builds submission records and interprets what the ring's own
//! calls hand back; it makes no system call itself. A caller that owns a ring
//! passes in the slot that the ring gave out and the code that a flush
//! returned, and gets back a typed view of the slot or a typed result.
//!
//! * [`flags`]: the two bit sets that a record carries.
//! * [`slot`]: the record itself and what each operation writes into it.
//! * [`event`]: an exclusive handle on one slot, with one constructor per
//!   operation.
//! * [`queue`]: slot acquisition and the outcome of a flush.
//! * [`laws`]: properties that hold of every slot and every queue.

pub mod event;
pub mod flags;
pub mod laws;
pub mod platform;
pub mod queue;
pub mod slot;

pub use event::SubmissionQueueEvent;
pub use flags::{FsyncFlags, SubmissionFlags};
pub use queue::SubmissionQueue;
pub use slot::SubmissionSlot;
