//! The agent: its state, and what it does in one beat.
pub mod alice;
pub mod beat;
pub mod channels;
pub mod course;
pub mod guard;
pub mod laws;
pub mod memory;
pub mod pulse;
pub mod record;
pub mod roll;
pub mod signal;
pub mod transaction;

pub use self::guard::{SequenceGuard, SequenceVerdict};
pub use self::transaction::{ActionRecord, Transaction};
