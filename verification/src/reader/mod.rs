//! Bookkeeping of a reading session.

pub mod session;
pub mod stats;

pub use session::{ReaderSession, SessionCommand};
pub use stats::SessionStats;
