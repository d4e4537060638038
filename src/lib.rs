//! Compatibility between futures 0.1 tasks and `std::task` (futures 0.3) tasks.
//!
//! A poll result converts losslessly between the two encodings, and each side's
//! wake mechanism can drive a poll written for the other side.

mod current;
mod notify;
pub mod poll;
mod task_types;

pub use current::with_context;
pub use notify::with_notify;
pub use poll::{poll_01_to_03, poll_03_to_01};
