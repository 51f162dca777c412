//! The lifecycle core of a single-threaded event loop.
//!
//! A [`Loop`] owns the set of handles registered against it, a cached
//! monotonic clock and the state of the run in progress. It decides when a
//! run polls, for how long the poll may wait, and when the run is over; the
//! poll itself, the dispatch of ready events and the clock's source belong to
//! the caller, who reports their outcome back to the loop.
pub mod errno;
pub mod event_loop;
pub mod handle;
pub mod laws;
pub mod run_mode;
pub mod state;

pub use errno::{err_name, strerror};
pub use event_loop::{Handle, Loop};
pub use handle::HandleState;
pub use run_mode::RunMode;
pub use state::{LoopState, Step, Timeout};
