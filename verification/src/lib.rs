//! A cell holding a value that is computed on first access, exactly once,
//! no matter how many threads race to reach it first.
//!
//! The cell goes through three stages: it starts out holding the
//! not-yet-run initializer, passes through a transient marker while the
//! initializer runs, and ends holding the computed value, which every
//! later access reads without further coordination. A one-time-execution
//! barrier arbitrates the race so that the single transition between the
//! stages runs under exclusive access.

mod barrier;
mod lazy;
mod state;

pub use lazy::lemma_force_agrees;
pub use lazy::Lazy;
pub use state::__State;
