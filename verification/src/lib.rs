//! Wait groups: completion counters that release their waiters exactly when
//! the number of outstanding work units returns to zero.
//!
//! The counter protocol itself — how `add` and `done` move the count, when a
//! `done` call must notify waiters, and when a wait discipline may trust a
//! pending registration — lives in [`counter`] and is verified.

pub mod arc;
pub mod atomic;
pub mod counter;
pub mod future;
pub mod no_std;
pub mod sync;
pub mod tokio;

pub use future::AsyncWaitGroup;
pub use sync::WaitGroup;
