//! Verified core of a network audio receiver: counters, buffers, task wake-up
//! bookkeeping, the jitter buffer and the per-session stream state machine.

pub mod app;
pub mod platform;
pub mod stats;
pub mod sync;
pub mod system;
