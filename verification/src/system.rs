pub mod heap;
pub mod log;
pub mod sched;
pub mod sema;
pub mod task;
