pub mod isr;
pub mod mutex;
pub mod queue;
pub mod ringbuffer;
