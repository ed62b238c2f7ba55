//! Device-side log transport core.
//!
//! Application tasks running under a cooperative scheduler emit compact,
//! opaque log frames. The frames travel through a bounded multi-producer /
//! single-consumer FIFO queue to a single transport task, which stages them
//! one at a time in a fixed-size frame buffer and hands them to a USB
//! endpoint — but only while the host has configured the device. Producers
//! never block: when the queue is full the newest frame is dropped and
//! counted, nothing more.

pub mod buffer;
pub mod device;
pub mod frame;
pub mod identity;
pub mod queue;
pub mod scheduler;
pub mod transport;
