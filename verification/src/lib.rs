//! The core of a screen recorder: frames pushed by a capture source cross a
//! FIFO channel, are filtered and gated by the encoding pipeline, and end up in
//! a media sink whose session is bracketed by the first and last timestamps.
//!
//! The library decides; it performs no I/O. A driver owns the capture source
//! and the sink, reports what they answered, and carries out what the library
//! tells it to do.

pub mod time;
pub mod frame;
pub mod session;
pub mod encoder;
pub mod stream;
pub mod channel;
pub mod capturer;
pub mod recorder;
