//! A logging bridge: synchronous producers compose frames into a bounded
//! shared buffer, and a single transport task drains it in packets.
//!
//! - `buffer`: the bounded frame buffer.
//! - `signal`: the coalescing wake flag.
//! - `frontend`: the single-holder frame guard and the write path.
//! - `transport`: the transport task's state machine.
pub mod buffer;
pub mod signal;
pub mod frontend;
pub mod transport;

pub use frontend::inner;
