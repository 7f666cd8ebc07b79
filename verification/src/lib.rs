//! The staged core of a streaming byte copier that reports its own throughput.
//!
//! Three stages cooperate over two ordered channels: the reader publishes
//! every chunk it obtains, the writer hands the chunks on to the destination,
//! and the reporter keeps the running total and decides when a progress line
//! is due.

pub mod channel;
pub mod clock;
pub mod flow;
pub mod pipeline;
pub mod reader;
pub mod stats;
pub mod text;
pub mod timer;
pub mod writer;

pub use crate::reader::CHUNK_SIZE;
