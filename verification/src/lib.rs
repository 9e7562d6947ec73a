//! A multi-producer, single-consumer in-process channel.
//!
//! Any number of producer handles enqueue values into a mutex-guarded FIFO
//! queue; one consumer handle dequeues them, batching bursts into a private
//! buffer to amortize lock acquisitions.  When the last producer handle is
//! released the channel closes for good, and once drained the consumer is
//! handed a terminal "no more data" signal on every further call.

pub mod state;
pub mod sync;
pub mod mpsc;
pub mod laws;

pub use mpsc::{channel, Sender, Receiver};
