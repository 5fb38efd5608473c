//! A bounded FIFO pipe that evicts its oldest element when full and describes
//! its occupancy in a status message after every mutation.
//!
//! - [`queue`]: the bounded queue and its eviction rule.
//! - [`runs`]: what holds of every run of pushes onto an empty queue.
//! - [`wire`]: the wire format of a status message.
//! - [`pipe`]: the pipe, which pairs every mutation with its status message.
pub mod pipe;
pub mod queue;
pub mod runs;
pub mod wire;
