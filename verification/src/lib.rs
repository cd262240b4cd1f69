//! Verified core of a staged message pipeline: producers fill buffers,
//! processors transform messages, batchers group them, and dispatchers route
//! messages between stages by round robin, broadcast or partition.

pub mod stage_map;
pub mod ring;
pub mod dispatcher;
pub mod batcher;
pub mod producer;
pub mod processor;
pub mod builtin;
pub mod decimal;
pub mod topology;
