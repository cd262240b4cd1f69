//! Logic of the built-in stages: a channel collector, Kafka and Pulsar
//! producers and processors.

pub mod collector;
pub mod kafka_processor;
pub mod kafka_producer;
pub mod naming;
pub mod pulsar_batcher;
pub mod pulsar_processor;
pub mod pulsar_producer;
