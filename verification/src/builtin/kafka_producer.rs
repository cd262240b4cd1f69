//! A producer that reads messages from Kafka topics. Its buffer is filled as
//! `collector::BufferFill` says; a message kept without filling the buffer is
//! committed.

use vstd::prelude::*;
use std::time::Duration;
use crate::topology::{duration_nanos, duration_from_millis};

verus! {

/// Milliseconds the Kafka producer waits to fill its buffer.
pub const KAFKA_FILLBUFFER_TIMEOUT_MS: u64 = 50;

/// How long the Kafka producer waits to fill its buffer: it returns a
/// non-empty buffer once this has passed.
pub fn kafka_fill_timeout() -> (d: Duration)
    ensures
        duration_nanos(d) == KAFKA_FILLBUFFER_TIMEOUT_MS * 1_000_000,
        duration_nanos(d) == 50_000_000,
{
    duration_from_millis(KAFKA_FILLBUFFER_TIMEOUT_MS)
}

/// A message read from Kafka.
#[derive(Clone)]
pub struct ProdKafkaMessage {
    pub key: Option<Vec<u8>>,
    pub payload: String,
    pub topic: String,
    pub partition: i32,
}

/// The text of a message's payload: the payload itself when it is valid
/// UTF-8, empty when it is missing or is not valid UTF-8.
pub open spec fn payload_text<E>(payload: Option<Result<String, E>>) -> Seq<char> {
    match payload {
        Some(Ok(s)) => s@,
        _ => Seq::empty(),
    }
}

/// A valid UTF-8 payload is kept as it is; a missing or invalid one becomes
/// the empty text.
pub proof fn law_payload_text<E>(s: String, e: E)
    ensures
        payload_text(Some(Ok::<String, E>(s))) == s@,
        payload_text(Some(Err::<String, E>(e))) == Seq::<char>::empty(),
        payload_text(None::<Result<String, E>>) == Seq::<char>::empty(),
{
}

impl ProdKafkaMessage {
    /// Builds a message from what Kafka gives: key, payload (as read as
    /// UTF-8), topic and partition.
    pub fn from_parts<E>(key: Option<Vec<u8>>, payload: Option<Result<String, E>>, topic: String, partition: i32) -> (m:
        Self)
        ensures
            m.key == key,
            m.payload@ == payload_text(payload),
            m.topic == topic,
            m.partition == partition,
    {
        let payload = match payload {
            Some(Ok(s)) => s,
            _ => String::new(),
        };
        ProdKafkaMessage { key, payload, topic, partition }
    }
}

} // verus!
