//! A processor that sends each message to a Kafka topic and passes on what
//! became of the delivery.

use vstd::prelude::*;
use rdkafka::error::KafkaError;

verus! {

/// Declares `rdkafka::error::KafkaError` to Verus as an opaque type.
#[verifier::external_type_specification]
#[verifier::external_body]
pub struct ExKafkaError(KafkaError);

/// A message to send to Kafka.
#[derive(Clone)]
pub struct ProcKafkaMessage {
    pub key: Vec<u8>,
    pub payload: String,
    pub topic: String,
    pub partition: i32,
}

/// The partition a message was delivered to.
#[derive(Clone, Debug, PartialEq, Eq, Structural)]
pub struct Partition(pub i32);

/// The offset of a delivered message within its partition.
#[derive(Clone, Debug, PartialEq, Eq, Structural)]
pub struct Offset(pub i64);

/// What became of a delivery: where the message landed, or the error with
/// the message that was not delivered.
pub type OwnedDeliveryResult = Result<(Partition, Offset), (KafkaError, ProcKafkaMessage)>;

/// Turns what the Kafka producer reports for a send (partition and offset,
/// or the error) into the delivery result for the message that was sent.
pub fn owned_delivery_result(sent: Result<(i32, i64), KafkaError>, msg: ProcKafkaMessage) -> (r: OwnedDeliveryResult)
    ensures
        match sent {
            Ok((p, o)) => r == Ok::<(Partition, Offset), (KafkaError, ProcKafkaMessage)>((Partition(p), Offset(o))),
            Err(e) => r == Err::<(Partition, Offset), (KafkaError, ProcKafkaMessage)>((e, msg)),
        },
{
    match sent {
        Ok((p, o)) => Ok((Partition(p), Offset(o))),
        Err(e) => Err((e, msg)),
    }
}

} // verus!
