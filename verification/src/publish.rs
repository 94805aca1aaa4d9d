//! The publisher's part that computes: the keyed record that is handed to the
//! broker for one enriched message.

use crate::json::{json_bytes, serialize_object};
use crate::message::GelfMessage;
use vstd::prelude::*;

verus! {

/// How many seconds the publisher waits for the broker client to acknowledge
/// a record.
pub const DELIVERY_TIMEOUT_SECS: u64 = 5;

/// Why a message did not reach the broker.
#[derive(Debug, Clone, Copy, PartialEq, Eq)]
pub enum PublishError {
    /// The message could not be serialized.
    Serialize,
    /// The broker client refused the record or reported a failed delivery.
    Broker,
    /// The broker client did not acknowledge the record within the delivery
    /// timeout.
    Timeout,
}

/// One record for the broker: a topic, the partition key and the payload.
#[derive(Debug)]
pub struct BrokerRecord {
    /// The topic that the record is published to.
    pub topic: String,
    /// The partition key: the correlation key of the message.
    pub key: String,
    /// The JSON serialization of the enriched message.
    pub payload: Vec<u8>,
}

/// Turns the outcome of serialization into the payload of a record, or into
/// the error of the serialization step.
pub fn serialized(outcome: Result<Vec<u8>, serde_json::Error>) -> (payload: Result<
    Vec<u8>,
    PublishError,
>)
    ensures
        match outcome {
            Ok(bytes) => payload == Ok::<Vec<u8>, PublishError>(bytes),
            Err(_) => payload == Err::<Vec<u8>, PublishError>(PublishError::Serialize),
        },
{
    match outcome {
        Ok(bytes) => Ok(bytes),
        Err(_) => Err(PublishError::Serialize),
    }
}

/// Serializes a message to the bytes of one JSON object.
pub fn serialize_message(message: &GelfMessage) -> (payload: Result<Vec<u8>, PublishError>)
    ensures
        match payload {
            Ok(bytes) => json_bytes(message@) == Some(bytes@),
            Err(error) => error == PublishError::Serialize && json_bytes(message@) is None,
        },
{
    serialized(serialize_object(message.entries()))
}

/// Makes the record that publishes a message under a key to a topic.
pub fn build_record(topic: &str, key: &str, message: &GelfMessage) -> (record: Result<
    BrokerRecord,
    PublishError,
>)
    ensures
        match record {
            Ok(r) => r.topic@ == topic@ && r.key@ == key@ && json_bytes(message@) == Some(
                r.payload@,
            ),
            Err(error) => error == PublishError::Serialize && json_bytes(message@) is None,
        },
{
    match serialize_message(message) {
        Ok(payload) => Ok(BrokerRecord { topic: topic.to_owned(), key: key.to_owned(), payload }),
        Err(error) => Err(error),
    }
}

} // verus!
