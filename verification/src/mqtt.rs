use vstd::prelude::*;

use crate::hash::{append_bytes, pow256};
use crate::types::{kind_of, sensor_kind_label, SensorData};

verus! {

/// Why data could not be published.
#[derive(Debug, Clone, Copy, PartialEq, Eq)]
pub enum MQTTError {
    SerializationError,
    PublishError,
}

impl MQTTError {
    /// The message describing the error.
    pub fn description(&self) -> (s: &'static str)
        ensures
            s@ == (match *self {
                MQTTError::SerializationError => "Failed to serialize data to JSON"@,
                MQTTError::PublishError => "Failed to publish message to MQTT broker"@,
            }),
    {
        match self {
            MQTTError::SerializationError => "Failed to serialize data to JSON",
            MQTTError::PublishError => "Failed to publish message to MQTT broker",
        }
    }
}

/// Largest incoming and outgoing packet, in bytes.
pub const MAX_INCOMING_PACKET_SIZE: usize = 1048576;

pub const MAX_OUTCOMING_PACKET_SIZE: usize = 1048576;

/// Capacity of the client's request channel.
pub const CLIENT_CHANNEL_CAPACITY: usize = 10;

/// Keep-alive interval of the broker connection, in seconds.
pub const KEEP_ALIVE_SECS: u64 = 5;

/// Data with a timestamp in seconds.
pub struct TimestampedData<T> {
    pub timestamp: u64,
    pub data: T,
}

/// The eight bytes of `v`, least significant first.
pub open spec fn le64(v: u64) -> Seq<u8> {
    Seq::new(8, |i: int| ((v as nat / pow256(i as nat)) % 256) as u8)
}

/// Calls `bincode::serialize` on a `u64`. The contract claims what bincode's source
/// shows for its default functions: fixed-width integers in little-endian order, so the
/// eight bytes of the value, least significant first (serializing a `u64` cannot fail;
/// an error would give no bytes).
#[verifier::external_body]
fn bincode_u64(v: u64) -> (r: Vec<u8>)
    ensures
        r@ == le64(v),
{
    bincode::serialize(&v).unwrap_or_default()
}

/// The payload of a timestamped message: the bincode encoding of `TimestampedData`,
/// which is its fields in order, the timestamp and then the already encoded data.
pub fn timestamped_payload(timestamp: u64, encoded_data: &Vec<u8>) -> (r: Vec<u8>)
    ensures
        r@ == le64(timestamp) + encoded_data@,
{
    let mut payload = bincode_u64(timestamp);
    append_bytes(&mut payload, encoded_data.as_slice());
    payload
}

/// The topic under which a reading is published for the collector `id`: the
/// identifier, a slash and the reading's kind, as in `collector/CPU`.
pub fn sensor_data_to_topic(id: &str, sensor_data: &SensorData) -> (t: String)
    ensures
        t@ == id@ + "/"@ + sensor_kind_label(kind_of(*sensor_data)),
{
    let mut t = String::from_str(id);
    t.append("/");
    t.append(sensor_data.sensor_kind().label());
    t
}

/// The topic under which the hardware inventory is published for the collector `id`.
pub fn hardware_info_topic(id: &str) -> (t: String)
    ensures
        t@ == id@ + "/hardware_info"@,
{
    let mut t = String::from_str(id);
    t.append("/hardware_info");
    t
}

/// A client that publishes payloads to a broker.
pub trait MQTTClient {
    /// Whether `r` is the client's answer to publishing `payload` to `topic`. A client
    /// that states nothing of its answers keeps this default, which admits any answer.
    open spec fn answered(&self, topic: Seq<char>, payload: Seq<u8>, r: Result<(), MQTTError>) -> bool {
        true
    }

    /// Publishes `payload` to `topic`.
    fn publish(&self, topic: &str, payload: Vec<u8>) -> (r: Result<(), MQTTError>)
        ensures
            self.answered(topic@, payload@, r),
    ;
}

/// Publishes timestamped data through a client.
pub struct MQTTPublisher<T: MQTTClient> {
    client: T,
}

impl<T: MQTTClient> MQTTPublisher<T> {
    pub closed spec fn spec_client(&self) -> T {
        self.client
    }

    /// Creates a new MQTT publisher from a client.
    pub fn new(client: T) -> (r: Self)
        ensures
            r.spec_client() == client,
    {
        Self { client }
    }

    /// Publishes data with its timestamp to `topic`: `encoded_data` is the data's
    /// bincode encoding, `None` when it could not be encoded, which fails without
    /// publishing; otherwise the client is handed the topic and the timestamped payload
    /// (what `publish_request` gives) once, and its answer is returned.
    pub fn publish(&self, topic: &str, encoded_data: Option<Vec<u8>>, timestamp: u64) -> (r: Result<(), MQTTError>)
        ensures
            encoded_data is None ==> r == Err::<(), MQTTError>(MQTTError::SerializationError),
            encoded_data matches Some(b) ==> self.spec_client().answered(topic@, le64(timestamp) + b@, r),
    {
        match publish_request(topic, encoded_data, timestamp) {
            Err(e) => Err(e),
            Ok((t, payload)) => self.client.publish(t.as_str(), payload),
        }
    }
}

/// What publishing hands to the client: the topic and the timestamped payload, or the
/// serialization error when the data could not be encoded.
pub fn publish_request(topic: &str, encoded_data: Option<Vec<u8>>, timestamp: u64) -> (r: Result<(String, Vec<u8>), MQTTError>)
    ensures
        match encoded_data {
            None => r matches Err(e) && e == MQTTError::SerializationError,
            Some(bytes) => r matches Ok((t, p)) && t@ == topic@ && p@ == le64(timestamp) + bytes@,
        },
{
    match encoded_data {
        None => Err(MQTTError::SerializationError),
        Some(bytes) => Ok((String::from_str(topic), timestamped_payload(timestamp, &bytes))),
    }
}

} // verus!
