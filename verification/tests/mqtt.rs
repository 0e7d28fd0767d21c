use std::cell::RefCell;

use colhidor::mqtt::{hardware_info_topic, publish_request, sensor_data_to_topic, timestamped_payload, MQTTClient, MQTTError, MQTTPublisher};
use colhidor::types::{RamData, SensorData};

/// A client that records what it is asked to publish and answers with a fixed result.
struct RecordingClient {
    answer: Result<(), MQTTError>,
    calls: RefCell<Vec<(String, Vec<u8>)>>,
}

impl RecordingClient {
    fn answering(answer: Result<(), MQTTError>) -> Self {
        RecordingClient { answer, calls: RefCell::new(Vec::new()) }
    }
}

impl MQTTClient for RecordingClient {
    fn publish(&self, topic: &str, payload: Vec<u8>) -> Result<(), MQTTError> {
        self.calls.borrow_mut().push((topic.to_string(), payload));
        self.answer
    }
}

impl MQTTClient for &RecordingClient {
    fn publish(&self, topic: &str, payload: Vec<u8>) -> Result<(), MQTTError> {
        (**self).publish(topic, payload)
    }
}

struct NotSerializable;

impl serde::Serialize for NotSerializable {
    fn serialize<S: serde::Serializer>(&self, _: S) -> Result<S::Ok, S::Error> {
        Err(serde::ser::Error::custom("Forced serialization error"))
    }
}

#[test]
fn test_valid_publish() {
    let test_topic = "colhidor_collector/CPU";
    let mock = RecordingClient::answering(Ok(()));
    let publisher = MQTTPublisher::new(&mock);
    let test_value: u32 = 6;
    let data = bincode::serialize(&test_value).ok();

    let result = publisher.publish(test_topic, data, 0);

    assert!(result.is_ok());
    let calls = mock.calls.borrow();
    assert_eq!(calls.len(), 1);
    assert_eq!(calls[0].0, test_topic);
}

#[test]
fn test_publish_not_serializable() {
    let test_topic = "error_collector/not_serializable";
    let mock = RecordingClient::answering(Ok(()));
    let publisher = MQTTPublisher::new(&mock);

    let result = publisher.publish(test_topic, bincode::serialize(&NotSerializable).ok(), 0);

    assert!(matches!(result, Err(MQTTError::SerializationError)));
    assert_eq!(mock.calls.borrow().len(), 0);
}

#[test]
fn test_publish_send_error() {
    let test_topic = "error_collector/public_error";
    let mock = RecordingClient::answering(Err(MQTTError::PublishError));
    let publisher = MQTTPublisher::new(&mock);
    let test_value: u32 = 6;
    let data = bincode::serialize(&test_value).ok();

    let result = publisher.publish(test_topic, data, 0);

    assert!(matches!(result, Err(MQTTError::PublishError)));
    assert_eq!(mock.calls.borrow().len(), 1);
}

#[test]
fn published_payload_is_the_timestamped_encoding() {
    let mock = RecordingClient::answering(Ok(()));
    let publisher = MQTTPublisher::new(&mock);
    let test_value: u32 = 6;
    let timestamp: u64 = 1_700_000_000;
    let result = publisher.publish("colhidor_collector/CPU", bincode::serialize(&test_value).ok(), timestamp);
    assert!(result.is_ok());

    let expected = bincode::serialize(&(timestamp, test_value)).unwrap();
    assert_eq!(mock.calls.borrow()[0].1, expected);
}

#[test]
fn timestamped_payload_starts_with_little_endian_timestamp() {
    let payload = timestamped_payload(0x0102030405060708, &vec![9, 10]);
    assert_eq!(payload, vec![8, 7, 6, 5, 4, 3, 2, 1, 9, 10]);
}

#[test]
fn error_descriptions() {
    assert_eq!(MQTTError::SerializationError.description(), "Failed to serialize data to JSON");
    assert_eq!(MQTTError::PublishError.description(), "Failed to publish message to MQTT broker");
}

#[test]
fn topics_are_rooted_at_the_collector_id() {
    let ram = SensorData::Ram(RamData { total_energy: None, usage_percent: None });
    assert_eq!(sensor_data_to_topic("colhidor_collector", &ram), "colhidor_collector/Ram");
    assert_eq!(hardware_info_topic("lab"), "lab/hardware_info");
}

#[test]
fn publish_request_fixes_topic_and_payload() {
    let (topic, payload) = publish_request("lab/CPU", Some(vec![1, 2]), 3).ok().unwrap();
    assert_eq!(topic, "lab/CPU");
    assert_eq!(payload, vec![3, 0, 0, 0, 0, 0, 0, 0, 1, 2]);
    assert_eq!(publish_request("lab/CPU", None, 3).err(), Some(MQTTError::SerializationError));
}
