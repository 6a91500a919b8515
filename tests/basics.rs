use kafka_protocol::protocol::{Decodable, Encodable};
use kafka_caller::codec::{frame_length, ApiKey, RequestBody, SerDe};
use kafka_caller::cluster::{ApiVersionsRequest, ApiVersionsResponse, InitProducerIdResponse, MetadataResponse};
use kafka_caller::records::extract_topics;
use kafka_caller::state::ApiVersionRange;
use kafka_caller::{CallState, Configuration, KafkaCallerError, PartitionOffsetState, ProtocolError, PutRecord};

fn consumer_config() -> Configuration {
    Configuration::ConsumerConfiguration {
        broker_address: "127.0.0.1:9092".to_string(),
        client_id: "test-client-rs".to_string(),
        group_id: "test-client-rs.group".to_string(),
    }
}

fn producer_config() -> Configuration {
    Configuration::ProducerConfiguration {
        broker_address: "127.0.0.1:9092".to_string(),
        client_id: "test-client-rs".to_string(),
    }
}

#[test]
fn client_id_of_both_roles() {
    assert_eq!(consumer_config().client_id(), "test-client-rs");
    assert_eq!(producer_config().client_id(), "test-client-rs");
}

#[test]
fn group_id_only_for_consumers() {
    assert_eq!(consumer_config().group_id().unwrap(), "test-client-rs.group");
    let err = producer_config().group_id().unwrap_err();
    assert_eq!(err.description(), "Not supported for producer configuration");
}

#[test]
fn caller_error_keeps_its_description() {
    let e = KafkaCallerError::new("something broke");
    assert_eq!(e.0, "something broke");
}

#[test]
fn partition_offset_state_starts_unpolled() {
    let s = PartitionOffsetState::new(42);
    assert_eq!(s.commited_offset, 42);
    assert_eq!(s.polled_offset, -1);
    assert_eq!(s.error_code, 0);
}

#[test]
fn correlation_ids_count_up_and_wrap() {
    let mut state = CallState::new(&consumer_config());
    assert_eq!(state.next_correlation_id(), 0);
    assert_eq!(state.next_correlation_id(), 1);
    state.correlation_id = i32::MAX;
    assert_eq!(state.next_correlation_id(), i32::MAX);
    assert_eq!(state.correlation_id, i32::MIN);
}

fn state_with_versions(versions: Vec<ApiVersionRange>) -> CallState {
    let mut state = CallState::new(&consumer_config());
    state.broker_api_versions = versions;
    state
}

#[test]
fn negotiated_version_is_the_smaller_maximum() {
    let state = state_with_versions(vec![
        ApiVersionRange { api_key: 1, min_version: 0, max_version: 11 },
        ApiVersionRange { api_key: 3, min_version: 0, max_version: 20 },
    ]);
    let fetch = SerDe::new(ApiKey::Fetch, Some(&state)).unwrap();
    assert_eq!(fetch.used_version, 11);
    let metadata = SerDe::new(ApiKey::Metadata, Some(&state)).unwrap();
    assert_eq!(metadata.used_version, 12);
}

#[test]
fn negotiation_fails_for_an_unadvertised_key() {
    let state = state_with_versions(vec![ApiVersionRange { api_key: 1, min_version: 0, max_version: 11 }]);
    match SerDe::new(ApiKey::JoinGroup, Some(&state)) {
        Err(ProtocolError::UnknownApiKey { key }) => assert_eq!(key, 11),
        other => panic!("unexpected {:?}", other),
    }
}

#[test]
fn api_versions_uses_its_own_maximum() {
    let state = state_with_versions(Vec::new());
    let serde = ApiKey::ApiVersions.new_ser_de(&state).unwrap();
    assert_eq!(serde.used_version, 3);
    assert!(ApiKey::Fetch.new_ser_de(&state).is_err());
}

#[test]
fn frame_length_reads_big_endian() {
    assert_eq!(frame_length(&[0, 0, 1, 2]), Some(258));
    assert_eq!(frame_length(&[0x7f, 0xff, 0xff, 0xff]), Some(i32::MAX as usize));
    assert_eq!(frame_length(&[0x80, 0, 0, 0]), None);
}

#[test]
fn serialized_request_is_framed_with_its_header() {
    let state = state_with_versions(Vec::new());
    let serde = SerDe::new(ApiKey::ApiVersions, None).unwrap();
    let body = RequestBody::ApiVersions(ApiVersionsRequest::create_request(&state));
    let frame = serde.serialize(&"test-client-rs".to_string(), 7, &body).unwrap();
    let len = frame_length(&[frame[0], frame[1], frame[2], frame[3]]).unwrap();
    assert_eq!(len, frame.len() - 4);
    let mut rest = bytes::Bytes::copy_from_slice(&frame[4..]);
    let header = kafka_protocol::messages::RequestHeader::decode(&mut rest, 2).unwrap();
    assert_eq!(header.request_api_key, 18);
    assert_eq!(header.request_api_version, 3);
    assert_eq!(header.correlation_id, 7);
    assert_eq!(header.client_id.unwrap().to_string(), "test-client-rs");
    let request = kafka_protocol::messages::ApiVersionsRequest::decode(&mut rest, 3).unwrap();
    assert_eq!(request.client_software_name.to_string(), "poc-kafka-caller-rs");
    assert_eq!(request.client_software_version.to_string(), "1.0.0");
}

#[test]
fn serialize_refuses_a_body_of_another_api() {
    let state = state_with_versions(Vec::new());
    let serde = SerDe::new(ApiKey::Metadata, None).unwrap();
    let body = RequestBody::ApiVersions(ApiVersionsRequest::create_request(&state));
    assert!(matches!(
        serde.serialize(&"c".to_string(), 0, &body),
        Err(ProtocolError::WrongApi)
    ));
}

#[test]
fn api_versions_error_code_is_fatal_and_changes_nothing() {
    let mut state = state_with_versions(vec![ApiVersionRange { api_key: 1, min_version: 0, max_version: 11 }]);
    let response = ApiVersionsResponse {
        error_code: 35,
        api_keys: vec![ApiVersionRange { api_key: 3, min_version: 0, max_version: 12 }],
    };
    match response.process_response(&mut state) {
        Err(ProtocolError::Broker { api_key, error_code }) => {
            assert_eq!(api_key, ApiKey::ApiVersions);
            assert_eq!(error_code, 35);
        },
        other => panic!("unexpected {:?}", other),
    }
    assert_eq!(state.broker_api_versions.len(), 1);
    assert_eq!(state.broker_api_versions[0].api_key, 1);
}

#[test]
fn api_versions_replaces_the_table() {
    let mut state = state_with_versions(vec![ApiVersionRange { api_key: 1, min_version: 0, max_version: 11 }]);
    let response = ApiVersionsResponse {
        error_code: 0,
        api_keys: vec![ApiVersionRange { api_key: 3, min_version: 0, max_version: 12 }],
    };
    response.process_response(&mut state).unwrap();
    assert_eq!(state.broker_api_versions, vec![ApiVersionRange { api_key: 3, min_version: 0, max_version: 12 }]);
}

#[test]
fn metadata_without_cluster_id_is_refused() {
    let mut state = CallState::new(&consumer_config());
    let response = MetadataResponse { cluster_id: None, controller_id: 1, brokers: Vec::new(), topics: Vec::new() };
    assert!(matches!(response.process_response(&mut state), Err(ProtocolError::MissingClusterId)));
    assert_eq!(state.broker_metadata.controller_id, -1);
}

#[test]
fn init_producer_id_captures_the_id() {
    let mut state = CallState::new(&producer_config());
    InitProducerIdResponse { error_code: 0, producer_id: 4000 }.process_response(&mut state).unwrap();
    assert_eq!(state.producer_id, 4000);
    let err = InitProducerIdResponse { error_code: 15, producer_id: 9 }.process_response(&mut state);
    assert!(err.is_err());
    assert_eq!(state.producer_id, 4000);
}

#[test]
fn extract_topics_lists_each_topic_once() {
    let records = vec![
        PutRecord::new_with_key_str("a", "k1"),
        PutRecord::new_with_key_str("b", "k2"),
        PutRecord::new_with_key_str("a", "k3"),
    ];
    assert_eq!(extract_topics(&records), vec!["a".to_string(), "b".to_string()]);
}

#[test]
fn put_record_setters_and_headers() {
    let mut r = PutRecord::new_with_key_value_str("t", "WOHOO", "It works !");
    assert_eq!(r.key.as_deref(), Some(&b"WOHOO"[..]));
    assert_eq!(r.value.as_deref(), Some(&b"It works !"[..]));
    r.set_str("k", "v");
    assert_eq!(r.key.as_deref(), Some(&b"k"[..]));
    r.add_header_with_str_key("h", b"1");
    r.add_header_with_str_key("g", b"2");
    r.add_header_with_str_key("h", b"3");
    assert_eq!(r.headers.len(), 2);
    assert_eq!(r.headers[0].key, "h");
    assert_eq!(r.headers[0].value.as_deref(), Some(&b"3"[..]));
}

#[test]
fn deserialize_reads_the_correlation_id_and_body() {
    let serde = SerDe::new(ApiKey::ApiVersions, None).unwrap();
    let mut header = kafka_protocol::messages::ResponseHeader::default();
    header.correlation_id = 7;
    let mut body = kafka_protocol::messages::ApiVersionsResponse::default();
    let mut v = kafka_protocol::messages::api_versions_response::ApiVersion::default();
    v.min_version = 0;
    v.max_version = 9;
    body.api_keys.insert(1, v);
    let mut buf = bytes::BytesMut::new();
    header.encode(&mut buf, 0).unwrap();
    body.encode(&mut buf, 3).unwrap();
    let (correlation_id, decoded) = serde.deserialize(&buf.to_vec()).unwrap();
    assert_eq!(correlation_id, 7);
    match decoded {
        kafka_caller::codec::ResponseBody::ApiVersions(r) => {
            assert_eq!(r.error_code, 0);
            assert_eq!(r.api_keys, vec![ApiVersionRange { api_key: 1, min_version: 0, max_version: 9 }]);
        },
        _ => panic!("expected an ApiVersions body"),
    }
    assert!(matches!(serde.deserialize(&vec![0, 0]), Err(ProtocolError::Decode)));
}
