use bytes::{Bytes, BytesMut};
use kafka_caller::codec::frame_length;
use kafka_caller::{Configuration, ConsumerSession, ConsumerStep, ProducerSession, ProducerStep, PutRecord};
use kafka_protocol::messages::{self as km, ApiKey as KafkaKey, RequestHeader, ResponseHeader};
use kafka_protocol::protocol::{Decodable, Encodable, StrBytes};
use kafka_protocol::records::{Compression, Record, RecordBatchEncoder, RecordEncodeOptions, TimestampType};

const TOPIC_ID: u128 = 0x1234_5678_9abc_def0_1122_3344_5566_7788;

fn kstr(s: &str) -> StrBytes {
    StrBytes::from_str(Box::leak(s.to_string().into_boxed_str()))
}

/// The header of a framed request and the bytes of its body.
fn open_frame(frame: &[u8]) -> (RequestHeader, Bytes) {
    let len = frame_length(&[frame[0], frame[1], frame[2], frame[3]]).unwrap();
    assert_eq!(len, frame.len() - 4);
    let key = i16::from_be_bytes([frame[4], frame[5]]);
    let version = i16::from_be_bytes([frame[6], frame[7]]);
    let hv = KafkaKey::try_from(key).unwrap().request_header_version(version);
    let mut rest = Bytes::copy_from_slice(&frame[4..]);
    let header = RequestHeader::decode(&mut rest, hv).unwrap();
    (header, rest)
}

/// A response (without its length prefix) to the request `header` describes.
fn respond<R: Encodable>(header: &RequestHeader, body: &R) -> Vec<u8> {
    let key = KafkaKey::try_from(header.request_api_key).unwrap();
    let hv = key.response_header_version(header.request_api_version);
    let mut h = ResponseHeader::default();
    h.correlation_id = header.correlation_id;
    let mut buf = BytesMut::new();
    h.encode(&mut buf, hv).unwrap();
    body.encode(&mut buf, header.request_api_version).unwrap();
    buf.to_vec()
}

fn api_versions_response() -> km::ApiVersionsResponse {
    let mut r = km::ApiVersionsResponse::default();
    for key in [0i16, 1, 2, 3, 8, 9, 10, 11, 12, 13, 14, 18, 22] {
        let mut v = km::api_versions_response::ApiVersion::default();
        v.min_version = 0;
        v.max_version = 20;
        r.api_keys.insert(key, v);
    }
    r
}

fn metadata_response() -> km::MetadataResponse {
    let mut partition = km::metadata_response::MetadataResponsePartition::default();
    partition.partition_index = 0;
    partition.leader_id = km::BrokerId(1);
    let mut topic = km::metadata_response::MetadataResponseTopic::default();
    topic.topic_id = uuid::Uuid::from_u128(TOPIC_ID);
    topic.partitions = vec![partition];
    let mut r = km::MetadataResponse::default();
    r.cluster_id = Some(kstr("cluster-1"));
    r.controller_id = km::BrokerId(1);
    r.topics.insert(km::TopicName(kstr("t")), topic);
    r
}

fn batch_of(offsets: &[i64]) -> Bytes {
    let records: Vec<Record> = offsets
        .iter()
        .map(|&offset| Record {
            transactional: false,
            control: false,
            partition_leader_epoch: 0,
            producer_id: -1,
            producer_epoch: -1,
            timestamp_type: TimestampType::Creation,
            offset,
            sequence: offset as i32,
            timestamp: 1000,
            key: Some(Bytes::from(format!("key-{}", offset))),
            value: Some(Bytes::from_static(b"value")),
            headers: Default::default(),
        })
        .collect();
    let mut buf = BytesMut::new();
    let options = RecordEncodeOptions { version: 2, compression: Compression::None };
    RecordBatchEncoder::encode(&mut buf, records.iter(), &options).unwrap();
    buf.freeze()
}

/// Plays the broker for one request of a consumer's first poll.
fn broker_answer(header: &RequestHeader, body: &mut Bytes, commits: &mut Vec<i64>) -> Vec<u8> {
    let version = header.request_api_version;
    match KafkaKey::try_from(header.request_api_key).unwrap() {
        KafkaKey::ApiVersionsKey => respond(header, &api_versions_response()),
        KafkaKey::MetadataKey => respond(header, &metadata_response()),
        KafkaKey::FindCoordinatorKey => respond(header, &km::FindCoordinatorResponse::default()),
        KafkaKey::JoinGroupKey => {
            let request = km::JoinGroupRequest::decode(body, version).unwrap();
            let mut r = km::JoinGroupResponse::default();
            if request.member_id.is_empty() {
                r.error_code = 79;
                r.member_id = kstr("member-1");
            } else {
                assert_eq!(request.member_id.to_string(), "member-1");
                r.generation_id = 1;
                r.leader = kstr("member-1");
                r.member_id = kstr("member-1");
            }
            respond(header, &r)
        },
        KafkaKey::SyncGroupKey => respond(header, &km::SyncGroupResponse::default()),
        KafkaKey::OffsetFetchKey => {
            let mut p = km::offset_fetch_response::OffsetFetchResponsePartitions::default();
            p.partition_index = 0;
            p.committed_offset = -1;
            let mut t = km::offset_fetch_response::OffsetFetchResponseTopics::default();
            t.name = km::TopicName(kstr("t"));
            t.partitions = vec![p];
            let mut g = km::offset_fetch_response::OffsetFetchResponseGroup::default();
            g.topics = vec![t];
            let mut r = km::OffsetFetchResponse::default();
            r.groups = vec![g];
            respond(header, &r)
        },
        KafkaKey::ListOffsetsKey => {
            let mut p = km::list_offsets_response::ListOffsetsPartitionResponse::default();
            p.partition_index = 0;
            p.offset = 0;
            let mut t = km::list_offsets_response::ListOffsetsTopicResponse::default();
            t.name = km::TopicName(kstr("t"));
            t.partitions = vec![p];
            let mut r = km::ListOffsetsResponse::default();
            r.topics = vec![t];
            respond(header, &r)
        },
        KafkaKey::FetchKey => {
            let request = km::FetchRequest::decode(body, version).unwrap();
            assert_eq!(request.topics[0].partitions[0].fetch_offset, 0);
            let mut p = km::fetch_response::PartitionData::default();
            p.partition_index = 0;
            p.records = Some(batch_of(&[0, 1, 2]));
            let mut t = km::fetch_response::FetchableTopicResponse::default();
            t.topic_id = uuid::Uuid::from_u128(TOPIC_ID);
            t.partitions = vec![p];
            let mut r = km::FetchResponse::default();
            r.responses = vec![t];
            respond(header, &r)
        },
        KafkaKey::OffsetCommitKey => {
            let request = km::OffsetCommitRequest::decode(body, version).unwrap();
            for t in &request.topics {
                for p in &t.partitions {
                    commits.push(p.committed_offset);
                }
            }
            respond(header, &km::OffsetCommitResponse::default())
        },
        KafkaKey::LeaveGroupKey => respond(header, &km::LeaveGroupResponse::default()),
        other => panic!("unexpected request {:?}", other),
    }
}

#[test]
fn first_poll_fetches_and_commits() {
    let configuration = Configuration::ConsumerConfiguration {
        broker_address: "127.0.0.1:9092".to_string(),
        client_id: "test-client-rs".to_string(),
        group_id: "test-client-rs.group".to_string(),
    };
    let mut session = ConsumerSession::new(&configuration).unwrap();
    session.subscribe(&vec!["t".to_string()]);
    session.start_poll();
    let mut keys = Vec::new();
    let mut commits = Vec::new();
    while let Some(frame) = session.next_request().unwrap() {
        let (header, mut body) = open_frame(&frame);
        assert_eq!(header.correlation_id, keys.len() as i32);
        assert_eq!(header.client_id.as_ref().unwrap().to_string(), "test-client-rs");
        keys.push(header.request_api_key);
        let response = broker_answer(&header, &mut body, &mut commits);
        session.handle_response(&response).unwrap();
    }
    assert_eq!(keys, vec![18, 3, 10, 11, 11, 14, 9, 2, 1, 8, 13]);
    assert_eq!(session.step, ConsumerStep::Done);
    assert_eq!(commits, vec![3]);
    assert_eq!(session.state.group_subscription.member_id, "member-1");
    assert_eq!(session.state.fetch_state[0].partitions[0].offsets.polled_offset, 2);
    let records = session.take_records();
    assert_eq!(records.iter().map(|r| r.offset).collect::<Vec<_>>(), vec![0, 1, 2]);
    assert_eq!(records[1].key.as_deref(), Some(&b"key-1"[..]));
}

#[test]
fn first_poll_stops_at_a_broker_error() {
    let configuration = Configuration::ConsumerConfiguration {
        broker_address: "127.0.0.1:9092".to_string(),
        client_id: "c".to_string(),
        group_id: "g".to_string(),
    };
    let mut session = ConsumerSession::new(&configuration).unwrap();
    session.start_poll();
    let frame = session.next_request().unwrap().unwrap();
    let (header, _) = open_frame(&frame);
    let mut r = api_versions_response();
    r.error_code = 35;
    assert!(session.handle_response(&respond(&header, &r)).is_err());
    assert_eq!(session.step, ConsumerStep::ApiVersions);
    assert!(session.state.broker_api_versions.is_empty());
    assert!(session.handle_response(&respond(&header, &r)).is_err());
}

#[test]
fn sessions_refuse_the_other_role() {
    let producer = Configuration::ProducerConfiguration { broker_address: "b".to_string(), client_id: "c".to_string() };
    assert!(ConsumerSession::new(&producer).is_err());
    assert!(ProducerSession::new(&producer).is_ok());
}

#[test]
fn put_sends_one_batch_and_drops_the_queue() {
    let configuration = Configuration::ProducerConfiguration {
        broker_address: "127.0.0.1:9092".to_string(),
        client_id: "test-client-rs".to_string(),
    };
    let mut session = ProducerSession::new(&configuration).unwrap();
    let mut records = vec![
        PutRecord::new_with_key_value_str("t", "WOHOO", "It works !"),
        PutRecord::new_with_key_value_str("t", "WOHOO_2", "It works !!"),
        PutRecord::new_with_key_str("t", "WOHOO_3"),
    ];
    session.put(&mut records);
    assert!(records.is_empty());
    assert_eq!(session.state.connected_topics, vec!["t".to_string()]);
    let mut produced = 0;
    while let Some(frame) = session.next_request(123_456).unwrap() {
        let (header, mut body) = open_frame(&frame);
        let version = header.request_api_version;
        let response = match KafkaKey::try_from(header.request_api_key).unwrap() {
            KafkaKey::ApiVersionsKey => respond(&header, &api_versions_response()),
            KafkaKey::MetadataKey => respond(&header, &metadata_response()),
            KafkaKey::InitProducerIdKey => {
                let mut r = km::InitProducerIdResponse::default();
                r.producer_id = km::ProducerId(77);
                respond(&header, &r)
            },
            KafkaKey::ProduceKey => {
                let request = km::ProduceRequest::decode(&mut body, version).unwrap();
                let data = &request.topic_data[&km::TopicName(kstr("t"))];
                assert_eq!(data.partition_data.len(), 1);
                let mut batch = data.partition_data[0].records.clone().unwrap();
                let sent = kafka_protocol::records::RecordBatchDecoder::decode(&mut batch).unwrap();
                assert_eq!(sent.iter().map(|r| r.offset).collect::<Vec<_>>(), vec![0, 1, 2]);
                assert!(sent.iter().all(|r| r.producer_id == 77 && r.timestamp == 123_456));
                produced += 1;
                respond(&header, &km::ProduceResponse::default())
            },
            other => panic!("unexpected request {:?}", other),
        };
        session.handle_response(&response).unwrap();
    }
    assert_eq!(produced, 1);
    assert_eq!(session.step, ProducerStep::Done);
    assert!(session.state.records_to_send.is_empty());
    assert_eq!(session.state.producer_id, 77);
}

#[test]
fn a_failed_put_drops_its_records() {
    let configuration = Configuration::ProducerConfiguration {
        broker_address: "127.0.0.1:9092".to_string(),
        client_id: "c".to_string(),
    };
    let mut session = ProducerSession::new(&configuration).unwrap();
    let mut records = vec![PutRecord::new_with_key_str("t", "k")];
    session.put(&mut records);
    let frame = session.next_request(1).unwrap().unwrap();
    let (header, _) = open_frame(&frame);
    let mut r = api_versions_response();
    r.error_code = 35;
    assert!(session.handle_response(&respond(&header, &r)).is_err());
    assert_eq!(session.state.records_to_send.len(), 1);
    session.end_put();
    assert!(session.state.records_to_send.is_empty());
    assert_eq!(session.step, ProducerStep::Done);
}
