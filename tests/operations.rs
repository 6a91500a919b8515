use kafka_caller::batch::batch_deltas_fit_check;
use kafka_caller::codec::ApiKey;
use kafka_caller::fetch::{apply_fetched_partition, FetchRequest, FetchResponse, FetchedPartition};
use kafka_caller::group::{
    FindCoordinatorResponse, JoinGroupRequest, JoinGroupResponse, LeaveGroupRequest, LeaveGroupResponse,
    SyncGroupRequest, SyncGroupResponse,
};
use kafka_caller::offsets::{
    CommittedOffset, ListOffsetsRequest, ListOffsetsResponse, ListedOffset, OffsetCommitRequest,
    OffsetFetchRequest, OffsetFetchResponse, OffsetFetchTopic,
};
use kafka_caller::produce::ProduceRequest;
use kafka_caller::records::max_record_offset;
use kafka_caller::state::{Partition, PartitionEntry, SubscriptionMember, Topic, TopicOffsets};
use kafka_caller::{BatchRecord, CallState, Configuration, PartitionOffsetState, ProtocolError, PutRecord, TimestampType};
use kafka_protocol::records::RecordBatchDecoder;

fn consumer_state() -> CallState {
    CallState::new(&Configuration::ConsumerConfiguration {
        broker_address: "127.0.0.1:9092".to_string(),
        client_id: "test-client-rs".to_string(),
        group_id: "test-client-rs.group".to_string(),
    })
}

fn producer_state() -> CallState {
    CallState::new(&Configuration::ProducerConfiguration {
        broker_address: "127.0.0.1:9092".to_string(),
        client_id: "test-client-rs".to_string(),
    })
}

fn topic(name: &str, id: u128, partitions: &[i32]) -> Topic {
    Topic {
        id,
        name: name.to_string(),
        partitions: partitions.iter().map(|&index| Partition { index, leader_id: 1 }).collect(),
    }
}

fn offsets(name: &str, entries: &[(i32, i64, i64, i16)]) -> TopicOffsets {
    TopicOffsets {
        name: name.to_string(),
        partitions: entries
            .iter()
            .map(|&(index, commited_offset, polled_offset, error_code)| PartitionEntry {
                index,
                offsets: PartitionOffsetState { commited_offset, polled_offset, error_code },
            })
            .collect(),
    }
}

fn record(offset: i64) -> BatchRecord {
    BatchRecord {
        transactional: false,
        control: false,
        partition_leader_epoch: 0,
        producer_id: -1,
        producer_epoch: -1,
        timestamp_type: TimestampType::Creation,
        offset,
        sequence: 0,
        timestamp: 0,
        key: None,
        value: Some(vec![1, 2]),
        headers: Vec::new(),
    }
}

#[test]
fn offset_fetch_request_lists_metadata_partitions() {
    let mut state = consumer_state();
    state.connected_topics = vec!["t".to_string()];
    state.broker_metadata.topics = vec![topic("t", 9, &[0, 1])];
    let req = OffsetFetchRequest::create_request(&state).unwrap();
    assert_eq!(req.group_id, "test-client-rs.group");
    assert_eq!(req.topics.len(), 1);
    assert_eq!(req.topics[0].partition_indexes, vec![0, 1]);
    state.connected_topics.push("missing".to_string());
    match OffsetFetchRequest::create_request(&state) {
        Err(ProtocolError::UnknownTopic { name }) => assert_eq!(name, "missing"),
        _ => panic!("expected an unknown topic"),
    }
}

#[test]
fn offset_fetch_seeding_does_not_reset_committed_offsets() {
    let mut state = consumer_state();
    let response = |committed: i64| OffsetFetchResponse {
        error_code: 0,
        topics: vec![OffsetFetchTopic {
            name: "t".to_string(),
            partitions: vec![CommittedOffset { partition_index: 0, committed_offset: committed }],
        }],
    };
    response(-1).process_response(&mut state).unwrap();
    assert_eq!(state.fetch_state.len(), 1);
    assert_eq!(state.fetch_state[0].partitions[0].offsets, PartitionOffsetState::new(-1));
    state.fetch_state[0].partitions[0].offsets.commited_offset = 17;
    response(3).process_response(&mut state).unwrap();
    assert_eq!(state.fetch_state.len(), 1);
    assert_eq!(state.fetch_state[0].partitions[0].offsets.commited_offset, 17);
}

#[test]
fn offset_fetch_error_code_is_fatal() {
    let mut state = consumer_state();
    let response = OffsetFetchResponse { error_code: 16, topics: Vec::new() };
    assert!(matches!(
        response.process_response(&mut state),
        Err(ProtocolError::Broker { api_key: ApiKey::OffsetFetch, error_code: 16 })
    ));
    assert!(state.fetch_state.is_empty());
}

#[test]
fn list_offsets_request_asks_for_the_earliest_offset() {
    let mut state = consumer_state();
    state.connected_topics = vec!["t".to_string()];
    state.fetch_state = vec![offsets("t", &[(0, -1, -1, 0), (1, -1, -1, 0)])];
    let req = ListOffsetsRequest::create_request(&state).unwrap();
    assert_eq!(req.replica_id, -1);
    assert_eq!(req.topics[0].partitions.len(), 2);
    assert_eq!(req.topics[0].partitions[1].partition_index, 1);
    assert_eq!(req.topics[0].partitions[1].timestamp, -2);
}

#[test]
fn list_offsets_never_lowers_a_committed_offset() {
    let mut state = consumer_state();
    state.fetch_state = vec![offsets("t", &[(0, 10, -1, 0), (1, -1, -1, 0)])];
    let listed = |index: i32, offset: i64| ListedOffset { topic: "t".to_string(), partition_index: index, offset };
    ListOffsetsResponse { partitions: vec![listed(0, 4), listed(1, 0)] }.process_response(&mut state).unwrap();
    assert_eq!(state.fetch_state[0].partitions[0].offsets.commited_offset, 10);
    assert_eq!(state.fetch_state[0].partitions[1].offsets.commited_offset, 0);
    ListOffsetsResponse { partitions: vec![listed(0, 12)] }.process_response(&mut state).unwrap();
    assert_eq!(state.fetch_state[0].partitions[0].offsets.commited_offset, 12);
}

#[test]
fn list_offsets_for_an_unknown_partition_changes_nothing() {
    let mut state = consumer_state();
    state.fetch_state = vec![offsets("t", &[(0, 1, -1, 0)])];
    let response = ListOffsetsResponse {
        partitions: vec![
            ListedOffset { topic: "t".to_string(), partition_index: 0, offset: 5 },
            ListedOffset { topic: "t".to_string(), partition_index: 3, offset: 5 },
        ],
    };
    match response.process_response(&mut state) {
        Err(ProtocolError::UnknownPartition { name, index }) => {
            assert_eq!(name, "t");
            assert_eq!(index, 3);
        },
        _ => panic!("expected an unknown partition"),
    }
    assert_eq!(state.fetch_state[0].partitions[0].offsets.commited_offset, 1);
}

#[test]
fn fetch_request_starts_at_committed_offsets() {
    let mut state = consumer_state();
    state.broker_metadata.cluster_id = "cluster".to_string();
    state.broker_metadata.topics = vec![topic("t", 77, &[0, 1, 2])];
    state.fetch_state = vec![offsets("t", &[(0, -1, -1, 0), (1, 5, -1, 0), (2, 5, -1, 3)])];
    let req = FetchRequest::create_request(&state).unwrap();
    assert_eq!((req.min_bytes, req.max_bytes, req.max_wait_ms), (8, 4194304, 1000));
    assert_eq!(req.cluster_id.as_deref(), Some("cluster"));
    assert_eq!(req.topics[0].topic_id, 77);
    let parts = &req.topics[0].partitions;
    assert_eq!(parts.len(), 2);
    assert_eq!((parts[0].partition, parts[0].fetch_offset), (0, 0));
    assert_eq!((parts[1].partition, parts[1].fetch_offset), (1, 5));
    assert_eq!(parts[1].partition_max_bytes, 1048576);
}

#[test]
fn fetch_then_commit_advances_past_the_last_record() {
    let mut state = consumer_state();
    state.fetch_state = vec![offsets("t", &[(0, 5, -1, 0)])];
    let records = vec![record(5), record(6), record(7)];
    assert_eq!(max_record_offset(&records), 7);
    apply_fetched_partition(&mut state, &"t".to_string(), 0, 0, &records);
    assert_eq!(state.fetch_state[0].partitions[0].offsets.polled_offset, 7);
    let commit = OffsetCommitRequest::create_request(&state).unwrap();
    assert_eq!(commit.topics[0].partitions[0].committed_offset, 8);
    assert_eq!(commit.topics[0].partitions[0].committed_leader_epoch, -1);
}

#[test]
fn fetch_without_records_leaves_polled_offset_unset() {
    let mut state = consumer_state();
    state.fetch_state = vec![offsets("t", &[(0, 5, 9, 0)])];
    apply_fetched_partition(&mut state, &"t".to_string(), 0, 0, &Vec::new());
    assert_eq!(state.fetch_state[0].partitions[0].offsets.polled_offset, -1);
}

#[test]
fn fetch_response_error_code_is_fatal() {
    let mut state = consumer_state();
    state.fetch_state = vec![offsets("t", &[(0, 5, -1, 0)])];
    let response = FetchResponse { error_code: 7, partitions: Vec::new() };
    assert!(matches!(
        response.process_response(&mut state),
        Err(ProtocolError::Broker { api_key: ApiKey::Fetch, error_code: 7 })
    ));
}

#[test]
fn fetch_response_for_an_unknown_topic_id_changes_nothing() {
    let mut state = consumer_state();
    state.broker_metadata.topics = vec![topic("t", 77, &[0])];
    state.fetch_state = vec![offsets("t", &[(0, 5, -1, 0)])];
    let response = FetchResponse {
        error_code: 0,
        partitions: vec![
            FetchedPartition { topic_id: 77, partition_index: 0, error_code: 0, records: None },
            FetchedPartition { topic_id: 78, partition_index: 0, error_code: 0, records: None },
        ],
    };
    assert!(matches!(response.process_response(&mut state), Err(ProtocolError::UnknownTopicId { id: 78 })));
    assert_eq!(state.fetch_state[0].partitions[0].offsets.polled_offset, -1);
}

#[test]
fn fetch_response_stores_partition_error_codes() {
    let mut state = consumer_state();
    state.broker_metadata.topics = vec![topic("t", 77, &[0])];
    state.fetch_state = vec![offsets("t", &[(0, 5, 3, 0)])];
    let response = FetchResponse {
        error_code: 0,
        partitions: vec![FetchedPartition { topic_id: 77, partition_index: 0, error_code: 6, records: None }],
    };
    let records = response.process_response(&mut state).unwrap();
    assert!(records.is_empty());
    assert_eq!(state.fetch_state[0].partitions[0].offsets.error_code, 6);
    assert_eq!(state.fetch_state[0].partitions[0].offsets.polled_offset, -1);
    let commit = OffsetCommitRequest::create_request(&state).unwrap();
    assert!(commit.topics[0].partitions.is_empty());
}

#[test]
fn offset_commit_of_the_largest_offset_is_refused() {
    let mut state = consumer_state();
    state.fetch_state = vec![offsets("t", &[(0, 5, i64::MAX, 0)])];
    assert!(matches!(OffsetCommitRequest::create_request(&state), Err(ProtocolError::OffsetOverflow)));
}

#[test]
fn join_group_member_id_required_is_recoverable() {
    let mut state = consumer_state();
    state.connected_topics = vec!["t".to_string()];
    let first = JoinGroupRequest::create_request(&state).unwrap();
    assert_eq!(first.member_id, "");
    let response = JoinGroupResponse {
        error_code: 79,
        generation_id: -1,
        leader: String::new(),
        member_id: "member-1".to_string(),
        members: Vec::new(),
    };
    response.process_response(&mut state).unwrap();
    assert_eq!(state.group_subscription.member_id, "member-1");
    assert_eq!(state.group_subscription.generation_id, -1);
    let second = JoinGroupRequest::create_request(&state).unwrap();
    assert_eq!(second.member_id, "member-1");
}

#[test]
fn join_group_request_tags_the_subscription() {
    let mut state = consumer_state();
    state.connected_topics = vec!["test_topic".to_string()];
    let req = JoinGroupRequest::create_request(&state).unwrap();
    assert_eq!(req.protocol_type, "consumer");
    assert_eq!((req.session_timeout_ms, req.rebalance_timeout_ms), (30000, 30500));
    assert_eq!(req.protocols.len(), 1);
    assert_eq!(req.protocols[0].name, "range");
    let metadata = &req.protocols[0].metadata;
    assert_eq!(&metadata[..2], &[0, 1]);
    use_subscription_decoder(&metadata[2..]);
}

fn use_subscription_decoder(b: &[u8]) {
    let mut buf = bytes::Bytes::copy_from_slice(b);
    let s = <kafka_protocol::messages::ConsumerProtocolSubscription as kafka_protocol::protocol::Decodable>::decode(
        &mut buf, 1,
    )
    .unwrap();
    assert_eq!(s.topics.len(), 1);
    assert_eq!(s.topics[0].to_string(), "test_topic");
}

#[test]
fn join_group_success_captures_the_group() {
    let mut state = consumer_state();
    state.group_subscription.member_id = "member-1".to_string();
    let response = JoinGroupResponse {
        error_code: 0,
        generation_id: 4,
        leader: "member-1".to_string(),
        member_id: "member-1".to_string(),
        members: vec![SubscriptionMember { member_id: "member-1".to_string(), metadata: vec![0, 1, 2] }],
    };
    response.process_response(&mut state).unwrap();
    assert_eq!(state.group_subscription.generation_id, 4);
    assert_eq!(state.group_subscription.leader_id, "member-1");
    let sync = SyncGroupRequest::create_request(&state).unwrap();
    assert_eq!(sync.generation_id, 4);
    assert_eq!(sync.assignments.len(), 1);
    assert_eq!(sync.assignments[0].assignment, vec![0, 1, 2]);
    assert_eq!(sync.protocol_name.as_deref(), Some("range"));
}

#[test]
fn join_group_other_error_is_fatal() {
    let mut state = consumer_state();
    let response = JoinGroupResponse {
        error_code: 25,
        generation_id: 3,
        leader: "x".to_string(),
        member_id: "y".to_string(),
        members: Vec::new(),
    };
    assert!(matches!(
        response.process_response(&mut state),
        Err(ProtocolError::Broker { api_key: ApiKey::JoinGroup, error_code: 25 })
    ));
    assert_eq!(state.group_subscription.member_id, "");
    assert_eq!(state.group_subscription.generation_id, -1);
}

#[test]
fn group_error_codes_are_fatal() {
    let mut state = consumer_state();
    assert!(SyncGroupResponse { error_code: 27 }.process_response(&mut state).is_err());
    assert!(SyncGroupResponse { error_code: 0 }.process_response(&mut state).is_ok());
    assert!(LeaveGroupResponse { error_code: 25 }.process_response(&mut state).is_err());
    let coordinators = FindCoordinatorResponse { error_code: 15, coordinators: Vec::new() };
    assert!(matches!(
        coordinators.process_response(&mut state),
        Err(ProtocolError::Broker { api_key: ApiKey::FindCoordinator, error_code: 15 })
    ));
}

#[test]
fn group_requests_need_a_consumer_configuration() {
    let state = producer_state();
    assert!(matches!(LeaveGroupRequest::create_request(&state), Err(ProtocolError::Configuration(_))));
    assert!(matches!(JoinGroupRequest::create_request(&state), Err(ProtocolError::Configuration(_))));
    let consumer = consumer_state();
    let leave = LeaveGroupRequest::create_request(&consumer).unwrap();
    assert_eq!(leave.members[0].reason.as_deref(), Some("the consumer is being closed"));
}

#[test]
fn produce_numbers_records_per_topic() {
    let mut state = producer_state();
    state.producer_id = 4242;
    state.broker_metadata.topics = vec![topic("t", 1, &[0])];
    state.records_to_send = vec![
        PutRecord::new_with_key_value_str("t", "WOHOO", "It works !"),
        PutRecord::new_with_key_value_str("t", "WOHOO_2", "It works !!"),
        PutRecord::new_with_key_str("t", "WOHOO_3"),
    ];
    let req = ProduceRequest::create_request(&state, 1_700_000_000_000).unwrap();
    assert_eq!((req.acks, req.timeout_ms), (1, 30000));
    assert_eq!(req.topic_data.len(), 1);
    assert_eq!(req.topic_data[0].name, "t");
    assert_eq!(req.topic_data[0].partition_data.len(), 1);
    let data = &req.topic_data[0].partition_data[0];
    assert_eq!(data.index, 0);
    assert_eq!(data.records.len(), 3);
    for (i, r) in data.records.iter().enumerate() {
        assert_eq!(r.offset, i as i64);
        assert_eq!(r.sequence, i as i32);
        assert_eq!(r.producer_id, 4242);
        assert_eq!(r.timestamp, 1_700_000_000_000);
    }
    let mut batch = bytes::Bytes::copy_from_slice(&data.batch);
    let decoded = RecordBatchDecoder::decode(&mut batch).unwrap();
    assert_eq!(decoded.len(), 3);
    assert_eq!(decoded[1].key.as_deref(), Some(&b"WOHOO_2"[..]));
    assert_eq!(decoded[2].offset, 2);
    assert_eq!(decoded[0].producer_id, 4242);
}

#[test]
fn produce_groups_topics_in_first_seen_order() {
    let mut state = producer_state();
    state.broker_metadata.topics = vec![topic("a", 1, &[3, 4]), topic("b", 2, &[7])];
    state.records_to_send = vec![
        PutRecord::new_with_key_str("b", "1"),
        PutRecord::new_with_key_str("a", "2"),
        PutRecord::new_with_key_str("b", "3"),
    ];
    let req = ProduceRequest::create_request(&state, 5).unwrap();
    assert_eq!(req.topic_data.len(), 2);
    assert_eq!(req.topic_data[0].name, "b");
    assert_eq!(req.topic_data[0].partition_data[0].index, 7);
    assert_eq!(req.topic_data[0].partition_data[0].records[1].offset, 1);
    assert_eq!(req.topic_data[1].partition_data[0].index, 3);
}

#[test]
fn produce_needs_a_described_topic_with_partitions() {
    let mut state = producer_state();
    state.records_to_send = vec![PutRecord::new_with_key_str("t", "k")];
    assert!(matches!(ProduceRequest::create_request(&state, 0), Err(ProtocolError::UnknownTopic { .. })));
    state.broker_metadata.topics = vec![topic("t", 1, &[])];
    assert!(matches!(ProduceRequest::create_request(&state, 0), Err(ProtocolError::NoPartitions { .. })));
}

#[test]
fn join_group_fails_when_the_subscription_does_not_encode() {
    let mut state = consumer_state();
    state.connected_topics = vec!["x".repeat(40000)];
    assert!(matches!(JoinGroupRequest::create_request(&state), Err(ProtocolError::Encode)));
}

fn encoded_batch(offsets: &[i64], timestamp: i64) -> Vec<u8> {
    let records: Vec<kafka_protocol::records::Record> = offsets
        .iter()
        .map(|&offset| kafka_protocol::records::Record {
            transactional: false,
            control: false,
            partition_leader_epoch: 0,
            producer_id: -1,
            producer_epoch: -1,
            timestamp_type: kafka_protocol::records::TimestampType::Creation,
            offset,
            sequence: 0,
            timestamp,
            key: None,
            value: Some(bytes::Bytes::from_static(b"v")),
            headers: Default::default(),
        })
        .collect();
    let mut buf = bytes::BytesMut::new();
    let options = kafka_protocol::records::RecordEncodeOptions {
        version: 2,
        compression: kafka_protocol::records::Compression::None,
    };
    kafka_protocol::records::RecordBatchEncoder::encode(&mut buf, records.iter(), &options).unwrap();
    buf.to_vec()
}

#[test]
fn batches_near_the_ends_of_the_offset_range_are_refused() {
    assert!(batch_deltas_fit_check(&encoded_batch(&[0, 1, 2], 1000)));
    assert!(batch_deltas_fit_check(&Vec::new()));
    assert!(!batch_deltas_fit_check(&encoded_batch(&[i64::MAX - 1], 1000)));
    assert!(!batch_deltas_fit_check(&encoded_batch(&[0], i64::MIN + 5)));
    let mut state = consumer_state();
    state.broker_metadata.topics = vec![topic("t", 77, &[0])];
    state.fetch_state = vec![offsets("t", &[(0, 5, -1, 0)])];
    let response = FetchResponse {
        error_code: 0,
        partitions: vec![FetchedPartition {
            topic_id: 77,
            partition_index: 0,
            error_code: 0,
            records: Some(encoded_batch(&[i64::MAX - 1], 1000)),
        }],
    };
    assert!(matches!(response.process_response(&mut state), Err(ProtocolError::Decode)));
    assert_eq!(state.fetch_state[0].partitions[0].offsets.polled_offset, -1);
}

#[test]
fn fetch_response_decodes_its_batches() {
    let mut state = consumer_state();
    state.broker_metadata.topics = vec![topic("t", 77, &[0])];
    state.fetch_state = vec![offsets("t", &[(0, 5, -1, 0)])];
    let response = FetchResponse {
        error_code: 0,
        partitions: vec![FetchedPartition {
            topic_id: 77,
            partition_index: 0,
            error_code: 0,
            records: Some(encoded_batch(&[5, 6, 7], 1000)),
        }],
    };
    let records = response.process_response(&mut state).unwrap();
    assert_eq!(records.iter().map(|r| r.offset).collect::<Vec<_>>(), vec![5, 6, 7]);
    assert_eq!(state.fetch_state[0].partitions[0].offsets.polled_offset, 7);
}
