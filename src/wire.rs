use vstd::prelude::*;

use kafka_protocol::messages as km;
use kafka_protocol::protocol::{Decodable, Encodable, Message, StrBytes};

use crate::cluster::{
    ApiVersionsRequest, ApiVersionsResponse, InitProducerIdRequest, InitProducerIdResponse,
    MetadataRequest, MetadataResponse,
};
use crate::fetch::{FetchRequest, FetchResponse, FetchedPartition, PartitionFetch};
use crate::group::{
    FindCoordinatorRequest, FindCoordinatorResponse, HeartbeatRequest, JoinGroupRequest,
    JoinGroupResponse, LeaveGroupRequest, LeaveGroupResponse, SyncGroupRequest, SyncGroupResponse,
};
use crate::offsets::{
    CommittedOffset, ListOffsetsRequest, ListOffsetsResponse, ListedOffset, OffsetCommitRequest,
    OffsetFetchRequest, OffsetFetchResponse, OffsetFetchTopic,
};
use crate::produce::ProduceRequest;
use crate::records::{bytes_view, records_view, BatchRecord, RecordHeader, RecordView, TimestampType};
use crate::state::{ApiVersionRange, Broker, Coordinator, Partition, SubscriptionMember, Topic};

verus! {

#[verifier::external_type_specification]
#[verifier::external_body]
pub struct ExBytes(bytes::Bytes);

#[verifier::external_type_specification]
#[verifier::external_body]
#[verifier::reject_recursive_types(T)]
pub struct ExProtocolString<T>(string::String<T>);

/// The protocol's string type holding the bytes of `s`; the bytes of a
/// `String` are always UTF-8, so the conversion cannot fail.
#[verifier::external_body]
fn to_kafka_str(s: &String) -> StrBytes {
    <StrBytes as string::TryFrom<bytes::Bytes>>::try_from(bytes::Bytes::from(s.clone())).unwrap()
}

/// The text of each string.
pub open spec fn names_view(v: Seq<String>) -> Seq<Seq<char>> {
    v.map_values(|s: String| s@)
}

/// The encoding of a consumer subscription to `topics` at `version`.
pub uninterp spec fn subscription_bytes(topics: Seq<Seq<char>>, version: i16) -> Option<Seq<u8>>;

/// Relies on the `VERSIONS.max` constant of kafka_protocol's
/// `ConsumerProtocolSubscription`, which is 1.
#[verifier::external_body]
pub(crate) fn subscription_version() -> (r: i16)
    ensures
        r == 1,
{
    km::ConsumerProtocolSubscription::VERSIONS.max
}

/// Relies on `Encodable::encode` of kafka_protocol's
/// `ConsumerProtocolSubscription`: the encoding depends on the topics and the
/// version alone.
#[verifier::external_body]
pub(crate) fn encode_subscription(topics: &Vec<String>, version: i16) -> (r: Option<Vec<u8>>)
    ensures
        bytes_view(r) == subscription_bytes(names_view(topics@), version),
{
    let mut subscription = km::ConsumerProtocolSubscription::default();
    subscription.topics = topics.iter().map(to_kafka_str).collect();
    let mut buf = bytes::BytesMut::new();
    subscription.encode(&mut buf, version).ok()?;
    Some(buf.to_vec())
}

} // verus!

verus! {

#[verifier::external_type_specification]
#[verifier::external_body]
pub struct ExKafkaRecord(kafka_protocol::records::Record);

/// The protocol's record as one of this library's, field for field.
#[verifier::external_body]
fn record_of(r: &kafka_protocol::records::Record) -> BatchRecord {
    let timestamp_type = match r.timestamp_type {
        kafka_protocol::records::TimestampType::Creation => TimestampType::Creation,
        kafka_protocol::records::TimestampType::LogAppend => TimestampType::LogAppend,
    };
    BatchRecord { transactional: r.transactional, control: r.control,
        partition_leader_epoch: r.partition_leader_epoch, producer_id: r.producer_id,
        producer_epoch: r.producer_epoch, timestamp_type, offset: r.offset, sequence: r.sequence,
        timestamp: r.timestamp, key: r.key.as_ref().map(|b| b.to_vec()),
        value: r.value.as_ref().map(|b| b.to_vec()),
        headers: r.headers.iter().map(|(k, v)| RecordHeader { key: k.to_string(),
            value: v.as_ref().map(|b| b.to_vec()) }).collect() }
}

/// The records of the record batches in `b`, or none where they do not decode.
pub uninterp spec fn decoded_records(b: Seq<u8>) -> Option<Seq<RecordView>>;

/// Relies on kafka_protocol's `RecordBatchDecoder::decode`: the records
/// depend on the bytes alone. The decoder adds each record's 32-bit offset
/// and timestamp deltas to its batch's base offset and first timestamp
/// unchecked, which overflows near the ends of the `i64` range; the bytes
/// admitted keep those bases far enough inside it.
#[verifier::external_body]
pub(crate) fn decode_record_batches(b: &Vec<u8>) -> (r: Option<Vec<BatchRecord>>)
    requires
        crate::batch::batch_deltas_fit(b@),
    ensures
        match r {
            Some(v) => decoded_records(b@) == Some(records_view(v@)),
            None => decoded_records(b@) is None,
        },
{
    let mut buf = bytes::Bytes::copy_from_slice(b);
    let records = kafka_protocol::records::RecordBatchDecoder::decode(&mut buf).ok()?;
    Some(records.iter().map(record_of).collect())
}

} // verus!

verus! {

/// The record batch that carries `records`, compressed with `compression`,
/// at record format `version`.
pub uninterp spec fn record_batch_bytes(
    records: Seq<RecordView>,
    compression: crate::produce::Compression,
    version: i8,
) -> Option<Seq<u8>>;

/// This library's record as the protocol's, field for field.
#[verifier::external_body]
fn kafka_record_of(r: &BatchRecord) -> kafka_protocol::records::Record {
    let timestamp_type = match r.timestamp_type {
        TimestampType::Creation => kafka_protocol::records::TimestampType::Creation,
        TimestampType::LogAppend => kafka_protocol::records::TimestampType::LogAppend,
    };
    kafka_protocol::records::Record { transactional: r.transactional, control: r.control,
        partition_leader_epoch: r.partition_leader_epoch, producer_id: r.producer_id,
        producer_epoch: r.producer_epoch, timestamp_type, offset: r.offset, sequence: r.sequence,
        timestamp: r.timestamp, key: r.key.clone().map(bytes::Bytes::from),
        value: r.value.clone().map(bytes::Bytes::from),
        headers: r.headers.iter().map(|h| (to_kafka_str(&h.key),
            h.value.clone().map(bytes::Bytes::from))).collect() }
}

/// Relies on kafka_protocol's `RecordBatchEncoder::encode`: the batch
/// depends on the records, the compression and the format version alone.
/// It panics on a format version other than 0, 1 or 2, and its offset and
/// timestamp arithmetic (each record less the batch's least) overflows on
/// negative offsets or far-apart timestamps; so the version is 0 to 2, the
/// offsets are not negative and the records share one timestamp.
#[verifier::external_body]
pub(crate) fn encode_record_batch(
    records: &Vec<BatchRecord>,
    compression: crate::produce::Compression,
    version: i8,
) -> (r: Option<Vec<u8>>)
    requires
        0 <= version <= 2,
        forall|i: int| 0 <= i < records@.len() ==> records@[i].offset >= 0,
        forall|i: int|
            0 <= i < records@.len() ==> (#[trigger] records@[i]).timestamp == records@[0].timestamp,
    ensures
        bytes_view(r) == record_batch_bytes(records_view(records@), compression, version),
{
    let compression = match compression {
        crate::produce::Compression::NoCompression => kafka_protocol::records::Compression::None,
        crate::produce::Compression::Gzip => kafka_protocol::records::Compression::Gzip,
        crate::produce::Compression::Snappy => kafka_protocol::records::Compression::Snappy,
        crate::produce::Compression::Lz4 => kafka_protocol::records::Compression::Lz4,
        crate::produce::Compression::Zstd => kafka_protocol::records::Compression::Zstd,
    };
    let wire: Vec<_> = records.iter().map(kafka_record_of).collect();
    let options = kafka_protocol::records::RecordEncodeOptions { version, compression };
    let mut buf = bytes::BytesMut::new();
    kafka_protocol::records::RecordBatchEncoder::encode(&mut buf, wire.iter(), &options).ok()?;
    Some(buf.to_vec())
}

} // verus!

verus! {

/// The encoding of `m` at `version`, or none where kafka_protocol refuses it.
#[verifier::external_body]
fn encoded<M: Encodable>(m: &M, version: i16) -> Option<Vec<u8>> {
    let mut buf = bytes::BytesMut::new();
    m.encode(&mut buf, version).ok()?;
    Some(buf.to_vec())
}

/// The message decoded from the start of `b` at `version` (bytes after it
/// are left), or none where kafka_protocol refuses the bytes. Array lengths read from the bytes size
/// what decoding allocates.
#[verifier::external_body]
fn decoded<M: Decodable>(b: &Vec<u8>, version: i16) -> Option<M> {
    let mut buf = bytes::Bytes::copy_from_slice(b);
    M::decode(&mut buf, version).ok()
}

// For each API: its key on the wire, and the largest version of its request
// that kafka_protocol can encode (the `VERSIONS.max` constant of the message).

/// Relies on `ApiKey::ApiVersionsKey` and `ApiVersionsRequest::VERSIONS.max` of kafka_protocol.
#[verifier::external_body]
pub(crate) fn api_versions_api() -> (r: (i16, i16))
    ensures
        r == (18i16, 3i16),
{
    (km::ApiKey::ApiVersionsKey as i16, km::ApiVersionsRequest::VERSIONS.max)
}

/// Relies on `ApiKey::MetadataKey` and `MetadataRequest::VERSIONS.max` of kafka_protocol.
#[verifier::external_body]
pub(crate) fn metadata_api() -> (r: (i16, i16))
    ensures
        r == (3i16, 12i16),
{
    (km::ApiKey::MetadataKey as i16, km::MetadataRequest::VERSIONS.max)
}

/// Relies on `ApiKey::FindCoordinatorKey` and `FindCoordinatorRequest::VERSIONS.max` of kafka_protocol.
#[verifier::external_body]
pub(crate) fn find_coordinator_api() -> (r: (i16, i16))
    ensures
        r == (10i16, 4i16),
{
    (km::ApiKey::FindCoordinatorKey as i16, km::FindCoordinatorRequest::VERSIONS.max)
}

/// Relies on `ApiKey::JoinGroupKey` and `JoinGroupRequest::VERSIONS.max` of kafka_protocol.
#[verifier::external_body]
pub(crate) fn join_group_api() -> (r: (i16, i16))
    ensures
        r == (11i16, 9i16),
{
    (km::ApiKey::JoinGroupKey as i16, km::JoinGroupRequest::VERSIONS.max)
}

/// Relies on `ApiKey::SyncGroupKey` and `SyncGroupRequest::VERSIONS.max` of kafka_protocol.
#[verifier::external_body]
pub(crate) fn sync_group_api() -> (r: (i16, i16))
    ensures
        r == (14i16, 5i16),
{
    (km::ApiKey::SyncGroupKey as i16, km::SyncGroupRequest::VERSIONS.max)
}

/// Relies on `ApiKey::HeartbeatKey` and `HeartbeatRequest::VERSIONS.max` of kafka_protocol.
#[verifier::external_body]
pub(crate) fn heartbeat_api() -> (r: (i16, i16))
    ensures
        r == (12i16, 4i16),
{
    (km::ApiKey::HeartbeatKey as i16, km::HeartbeatRequest::VERSIONS.max)
}

/// Relies on `ApiKey::OffsetFetchKey` and `OffsetFetchRequest::VERSIONS.max` of kafka_protocol.
#[verifier::external_body]
pub(crate) fn offset_fetch_api() -> (r: (i16, i16))
    ensures
        r == (9i16, 8i16),
{
    (km::ApiKey::OffsetFetchKey as i16, km::OffsetFetchRequest::VERSIONS.max)
}

/// Relies on `ApiKey::ListOffsetsKey` and `ListOffsetsRequest::VERSIONS.max` of kafka_protocol.
#[verifier::external_body]
pub(crate) fn list_offsets_api() -> (r: (i16, i16))
    ensures
        r == (2i16, 7i16),
{
    (km::ApiKey::ListOffsetsKey as i16, km::ListOffsetsRequest::VERSIONS.max)
}

/// Relies on `ApiKey::FetchKey` and `FetchRequest::VERSIONS.max` of kafka_protocol.
#[verifier::external_body]
pub(crate) fn fetch_api() -> (r: (i16, i16))
    ensures
        r == (1i16, 13i16),
{
    (km::ApiKey::FetchKey as i16, km::FetchRequest::VERSIONS.max)
}

/// Relies on `ApiKey::OffsetCommitKey` and `OffsetCommitRequest::VERSIONS.max` of kafka_protocol.
#[verifier::external_body]
pub(crate) fn offset_commit_api() -> (r: (i16, i16))
    ensures
        r == (8i16, 8i16),
{
    (km::ApiKey::OffsetCommitKey as i16, km::OffsetCommitRequest::VERSIONS.max)
}

/// Relies on `ApiKey::LeaveGroupKey` and `LeaveGroupRequest::VERSIONS.max` of kafka_protocol.
#[verifier::external_body]
pub(crate) fn leave_group_api() -> (r: (i16, i16))
    ensures
        r == (13i16, 5i16),
{
    (km::ApiKey::LeaveGroupKey as i16, km::LeaveGroupRequest::VERSIONS.max)
}

/// Relies on `ApiKey::InitProducerIdKey` and `InitProducerIdRequest::VERSIONS.max` of kafka_protocol.
#[verifier::external_body]
pub(crate) fn init_producer_id_api() -> (r: (i16, i16))
    ensures
        r == (22i16, 4i16),
{
    (km::ApiKey::InitProducerIdKey as i16, km::InitProducerIdRequest::VERSIONS.max)
}

/// Relies on `ApiKey::ProduceKey` and `ProduceRequest::VERSIONS.max` of kafka_protocol.
#[verifier::external_body]
pub(crate) fn produce_api() -> (r: (i16, i16))
    ensures
        r == (0i16, 9i16),
{
    (km::ApiKey::ProduceKey as i16, km::ProduceRequest::VERSIONS.max)
}

/// The version of the request header that goes with version `version` of
/// the request of API key `key`; none for a key the protocol does not know.
pub uninterp spec fn request_header_version_of(key: i16, version: i16) -> Option<i16>;

/// The version of the response header that goes with version `version` of
/// the response of API key `key`; none for a key the protocol does not know.
pub uninterp spec fn response_header_version_of(key: i16, version: i16) -> Option<i16>;

/// Relies on kafka_protocol's `ApiKey::request_header_version`, a function
/// of the key and the version.
#[verifier::external_body]
pub(crate) fn request_header_version(key: i16, version: i16) -> (r: Option<i16>)
    ensures
        r == request_header_version_of(key, version),
{
    km::ApiKey::try_from(key).ok().map(|k| k.request_header_version(version))
}

/// Relies on kafka_protocol's `ApiKey::response_header_version`, a function
/// of the key and the version.
#[verifier::external_body]
pub(crate) fn response_header_version(key: i16, version: i16) -> (r: Option<i16>)
    ensures
        r == response_header_version_of(key, version),
{
    km::ApiKey::try_from(key).ok().map(|k| k.response_header_version(version))
}

/// The encoding of a request header with these fields, at `header_version`.
pub uninterp spec fn request_header_bytes(
    key: i16,
    version: i16,
    correlation_id: i32,
    client_id: Seq<char>,
    header_version: i16,
) -> Option<Seq<u8>>;

/// The correlation id that a response header encoded at `header_version`
/// at the start of `b` holds, and the header's length.
pub uninterp spec fn response_header_of(b: Seq<u8>, header_version: i16) -> Option<(i32, usize)>;

/// Relies on `Encodable::encode` of kafka_protocol's `RequestHeader`.
#[verifier::external_body]
pub(crate) fn encode_request_header(
    key: i16,
    version: i16,
    correlation_id: i32,
    client_id: &String,
    header_version: i16,
) -> (r: Option<Vec<u8>>)
    ensures
        bytes_view(r) == request_header_bytes(
            key,
            version,
            correlation_id,
            client_id@,
            header_version,
        ),
{
    let mut h = km::RequestHeader::default();
    h.request_api_key = key;
    h.request_api_version = version;
    h.correlation_id = correlation_id;
    h.client_id = Some(to_kafka_str(client_id));
    encoded(&h, header_version)
}

/// Relies on `Decodable::decode` of kafka_protocol's `ResponseHeader`: it
/// reads the header from the start of the bytes and leaves the rest.
#[verifier::external_body]
pub(crate) fn decode_response_header(b: &Vec<u8>, header_version: i16) -> (r: Option<(i32, usize)>)
    ensures
        r == response_header_of(b@, header_version),
        r matches Some(h) ==> h.1 <= b@.len(),
{
    let mut buf = bytes::Bytes::copy_from_slice(b);
    let h = km::ResponseHeader::decode(&mut buf, header_version).ok()?;
    Some((h.correlation_id, b.len() - buf.len()))
}

} // verus!

verus! {

/// The encoding of each request body at a version.
pub uninterp spec fn api_versions_request_bytes(m: ApiVersionsRequest, version: i16) -> Option<Seq<u8>>;

pub uninterp spec fn metadata_request_bytes(m: MetadataRequest, version: i16) -> Option<Seq<u8>>;

pub uninterp spec fn find_coordinator_request_bytes(m: FindCoordinatorRequest, version: i16) -> Option<Seq<u8>>;

pub uninterp spec fn join_group_request_bytes(m: JoinGroupRequest, version: i16) -> Option<Seq<u8>>;

pub uninterp spec fn sync_group_request_bytes(m: SyncGroupRequest, version: i16) -> Option<Seq<u8>>;

pub uninterp spec fn heartbeat_request_bytes(m: HeartbeatRequest, version: i16) -> Option<Seq<u8>>;

pub uninterp spec fn offset_fetch_request_bytes(m: OffsetFetchRequest, version: i16) -> Option<Seq<u8>>;

pub uninterp spec fn list_offsets_request_bytes(m: ListOffsetsRequest, version: i16) -> Option<Seq<u8>>;

pub uninterp spec fn fetch_request_bytes(m: FetchRequest, version: i16) -> Option<Seq<u8>>;

pub uninterp spec fn offset_commit_request_bytes(m: OffsetCommitRequest, version: i16) -> Option<Seq<u8>>;

pub uninterp spec fn leave_group_request_bytes(m: LeaveGroupRequest, version: i16) -> Option<Seq<u8>>;

pub uninterp spec fn init_producer_id_request_bytes(m: InitProducerIdRequest, version: i16) -> Option<Seq<u8>>;

pub uninterp spec fn produce_request_bytes(m: ProduceRequest, version: i16) -> Option<Seq<u8>>;

/// Relies on `Encodable::encode` of kafka_protocol's `ApiVersionsRequest`.
#[verifier::external_body]
pub(crate) fn encode_api_versions_request(m: &ApiVersionsRequest, version: i16) -> (r: Option<Vec<u8>>)
    ensures
        bytes_view(r) == api_versions_request_bytes(*m, version),
{
    let mut k = km::ApiVersionsRequest::default();
    k.client_software_name = to_kafka_str(&m.client_software_name);
    k.client_software_version = to_kafka_str(&m.client_software_version);
    encoded(&k, version)
}

/// Relies on `Encodable::encode` of kafka_protocol's `MetadataRequest`.
#[verifier::external_body]
pub(crate) fn encode_metadata_request(m: &MetadataRequest, version: i16) -> (r: Option<Vec<u8>>)
    ensures
        bytes_view(r) == metadata_request_bytes(*m, version),
{
    let mut k = km::MetadataRequest::default();
    k.topics = Some(m.topics.iter().map(|t| {
        let mut x = km::metadata_request::MetadataRequestTopic::default();
        x.topic_id = uuid::Uuid::from_u128(t.topic_id);
        x.name = Some(km::TopicName(to_kafka_str(&t.name)));
        x
    }).collect());
    encoded(&k, version)
}

/// Relies on `Encodable::encode` of kafka_protocol's `FindCoordinatorRequest`.
#[verifier::external_body]
pub(crate) fn encode_find_coordinator_request(m: &FindCoordinatorRequest, version: i16) -> (r: Option<Vec<u8>>)
    ensures
        bytes_view(r) == find_coordinator_request_bytes(*m, version),
{
    let mut k = km::FindCoordinatorRequest::default();
    k.coordinator_keys = m.coordinator_keys.iter().map(to_kafka_str).collect();
    encoded(&k, version)
}

/// Relies on `Encodable::encode` of kafka_protocol's `JoinGroupRequest`.
#[verifier::external_body]
pub(crate) fn encode_join_group_request(m: &JoinGroupRequest, version: i16) -> (r: Option<Vec<u8>>)
    ensures
        bytes_view(r) == join_group_request_bytes(*m, version),
{
    let mut k = km::JoinGroupRequest::default();
    k.group_id = km::GroupId(to_kafka_str(&m.group_id));
    k.session_timeout_ms = m.session_timeout_ms;
    k.rebalance_timeout_ms = m.rebalance_timeout_ms;
    k.member_id = to_kafka_str(&m.member_id);
    k.protocol_type = to_kafka_str(&m.protocol_type);
    k.reason = m.reason.as_ref().map(to_kafka_str);
    k.protocols = m.protocols.iter().map(|p| {
        let mut x = km::join_group_request::JoinGroupRequestProtocol::default();
        x.metadata = bytes::Bytes::from(p.metadata.clone());
        (to_kafka_str(&p.name), x)
    }).collect();
    encoded(&k, version)
}

/// Relies on `Encodable::encode` of kafka_protocol's `SyncGroupRequest`.
#[verifier::external_body]
pub(crate) fn encode_sync_group_request(m: &SyncGroupRequest, version: i16) -> (r: Option<Vec<u8>>)
    ensures
        bytes_view(r) == sync_group_request_bytes(*m, version),
{
    let mut k = km::SyncGroupRequest::default();
    k.group_id = km::GroupId(to_kafka_str(&m.group_id));
    k.generation_id = m.generation_id;
    k.member_id = to_kafka_str(&m.member_id);
    k.protocol_type = m.protocol_type.as_ref().map(to_kafka_str);
    k.protocol_name = m.protocol_name.as_ref().map(to_kafka_str);
    k.assignments = m.assignments.iter().map(|a| {
        let mut x = km::sync_group_request::SyncGroupRequestAssignment::default();
        x.member_id = to_kafka_str(&a.member_id);
        x.assignment = bytes::Bytes::from(a.assignment.clone());
        x
    }).collect();
    encoded(&k, version)
}

/// Relies on `Encodable::encode` of kafka_protocol's `HeartbeatRequest`.
#[verifier::external_body]
pub(crate) fn encode_heartbeat_request(m: &HeartbeatRequest, version: i16) -> (r: Option<Vec<u8>>)
    ensures
        bytes_view(r) == heartbeat_request_bytes(*m, version),
{
    let mut k = km::HeartbeatRequest::default();
    k.group_id = km::GroupId(to_kafka_str(&m.group_id));
    k.generation_id = m.generation_id;
    k.member_id = to_kafka_str(&m.member_id);
    encoded(&k, version)
}

/// Relies on `Encodable::encode` of kafka_protocol's `OffsetFetchRequest`;
/// the request asks for one group.
#[verifier::external_body]
pub(crate) fn encode_offset_fetch_request(m: &OffsetFetchRequest, version: i16) -> (r: Option<Vec<u8>>)
    ensures
        bytes_view(r) == offset_fetch_request_bytes(*m, version),
{
    let mut group = km::offset_fetch_request::OffsetFetchRequestGroup::default();
    group.group_id = km::GroupId(to_kafka_str(&m.group_id));
    group.topics = Some(m.topics.iter().map(|t| {
        let mut x = km::offset_fetch_request::OffsetFetchRequestTopics::default();
        x.name = km::TopicName(to_kafka_str(&t.name));
        x.partition_indexes = t.partition_indexes.clone();
        x
    }).collect());
    let mut k = km::OffsetFetchRequest::default();
    k.groups = vec![group];
    encoded(&k, version)
}

/// Relies on `Encodable::encode` of kafka_protocol's `ListOffsetsRequest`.
#[verifier::external_body]
pub(crate) fn encode_list_offsets_request(m: &ListOffsetsRequest, version: i16) -> (r: Option<Vec<u8>>)
    ensures
        bytes_view(r) == list_offsets_request_bytes(*m, version),
{
    let mut k = km::ListOffsetsRequest::default();
    k.replica_id = km::BrokerId(m.replica_id);
    k.isolation_level = m.isolation_level;
    k.topics = m.topics.iter().map(|t| {
        let mut x = km::list_offsets_request::ListOffsetsTopic::default();
        x.name = km::TopicName(to_kafka_str(&t.name));
        x.partitions = t.partitions.iter().map(|p| {
            let mut y = km::list_offsets_request::ListOffsetsPartition::default();
            y.partition_index = p.partition_index;
            y.timestamp = p.timestamp;
            y
        }).collect();
        x
    }).collect();
    encoded(&k, version)
}

#[verifier::external_type_specification]
#[verifier::external_body]
pub struct ExFetchPartition(km::fetch_request::FetchPartition);

/// A partition to fetch, as the protocol's, field for field.
#[verifier::external_body]
fn fetch_partition_into(p: &PartitionFetch) -> km::fetch_request::FetchPartition {
    let mut y = km::fetch_request::FetchPartition::default();
    (y.partition, y.fetch_offset) = (p.partition, p.fetch_offset);
    (y.current_leader_epoch, y.last_fetched_epoch) = (p.current_leader_epoch, p.last_fetched_epoch);
    y.partition_max_bytes = p.partition_max_bytes;
    y
}

/// Relies on `Encodable::encode` of kafka_protocol's `FetchRequest`.
#[verifier::external_body]
pub(crate) fn encode_fetch_request(m: &FetchRequest, version: i16) -> (r: Option<Vec<u8>>)
    ensures
        bytes_view(r) == fetch_request_bytes(*m, version),
{
    let mut k = km::FetchRequest::default();
    k.replica_id = km::BrokerId(m.replica_id);
    (k.max_wait_ms, k.min_bytes, k.max_bytes) = (m.max_wait_ms, m.min_bytes, m.max_bytes);
    k.cluster_id = m.cluster_id.as_ref().map(to_kafka_str);
    k.topics = m.topics.iter().map(|t| {
        let mut x = km::fetch_request::FetchTopic::default();
        x.topic = km::TopicName(to_kafka_str(&t.topic));
        x.topic_id = uuid::Uuid::from_u128(t.topic_id);
        x.partitions = t.partitions.iter().map(fetch_partition_into).collect();
        x
    }).collect();
    encoded(&k, version)
}

/// Relies on `Encodable::encode` of kafka_protocol's `OffsetCommitRequest`.
#[verifier::external_body]
pub(crate) fn encode_offset_commit_request(m: &OffsetCommitRequest, version: i16) -> (r: Option<Vec<u8>>)
    ensures
        bytes_view(r) == offset_commit_request_bytes(*m, version),
{
    let mut k = km::OffsetCommitRequest::default();
    (k.group_id, k.member_id) = (km::GroupId(to_kafka_str(&m.group_id)), to_kafka_str(&m.member_id));
    k.generation_id = m.generation_id_or_member_epoch;
    k.topics = m.topics.iter().map(|t| {
        let mut x = km::offset_commit_request::OffsetCommitRequestTopic::default();
        x.name = km::TopicName(to_kafka_str(&t.name));
        x.partitions = t.partitions.iter().map(|p| {
            let mut y = km::offset_commit_request::OffsetCommitRequestPartition::default();
            (y.partition_index, y.committed_offset, y.committed_leader_epoch) =
                (p.partition_index, p.committed_offset, p.committed_leader_epoch);
            y
        }).collect();
        x
    }).collect();
    encoded(&k, version)
}

/// Relies on `Encodable::encode` of kafka_protocol's `LeaveGroupRequest`.
#[verifier::external_body]
pub(crate) fn encode_leave_group_request(m: &LeaveGroupRequest, version: i16) -> (r: Option<Vec<u8>>)
    ensures
        bytes_view(r) == leave_group_request_bytes(*m, version),
{
    let mut k = km::LeaveGroupRequest::default();
    k.group_id = km::GroupId(to_kafka_str(&m.group_id));
    k.members = m.members.iter().map(|member| {
        let mut x = km::leave_group_request::MemberIdentity::default();
        x.member_id = to_kafka_str(&member.member_id);
        x.reason = member.reason.as_ref().map(to_kafka_str);
        x
    }).collect();
    encoded(&k, version)
}

/// Relies on `Encodable::encode` of kafka_protocol's `InitProducerIdRequest`.
#[verifier::external_body]
pub(crate) fn encode_init_producer_id_request(m: &InitProducerIdRequest, version: i16) -> (r: Option<Vec<u8>>)
    ensures
        bytes_view(r) == init_producer_id_request_bytes(*m, version),
{
    let mut k = km::InitProducerIdRequest::default();
    k.transactional_id = m.transactional_id.as_ref().map(|t| km::TransactionalId(to_kafka_str(t)));
    k.transaction_timeout_ms = m.transaction_timeout_ms;
    encoded(&k, version)
}

/// Relies on `Encodable::encode` of kafka_protocol's `ProduceRequest`; each
/// partition's records travel as the batch already encoded.
#[verifier::external_body]
pub(crate) fn encode_produce_request(m: &ProduceRequest, version: i16) -> (r: Option<Vec<u8>>)
    ensures
        bytes_view(r) == produce_request_bytes(*m, version),
{
    let mut k = km::ProduceRequest::default();
    (k.acks, k.timeout_ms) = (m.acks, m.timeout_ms);
    k.transactional_id = m.transactional_id.as_ref().map(|t| km::TransactionalId(to_kafka_str(t)));
    k.topic_data = m.topic_data.iter().map(|t| {
        let mut x = km::produce_request::TopicProduceData::default();
        x.partition_data = t.partition_data.iter().map(|p| {
            let mut y = km::produce_request::PartitionProduceData::default();
            (y.index, y.records) = (p.index, Some(bytes::Bytes::from(p.batch.clone())));
            y
        }).collect();
        (km::TopicName(to_kafka_str(&t.name)), x)
    }).collect();
    encoded(&k, version)
}

} // verus!

verus! {

/// What each response body decodes to at a version.
pub uninterp spec fn api_versions_response_of(b: Seq<u8>, version: i16) -> Option<ApiVersionsResponse>;

pub uninterp spec fn metadata_response_of(b: Seq<u8>, version: i16) -> Option<MetadataResponse>;

pub uninterp spec fn find_coordinator_response_of(b: Seq<u8>, version: i16) -> Option<FindCoordinatorResponse>;

pub uninterp spec fn join_group_response_of(b: Seq<u8>, version: i16) -> Option<JoinGroupResponse>;

pub uninterp spec fn sync_group_response_of(b: Seq<u8>, version: i16) -> Option<SyncGroupResponse>;

pub uninterp spec fn offset_fetch_response_of(b: Seq<u8>, version: i16) -> Option<OffsetFetchResponse>;

pub uninterp spec fn list_offsets_response_of(b: Seq<u8>, version: i16) -> Option<ListOffsetsResponse>;

pub uninterp spec fn fetch_response_of(b: Seq<u8>, version: i16) -> Option<FetchResponse>;

pub uninterp spec fn leave_group_response_of(b: Seq<u8>, version: i16) -> Option<LeaveGroupResponse>;

pub uninterp spec fn init_producer_id_response_of(b: Seq<u8>, version: i16) -> Option<InitProducerIdResponse>;

/// Relies on `Decodable::decode` of kafka_protocol's `ApiVersionsResponse`.
#[verifier::external_body]
pub(crate) fn decode_api_versions_response(b: &Vec<u8>, version: i16) -> (r: Option<ApiVersionsResponse>)
    ensures
        r == api_versions_response_of(b@, version),
{
    let k: km::ApiVersionsResponse = decoded(b, version)?;
    let api_keys = k.api_keys.iter().map(|(key, v)| ApiVersionRange {
        api_key: *key, min_version: v.min_version, max_version: v.max_version }).collect();
    Some(ApiVersionsResponse { error_code: k.error_code, api_keys })
}

#[verifier::external_type_specification]
#[verifier::external_body]
pub struct ExTopicName(km::TopicName);

#[verifier::external_type_specification]
#[verifier::external_body]
pub struct ExMetadataResponseTopic(km::metadata_response::MetadataResponseTopic);

/// A described topic as one of this library's, field for field.
#[verifier::external_body]
fn topic_from(n: &km::TopicName, t: &km::metadata_response::MetadataResponseTopic) -> Topic {
    let partitions = t.partitions.iter().map(|p| Partition {
        index: p.partition_index, leader_id: p.leader_id.0 }).collect();
    Topic { id: t.topic_id.as_u128(), name: n.0.to_string(), partitions }
}

/// Relies on `Decodable::decode` of kafka_protocol's `MetadataResponse`.
#[verifier::external_body]
pub(crate) fn decode_metadata_response(b: &Vec<u8>, version: i16) -> (r: Option<MetadataResponse>)
    ensures
        r == metadata_response_of(b@, version),
{
    let k: km::MetadataResponse = decoded(b, version)?;
    let brokers = k.brokers.iter().map(|(id, x)| Broker {
        id: id.0, host: x.host.to_string(), port: x.port }).collect();
    let topics = k.topics.iter().map(|(n, t)| topic_from(n, t)).collect();
    let cluster_id = k.cluster_id.map(|c| c.to_string());
    Some(MetadataResponse { cluster_id, controller_id: k.controller_id.0, brokers, topics })
}

/// Relies on `Decodable::decode` of kafka_protocol's `FindCoordinatorResponse`.
#[verifier::external_body]
pub(crate) fn decode_find_coordinator_response(b: &Vec<u8>, version: i16) -> (r: Option<FindCoordinatorResponse>)
    ensures
        r == find_coordinator_response_of(b@, version),
{
    let k: km::FindCoordinatorResponse = decoded(b, version)?;
    let coordinators = k.coordinators.iter().map(|c| Coordinator { group: c.key.to_string(),
        node_id: c.node_id.0, host: c.host.to_string(), port: c.port }).collect();
    Some(FindCoordinatorResponse { error_code: k.error_code, coordinators })
}

/// Relies on `Decodable::decode` of kafka_protocol's `JoinGroupResponse`.
#[verifier::external_body]
pub(crate) fn decode_join_group_response(b: &Vec<u8>, version: i16) -> (r: Option<JoinGroupResponse>)
    ensures
        r == join_group_response_of(b@, version),
{
    let k: km::JoinGroupResponse = decoded(b, version)?;
    let members = k.members.iter().map(|m| SubscriptionMember {
        member_id: m.member_id.to_string(), metadata: m.metadata.to_vec() }).collect();
    Some(JoinGroupResponse { error_code: k.error_code, generation_id: k.generation_id,
        leader: k.leader.to_string(), member_id: k.member_id.to_string(), members })
}

/// Relies on `Decodable::decode` of kafka_protocol's `SyncGroupResponse`.
#[verifier::external_body]
pub(crate) fn decode_sync_group_response(b: &Vec<u8>, version: i16) -> (r: Option<SyncGroupResponse>)
    ensures
        r == sync_group_response_of(b@, version),
{
    let k: km::SyncGroupResponse = decoded(b, version)?;
    Some(SyncGroupResponse { error_code: k.error_code })
}

/// Relies on `Decodable::decode` of kafka_protocol's `OffsetFetchResponse`:
/// the topics of all its groups, in order.
#[verifier::external_body]
pub(crate) fn decode_offset_fetch_response(b: &Vec<u8>, version: i16) -> (r: Option<OffsetFetchResponse>)
    ensures
        r == offset_fetch_response_of(b@, version),
{
    let k: km::OffsetFetchResponse = decoded(b, version)?;
    let topics = k.groups.iter().flat_map(|g| g.topics.iter()).map(|t| OffsetFetchTopic {
        name: t.name.0.to_string(),
        partitions: t.partitions.iter().map(|p| CommittedOffset {
            partition_index: p.partition_index, committed_offset: p.committed_offset }).collect(),
    }).collect();
    Some(OffsetFetchResponse { error_code: k.error_code, topics })
}

/// Relies on `Decodable::decode` of kafka_protocol's `ListOffsetsResponse`:
/// the partitions of all its topics, in order.
#[verifier::external_body]
pub(crate) fn decode_list_offsets_response(b: &Vec<u8>, version: i16) -> (r: Option<ListOffsetsResponse>)
    ensures
        r == list_offsets_response_of(b@, version),
{
    let k: km::ListOffsetsResponse = decoded(b, version)?;
    let partitions = k.topics.iter().flat_map(|t| t.partitions.iter().map(move |p| ListedOffset {
        topic: t.name.0.to_string(), partition_index: p.partition_index, offset: p.offset })).collect();
    Some(ListOffsetsResponse { partitions })
}

/// Relies on `Decodable::decode` of kafka_protocol's `FetchResponse`: the
/// partitions of all its topics, in order, with their record bytes.
#[verifier::external_body]
pub(crate) fn decode_fetch_response(b: &Vec<u8>, version: i16) -> (r: Option<FetchResponse>)
    ensures
        r == fetch_response_of(b@, version),
{
    let k: km::FetchResponse = decoded(b, version)?;
    let partitions = k.responses.iter().flat_map(|t| t.partitions.iter().map(move |p| FetchedPartition {
        topic_id: t.topic_id.as_u128(), partition_index: p.partition_index,
        error_code: p.error_code, records: p.records.as_ref().map(|r| r.to_vec()) })).collect();
    Some(FetchResponse { error_code: k.error_code, partitions })
}

/// Relies on `Decodable::decode` of kafka_protocol's `LeaveGroupResponse`.
#[verifier::external_body]
pub(crate) fn decode_leave_group_response(b: &Vec<u8>, version: i16) -> (r: Option<LeaveGroupResponse>)
    ensures
        r == leave_group_response_of(b@, version),
{
    let k: km::LeaveGroupResponse = decoded(b, version)?;
    Some(LeaveGroupResponse { error_code: k.error_code })
}

/// Relies on `Decodable::decode` of kafka_protocol's `InitProducerIdResponse`.
#[verifier::external_body]
pub(crate) fn decode_init_producer_id_response(b: &Vec<u8>, version: i16) -> (r: Option<InitProducerIdResponse>)
    ensures
        r == init_producer_id_response_of(b@, version),
{
    let k: km::InitProducerIdResponse = decoded(b, version)?;
    Some(InitProducerIdResponse { error_code: k.error_code, producer_id: k.producer_id.0 })
}

} // verus!
