use vstd::prelude::*;

use crate::cluster::{
    ApiVersionsRequest, ApiVersionsResponse, InitProducerIdRequest, InitProducerIdResponse,
    MetadataRequest, MetadataResponse,
};
use crate::errors::ProtocolError;
use crate::fetch::{FetchRequest, FetchResponse};
use crate::group::{
    FindCoordinatorRequest, FindCoordinatorResponse, HeartbeatRequest, JoinGroupRequest,
    JoinGroupResponse, LeaveGroupRequest, LeaveGroupResponse, SyncGroupRequest, SyncGroupResponse,
};
use crate::offsets::{ListOffsetsRequest, ListOffsetsResponse, OffsetCommitRequest, OffsetFetchRequest, OffsetFetchResponse};
use crate::produce::ProduceRequest;
use crate::state::{find_version, first_version_at, has_version, ApiVersionRange, CallState};
use crate::records::bytes_view;
use crate::wire;

verus! {

/// The APIs that a session speaks.
#[derive(Clone, Copy, Debug, PartialEq, Eq, Structural)]
pub enum ApiKey {
    Produce,
    Fetch,
    ListOffsets,
    Metadata,
    OffsetCommit,
    OffsetFetch,
    FindCoordinator,
    JoinGroup,
    Heartbeat,
    LeaveGroup,
    SyncGroup,
    ApiVersions,
    InitProducerId,
}

impl ApiKey {
    /// The number that identifies the API on the wire.
    pub open spec fn key_number(self) -> i16 {
        match self {
            ApiKey::Produce => 0,
            ApiKey::Fetch => 1,
            ApiKey::ListOffsets => 2,
            ApiKey::Metadata => 3,
            ApiKey::OffsetCommit => 8,
            ApiKey::OffsetFetch => 9,
            ApiKey::FindCoordinator => 10,
            ApiKey::JoinGroup => 11,
            ApiKey::Heartbeat => 12,
            ApiKey::LeaveGroup => 13,
            ApiKey::SyncGroup => 14,
            ApiKey::ApiVersions => 18,
            ApiKey::InitProducerId => 22,
        }
    }

    /// The largest version of the API's request that the message codec can encode.
    pub open spec fn own_max_version(self) -> i16 {
        match self {
            ApiKey::Produce => 9,
            ApiKey::Fetch => 13,
            ApiKey::ListOffsets => 7,
            ApiKey::Metadata => 12,
            ApiKey::OffsetCommit => 8,
            ApiKey::OffsetFetch => 8,
            ApiKey::FindCoordinator => 4,
            ApiKey::JoinGroup => 9,
            ApiKey::Heartbeat => 4,
            ApiKey::LeaveGroup => 5,
            ApiKey::SyncGroup => 5,
            ApiKey::ApiVersions => 3,
            ApiKey::InitProducerId => 4,
        }
    }

    /// The API's key on the wire and the largest version of its request
    /// that the message codec can encode.
    fn codec_identity(&self) -> (r: (i16, i16))
        ensures
            r == (self.key_number(), self.own_max_version()),
    {
        match self {
            ApiKey::Produce => wire::produce_api(),
            ApiKey::Fetch => wire::fetch_api(),
            ApiKey::ListOffsets => wire::list_offsets_api(),
            ApiKey::Metadata => wire::metadata_api(),
            ApiKey::OffsetCommit => wire::offset_commit_api(),
            ApiKey::OffsetFetch => wire::offset_fetch_api(),
            ApiKey::FindCoordinator => wire::find_coordinator_api(),
            ApiKey::JoinGroup => wire::join_group_api(),
            ApiKey::Heartbeat => wire::heartbeat_api(),
            ApiKey::LeaveGroup => wire::leave_group_api(),
            ApiKey::SyncGroup => wire::sync_group_api(),
            ApiKey::ApiVersions => wire::api_versions_api(),
            ApiKey::InitProducerId => wire::init_producer_id_api(),
        }
    }

    pub fn number(&self) -> (r: i16)
        ensures
            r == self.key_number(),
    {
        self.codec_identity().0
    }

    pub fn request_max_version(&self) -> (r: i16)
        ensures
            r == self.own_max_version(),
    {
        self.codec_identity().1
    }

    /// The codec for this API: ApiVersions, which comes first, uses its own
    /// largest version; every other API negotiates against the broker's
    /// advertised versions.
    pub fn new_ser_de(&self, call_state: &CallState) -> (r: Result<SerDe, ProtocolError>)
        ensures
            *self == ApiKey::ApiVersions ==> r == Ok::<SerDe, ProtocolError>(
                SerDe { api_key: *self, used_version: self.own_max_version() },
            ),
            *self != ApiKey::ApiVersions ==> r == negotiated_ser_de(
                *self,
                call_state.broker_api_versions@,
            ),
    {
        match self {
            ApiKey::ApiVersions => SerDe::new(*self, None),
            _ => SerDe::new(*self, Some(call_state)),
        }
    }
}

pub open spec fn min_i16(a: i16, b: i16) -> i16 {
    if a <= b {
        a
    } else {
        b
    }
}

/// The version to use for `api`: the smaller of the codec's largest one
/// and the largest that the broker advertises for the key; none where the
/// broker advertises nothing for it.
pub open spec fn negotiated_version(api: ApiKey, versions: Seq<ApiVersionRange>) -> Option<i16> {
    if has_version(versions, api.key_number()) {
        let i = choose|i: int| first_version_at(versions, api.key_number(), i);
        Some(min_i16(api.own_max_version(), versions[i].max_version))
    } else {
        None
    }
}

pub open spec fn negotiated_ser_de(api: ApiKey, versions: Seq<ApiVersionRange>) -> Result<
    SerDe,
    ProtocolError,
> {
    match negotiated_version(api, versions) {
        Some(v) => Ok(SerDe { api_key: api, used_version: v }),
        None => Err(ProtocolError::UnknownApiKey { key: api.key_number() }),
    }
}

/// Encodes requests and decodes responses of one API at one negotiated version.
#[derive(Clone, Copy, Debug, PartialEq, Eq, Structural)]
pub struct SerDe {
    pub api_key: ApiKey,
    pub used_version: i16,
}

proof fn lemma_first_version_exists(s: Seq<ApiVersionRange>, key: i16, i: int)
    requires
        0 <= i < s.len(),
        s[i].api_key == key,
    ensures
        exists|j: int| first_version_at(s, key, j),
    decreases i,
{
    if exists|j: int| 0 <= j < i && s[j].api_key == key {
        let j = choose|j: int| 0 <= j < i && s[j].api_key == key;
        lemma_first_version_exists(s, key, j);
    } else {
        assert(first_version_at(s, key, i));
    }
}

impl SerDe {
    pub fn new(api_key: ApiKey, state_for_version: Option<&CallState>) -> (r: Result<Self, ProtocolError>)
        ensures
            match state_for_version {
                None => r == Ok::<SerDe, ProtocolError>(
                    SerDe { api_key, used_version: api_key.own_max_version() },
                ),
                Some(st) => r == negotiated_ser_de(api_key, st.broker_api_versions@),
            },
    {
        let own = api_key.request_max_version();
        match state_for_version {
            None => Ok(SerDe { api_key, used_version: own }),
            Some(call_state) => {
                let key = api_key.number();
                match find_version(&call_state.broker_api_versions, key) {
                    Some(i) => {
                        proof {
                            let s = call_state.broker_api_versions@;
                            lemma_first_version_exists(s, key, i as int);
                            let c = choose|c: int| first_version_at(s, key, c);
                            assert(c == i);
                        }
                        let broker_max = call_state.broker_api_versions[i].max_version;
                        let used_version = if own <= broker_max {
                            own
                        } else {
                            broker_max
                        };
                        Ok(SerDe { api_key, used_version })
                    },
                    None => Err(ProtocolError::UnknownApiKey { key }),
                }
            },
        }
    }
}

/// Version negotiation: where the broker advertises the range `[lo, hi]`
/// first for the API's key, the negotiated version is the smaller of the
/// codec's largest version and `hi`; where it advertises nothing for the
/// key, making the codec fails.
pub proof fn lemma_negotiation(api: ApiKey, versions: Seq<ApiVersionRange>, i: int, lo: i16, hi: i16)
    requires
        first_version_at(versions, api.key_number(), i),
        versions[i].min_version == lo,
        versions[i].max_version == hi,
    ensures
        negotiated_version(api, versions) == Some(min_i16(api.own_max_version(), hi)),
{
    let c = choose|c: int| first_version_at(versions, api.key_number(), c);
    assert(c == i);
}

/// Making the codec for a key that the broker does not advertise fails.
pub proof fn lemma_negotiation_unknown_key(api: ApiKey, versions: Seq<ApiVersionRange>)
    requires
        !has_version(versions, api.key_number()),
    ensures
        negotiated_ser_de(api, versions) == Err::<SerDe, ProtocolError>(
            ProtocolError::UnknownApiKey { key: api.key_number() },
        ),
{
}

} // verus!

verus! {

/// The body of a request, one variant per API.
pub enum RequestBody {
    ApiVersions(ApiVersionsRequest),
    Metadata(MetadataRequest),
    FindCoordinator(FindCoordinatorRequest),
    JoinGroup(JoinGroupRequest),
    SyncGroup(SyncGroupRequest),
    Heartbeat(HeartbeatRequest),
    OffsetFetch(OffsetFetchRequest),
    ListOffsets(ListOffsetsRequest),
    Fetch(FetchRequest),
    OffsetCommit(OffsetCommitRequest),
    LeaveGroup(LeaveGroupRequest),
    InitProducerId(InitProducerIdRequest),
    Produce(ProduceRequest),
}

/// The body of a response, one variant per API whose response is read;
/// the others are taken as they come.
pub enum ResponseBody {
    ApiVersions(ApiVersionsResponse),
    Metadata(MetadataResponse),
    FindCoordinator(FindCoordinatorResponse),
    JoinGroup(JoinGroupResponse),
    SyncGroup(SyncGroupResponse),
    OffsetFetch(OffsetFetchResponse),
    ListOffsets(ListOffsetsResponse),
    Fetch(FetchResponse),
    LeaveGroup(LeaveGroupResponse),
    InitProducerId(InitProducerIdResponse),
    NotInspected,
}

impl RequestBody {
    pub open spec fn api(&self) -> ApiKey {
        match self {
            RequestBody::ApiVersions(_) => ApiKey::ApiVersions,
            RequestBody::Metadata(_) => ApiKey::Metadata,
            RequestBody::FindCoordinator(_) => ApiKey::FindCoordinator,
            RequestBody::JoinGroup(_) => ApiKey::JoinGroup,
            RequestBody::SyncGroup(_) => ApiKey::SyncGroup,
            RequestBody::Heartbeat(_) => ApiKey::Heartbeat,
            RequestBody::OffsetFetch(_) => ApiKey::OffsetFetch,
            RequestBody::ListOffsets(_) => ApiKey::ListOffsets,
            RequestBody::Fetch(_) => ApiKey::Fetch,
            RequestBody::OffsetCommit(_) => ApiKey::OffsetCommit,
            RequestBody::LeaveGroup(_) => ApiKey::LeaveGroup,
            RequestBody::InitProducerId(_) => ApiKey::InitProducerId,
            RequestBody::Produce(_) => ApiKey::Produce,
        }
    }

    /// The encoding of the body at `version`, or none where it cannot be encoded.
    pub open spec fn bytes(&self, version: i16) -> Option<Seq<u8>> {
        match self {
            RequestBody::ApiVersions(m) => wire::api_versions_request_bytes(*m, version),
            RequestBody::Metadata(m) => wire::metadata_request_bytes(*m, version),
            RequestBody::FindCoordinator(m) => wire::find_coordinator_request_bytes(*m, version),
            RequestBody::JoinGroup(m) => wire::join_group_request_bytes(*m, version),
            RequestBody::SyncGroup(m) => wire::sync_group_request_bytes(*m, version),
            RequestBody::Heartbeat(m) => wire::heartbeat_request_bytes(*m, version),
            RequestBody::OffsetFetch(m) => wire::offset_fetch_request_bytes(*m, version),
            RequestBody::ListOffsets(m) => wire::list_offsets_request_bytes(*m, version),
            RequestBody::Fetch(m) => wire::fetch_request_bytes(*m, version),
            RequestBody::OffsetCommit(m) => wire::offset_commit_request_bytes(*m, version),
            RequestBody::LeaveGroup(m) => wire::leave_group_request_bytes(*m, version),
            RequestBody::InitProducerId(m) => wire::init_producer_id_request_bytes(*m, version),
            RequestBody::Produce(m) => wire::produce_request_bytes(*m, version),
        }
    }

    pub fn encode(&self, version: i16) -> (r: Option<Vec<u8>>)
        ensures
            bytes_view(r) == self.bytes(version),
    {
        match self {
            RequestBody::ApiVersions(m) => wire::encode_api_versions_request(m, version),
            RequestBody::Metadata(m) => wire::encode_metadata_request(m, version),
            RequestBody::FindCoordinator(m) => wire::encode_find_coordinator_request(m, version),
            RequestBody::JoinGroup(m) => wire::encode_join_group_request(m, version),
            RequestBody::SyncGroup(m) => wire::encode_sync_group_request(m, version),
            RequestBody::Heartbeat(m) => wire::encode_heartbeat_request(m, version),
            RequestBody::OffsetFetch(m) => wire::encode_offset_fetch_request(m, version),
            RequestBody::ListOffsets(m) => wire::encode_list_offsets_request(m, version),
            RequestBody::Fetch(m) => wire::encode_fetch_request(m, version),
            RequestBody::OffsetCommit(m) => wire::encode_offset_commit_request(m, version),
            RequestBody::LeaveGroup(m) => wire::encode_leave_group_request(m, version),
            RequestBody::InitProducerId(m) => wire::encode_init_producer_id_request(m, version),
            RequestBody::Produce(m) => wire::encode_produce_request(m, version),
        }
    }
}

/// What the body `b` of a response of `api` decodes to at `version`, or
/// none where it does not decode; the responses that are not read need no
/// decoding.
pub open spec fn response_body_of(api: ApiKey, b: Seq<u8>, version: i16) -> Option<ResponseBody> {
    match api {
        ApiKey::ApiVersions => match wire::api_versions_response_of(b, version) {
            Some(m) => Some(ResponseBody::ApiVersions(m)),
            None => None,
        },
        ApiKey::Metadata => match wire::metadata_response_of(b, version) {
            Some(m) => Some(ResponseBody::Metadata(m)),
            None => None,
        },
        ApiKey::FindCoordinator => match wire::find_coordinator_response_of(b, version) {
            Some(m) => Some(ResponseBody::FindCoordinator(m)),
            None => None,
        },
        ApiKey::JoinGroup => match wire::join_group_response_of(b, version) {
            Some(m) => Some(ResponseBody::JoinGroup(m)),
            None => None,
        },
        ApiKey::SyncGroup => match wire::sync_group_response_of(b, version) {
            Some(m) => Some(ResponseBody::SyncGroup(m)),
            None => None,
        },
        ApiKey::OffsetFetch => match wire::offset_fetch_response_of(b, version) {
            Some(m) => Some(ResponseBody::OffsetFetch(m)),
            None => None,
        },
        ApiKey::ListOffsets => match wire::list_offsets_response_of(b, version) {
            Some(m) => Some(ResponseBody::ListOffsets(m)),
            None => None,
        },
        ApiKey::Fetch => match wire::fetch_response_of(b, version) {
            Some(m) => Some(ResponseBody::Fetch(m)),
            None => None,
        },
        ApiKey::LeaveGroup => match wire::leave_group_response_of(b, version) {
            Some(m) => Some(ResponseBody::LeaveGroup(m)),
            None => None,
        },
        ApiKey::InitProducerId => match wire::init_producer_id_response_of(b, version) {
            Some(m) => Some(ResponseBody::InitProducerId(m)),
            None => None,
        },
        _ => Some(ResponseBody::NotInspected),
    }
}

pub fn decode_response_body(api: ApiKey, b: &Vec<u8>, version: i16) -> (r: Option<ResponseBody>)
    ensures
        r == response_body_of(api, b@, version),
{
    match api {
        ApiKey::ApiVersions => match wire::decode_api_versions_response(b, version) {
            Some(m) => Some(ResponseBody::ApiVersions(m)),
            None => None,
        },
        ApiKey::Metadata => match wire::decode_metadata_response(b, version) {
            Some(m) => Some(ResponseBody::Metadata(m)),
            None => None,
        },
        ApiKey::FindCoordinator => match wire::decode_find_coordinator_response(b, version) {
            Some(m) => Some(ResponseBody::FindCoordinator(m)),
            None => None,
        },
        ApiKey::JoinGroup => match wire::decode_join_group_response(b, version) {
            Some(m) => Some(ResponseBody::JoinGroup(m)),
            None => None,
        },
        ApiKey::SyncGroup => match wire::decode_sync_group_response(b, version) {
            Some(m) => Some(ResponseBody::SyncGroup(m)),
            None => None,
        },
        ApiKey::OffsetFetch => match wire::decode_offset_fetch_response(b, version) {
            Some(m) => Some(ResponseBody::OffsetFetch(m)),
            None => None,
        },
        ApiKey::ListOffsets => match wire::decode_list_offsets_response(b, version) {
            Some(m) => Some(ResponseBody::ListOffsets(m)),
            None => None,
        },
        ApiKey::Fetch => match wire::decode_fetch_response(b, version) {
            Some(m) => Some(ResponseBody::Fetch(m)),
            None => None,
        },
        ApiKey::LeaveGroup => match wire::decode_leave_group_response(b, version) {
            Some(m) => Some(ResponseBody::LeaveGroup(m)),
            None => None,
        },
        ApiKey::InitProducerId => match wire::decode_init_producer_id_response(b, version) {
            Some(m) => Some(ResponseBody::InitProducerId(m)),
            None => None,
        },
        _ => Some(ResponseBody::NotInspected),
    }
}

/// Four bytes, most significant first, of a length that fits in 31 bits.
pub open spec fn be_length(n: u32) -> Seq<u8> {
    seq![(n >> 24u32) as u8, ((n >> 16u32) & 0xffu32) as u8, ((n >> 8u32) & 0xffu32) as u8, (n & 0xffu32) as u8]
}

/// The value of four bytes read most significant first.
pub open spec fn be_value(b0: u8, b1: u8, b2: u8, b3: u8) -> u32 {
    ((b0 as u32) << 24u32) | ((b1 as u32) << 16u32) | ((b2 as u32) << 8u32) | (b3 as u32)
}

/// A frame: the length of header and body as four bytes, then both.
pub open spec fn frame_of(header: Seq<u8>, body: Seq<u8>) -> Seq<u8> {
    be_length((header.len() + body.len()) as u32) + header + body
}

/// What the four-byte prefix of a frame says of the length that follows:
/// none where, read as a signed 32-bit number, it is negative.
pub open spec fn length_of_prefix(p: Seq<u8>) -> Option<usize>
    recommends
        p.len() == 4,
{
    let v = be_value(p[0], p[1], p[2], p[3]);
    if v < 0x8000_0000u32 {
        Some(v as usize)
    } else {
        None
    }
}

/// Reads the length prefix of a frame.
pub fn frame_length(prefix: &[u8; 4]) -> (r: Option<usize>)
    ensures
        r == length_of_prefix(prefix@),
{
    let v: u32 = ((prefix[0] as u32) << 24u32) | ((prefix[1] as u32) << 16u32) | ((prefix[2]
        as u32) << 8u32) | (prefix[3] as u32);
    if v < 0x8000_0000u32 {
        Some(v as usize)
    } else {
        None
    }
}

proof fn lemma_be_round_trip(n: u32)
    requires
        n < 0x8000_0000u32,
    ensures
        be_value(
            (n >> 24u32) as u8,
            ((n >> 16u32) & 0xffu32) as u8,
            ((n >> 8u32) & 0xffu32) as u8,
            (n & 0xffu32) as u8,
        ) == n,
{
    assert((((((n >> 24u32) as u8) as u32) << 24u32) | (((((n >> 16u32) & 0xffu32) as u8) as u32)
        << 16u32) | (((((n >> 8u32) & 0xffu32) as u8) as u32) << 8u32) | (((n & 0xffu32) as u8)
        as u32)) == n) by (bit_vector);
}

/// Framing round trip: reading the length prefix of a frame gives the
/// length of header and body, and what follows the prefix is the header,
/// then the body, exactly.
pub proof fn lemma_frame_round_trip(header: Seq<u8>, body: Seq<u8>)
    requires
        header.len() + body.len() <= i32::MAX,
    ensures
        frame_of(header, body).len() == 4 + header.len() + body.len(),
        length_of_prefix(frame_of(header, body).subrange(0, 4)) == Some(
            (header.len() + body.len()) as usize,
        ),
        frame_of(header, body).subrange(4, frame_of(header, body).len() as int) == header + body,
{
    let n = (header.len() + body.len()) as u32;
    let f = frame_of(header, body);
    lemma_be_round_trip(n);
    assert(f.subrange(0, 4) =~= be_length(n));
    assert(f.subrange(4, f.len() as int) =~= header + body);
}

/// The framed request that `serde` makes of `body`: the length prefix, the
/// request header (the codec's key and version, the correlation id and the
/// client id, at the header version that goes with them), then the body.
pub open spec fn serialized(
    serde: SerDe,
    correlation_id: i32,
    client_id: Seq<char>,
    body: RequestBody,
) -> Result<Seq<u8>, ProtocolError> {
    let key = serde.api_key.key_number();
    let v = serde.used_version;
    if body.api() != serde.api_key {
        Err(ProtocolError::WrongApi)
    } else {
        match wire::request_header_version_of(key, v) {
            None => Err(ProtocolError::Encode),
            Some(hv) => match (wire::request_header_bytes(key, v, correlation_id, client_id, hv), body.bytes(v)) {
                (Some(h), Some(b)) => if h.len() + b.len() <= i32::MAX {
                    Ok(frame_of(h, b))
                } else {
                    Err(ProtocolError::FrameTooLong)
                },
                _ => Err(ProtocolError::Encode),
            },
        }
    }
}

/// The correlation id and the body that `serde` reads from `response`: the
/// response header at the header version of its key and version, then the
/// body at its version; none where either does not decode.
pub open spec fn deserialized(serde: SerDe, response: Seq<u8>) -> Option<(i32, ResponseBody)> {
    match wire::response_header_version_of(serde.api_key.key_number(), serde.used_version) {
        None => None,
        Some(hv) => match wire::response_header_of(response, hv) {
            Some((c, n)) => if n <= response.len() {
                match response_body_of(
                    serde.api_key,
                    response.subrange(n as int, response.len() as int),
                    serde.used_version,
                ) {
                    Some(body) => Some((c, body)),
                    None => None,
                }
            } else {
                None
            },
            None => None,
        },
    }
}

pub fn append_bytes(out: &mut Vec<u8>, b: &Vec<u8>)
    ensures
        final(out)@ == old(out)@ + b@,
{
    let ghost start = out@;
    let mut i: usize = 0;
    while i < b.len()
        invariant
            i <= b@.len(),
            out@ == start + b@.subrange(0, i as int),
        decreases b@.len() - i,
    {
        out.push(b[i]);
        i = i + 1;
        assert(out@ =~= start + b@.subrange(0, i as int));
    }
    assert(b@.subrange(0, b@.len() as int) =~= b@);
}

impl SerDe {
    /// The framed request: the length prefix, then the request header
    /// (this codec's key and version, the correlation id and the client id,
    /// encoded at the header version that goes with them), then the body.
    pub fn serialize(&self, client_id: &String, correlation_id: i32, request_body: &RequestBody) -> (r:
        Result<Vec<u8>, ProtocolError>)
        ensures
            request_body.api() != self.api_key ==> r == Err::<Vec<u8>, ProtocolError>(
                ProtocolError::WrongApi,
            ),
            match r {
                Ok(f) => serialized(*self, correlation_id, client_id@, *request_body) == Ok::<
                    Seq<u8>,
                    ProtocolError,
                >(f@),
                Err(e) => serialized(*self, correlation_id, client_id@, *request_body) == Err::<
                    Seq<u8>,
                    ProtocolError,
                >(e),
            },
    {
        if !self.same_api(request_body) {
            return Err(ProtocolError::WrongApi);
        }
        let key = self.api_key.number();
        let header_version = match wire::request_header_version(key, self.used_version) {
            Some(v) => v,
            None => return Err(ProtocolError::Encode),
        };
        let header = match wire::encode_request_header(
            key,
            self.used_version,
            correlation_id,
            client_id,
            header_version,
        ) {
            Some(h) => h,
            None => return Err(ProtocolError::Encode),
        };
        let body = match request_body.encode(self.used_version) {
            Some(b) => b,
            None => return Err(ProtocolError::Encode),
        };
        if header.len() > i32::MAX as usize || body.len() > i32::MAX as usize - header.len() {
            return Err(ProtocolError::FrameTooLong);
        }
        let n = (header.len() + body.len()) as u32;
        let mut frame: Vec<u8> = Vec::new();
        frame.push((n >> 24u32) as u8);
        frame.push(((n >> 16u32) & 0xffu32) as u8);
        frame.push(((n >> 8u32) & 0xffu32) as u8);
        frame.push((n & 0xffu32) as u8);
        assert(frame@ =~= be_length(n));
        append_bytes(&mut frame, &header);
        append_bytes(&mut frame, &body);
        Ok(frame)
    }

    fn same_api(&self, request_body: &RequestBody) -> (r: bool)
        ensures
            r == (request_body.api() == self.api_key),
    {
        let api = match request_body {
            RequestBody::ApiVersions(_) => ApiKey::ApiVersions,
            RequestBody::Metadata(_) => ApiKey::Metadata,
            RequestBody::FindCoordinator(_) => ApiKey::FindCoordinator,
            RequestBody::JoinGroup(_) => ApiKey::JoinGroup,
            RequestBody::SyncGroup(_) => ApiKey::SyncGroup,
            RequestBody::Heartbeat(_) => ApiKey::Heartbeat,
            RequestBody::OffsetFetch(_) => ApiKey::OffsetFetch,
            RequestBody::ListOffsets(_) => ApiKey::ListOffsets,
            RequestBody::Fetch(_) => ApiKey::Fetch,
            RequestBody::OffsetCommit(_) => ApiKey::OffsetCommit,
            RequestBody::LeaveGroup(_) => ApiKey::LeaveGroup,
            RequestBody::InitProducerId(_) => ApiKey::InitProducerId,
            RequestBody::Produce(_) => ApiKey::Produce,
        };
        api == self.api_key
    }

    /// Reads a response (without its length prefix): the response header at
    /// the header version that goes with this codec's key and version, then
    /// the body at this codec's version. Gives the header's correlation id
    /// and the body.
    pub fn deserialize(&self, response: &Vec<u8>) -> (r: Result<(i32, ResponseBody), ProtocolError>)
        ensures
            match r {
                Ok((c, body)) => deserialized(*self, response@) == Some((c, body)),
                Err(e) => e is Decode && deserialized(*self, response@) is None,
            },
    {
        let key = self.api_key.number();
        let header_version = match wire::response_header_version(key, self.used_version) {
            Some(v) => v,
            None => return Err(ProtocolError::Decode),
        };
        let (correlation_id, n) = match wire::decode_response_header(response, header_version) {
            Some(h) => h,
            None => return Err(ProtocolError::Decode),
        };
        let mut rest: Vec<u8> = Vec::new();
        let mut i: usize = n;
        while i < response.len()
            invariant
                n <= i <= response@.len(),
                rest@ == response@.subrange(n as int, i as int),
            decreases response@.len() - i,
        {
            rest.push(response[i]);
            i = i + 1;
            assert(rest@ =~= response@.subrange(n as int, i as int));
        }
        match decode_response_body(self.api_key, &rest, self.used_version) {
            Some(body) => Ok((correlation_id, body)),
            None => Err(ProtocolError::Decode),
        }
    }
}

} // verus!
