use vstd::prelude::*;

use crate::cluster::{ApiVersionsRequest, InitProducerIdRequest, MetadataRequest};
use crate::fetch::{all_kept_described, fetched_known};
use crate::offsets::{all_topics_kept, all_topics_known, commit_overflows, listed_known};
use crate::produce::{all_queued_placed, batches_encode};
use crate::wire::{names_view, subscription_bytes};
use crate::codec::{deserialized, negotiated_ser_de, serialized, ApiKey, RequestBody, ResponseBody, SerDe};
use crate::errors::{KafkaCallerError, ProtocolError};
use crate::fetch::FetchRequest;
use crate::group::{
    FindCoordinatorRequest, HeartbeatRequest, JoinGroupRequest, LeaveGroupRequest, SyncGroupRequest,
};
use crate::offsets::{ListOffsetsRequest, OffsetCommitRequest, OffsetFetchRequest};
use crate::produce::ProduceRequest;
use crate::codec::response_body_of;
use crate::fetch::fetch_all;
use crate::group::{JoinGroupResponse, MEMBER_ID_REQUIRED};
use crate::offsets::{ratchet_all, seed};
use crate::records::{extract_topics, records_view, BatchRecord, PutRecord, RecordView};
use crate::state::{copy_strings, fetch_view, BrokerMetadata, CallState, GroupSubscription};
use crate::wire;
use crate::Configuration;

verus! {

/// Where a consumer's first poll stands: the call to make next.
#[derive(Clone, Copy, Debug, PartialEq, Eq, Structural)]
pub enum ConsumerStep {
    ApiVersions,
    Metadata,
    FindCoordinator,
    JoinGroupFirst,
    JoinGroupSecond,
    SyncGroup,
    OffsetFetch,
    ListOffsets,
    Fetch,
    OffsetCommit,
    LeaveGroup,
    Done,
}

/// Where a producer's put stands: the call to make next.
#[derive(Clone, Copy, Debug, PartialEq, Eq, Structural)]
pub enum ProducerStep {
    ApiVersions,
    Metadata,
    InitProducerId,
    Produce,
    Done,
}

/// The API that a step calls (`Done` calls none; its entry is not used).
pub open spec fn consumer_api(step: ConsumerStep) -> ApiKey {
    match step {
        ConsumerStep::ApiVersions => ApiKey::ApiVersions,
        ConsumerStep::Metadata => ApiKey::Metadata,
        ConsumerStep::FindCoordinator => ApiKey::FindCoordinator,
        ConsumerStep::JoinGroupFirst => ApiKey::JoinGroup,
        ConsumerStep::JoinGroupSecond => ApiKey::JoinGroup,
        ConsumerStep::SyncGroup => ApiKey::SyncGroup,
        ConsumerStep::OffsetFetch => ApiKey::OffsetFetch,
        ConsumerStep::ListOffsets => ApiKey::ListOffsets,
        ConsumerStep::Fetch => ApiKey::Fetch,
        ConsumerStep::OffsetCommit => ApiKey::OffsetCommit,
        ConsumerStep::LeaveGroup => ApiKey::LeaveGroup,
        ConsumerStep::Done => ApiKey::LeaveGroup,
    }
}

/// The call after `step` succeeded: JoinGroup twice, and OffsetCommit only
/// where the fetch brought records.
pub open spec fn consumer_next(step: ConsumerStep, fetched_any: bool) -> ConsumerStep {
    match step {
        ConsumerStep::ApiVersions => ConsumerStep::Metadata,
        ConsumerStep::Metadata => ConsumerStep::FindCoordinator,
        ConsumerStep::FindCoordinator => ConsumerStep::JoinGroupFirst,
        ConsumerStep::JoinGroupFirst => ConsumerStep::JoinGroupSecond,
        ConsumerStep::JoinGroupSecond => ConsumerStep::SyncGroup,
        ConsumerStep::SyncGroup => ConsumerStep::OffsetFetch,
        ConsumerStep::OffsetFetch => ConsumerStep::ListOffsets,
        ConsumerStep::ListOffsets => ConsumerStep::Fetch,
        ConsumerStep::Fetch => if fetched_any {
            ConsumerStep::OffsetCommit
        } else {
            ConsumerStep::LeaveGroup
        },
        ConsumerStep::OffsetCommit => ConsumerStep::LeaveGroup,
        ConsumerStep::LeaveGroup => ConsumerStep::Done,
        ConsumerStep::Done => ConsumerStep::Done,
    }
}

/// The API that a step calls (`Done` calls none; its entry is not used).
pub open spec fn producer_api(step: ProducerStep) -> ApiKey {
    match step {
        ProducerStep::ApiVersions => ApiKey::ApiVersions,
        ProducerStep::Metadata => ApiKey::Metadata,
        ProducerStep::InitProducerId => ApiKey::InitProducerId,
        ProducerStep::Produce => ApiKey::Produce,
        ProducerStep::Done => ApiKey::Produce,
    }
}

pub open spec fn producer_next(step: ProducerStep) -> ProducerStep {
    match step {
        ProducerStep::ApiVersions => ProducerStep::Metadata,
        ProducerStep::Metadata => ProducerStep::InitProducerId,
        ProducerStep::InitProducerId => ProducerStep::Produce,
        ProducerStep::Produce => ProducerStep::Done,
        ProducerStep::Done => ProducerStep::Done,
    }
}

pub open spec fn next_correlation(c: i32) -> i32 {
    if c == i32::MAX {
        i32::MIN
    } else {
        (c + 1) as i32
    }
}

/// `f` is the framed request that `serde` makes of `body`, with
/// correlation id `correlation_id` and client id `client_id`.
pub open spec fn framed_request(
    f: Seq<u8>,
    serde: SerDe,
    correlation_id: i32,
    client_id: Seq<char>,
    body: RequestBody,
) -> bool {
    serialized(serde, correlation_id, client_id, body) == Ok::<Seq<u8>, ProtocolError>(f)
}

/// The codec that a session makes for `api` from `state`.
pub open spec fn ser_de_for(api: ApiKey, state: CallState) -> Result<SerDe, ProtocolError> {
    if api == ApiKey::ApiVersions {
        Ok(SerDe { api_key: api, used_version: api.own_max_version() })
    } else {
        negotiated_ser_de(api, state.broker_api_versions@)
    }
}

/// `body` of `api`, made from `state`, can be framed.
pub open spec fn request_frames(api: ApiKey, state: CallState, body: RequestBody) -> bool {
    ser_de_for(api, state) matches Ok(serde) && serialized(
        serde,
        state.correlation_id,
        state.configuration.client_id_view(),
        body,
    ) is Ok
}

/// `b` is the body that the consumer's `step` builds from `state`.
pub open spec fn consumer_body(step: ConsumerStep, state: CallState, b: RequestBody) -> bool {
    match step {
        ConsumerStep::ApiVersions => b matches RequestBody::ApiVersions(m)
            && ApiVersionsRequest::built(state, m),
        ConsumerStep::Metadata => b matches RequestBody::Metadata(m) && MetadataRequest::built(state, m),
        ConsumerStep::FindCoordinator => b matches RequestBody::FindCoordinator(m)
            && FindCoordinatorRequest::built(state, m),
        ConsumerStep::JoinGroupFirst => b matches RequestBody::JoinGroup(m) && JoinGroupRequest::built(
            state,
            m,
        ),
        ConsumerStep::JoinGroupSecond => b matches RequestBody::JoinGroup(m)
            && JoinGroupRequest::built(state, m),
        ConsumerStep::SyncGroup => b matches RequestBody::SyncGroup(m) && SyncGroupRequest::built(state, m),
        ConsumerStep::OffsetFetch => b matches RequestBody::OffsetFetch(m)
            && OffsetFetchRequest::built(state, m),
        ConsumerStep::ListOffsets => b matches RequestBody::ListOffsets(m)
            && ListOffsetsRequest::built(state, m),
        ConsumerStep::Fetch => b matches RequestBody::Fetch(m) && FetchRequest::built(state, m),
        ConsumerStep::OffsetCommit => b matches RequestBody::OffsetCommit(m)
            && OffsetCommitRequest::built(state, m),
        ConsumerStep::LeaveGroup => b matches RequestBody::LeaveGroup(m) && LeaveGroupRequest::built(
            state,
            m,
        ),
        ConsumerStep::Done => false,
    }
}

/// The consumer's `step` can build its request from `state`.
pub open spec fn consumer_builds(step: ConsumerStep, state: CallState) -> bool {
    let group = state.configuration.group_view() is Some;
    match step {
        ConsumerStep::ApiVersions => true,
        ConsumerStep::Metadata => true,
        ConsumerStep::FindCoordinator => group,
        ConsumerStep::JoinGroupFirst => group && subscription_bytes(
            names_view(state.connected_topics@),
            1,
        ) is Some,
        ConsumerStep::JoinGroupSecond => group && subscription_bytes(
            names_view(state.connected_topics@),
            1,
        ) is Some,
        ConsumerStep::SyncGroup => group,
        ConsumerStep::OffsetFetch => group && all_topics_known(
            state.connected_topics@,
            state.broker_metadata.topics@,
        ),
        ConsumerStep::ListOffsets => all_topics_kept(state.connected_topics@, fetch_view(state.fetch_state@)),
        ConsumerStep::Fetch => all_kept_described(fetch_view(state.fetch_state@), state.broker_metadata.topics@),
        ConsumerStep::OffsetCommit => group && !commit_overflows(fetch_view(state.fetch_state@)),
        ConsumerStep::LeaveGroup => group,
        ConsumerStep::Done => false,
    }
}

/// The response `body` is the one the consumer's `step` awaits, and it is
/// taken in without error from `state`.
pub open spec fn consumer_accepts(step: ConsumerStep, state: CallState, body: ResponseBody) -> bool {
    match (step, body) {
        (ConsumerStep::ApiVersions, ResponseBody::ApiVersions(m)) => m.error_code == 0,
        (ConsumerStep::Metadata, ResponseBody::Metadata(m)) => m.cluster_id is Some,
        (ConsumerStep::FindCoordinator, ResponseBody::FindCoordinator(m)) => m.error_code == 0,
        (ConsumerStep::JoinGroupFirst, ResponseBody::JoinGroup(m)) => m.error_code == 0
            || m.error_code == MEMBER_ID_REQUIRED,
        (ConsumerStep::JoinGroupSecond, ResponseBody::JoinGroup(m)) => m.error_code == 0
            || m.error_code == MEMBER_ID_REQUIRED,
        (ConsumerStep::SyncGroup, ResponseBody::SyncGroup(m)) => m.error_code == 0,
        (ConsumerStep::OffsetFetch, ResponseBody::OffsetFetch(m)) => m.error_code == 0,
        (ConsumerStep::ListOffsets, ResponseBody::ListOffsets(m)) => forall|k: int|
            0 <= k < m.partitions@.len() ==> listed_known(
                fetch_view(state.fetch_state@),
                #[trigger] m.partitions@[k],
            ),
        (ConsumerStep::Fetch, ResponseBody::Fetch(m)) => m.error_code == 0 && forall|k: int|
            0 <= k < m.partitions@.len() ==> fetched_known(
                state.broker_metadata.topics@,
                fetch_view(state.fetch_state@),
                #[trigger] m.partitions@[k],
            ),
        (ConsumerStep::OffsetCommit, ResponseBody::NotInspected) => true,
        (ConsumerStep::LeaveGroup, ResponseBody::LeaveGroup(m)) => m.error_code == 0,
        _ => false,
    }
}

/// `b` is the body that the producer's `step` builds from `state` at `now`.
pub open spec fn producer_body(step: ProducerStep, state: CallState, now: i64, b: RequestBody) -> bool {
    match step {
        ProducerStep::ApiVersions => b matches RequestBody::ApiVersions(m)
            && ApiVersionsRequest::built(state, m),
        ProducerStep::Metadata => b matches RequestBody::Metadata(m) && MetadataRequest::built(state, m),
        ProducerStep::InitProducerId => b matches RequestBody::InitProducerId(m)
            && InitProducerIdRequest::built(state, m),
        ProducerStep::Produce => b matches RequestBody::Produce(m) && ProduceRequest::built(
            state,
            now,
            m,
        ),
        ProducerStep::Done => false,
    }
}

/// The producer's `step` can build its request from `state` at `now`.
pub open spec fn producer_builds(step: ProducerStep, state: CallState, now: i64) -> bool {
    match step {
        ProducerStep::Produce => state.records_to_send@.len() <= i32::MAX && all_queued_placed(
            state.records_to_send@,
            state.broker_metadata.topics@,
        ) && batches_encode(state.records_to_send@, state.producer_id, now),
        ProducerStep::Done => false,
        _ => true,
    }
}

/// The response `body` is the one the producer's `step` awaits, and it is
/// taken in without error.
pub open spec fn producer_accepts(step: ProducerStep, body: ResponseBody) -> bool {
    match (step, body) {
        (ProducerStep::ApiVersions, ResponseBody::ApiVersions(m)) => m.error_code == 0,
        (ProducerStep::Metadata, ResponseBody::Metadata(m)) => m.cluster_id is Some,
        (ProducerStep::InitProducerId, ResponseBody::InitProducerId(m)) => m.error_code == 0,
        (ProducerStep::Produce, ResponseBody::NotInspected) => true,
        _ => false,
    }
}

/// `new` is `old` after a successful response `body`, as each API's
/// response handling states it; `fetched` is what a Fetch response brought.
pub open spec fn response_applied(
    old: CallState,
    new: CallState,
    body: ResponseBody,
    fetched: Seq<RecordView>,
) -> bool {
    match body {
        ResponseBody::ApiVersions(m) => m.error_code == 0 && new == (CallState {
            broker_api_versions: m.api_keys,
            ..old
        }),
        ResponseBody::Metadata(m) => m.cluster_id matches Some(c) && new == (CallState {
            broker_metadata: BrokerMetadata {
                cluster_id: c,
                controller_id: m.controller_id,
                brokers: m.brokers,
                topics: m.topics,
            },
            ..old
        }),
        ResponseBody::FindCoordinator(m) => m.error_code == 0 && new == (CallState {
            coordinators: m.coordinators,
            ..old
        }),
        ResponseBody::JoinGroup(m) => if m.error_code == MEMBER_ID_REQUIRED {
            new == (CallState {
                group_subscription: GroupSubscription {
                    member_id: m.member_id,
                    ..old.group_subscription
                },
                ..old
            })
        } else {
            m.error_code == 0 && new == (CallState {
                group_subscription: GroupSubscription {
                    leader_id: m.leader,
                    generation_id: m.generation_id,
                    subscriptions: m.members,
                    ..old.group_subscription
                },
                ..old
            })
        },
        ResponseBody::SyncGroup(m) => m.error_code == 0 && new == old,
        ResponseBody::LeaveGroup(m) => m.error_code == 0 && new == old,
        ResponseBody::InitProducerId(m) => m.error_code == 0 && new == (CallState {
            producer_id: m.producer_id,
            ..old
        }),
        ResponseBody::OffsetFetch(m) => m.error_code == 0 && new == (CallState {
            fetch_state: new.fetch_state,
            ..old
        }) && fetch_view(new.fetch_state@) == seed(fetch_view(old.fetch_state@), m.topics@),
        ResponseBody::ListOffsets(m) => new == (CallState { fetch_state: new.fetch_state, ..old })
            && fetch_view(new.fetch_state@) == ratchet_all(
            fetch_view(old.fetch_state@),
            m.partitions@,
        ),
        ResponseBody::Fetch(m) => m.error_code == 0 && new == (CallState {
            fetch_state: new.fetch_state,
            ..old
        }) && fetch_all(fetch_view(old.fetch_state@), old.broker_metadata.topics@, m.partitions@)
            == (fetch_view(new.fetch_state@), fetched),
        ResponseBody::NotInspected => new == old,
    }
}

/// `response` decodes with `serde` to a header and the body `body`.
pub open spec fn decoded_as(response: Seq<u8>, serde: SerDe, body: ResponseBody) -> bool {
    match deserialized(serde, response) {
        Some((_, b)) => b == body,
        None => false,
    }
}

/// `f` frames, with `serde`, the body that the consumer's `step` builds
/// from `state`.
pub open spec fn consumer_request(f: Seq<u8>, serde: SerDe, state: CallState, step: ConsumerStep) -> bool {
    exists|b: RequestBody|
        consumer_body(step, state, b) && framed_request(
            f,
            serde,
            state.correlation_id,
            state.configuration.client_id_view(),
            b,
        )
}

/// `f` frames, with `serde`, the body that the producer's `step` builds
/// from `state` at `now`.
pub open spec fn producer_request(
    f: Seq<u8>,
    serde: SerDe,
    state: CallState,
    now: i64,
    step: ProducerStep,
) -> bool {
    exists|b: RequestBody|
        producer_body(step, state, now, b) && framed_request(
            f,
            serde,
            state.correlation_id,
            state.configuration.client_id_view(),
            b,
        )
}

/// `f` frames, with `serde`, the Heartbeat request built from `state`.
pub open spec fn heartbeat_frame(f: Seq<u8>, serde: SerDe, state: CallState) -> bool {
    exists|m: HeartbeatRequest|
        HeartbeatRequest::built(state, m) && framed_request(
            f,
            serde,
            state.correlation_id,
            state.configuration.client_id_view(),
            RequestBody::Heartbeat(m),
        )
}

/// `f` is the framed Heartbeat request of `state`.
pub open spec fn heartbeat_of(f: Seq<u8>, state: CallState) -> bool {
    exists|serde: SerDe|
        ser_de_for(ApiKey::Heartbeat, state) == Ok::<SerDe, ProtocolError>(serde)
            && heartbeat_frame(f, serde, state)
}

/// Negotiates the version of `api`, builds its frame around `body` and
/// spends one correlation id on it.
fn frame_request(state: &mut CallState, api: ApiKey, body: &RequestBody) -> (r: Result<
    (SerDe, Vec<u8>),
    ProtocolError,
>)
    ensures
        r matches Ok((serde, f)) ==> {
            &&& ser_de_for(api, *old(state)) == Ok::<SerDe, ProtocolError>(serde)
            &&& framed_request(
                f@,
                serde,
                old(state).correlation_id,
                old(state).configuration.client_id_view(),
                *body,
            )
            &&& *final(state) == (CallState {
                correlation_id: next_correlation(old(state).correlation_id),
                ..*old(state)
            })
        },
        r is Err ==> *final(state) == *old(state),
        request_frames(api, *old(state), *body) ==> r is Ok,
{
    let serde = api.new_ser_de(state)?;
    let client_id = state.configuration.client_id();
    let ghost before = *state;
    let f = serde.serialize(&client_id, state.correlation_id, body)?;
    let _ = state.next_correlation_id();
    assert(*state == (CallState { correlation_id: next_correlation(before.correlation_id), ..before }));
    Ok((serde, f))
}

/// A consumer's session: its state, the step of its first poll, the codec
/// of the request in flight and the records fetched so far.
pub struct ConsumerSession {
    pub state: CallState,
    pub step: ConsumerStep,
    pub pending: Option<SerDe>,
    pub records: Vec<BatchRecord>,
}

impl ConsumerSession {
    /// A session for a consumer configuration; a producer configuration is refused.
    pub fn new(configuration: &Configuration) -> (r: Result<Self, KafkaCallerError>)
        ensures
            configuration.is_consumer() <==> r is Ok,
            r matches Ok(s) ==> s.state.configuration == *configuration && s.step
                == ConsumerStep::Done && s.pending is None && s.records@.len() == 0
                && s.state.correlation_id == 0 && s.state.connected_topics@.len() == 0,
    {
        match configuration {
            Configuration::ConsumerConfiguration { .. } => Ok(
                ConsumerSession {
                    state: CallState::new(configuration),
                    step: ConsumerStep::Done,
                    pending: None,
                    records: Vec::new(),
                },
            ),
            _ => Err(KafkaCallerError::new("Incorrect configuration instance for consumer")),
        }
    }

    /// The topics to consume from, replacing those given before.
    pub fn subscribe(&mut self, topics: &Vec<String>)
        ensures
            final(self).state == (CallState { connected_topics: final(self).state.connected_topics, ..old(self).state }),
            final(self).state.connected_topics@ == topics@,
            final(self).step == old(self).step,
            final(self).pending == old(self).pending,
            final(self).records == old(self).records,
    {
        self.state.connected_topics = copy_strings(topics);
    }

    /// Starts a first poll from its first call.
    pub fn start_poll(&mut self)
        ensures
            final(self).state == old(self).state,
            final(self).step == ConsumerStep::ApiVersions,
            final(self).pending is None,
            final(self).records@.len() == 0,
    {
        self.step = ConsumerStep::ApiVersions;
        self.pending = None;
        self.records = Vec::new();
    }

    fn create_body(&self) -> (r: Result<RequestBody, ProtocolError>)
        requires
            self.step != ConsumerStep::Done,
        ensures
            r matches Ok(b) ==> b.api() == consumer_api(self.step) && consumer_body(
                self.step,
                self.state,
                b,
            ),
            consumer_builds(self.step, self.state) ==> r is Ok,
    {
        let state = &self.state;
        match self.step {
            ConsumerStep::ApiVersions => Ok(
                RequestBody::ApiVersions(ApiVersionsRequest::create_request(state)),
            ),
            ConsumerStep::Metadata => Ok(RequestBody::Metadata(MetadataRequest::create_request(state))),
            ConsumerStep::FindCoordinator => Ok(
                RequestBody::FindCoordinator(FindCoordinatorRequest::create_request(state)?),
            ),
            ConsumerStep::JoinGroupFirst | ConsumerStep::JoinGroupSecond => Ok(
                RequestBody::JoinGroup(JoinGroupRequest::create_request(state)?),
            ),
            ConsumerStep::SyncGroup => Ok(RequestBody::SyncGroup(SyncGroupRequest::create_request(state)?)),
            ConsumerStep::OffsetFetch => Ok(
                RequestBody::OffsetFetch(OffsetFetchRequest::create_request(state)?),
            ),
            ConsumerStep::ListOffsets => Ok(
                RequestBody::ListOffsets(ListOffsetsRequest::create_request(state)?),
            ),
            ConsumerStep::Fetch => Ok(RequestBody::Fetch(FetchRequest::create_request(state)?)),
            ConsumerStep::OffsetCommit => Ok(
                RequestBody::OffsetCommit(OffsetCommitRequest::create_request(state)?),
            ),
            _ => Ok(RequestBody::LeaveGroup(LeaveGroupRequest::create_request(state)?)),
        }
    }

    /// The framed request of the current step, or none when the poll is done.
    /// Each request spends one correlation id; the codec it was made with
    /// waits for the response.
    pub fn next_request(&mut self) -> (r: Result<Option<Vec<u8>>, ProtocolError>)
        ensures
            old(self).step == ConsumerStep::Done ==> r == Ok::<Option<Vec<u8>>, ProtocolError>(None)
                && *final(self) == *old(self),
            r matches Ok(Some(f)) ==> {
                &&& old(self).step != ConsumerStep::Done
                &&& final(self).step == old(self).step
                &&& final(self).records == old(self).records
                &&& final(self).state == (CallState {
                    correlation_id: next_correlation(old(self).state.correlation_id),
                    ..old(self).state
                })
                &&& final(self).pending matches Some(serde) && ser_de_for(
                    consumer_api(old(self).step),
                    old(self).state,
                ) == Ok::<SerDe, ProtocolError>(serde) && consumer_request(
                    f@,
                    serde,
                    old(self).state,
                    old(self).step,
                )
            },
            r is Err ==> final(self).state == old(self).state && final(self).step == old(self).step,
            old(self).step != ConsumerStep::Done && consumer_builds(old(self).step, old(self).state)
                && (forall|b: RequestBody|
                #[trigger] consumer_body(old(self).step, old(self).state, b) ==> request_frames(
                    consumer_api(old(self).step),
                    old(self).state,
                    b,
                )) ==> r matches Ok(Some(_)),
    {
        if self.step == ConsumerStep::Done {
            return Ok(None);
        }
        let body = self.create_body()?;
        let ghost before = self.state;
        let (serde, f) = frame_request(&mut self.state, body.api_key_of(), &body)?;
        assert(framed_request(
            f@,
            serde,
            before.correlation_id,
            before.configuration.client_id_view(),
            body,
        ));
        assert(consumer_request(f@, serde, before, self.step));
        self.pending = Some(serde);
        Ok(Some(f))
    }

    /// Takes in the response to the request in flight: decodes it with the
    /// codec the request was made with, applies it to the state and moves to
    /// the next step. A failure leaves the state as it was and ends the poll
    /// where it stands.
    pub fn handle_response(&mut self, response: &Vec<u8>) -> (r: Result<(), ProtocolError>)
        ensures
            old(self).pending is None ==> r == Err::<(), ProtocolError>(
                ProtocolError::UnexpectedResponse,
            ),
            final(self).pending is None,
            r is Err ==> final(self).state == old(self).state && final(self).step == old(self).step,
            r is Ok ==> final(self).step == consumer_next(
                old(self).step,
                final(self).records@.len() > 0,
            ),
            r is Ok && old(self).step != ConsumerStep::Fetch ==> final(self).records == old(self).records,
            r is Ok ==> (old(self).pending matches Some(serde) && exists|body: ResponseBody|
                #[trigger] decoded_as(response@, serde, body) && response_applied(
                    old(self).state,
                    final(self).state,
                    body,
                    records_view(final(self).records@),
                )),
            (old(self).pending matches Some(serde) && match deserialized(serde, response@) {
                Some((_, body)) => consumer_accepts(old(self).step, old(self).state, body),
                None => false,
            }) ==> r is Ok,
    {
        let serde = match self.pending {
            Some(s) => s,
            None => return Err(ProtocolError::UnexpectedResponse),
        };
        self.pending = None;
        let (_, body) = serde.deserialize(response)?;
        let ghost decoded = body;
        let ghost before = self.state;
        let step = self.step;
        match (step, body) {
            (ConsumerStep::ApiVersions, ResponseBody::ApiVersions(m)) => m.process_response(&mut self.state)?,
            (ConsumerStep::Metadata, ResponseBody::Metadata(m)) => m.process_response(&mut self.state)?,
            (ConsumerStep::FindCoordinator, ResponseBody::FindCoordinator(m)) => m.process_response(
                &mut self.state,
            )?,
            (ConsumerStep::JoinGroupFirst, ResponseBody::JoinGroup(m)) => m.process_response(&mut self.state)?,
            (ConsumerStep::JoinGroupSecond, ResponseBody::JoinGroup(m)) => m.process_response(&mut self.state)?,
            (ConsumerStep::SyncGroup, ResponseBody::SyncGroup(m)) => m.process_response(&mut self.state)?,
            (ConsumerStep::OffsetFetch, ResponseBody::OffsetFetch(m)) => m.process_response(&mut self.state)?,
            (ConsumerStep::ListOffsets, ResponseBody::ListOffsets(m)) => m.process_response(&mut self.state)?,
            (ConsumerStep::Fetch, ResponseBody::Fetch(m)) => {
                let fetched = m.process_response(&mut self.state)?;
                self.records = fetched;
            },
            (ConsumerStep::OffsetCommit, ResponseBody::NotInspected) => {},
            (ConsumerStep::LeaveGroup, ResponseBody::LeaveGroup(m)) => m.process_response(&mut self.state)?,
            _ => return Err(ProtocolError::UnexpectedResponse),
        }
        self.step = if step == ConsumerStep::Fetch {
            if self.records.len() > 0 {
                ConsumerStep::OffsetCommit
            } else {
                ConsumerStep::LeaveGroup
            }
        } else {
            match step {
                ConsumerStep::ApiVersions => ConsumerStep::Metadata,
                ConsumerStep::Metadata => ConsumerStep::FindCoordinator,
                ConsumerStep::FindCoordinator => ConsumerStep::JoinGroupFirst,
                ConsumerStep::JoinGroupFirst => ConsumerStep::JoinGroupSecond,
                ConsumerStep::JoinGroupSecond => ConsumerStep::SyncGroup,
                ConsumerStep::SyncGroup => ConsumerStep::OffsetFetch,
                ConsumerStep::OffsetFetch => ConsumerStep::ListOffsets,
                ConsumerStep::ListOffsets => ConsumerStep::Fetch,
                ConsumerStep::OffsetCommit => ConsumerStep::LeaveGroup,
                _ => ConsumerStep::Done,
            }
        };
        assert(decoded_as(response@, serde, decoded));
        assert(response_applied(before, self.state, decoded, records_view(self.records@)));
        Ok(())
    }

    /// The records that the poll fetched, handed over.
    pub fn take_records(&mut self) -> (r: Vec<BatchRecord>)
        ensures
            r == old(self).records,
            final(self).records@.len() == 0,
            final(self).state == old(self).state,
            final(self).step == old(self).step,
            final(self).pending == old(self).pending,
    {
        let mut out: Vec<BatchRecord> = Vec::new();
        std::mem::swap(&mut out, &mut self.records);
        out
    }

    /// A framed Heartbeat request for the current member and generation; it
    /// spends one correlation id and its response is not read.
    pub fn heartbeat_request(&mut self) -> (r: Result<Vec<u8>, ProtocolError>)
        ensures
            r matches Ok(f) ==> heartbeat_of(f@, old(self).state),
            old(self).state.configuration.group_view() is Some && (forall|m: HeartbeatRequest|
                #[trigger] HeartbeatRequest::built(old(self).state, m) ==> request_frames(
                    ApiKey::Heartbeat,
                    old(self).state,
                    RequestBody::Heartbeat(m),
                )) ==> r is Ok,
            r is Ok ==> final(self).state == (CallState {
                correlation_id: next_correlation(old(self).state.correlation_id),
                ..old(self).state
            }),
            r is Err ==> final(self).state == old(self).state,
            final(self).step == old(self).step,
            final(self).pending == old(self).pending,
            final(self).records == old(self).records,
    {
        let body = RequestBody::Heartbeat(HeartbeatRequest::create_request(&self.state)?);
        let ghost before = self.state;
        let (serde, f) = frame_request(&mut self.state, ApiKey::Heartbeat, &body)?;
        assert(framed_request(
            f@,
            serde,
            before.correlation_id,
            before.configuration.client_id_view(),
            body,
        ));
        assert(heartbeat_frame(f@, serde, before));
        assert(heartbeat_of(f@, before));
        Ok(f)
    }
}

impl RequestBody {
    pub fn api_key_of(&self) -> (r: ApiKey)
        ensures
            r == self.api(),
    {
        match self {
            RequestBody::ApiVersions(_) => ApiKey::ApiVersions,
            RequestBody::Metadata(_) => ApiKey::Metadata,
            RequestBody::FindCoordinator(_) => ApiKey::FindCoordinator,
            RequestBody::JoinGroup(_) => ApiKey::JoinGroup,
            RequestBody::SyncGroup(_) => ApiKey::SyncGroup,
            RequestBody::Heartbeat(_) => ApiKey::Heartbeat,
            RequestBody::OffsetFetch(_) => ApiKey::OffsetFetch,
            RequestBody::ListOffsets(_) => ApiKey::ListOffsets,
            RequestBody::Fetch(_) => ApiKey::Fetch,
            RequestBody::OffsetCommit(_) => ApiKey::OffsetCommit,
            RequestBody::LeaveGroup(_) => ApiKey::LeaveGroup,
            RequestBody::InitProducerId(_) => ApiKey::InitProducerId,
            RequestBody::Produce(_) => ApiKey::Produce,
        }
    }
}

} // verus!

verus! {

/// A producer's session: its state, the step of its put and the codec of
/// the request in flight.
pub struct ProducerSession {
    pub state: CallState,
    pub step: ProducerStep,
    pub pending: Option<SerDe>,
}

impl ProducerSession {
    /// A session for a producer configuration; a consumer configuration is refused.
    pub fn new(configuration: &Configuration) -> (r: Result<Self, KafkaCallerError>)
        ensures
            !configuration.is_consumer() <==> r is Ok,
            r matches Ok(s) ==> s.state.configuration == *configuration && s.step
                == ProducerStep::Done && s.pending is None && s.state.correlation_id == 0
                && s.state.records_to_send@.len() == 0 && s.state.producer_id == -1,
    {
        match configuration {
            Configuration::ProducerConfiguration { .. } => Ok(
                ProducerSession { state: CallState::new(configuration), step: ProducerStep::Done, pending: None },
            ),
            _ => Err(KafkaCallerError::new("Incorrect configuration instance for producer")),
        }
    }

    /// Queues `records` (taking them out of the vector) behind those still
    /// queued, makes their topics the connected ones and starts a put.
    pub fn put(&mut self, records: &mut Vec<PutRecord>)
        ensures
            final(self).state.records_to_send@ == old(self).state.records_to_send@ + old(records)@,
            final(records)@.len() == 0,
            crate::records::no_duplicate_names(final(self).state.connected_topics@),
            forall|t: Seq<char>|
                #[trigger] crate::records::topics_of(old(records)@).contains(t)
                    <==> crate::records::listed(final(self).state.connected_topics@, t),
            final(self).state == (CallState {
                connected_topics: final(self).state.connected_topics,
                records_to_send: final(self).state.records_to_send,
                ..old(self).state
            }),
            final(self).step == ProducerStep::ApiVersions,
            final(self).pending is None,
    {
        self.state.connected_topics = extract_topics(records);
        self.state.records_to_send.append(records);
        self.step = ProducerStep::ApiVersions;
        self.pending = None;
    }

    fn create_body(&self, now: i64) -> (r: Result<RequestBody, ProtocolError>)
        requires
            self.step != ProducerStep::Done,
        ensures
            r matches Ok(b) ==> b.api() == producer_api(self.step) && producer_body(
                self.step,
                self.state,
                now,
                b,
            ),
            producer_builds(self.step, self.state, now) ==> r is Ok,
    {
        let state = &self.state;
        match self.step {
            ProducerStep::ApiVersions => Ok(
                RequestBody::ApiVersions(ApiVersionsRequest::create_request(state)),
            ),
            ProducerStep::Metadata => Ok(RequestBody::Metadata(MetadataRequest::create_request(state))),
            ProducerStep::InitProducerId => Ok(
                RequestBody::InitProducerId(InitProducerIdRequest::create_request(state)),
            ),
            _ => {
                if state.records_to_send.len() > i32::MAX as usize {
                    return Err(ProtocolError::Encode);
                }
                Ok(RequestBody::Produce(ProduceRequest::create_request(state, now)?))
            },
        }
    }

    /// Ends the put, whatever its outcome and wherever it stopped: the
    /// queued records are dropped and nothing is left in flight.
    pub fn end_put(&mut self)
        ensures
            final(self).state == (CallState {
                records_to_send: final(self).state.records_to_send,
                ..old(self).state
            }),
            final(self).state.records_to_send@.len() == 0,
            final(self).step == ProducerStep::Done,
            final(self).pending is None,
    {
        self.state.records_to_send.clear();
        self.step = ProducerStep::Done;
        self.pending = None;
    }

    /// The framed request of the current step, or none when the put is done;
    /// `now` is the timestamp that a Produce request stamps on its records.
    pub fn next_request(&mut self, now: i64) -> (r: Result<Option<Vec<u8>>, ProtocolError>)
        ensures
            old(self).step == ProducerStep::Done ==> r == Ok::<Option<Vec<u8>>, ProtocolError>(None)
                && *final(self) == *old(self),
            r matches Ok(Some(f)) ==> {
                &&& old(self).step != ProducerStep::Done
                &&& final(self).step == old(self).step
                &&& final(self).state == (CallState {
                    correlation_id: next_correlation(old(self).state.correlation_id),
                    ..old(self).state
                })
                &&& final(self).pending matches Some(serde) && ser_de_for(
                    producer_api(old(self).step),
                    old(self).state,
                ) == Ok::<SerDe, ProtocolError>(serde) && producer_request(
                    f@,
                    serde,
                    old(self).state,
                    now,
                    old(self).step,
                )
            },
            old(self).step != ProducerStep::Done && producer_builds(
                old(self).step,
                old(self).state,
                now,
            ) && (forall|b: RequestBody|
                #[trigger] producer_body(old(self).step, old(self).state, now, b) ==> request_frames(
                    producer_api(old(self).step),
                    old(self).state,
                    b,
                )) ==> r matches Ok(Some(_)),
            r is Err && old(self).step != ProducerStep::Produce ==> final(self).state == old(
                self,
            ).state && final(self).step == old(self).step,
            r is Err && old(self).step == ProducerStep::Produce ==> final(self).state == (CallState {
                records_to_send: final(self).state.records_to_send,
                ..old(self).state
            }) && final(self).state.records_to_send@.len() == 0
                && final(self).step == ProducerStep::Done,
    {
        if self.step == ProducerStep::Done {
            return Ok(None);
        }
        let body = match self.create_body(now) {
            Ok(b) => b,
            Err(e) => {
                if self.step == ProducerStep::Produce {
                    self.end_put();
                }
                return Err(e);
            },
        };
        let ghost before = self.state;
        let (serde, f) = match frame_request(&mut self.state, body.api_key_of(), &body) {
            Ok(x) => x,
            Err(e) => {
                if self.step == ProducerStep::Produce {
                    self.end_put();
                }
                return Err(e);
            },
        };
        assert(framed_request(
            f@,
            serde,
            before.correlation_id,
            before.configuration.client_id_view(),
            body,
        ));
        assert(producer_request(f@, serde, before, now, self.step));
        self.pending = Some(serde);
        Ok(Some(f))
    }

    /// Takes in the response to the request in flight and moves to the next
    /// step. The Produce response ends the put, and its records are dropped
    /// whatever the outcome.
    pub fn handle_response(&mut self, response: &Vec<u8>) -> (r: Result<(), ProtocolError>)
        ensures
            old(self).pending is None ==> r == Err::<(), ProtocolError>(
                ProtocolError::UnexpectedResponse,
            ),
            final(self).pending is None,
            old(self).step != ProducerStep::Produce && r is Err ==> final(self).state == old(
                self,
            ).state && final(self).step == old(self).step,
            old(self).step != ProducerStep::Produce && r is Ok ==> final(self).step
                == producer_next(old(self).step),
            old(self).step != ProducerStep::Produce && r is Ok ==> (old(self).pending matches Some(
                serde,
            ) && exists|body: ResponseBody|
                #[trigger] decoded_as(response@, serde, body) && response_applied(
                    old(self).state,
                    final(self).state,
                    body,
                    Seq::empty(),
                )),
            old(self).step == ProducerStep::Produce ==> final(self).state == (CallState {
                records_to_send: final(self).state.records_to_send,
                ..old(self).state
            }) && final(self).state.records_to_send@.len() == 0 && final(self).step
                == ProducerStep::Done,
            (old(self).pending matches Some(serde) && match deserialized(serde, response@) {
                Some((_, body)) => producer_accepts(old(self).step, body),
                None => false,
            }) ==> r is Ok,
    {
        let producing = self.step == ProducerStep::Produce;
        let r = self.take_response(response);
        if producing {
            self.end_put();
        }
        r
    }

    fn take_response(&mut self, response: &Vec<u8>) -> (r: Result<(), ProtocolError>)
        ensures
            old(self).pending is None ==> r == Err::<(), ProtocolError>(
                ProtocolError::UnexpectedResponse,
            ),
            final(self).pending is None,
            r is Err ==> final(self).state == old(self).state && final(self).step == old(self).step,
            r is Ok && old(self).step != ProducerStep::Produce ==> final(self).step == producer_next(
                old(self).step,
            ),
            r is Ok && old(self).step == ProducerStep::Produce ==> final(self).step
                == ProducerStep::Produce && final(self).state == old(self).state,
            r is Ok ==> (old(self).pending matches Some(serde) && exists|body: ResponseBody|
                #[trigger] decoded_as(response@, serde, body) && response_applied(
                    old(self).state,
                    final(self).state,
                    body,
                    Seq::empty(),
                )),
            (old(self).pending matches Some(serde) && match deserialized(serde, response@) {
                Some((_, body)) => producer_accepts(old(self).step, body),
                None => false,
            }) ==> r is Ok,
    {
        let serde = match self.pending {
            Some(s) => s,
            None => return Err(ProtocolError::UnexpectedResponse),
        };
        self.pending = None;
        let (_, body) = serde.deserialize(response)?;
        let ghost decoded = body;
        let ghost before = self.state;
        let step = self.step;
        match (step, body) {
            (ProducerStep::ApiVersions, ResponseBody::ApiVersions(m)) => m.process_response(&mut self.state)?,
            (ProducerStep::Metadata, ResponseBody::Metadata(m)) => m.process_response(&mut self.state)?,
            (ProducerStep::InitProducerId, ResponseBody::InitProducerId(m)) => m.process_response(
                &mut self.state,
            )?,
            (ProducerStep::Produce, ResponseBody::NotInspected) => {},
            _ => return Err(ProtocolError::UnexpectedResponse),
        }
        self.step = match step {
            ProducerStep::ApiVersions => ProducerStep::Metadata,
            ProducerStep::Metadata => ProducerStep::InitProducerId,
            ProducerStep::InitProducerId => ProducerStep::Produce,
            _ => ProducerStep::Produce,
        };
        assert(decoded_as(response@, serde, decoded));
        assert(response_applied(before, self.state, decoded, Seq::empty()));
        Ok(())
    }
}

} // verus!

verus! {

/// JoinGroup recovery: a first JoinGroup response with "member id
/// required" is taken in without error and keeps the member id it hands
/// out, and the next JoinGroup request framed from that state joins with it.
pub proof fn lemma_join_group_recovery(
    before: CallState,
    after: CallState,
    response: JoinGroupResponse,
    request: Seq<u8>,
    serde: SerDe,
)
    requires
        response.error_code == MEMBER_ID_REQUIRED,
        response_applied(before, after, ResponseBody::JoinGroup(response), Seq::empty()),
        consumer_request(request, serde, after, ConsumerStep::JoinGroupSecond),
    ensures
        consumer_accepts(ConsumerStep::JoinGroupFirst, before, ResponseBody::JoinGroup(response)),
        after.group_subscription.member_id == response.member_id,
        exists|b: RequestBody|
            framed_request(
                request,
                serde,
                after.correlation_id,
                after.configuration.client_id_view(),
                b,
            ) && (b matches RequestBody::JoinGroup(j) && j.member_id@ == response.member_id@),
{
}

} // verus!
