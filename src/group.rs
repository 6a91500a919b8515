use vstd::prelude::*;

use crate::codec::ApiKey;
use crate::errors::ProtocolError;
use crate::state::{copy_bytes, copy_strings, CallState, Coordinator, GroupSubscription, SubscriptionMember};
use crate::wire::{encode_subscription, names_view, subscription_bytes, subscription_version};

verus! {

/// The group id of the session's configuration, as a protocol error where
/// the configuration has none.
pub fn configured_group_id(state: &CallState) -> (r: Result<String, ProtocolError>)
    ensures
        match state.configuration.group_view() {
            Some(g) => r matches Ok(s) && s@ == g,
            None => r matches Err(ProtocolError::Configuration(_)),
        },
{
    match state.configuration.group_id() {
        Ok(g) => Ok(g),
        Err(e) => Err(ProtocolError::Configuration(e)),
    }
}

pub struct FindCoordinatorRequest {
    pub coordinator_keys: Vec<String>,
}

pub struct FindCoordinatorResponse {
    pub error_code: i16,
    pub coordinators: Vec<Coordinator>,
}

impl FindCoordinatorRequest {
    /// `req` is the request built from `state`: the group id is the one
    /// coordinator key.
    pub open spec fn built(state: CallState, req: Self) -> bool {
        req.coordinator_keys@.len() == 1 && state.configuration.group_view() == Some(
            req.coordinator_keys@[0]@,
        )
    }

    pub fn create_request(state: &CallState) -> (r: Result<Self, ProtocolError>)
        ensures
            match state.configuration.group_view() {
                Some(g) => r matches Ok(req) && Self::built(*state, req),
                None => r matches Err(ProtocolError::Configuration(_)),
            },
    {
        let group_id = configured_group_id(state)?;
        Ok(FindCoordinatorRequest { coordinator_keys: vec![group_id] })
    }
}

impl FindCoordinatorResponse {
    /// Replaces the known coordinators with the reported ones.
    pub fn process_response(self, state: &mut CallState) -> (r: Result<(), ProtocolError>)
        ensures
            self.error_code != 0 ==> r == Err::<(), ProtocolError>(
                ProtocolError::Broker { api_key: ApiKey::FindCoordinator, error_code: self.error_code },
            ) && *final(state) == *old(state),
            self.error_code == 0 ==> r is Ok && *final(state) == (CallState {
                coordinators: self.coordinators,
                ..*old(state)
            }),
    {
        if self.error_code != 0 {
            return Err(
                ProtocolError::Broker { api_key: ApiKey::FindCoordinator, error_code: self.error_code },
            );
        }
        state.coordinators = self.coordinators;
        Ok(())
    }
}

/// A group protocol offered in JoinGroup, with its opaque metadata.
pub struct JoinGroupProtocol {
    pub name: String,
    pub metadata: Vec<u8>,
}

pub struct JoinGroupRequest {
    pub group_id: String,
    pub session_timeout_ms: i32,
    pub rebalance_timeout_ms: i32,
    pub member_id: String,
    pub protocol_type: String,
    pub reason: Option<String>,
    pub protocols: Vec<JoinGroupProtocol>,
}

pub struct JoinGroupResponse {
    pub error_code: i16,
    pub generation_id: i32,
    pub leader: String,
    pub member_id: String,
    pub members: Vec<SubscriptionMember>,
}

/// The broker's code for "member id required": the response carries a
/// member id to join with.
pub const MEMBER_ID_REQUIRED: i16 = 79;

/// Two bytes, most significant first.
pub open spec fn be_u16(v: u16) -> Seq<u8> {
    seq![(v / 256) as u8, (v % 256) as u8]
}

/// The subscription metadata of JoinGroup: the subscription's version as a
/// two-byte tag, then the subscription itself encoded at that version.
pub open spec fn tagged_subscription(version: i16, topics: Seq<Seq<char>>) -> Seq<u8> {
    be_u16(version as u16) + subscription_bytes(topics, version).unwrap()
}

impl JoinGroupRequest {
    /// Offers the one protocol "range", whose metadata is the tagged
    /// subscription to the connected topics; joins with the member id
    /// learned so far (empty before the first JoinGroup).
    pub open spec fn built(state: CallState, req: Self) -> bool {
        &&& state.configuration.group_view() == Some(req.group_id@)
                &&& req.session_timeout_ms == 30000
                &&& req.rebalance_timeout_ms == 30500
                &&& req.member_id@ == state.group_subscription.member_id@
                &&& req.protocol_type@ == "consumer"@
                &&& req.reason matches Some(s) && s@.len() == 0
                &&& req.protocols@.len() == 1
                &&& req.protocols@[0].name@ == "range"@
                &&& req.protocols@[0].metadata@ == tagged_subscription(
                    1,
                    names_view(state.connected_topics@),
                )
    }

    /// Succeeds wherever a group is configured and the subscription encodes.
    pub fn create_request(state: &CallState) -> (r: Result<Self, ProtocolError>)
        ensures
            state.configuration.group_view() is None ==> r matches Err(
                ProtocolError::Configuration(_),
            ),
            state.configuration.group_view() is Some ==> match subscription_bytes(
                names_view(state.connected_topics@),
                1,
            ) {
                Some(_) => r matches Ok(req) && Self::built(*state, req),
                None => r == Err::<Self, ProtocolError>(ProtocolError::Encode),
            },
    {
        let group_id = configured_group_id(state)?;
        let version = subscription_version();
        let topics = copy_strings(&state.connected_topics);
        let encoded = match encode_subscription(&topics, version) {
            Some(b) => b,
            None => return Err(ProtocolError::Encode),
        };
        let tag = version as u16;
        let mut metadata: Vec<u8> = Vec::new();
        metadata.push((tag / 256) as u8);
        metadata.push((tag % 256) as u8);
        let mut i: usize = 0;
        while i < encoded.len()
            invariant
                i <= encoded@.len(),
                metadata@ == be_u16(tag) + encoded@.subrange(0, i as int),
            decreases encoded@.len() - i,
        {
            metadata.push(encoded[i]);
            i = i + 1;
            assert(metadata@ =~= be_u16(tag) + encoded@.subrange(0, i as int));
        }
        assert(encoded@.subrange(0, encoded@.len() as int) =~= encoded@);
        let protocols = vec![JoinGroupProtocol { name: "range".to_owned(), metadata }];
        Ok(
            JoinGroupRequest {
                group_id,
                session_timeout_ms: 30000,
                rebalance_timeout_ms: 30500,
                member_id: state.group_subscription.member_id.clone(),
                protocol_type: "consumer".to_owned(),
                reason: Some(String::new()),
                protocols,
            },
        )
    }
}

impl JoinGroupResponse {
    /// "Member id required" keeps the handed-out member id and succeeds, so
    /// that the caller can join again with it; success captures the leader,
    /// the generation and the members' subscriptions; any other code fails.
    pub fn process_response(self, state: &mut CallState) -> (r: Result<(), ProtocolError>)
        ensures
            self.error_code == MEMBER_ID_REQUIRED ==> r is Ok && *final(state) == (CallState {
                group_subscription: GroupSubscription {
                    member_id: self.member_id,
                    ..old(state).group_subscription
                },
                ..*old(state)
            }),
            self.error_code == 0 ==> r is Ok && *final(state) == (CallState {
                group_subscription: GroupSubscription {
                    leader_id: self.leader,
                    generation_id: self.generation_id,
                    subscriptions: self.members,
                    ..old(state).group_subscription
                },
                ..*old(state)
            }),
            self.error_code != 0 && self.error_code != MEMBER_ID_REQUIRED ==> r
                == Err::<(), ProtocolError>(
                ProtocolError::Broker { api_key: ApiKey::JoinGroup, error_code: self.error_code },
            ) && *final(state) == *old(state),
    {
        if self.error_code == MEMBER_ID_REQUIRED {
            state.group_subscription.member_id = self.member_id;
            return Ok(());
        }
        if self.error_code != 0 {
            return Err(ProtocolError::Broker { api_key: ApiKey::JoinGroup, error_code: self.error_code });
        }
        state.group_subscription.leader_id = self.leader;
        state.group_subscription.generation_id = self.generation_id;
        state.group_subscription.subscriptions = self.members;
        Ok(())
    }
}

/// What SyncGroup hands to one member.
pub struct SyncGroupAssignment {
    pub member_id: String,
    pub assignment: Vec<u8>,
}

pub struct SyncGroupRequest {
    pub group_id: String,
    pub generation_id: i32,
    pub member_id: String,
    pub protocol_type: Option<String>,
    pub protocol_name: Option<String>,
    pub assignments: Vec<SyncGroupAssignment>,
}

pub struct SyncGroupResponse {
    pub error_code: i16,
}

impl SyncGroupRequest {
    /// Echoes the group, the member and the generation, and hands each
    /// subscribed member the metadata it reported in JoinGroup.
    pub open spec fn built(state: CallState, req: Self) -> bool {
                    let subs = state.group_subscription.subscriptions@;
                    &&& state.configuration.group_view() == Some(req.group_id@)
                    &&& req.generation_id == state.group_subscription.generation_id
                    &&& req.member_id@ == state.group_subscription.member_id@
                    &&& req.protocol_type matches Some(t) && t@ == "consumer"@
                    &&& req.protocol_name matches Some(n) && n@ == "range"@
                    &&& req.assignments@.len() == subs.len()
                    &&& forall|i: int|
                        0 <= i < subs.len() ==> (#[trigger] req.assignments@[i]).member_id@
                            == subs[i].member_id@ && req.assignments@[i].assignment@
                            == subs[i].metadata@
    }

    pub fn create_request(state: &CallState) -> (r: Result<Self, ProtocolError>)
        ensures
            match state.configuration.group_view() {
                Some(g) => r matches Ok(req) && Self::built(*state, req),
                None => r matches Err(ProtocolError::Configuration(_)),
            },
    {
        let group_id = configured_group_id(state)?;
        let subs = &state.group_subscription.subscriptions;
        let mut assignments: Vec<SyncGroupAssignment> = Vec::new();
        let mut i: usize = 0;
        while i < subs.len()
            invariant
                i <= subs@.len(),
                assignments@.len() == i,
                forall|k: int|
                    0 <= k < i ==> (#[trigger] assignments@[k]).member_id@ == subs@[k].member_id@
                        && assignments@[k].assignment@ == subs@[k].metadata@,
            decreases subs@.len() - i,
        {
            assignments.push(
                SyncGroupAssignment {
                    member_id: subs[i].member_id.clone(),
                    assignment: copy_bytes(&subs[i].metadata),
                },
            );
            i = i + 1;
        }
        Ok(
            SyncGroupRequest {
                group_id,
                generation_id: state.group_subscription.generation_id,
                member_id: state.group_subscription.member_id.clone(),
                protocol_type: Some("consumer".to_owned()),
                protocol_name: Some("range".to_owned()),
                assignments,
            },
        )
    }
}

impl SyncGroupResponse {
    pub fn process_response(self, state: &mut CallState) -> (r: Result<(), ProtocolError>)
        ensures
            *final(state) == *old(state),
            self.error_code != 0 ==> r == Err::<(), ProtocolError>(
                ProtocolError::Broker { api_key: ApiKey::SyncGroup, error_code: self.error_code },
            ),
            self.error_code == 0 ==> r is Ok,
    {
        if self.error_code != 0 {
            return Err(ProtocolError::Broker { api_key: ApiKey::SyncGroup, error_code: self.error_code });
        }
        Ok(())
    }
}

pub struct HeartbeatRequest {
    pub group_id: String,
    pub generation_id: i32,
    pub member_id: String,
}

impl HeartbeatRequest {
    pub open spec fn built(state: CallState, req: Self) -> bool {
        state.configuration.group_view() == Some(req.group_id@) && req.generation_id
            == state.group_subscription.generation_id && req.member_id@
            == state.group_subscription.member_id@
    }

    pub fn create_request(state: &CallState) -> (r: Result<Self, ProtocolError>)
        ensures
            match state.configuration.group_view() {
                Some(g) => r matches Ok(req) && Self::built(*state, req),
                None => r matches Err(ProtocolError::Configuration(_)),
            },
    {
        let group_id = configured_group_id(state)?;
        Ok(
            HeartbeatRequest {
                group_id,
                generation_id: state.group_subscription.generation_id,
                member_id: state.group_subscription.member_id.clone(),
            },
        )
    }
}

/// A member that leaves the group, and why.
pub struct MemberIdentity {
    pub member_id: String,
    pub reason: Option<String>,
}

pub struct LeaveGroupRequest {
    pub group_id: String,
    pub members: Vec<MemberIdentity>,
}

pub struct LeaveGroupResponse {
    pub error_code: i16,
}

impl LeaveGroupRequest {
    /// The session's own member leaves, giving a fixed reason.
    pub open spec fn built(state: CallState, req: Self) -> bool {
        state.configuration.group_view() == Some(req.group_id@) && req.members@.len() == 1
            && req.members@[0].member_id@ == state.group_subscription.member_id@ && (
        req.members@[0].reason matches Some(s) && s@ == "the consumer is being closed"@)
    }

    pub fn create_request(state: &CallState) -> (r: Result<Self, ProtocolError>)
        ensures
            match state.configuration.group_view() {
                Some(g) => r matches Ok(req) && Self::built(*state, req),
                None => r matches Err(ProtocolError::Configuration(_)),
            },
    {
        let group_id = configured_group_id(state)?;
        let member = MemberIdentity {
            member_id: state.group_subscription.member_id.clone(),
            reason: Some("the consumer is being closed".to_owned()),
        };
        Ok(LeaveGroupRequest { group_id, members: vec![member] })
    }
}

impl LeaveGroupResponse {
    pub fn process_response(self, state: &mut CallState) -> (r: Result<(), ProtocolError>)
        ensures
            *final(state) == *old(state),
            self.error_code != 0 ==> r == Err::<(), ProtocolError>(
                ProtocolError::Broker { api_key: ApiKey::LeaveGroup, error_code: self.error_code },
            ),
            self.error_code == 0 ==> r is Ok,
    {
        if self.error_code != 0 {
            return Err(ProtocolError::Broker { api_key: ApiKey::LeaveGroup, error_code: self.error_code });
        }
        Ok(())
    }
}

} // verus!
