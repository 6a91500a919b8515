use vstd::prelude::*;

use crate::codec::ApiKey;
use crate::errors::ProtocolError;
use crate::state::{ApiVersionRange, Broker, BrokerMetadata, CallState, Topic};

verus! {

pub struct ApiVersionsRequest {
    pub client_software_name: String,
    pub client_software_version: String,
}

pub struct ApiVersionsResponse {
    pub error_code: i16,
    pub api_keys: Vec<ApiVersionRange>,
}

impl ApiVersionsRequest {
    /// The request names this client and its version, and nothing else.
    pub open spec fn built(state: CallState, req: Self) -> bool {
        req.client_software_name@ == "poc-kafka-caller-rs"@ && req.client_software_version@
            == "1.0.0"@
    }

    pub fn create_request(_state: &CallState) -> (r: Self)
        ensures
            Self::built(*_state, r),
    {
        ApiVersionsRequest {
            client_software_name: "poc-kafka-caller-rs".to_owned(),
            client_software_version: "1.0.0".to_owned(),
        }
    }
}

impl ApiVersionsResponse {
    /// Replaces the broker's version table with the one reported.
    pub fn process_response(self, state: &mut CallState) -> (r: Result<(), ProtocolError>)
        ensures
            self.error_code != 0 ==> r == Err::<(), ProtocolError>(
                ProtocolError::Broker { api_key: ApiKey::ApiVersions, error_code: self.error_code },
            ) && *final(state) == *old(state),
            self.error_code == 0 ==> r is Ok && *final(state) == (CallState {
                broker_api_versions: self.api_keys,
                ..*old(state)
            }),
    {
        if self.error_code != 0 {
            return Err(ProtocolError::Broker { api_key: ApiKey::ApiVersions, error_code: self.error_code });
        }
        state.broker_api_versions = self.api_keys;
        Ok(())
    }
}

} // verus!

verus! {

/// A topic named in a Metadata request; the broker resolves it by name,
/// so its identifier is left at zero.
pub struct MetadataRequestTopic {
    pub topic_id: u128,
    pub name: String,
}

pub struct MetadataRequest {
    pub topics: Vec<MetadataRequestTopic>,
}

pub struct MetadataResponse {
    pub cluster_id: Option<String>,
    pub controller_id: i32,
    pub brokers: Vec<Broker>,
    pub topics: Vec<Topic>,
}

impl MetadataRequest {
    /// One entry for each connected topic, in order, each with identifier zero.
    pub open spec fn built(state: CallState, req: Self) -> bool {
        &&& req.topics@.len() == state.connected_topics@.len()
        &&& forall|i: int|
            0 <= i < req.topics@.len() ==> #[trigger] req.topics@[i].name@
                == state.connected_topics@[i]@ && req.topics@[i].topic_id == 0
    }

    pub fn create_request(state: &CallState) -> (r: Self)
        ensures
            Self::built(*state, r),
    {
        let mut topics: Vec<MetadataRequestTopic> = Vec::new();
        let mut i: usize = 0;
        while i < state.connected_topics.len()
            invariant
                i <= state.connected_topics@.len(),
                topics@.len() == i,
                forall|k: int|
                    0 <= k < i ==> (#[trigger] topics@[k]).name@ == state.connected_topics@[k]@
                        && topics@[k].topic_id == 0,
            decreases state.connected_topics@.len() - i,
        {
            topics.push(MetadataRequestTopic { topic_id: 0, name: state.connected_topics[i].clone() });
            i = i + 1;
        }
        MetadataRequest { topics }
    }
}

impl MetadataResponse {
    /// Replaces the stored metadata with the reported one; a response
    /// without a cluster id is refused.
    pub fn process_response(self, state: &mut CallState) -> (r: Result<(), ProtocolError>)
        ensures
            self.cluster_id is None ==> r == Err::<(), ProtocolError>(ProtocolError::MissingClusterId)
                && *final(state) == *old(state),
            self.cluster_id matches Some(c) ==> r is Ok && *final(state) == (CallState {
                broker_metadata: BrokerMetadata {
                    cluster_id: c,
                    controller_id: self.controller_id,
                    brokers: self.brokers,
                    topics: self.topics,
                },
                ..*old(state)
            }),
    {
        match self.cluster_id {
            None => Err(ProtocolError::MissingClusterId),
            Some(cluster_id) => {
                state.broker_metadata = BrokerMetadata {
                    cluster_id,
                    controller_id: self.controller_id,
                    brokers: self.brokers,
                    topics: self.topics,
                };
                Ok(())
            },
        }
    }
}

pub struct InitProducerIdRequest {
    pub transactional_id: Option<String>,
    pub transaction_timeout_ms: i32,
}

pub struct InitProducerIdResponse {
    pub error_code: i16,
    pub producer_id: i64,
}

impl InitProducerIdRequest {
    /// A non-transactional request with the largest transaction timeout.
    pub open spec fn built(state: CallState, req: Self) -> bool {
        req.transactional_id is None && req.transaction_timeout_ms == i32::MAX
    }

    pub fn create_request(_state: &CallState) -> (r: Self)
        ensures
            Self::built(*_state, r),
    {
        InitProducerIdRequest { transactional_id: None, transaction_timeout_ms: i32::MAX }
    }
}

impl InitProducerIdResponse {
    /// Captures the producer id that the broker assigned.
    pub fn process_response(self, state: &mut CallState) -> (r: Result<(), ProtocolError>)
        ensures
            self.error_code != 0 ==> r == Err::<(), ProtocolError>(
                ProtocolError::Broker { api_key: ApiKey::InitProducerId, error_code: self.error_code },
            ) && *final(state) == *old(state),
            self.error_code == 0 ==> r is Ok && *final(state) == (CallState {
                producer_id: self.producer_id,
                ..*old(state)
            }),
    {
        if self.error_code != 0 {
            return Err(
                ProtocolError::Broker { api_key: ApiKey::InitProducerId, error_code: self.error_code },
            );
        }
        state.producer_id = self.producer_id;
        Ok(())
    }
}

} // verus!
