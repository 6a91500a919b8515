use vstd::prelude::*;

pub mod batch;
pub mod cluster;
pub mod codec;
pub mod errors;
pub mod fetch;
pub mod group;
pub mod offsets;
pub mod produce;
pub mod records;
pub mod session;
pub mod state;
pub mod wire;

pub use errors::{KafkaCallerError, ProtocolError};
pub use records::{BatchRecord, PutRecord, RecordHeader, TimestampType};
pub use session::{ConsumerSession, ConsumerStep, ProducerSession, ProducerStep};
pub use state::{CallState, PartitionOffsetState};

verus! {

/// The immutable role of a session: a consumer in a group, or a producer.
#[derive(Debug)]
pub enum Configuration {
    ConsumerConfiguration { broker_address: String, client_id: String, group_id: String },
    ProducerConfiguration { broker_address: String, client_id: String },
}

impl Configuration {
    pub open spec fn client_id_view(&self) -> Seq<char> {
        match self {
            Configuration::ConsumerConfiguration { client_id, .. } => client_id@,
            Configuration::ProducerConfiguration { client_id, .. } => client_id@,
        }
    }

    /// The group id of a consumer configuration; none for a producer.
    pub open spec fn group_view(&self) -> Option<Seq<char>> {
        match self {
            Configuration::ConsumerConfiguration { group_id, .. } => Some(group_id@),
            Configuration::ProducerConfiguration { .. } => None,
        }
    }

    pub open spec fn is_consumer(&self) -> bool {
        self is ConsumerConfiguration
    }

    pub fn client_id(&self) -> (r: String)
        ensures
            r@ == self.client_id_view(),
    {
        match self {
            Configuration::ProducerConfiguration { client_id, .. } => client_id.clone(),
            Configuration::ConsumerConfiguration { client_id, .. } => client_id.clone(),
        }
    }

    pub fn group_id(&self) -> (r: Result<String, KafkaCallerError>)
        ensures
            match self {
                Configuration::ConsumerConfiguration { group_id, .. } => r matches Ok(g) && g@
                    == group_id@,
                Configuration::ProducerConfiguration { .. } => r is Err,
            },
    {
        match self {
            Configuration::ConsumerConfiguration { group_id, .. } => Ok(group_id.clone()),
            _ => Err(KafkaCallerError::new("Not supported for producer configuration")),
        }
    }

    /// An identical copy of the configuration.
    pub fn duplicate(&self) -> (r: Configuration)
        ensures
            r == *self,
    {
        match self {
            Configuration::ConsumerConfiguration { broker_address, client_id, group_id } => {
                Configuration::ConsumerConfiguration {
                    broker_address: broker_address.clone(),
                    client_id: client_id.clone(),
                    group_id: group_id.clone(),
                }
            },
            Configuration::ProducerConfiguration { broker_address, client_id } => {
                Configuration::ProducerConfiguration {
                    broker_address: broker_address.clone(),
                    client_id: client_id.clone(),
                }
            },
        }
    }
}

} // verus!
