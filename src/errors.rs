use vstd::prelude::*;

verus! {

/// A local invariant violation, described in words.
#[derive(Debug)]
pub struct KafkaCallerError(pub String);

impl KafkaCallerError {
    pub fn new(description: &str) -> (r: Self)
        ensures
            r.0@ == description@,
    {
        KafkaCallerError(description.to_owned())
    }

    /// The text of the error, as given at construction.
    pub fn description(&self) -> (r: String)
        ensures
            r@ == self.0@,
    {
        self.0.clone()
    }
}

} // verus!

verus! {

/// Why a protocol operation failed.
#[derive(Debug)]
pub enum ProtocolError {
    /// The broker answered with a non-zero error code.
    Broker { api_key: crate::codec::ApiKey, error_code: i16 },
    /// The configuration has no value for what the request needs.
    Configuration(KafkaCallerError),
    /// The broker's advertised versions do not list this API key.
    UnknownApiKey { key: i16 },
    /// A Metadata response without a cluster id.
    MissingClusterId,
    /// The stored metadata has no topic of this name.
    UnknownTopic { name: String },
    /// The stored metadata lists no partition for this topic.
    NoPartitions { name: String },
    /// The stored metadata has no topic with this identifier.
    UnknownTopicId { id: u128 },
    /// The offsets kept for the session have no entry for this partition.
    UnknownPartition { name: String, index: i32 },
    /// A polled offset is the largest one, so the next one cannot be committed.
    OffsetOverflow,
    /// A message could not be encoded.
    Encode,
    /// A message could not be decoded.
    Decode,
    /// A frame would be longer than its 32-bit length prefix can say.
    FrameTooLong,
    /// A response arrived where none was awaited, or of another API.
    UnexpectedResponse,
    /// A request body was handed to the codec of another API.
    WrongApi,
}

} // verus!
