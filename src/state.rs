use vstd::prelude::*;

use crate::errors::KafkaCallerError;
use crate::records::{PutRecord, BatchRecord};
use crate::Configuration;

verus! {

/// The inclusive range of versions that the broker supports for one API key.
#[derive(Clone, Copy, Debug, PartialEq, Eq, Structural)]
pub struct ApiVersionRange {
    pub api_key: i16,
    pub min_version: i16,
    pub max_version: i16,
}

#[derive(Debug)]
pub struct Broker {
    pub id: i32,
    pub host: String,
    pub port: i32,
}

#[derive(Clone, Copy, Debug, PartialEq, Eq, Structural)]
pub struct Partition {
    pub index: i32,
    pub leader_id: i32,
}

/// A topic as the broker describes it; `id` is the topic's 128-bit identifier.
#[derive(Debug)]
pub struct Topic {
    pub id: u128,
    pub name: String,
    pub partitions: Vec<Partition>,
}

#[derive(Debug)]
pub struct BrokerMetadata {
    pub cluster_id: String,
    pub controller_id: i32,
    pub brokers: Vec<Broker>,
    pub topics: Vec<Topic>,
}

#[derive(Debug)]
pub struct Coordinator {
    pub group: String,
    pub node_id: i32,
    pub host: String,
    pub port: i32,
}

#[derive(Debug)]
pub struct SubscriptionMember {
    pub member_id: String,
    pub metadata: Vec<u8>,
}

#[derive(Debug)]
pub struct GroupSubscription {
    pub member_id: String,
    pub leader_id: String,
    pub generation_id: i32,
    pub subscriptions: Vec<SubscriptionMember>,
}

#[derive(Clone, Copy, Debug, PartialEq, Eq, Structural)]
pub struct PartitionOffsetState {
    pub commited_offset: i64,
    pub polled_offset: i64,
    pub error_code: i16,
}

impl PartitionOffsetState {
    pub fn new(index: i64) -> (r: Self)
        ensures
            r.commited_offset == index,
            r.polled_offset == -1,
            r.error_code == 0,
    {
        PartitionOffsetState { commited_offset: index, polled_offset: -1, error_code: 0 }
    }
}

/// The offsets kept for one partition of a topic.
#[derive(Clone, Copy, Debug, PartialEq, Eq, Structural)]
pub struct PartitionEntry {
    pub index: i32,
    pub offsets: PartitionOffsetState,
}

/// The offsets kept for the partitions of one topic.
#[derive(Debug)]
pub struct TopicOffsets {
    pub name: String,
    pub partitions: Vec<PartitionEntry>,
}

/// What a session has learned from the broker so far.
#[derive(Debug)]
pub struct CallState {
    pub configuration: Configuration,
    pub correlation_id: i32,
    pub broker_api_versions: Vec<ApiVersionRange>,
    pub connected_topics: Vec<String>,
    pub broker_metadata: BrokerMetadata,
    pub coordinators: Vec<Coordinator>,
    pub group_subscription: GroupSubscription,
    pub fetch_state: Vec<TopicOffsets>,
    pub producer_id: i64,
    pub records_to_send: Vec<PutRecord>,
}

/// `i` is the first position of `s` that holds the key `key`.
pub open spec fn first_version_at(s: Seq<ApiVersionRange>, key: i16, i: int) -> bool {
    0 <= i < s.len() && s[i].api_key == key && forall|j: int|
        0 <= j < i ==> s[j].api_key != key
}

pub open spec fn has_version(s: Seq<ApiVersionRange>, key: i16) -> bool {
    exists|i: int| 0 <= i < s.len() && s[i].api_key == key
}

pub open spec fn first_topic_at(s: Seq<Topic>, name: Seq<char>, i: int) -> bool {
    0 <= i < s.len() && s[i].name@ == name && forall|j: int| 0 <= j < i ==> s[j].name@ != name
}

pub open spec fn has_topic(s: Seq<Topic>, name: Seq<char>) -> bool {
    exists|i: int| 0 <= i < s.len() && s[i].name@ == name
}

pub open spec fn first_topic_id_at(s: Seq<Topic>, id: u128, i: int) -> bool {
    0 <= i < s.len() && s[i].id == id && forall|j: int| 0 <= j < i ==> s[j].id != id
}

pub open spec fn has_topic_id(s: Seq<Topic>, id: u128) -> bool {
    exists|i: int| 0 <= i < s.len() && s[i].id == id
}

pub open spec fn first_entry_at(s: Seq<PartitionEntry>, index: i32, i: int) -> bool {
    0 <= i < s.len() && s[i].index == index && forall|j: int| 0 <= j < i ==> s[j].index != index
}

pub open spec fn has_entry(s: Seq<PartitionEntry>, index: i32) -> bool {
    exists|i: int| 0 <= i < s.len() && s[i].index == index
}

pub fn find_version(s: &Vec<ApiVersionRange>, key: i16) -> (r: Option<usize>)
    ensures
        match r {
            Some(i) => first_version_at(s@, key, i as int),
            None => !has_version(s@, key),
        },
{
    let mut i: usize = 0;
    while i < s.len()
        invariant
            i <= s.len(),
            forall|j: int| 0 <= j < i ==> s@[j].api_key != key,
        decreases s.len() - i,
    {
        if s[i].api_key == key {
            return Some(i);
        }
        i = i + 1;
    }
    None
}

pub fn find_topic(s: &Vec<Topic>, name: &String) -> (r: Option<usize>)
    ensures
        match r {
            Some(i) => first_topic_at(s@, name@, i as int),
            None => !has_topic(s@, name@),
        },
{
    let mut i: usize = 0;
    while i < s.len()
        invariant
            i <= s.len(),
            forall|j: int| 0 <= j < i ==> s@[j].name@ != name@,
        decreases s.len() - i,
    {
        if s[i].name == *name {
            return Some(i);
        }
        i = i + 1;
    }
    None
}

pub fn find_topic_id(s: &Vec<Topic>, id: u128) -> (r: Option<usize>)
    ensures
        match r {
            Some(i) => first_topic_id_at(s@, id, i as int),
            None => !has_topic_id(s@, id),
        },
{
    let mut i: usize = 0;
    while i < s.len()
        invariant
            i <= s.len(),
            forall|j: int| 0 <= j < i ==> s@[j].id != id,
        decreases s.len() - i,
    {
        if s[i].id == id {
            return Some(i);
        }
        i = i + 1;
    }
    None
}

/// What the offsets of a topic say: its name and its partitions' entries.
pub open spec fn offsets_view(t: TopicOffsets) -> (Seq<char>, Seq<PartitionEntry>) {
    (t.name@, t.partitions@)
}

pub open spec fn fetch_view(s: Seq<TopicOffsets>) -> Seq<(Seq<char>, Seq<PartitionEntry>)> {
    s.map_values(|t: TopicOffsets| offsets_view(t))
}

/// `i` is the first position of `s` whose topic is `name`.
pub open spec fn first_view_at(s: Seq<(Seq<char>, Seq<PartitionEntry>)>, name: Seq<char>, i: int) -> bool {
    0 <= i < s.len() && s[i].0 == name && forall|j: int| 0 <= j < i ==> s[j].0 != name
}

pub open spec fn has_view(s: Seq<(Seq<char>, Seq<PartitionEntry>)>, name: Seq<char>) -> bool {
    exists|i: int| 0 <= i < s.len() && s[i].0 == name
}

/// The entry for (`name`, `index`) exists: the first topic of that name
/// holds a partition of that index.
pub open spec fn has_slot(s: Seq<(Seq<char>, Seq<PartitionEntry>)>, name: Seq<char>, index: i32) -> bool {
    exists|i: int| first_view_at(s, name, i) && exists|p: int| first_entry_at(s[i].1, index, p)
}

pub fn find_offsets(s: &Vec<TopicOffsets>, name: &String) -> (r: Option<usize>)
    ensures
        match r {
            Some(i) => first_view_at(fetch_view(s@), name@, i as int),
            None => !has_view(fetch_view(s@), name@),
        },
{
    let mut i: usize = 0;
    while i < s.len()
        invariant
            i <= s.len(),
            forall|j: int| 0 <= j < i ==> #[trigger] fetch_view(s@)[j].0 != name@,
        decreases s.len() - i,
    {
        if s[i].name == *name {
            return Some(i);
        }
        i = i + 1;
    }
    None
}

pub fn find_entry(s: &Vec<PartitionEntry>, index: i32) -> (r: Option<usize>)
    ensures
        match r {
            Some(i) => first_entry_at(s@, index, i as int),
            None => !has_entry(s@, index),
        },
{
    let mut i: usize = 0;
    while i < s.len()
        invariant
            i <= s.len(),
            forall|j: int| 0 <= j < i ==> s@[j].index != index,
        decreases s.len() - i,
    {
        if s[i].index == index {
            return Some(i);
        }
        i = i + 1;
    }
    None
}

/// A byte-for-byte copy.
pub fn copy_bytes(b: &Vec<u8>) -> (r: Vec<u8>)
    ensures
        r@ == b@,
{
    let mut r: Vec<u8> = Vec::new();
    let mut i: usize = 0;
    while i < b.len()
        invariant
            i <= b.len(),
            r@ == b@.subrange(0, i as int),
        decreases b.len() - i,
    {
        r.push(b[i]);
        i = i + 1;
        assert(r@ =~= b@.subrange(0, i as int));
    }
    assert(r@ =~= b@);
    r
}

pub fn copy_strings(v: &Vec<String>) -> (r: Vec<String>)
    ensures
        r@ == v@,
{
    let mut r: Vec<String> = Vec::new();
    let mut i: usize = 0;
    while i < v.len()
        invariant
            i <= v.len(),
            r@ == v@.subrange(0, i as int),
        decreases v.len() - i,
    {
        r.push(v[i].clone());
        i = i + 1;
        assert(r@ =~= v@.subrange(0, i as int));
    }
    assert(r@ =~= v@);
    r
}

impl BrokerMetadata {
    pub fn empty() -> (r: Self)
        ensures
            r.cluster_id@.len() == 0,
            r.controller_id == -1,
            r.brokers@.len() == 0,
            r.topics@.len() == 0,
    {
        BrokerMetadata {
            cluster_id: String::new(),
            controller_id: -1,
            brokers: Vec::new(),
            topics: Vec::new(),
        }
    }

    /// The name of the topic with identifier `topic_id`.
    pub fn topic_name_from_id(&self, topic_id: u128) -> (r: Result<String, KafkaCallerError>)
        ensures
            match r {
                Ok(n) => exists|i: int|
                    first_topic_id_at(self.topics@, topic_id, i) && n@ == self.topics@[i].name@,
                Err(_) => !has_topic_id(self.topics@, topic_id),
            },
    {
        match find_topic_id(&self.topics, topic_id) {
            Some(i) => Ok(self.topics[i].name.clone()),
            None => Err(KafkaCallerError::new("Could not find topic name for id")),
        }
    }
}

impl GroupSubscription {
    pub fn empty() -> (r: Self)
        ensures
            r.member_id@.len() == 0,
            r.leader_id@.len() == 0,
            r.generation_id == -1,
            r.subscriptions@.len() == 0,
    {
        GroupSubscription {
            member_id: String::new(),
            leader_id: String::new(),
            generation_id: -1,
            subscriptions: Vec::new(),
        }
    }
}

impl CallState {
    pub fn new(configuration: &Configuration) -> (r: Self)
        ensures
            r.configuration == *configuration,
            r.correlation_id == 0,
            r.broker_api_versions@.len() == 0,
            r.connected_topics@.len() == 0,
            r.broker_metadata.cluster_id@.len() == 0,
            r.broker_metadata.controller_id == -1,
            r.broker_metadata.brokers@.len() == 0,
            r.broker_metadata.topics@.len() == 0,
            r.coordinators@.len() == 0,
            r.group_subscription.member_id@.len() == 0,
            r.group_subscription.leader_id@.len() == 0,
            r.group_subscription.generation_id == -1,
            r.group_subscription.subscriptions@.len() == 0,
            r.fetch_state@.len() == 0,
            r.producer_id == -1,
            r.records_to_send@.len() == 0,
    {
        CallState {
            configuration: configuration.duplicate(),
            correlation_id: 0,
            broker_api_versions: Vec::new(),
            connected_topics: Vec::new(),
            broker_metadata: BrokerMetadata::empty(),
            coordinators: Vec::new(),
            group_subscription: GroupSubscription::empty(),
            fetch_state: Vec::new(),
            producer_id: -1,
            records_to_send: Vec::new(),
        }
    }

    /// Hands out the current correlation id and moves the counter on by one,
    /// wrapping around at the end of the 32-bit range.
    pub fn next_correlation_id(&mut self) -> (r: i32)
        ensures
            r == old(self).correlation_id,
            final(self).correlation_id == (if old(self).correlation_id == i32::MAX {
                i32::MIN
            } else {
                (old(self).correlation_id + 1) as i32
            }),
            final(self).configuration == old(self).configuration,
            final(self).broker_api_versions == old(self).broker_api_versions,
            final(self).connected_topics == old(self).connected_topics,
            final(self).broker_metadata == old(self).broker_metadata,
            final(self).coordinators == old(self).coordinators,
            final(self).group_subscription == old(self).group_subscription,
            final(self).fetch_state == old(self).fetch_state,
            final(self).producer_id == old(self).producer_id,
            final(self).records_to_send == old(self).records_to_send,
    {
        let r = self.correlation_id;
        self.correlation_id = if r == i32::MAX {
            i32::MIN
        } else {
            r + 1
        };
        r
    }
}

} // verus!
