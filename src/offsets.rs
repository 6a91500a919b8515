use vstd::prelude::*;

use crate::codec::ApiKey;
use crate::errors::ProtocolError;
use crate::group::configured_group_id;
use crate::state::{
    fetch_view, find_entry, find_offsets, find_topic, first_entry_at, first_topic_at, first_view_at,
    has_entry, has_slot, has_topic, has_view, CallState, Partition,
    PartitionEntry, PartitionOffsetState, Topic, TopicOffsets,
};

verus! {

pub type FetchView = Seq<(Seq<char>, Seq<PartitionEntry>)>;

pub struct OffsetFetchRequestTopic {
    pub name: String,
    pub partition_indexes: Vec<i32>,
}

pub struct OffsetFetchRequest {
    pub group_id: String,
    pub topics: Vec<OffsetFetchRequestTopic>,
}

/// The committed offset that the broker reports for one partition.
#[derive(Clone, Copy, Debug, PartialEq, Eq, Structural)]
pub struct CommittedOffset {
    pub partition_index: i32,
    pub committed_offset: i64,
}

pub struct OffsetFetchTopic {
    pub name: String,
    pub partitions: Vec<CommittedOffset>,
}

pub struct OffsetFetchResponse {
    pub error_code: i16,
    pub topics: Vec<OffsetFetchTopic>,
}

pub open spec fn partition_indexes_of(parts: Seq<Partition>) -> Seq<i32> {
    parts.map_values(|p: Partition| p.index)
}

/// Every connected topic is described in the stored metadata.
pub open spec fn all_topics_known(connected: Seq<String>, topics: Seq<Topic>) -> bool {
    forall|i: int| 0 <= i < connected.len() ==> has_topic(topics, #[trigger] connected[i]@)
}

pub fn partition_indexes(parts: &Vec<Partition>) -> (r: Vec<i32>)
    ensures
        r@ == partition_indexes_of(parts@),
{
    let mut r: Vec<i32> = Vec::new();
    let mut i: usize = 0;
    while i < parts.len()
        invariant
            i <= parts@.len(),
            r@ == partition_indexes_of(parts@.subrange(0, i as int)),
        decreases parts@.len() - i,
    {
        r.push(parts[i].index);
        i = i + 1;
        assert(r@ =~= partition_indexes_of(parts@.subrange(0, i as int)));
    }
    assert(parts@.subrange(0, parts@.len() as int) =~= parts@);
    r
}

impl OffsetFetchRequest {
    pub open spec fn built(state: CallState, req: Self) -> bool {
        let meta = state.broker_metadata.topics@;
        let connected = state.connected_topics@;
        &&& state.configuration.group_view() == Some(req.group_id@)
        &&& req.topics@.len() == connected.len()
        &&& forall|i: int|
            0 <= i < connected.len() ==> (#[trigger] req.topics@[i]).name@
                == connected[i]@ && exists|t: int|
                first_topic_at(meta, connected[i]@, t) && req.topics@[i].partition_indexes@
                    == partition_indexes_of(meta[t].partitions@)
    }

    /// Asks, under the group id, for every connected topic with the partition
    /// indices that the stored metadata lists for it.
    pub fn create_request(state: &CallState) -> (r: Result<Self, ProtocolError>)
        ensures
            state.configuration.group_view() is None ==> r matches Err(
                ProtocolError::Configuration(_),
            ),
            state.configuration.group_view() is Some && !all_topics_known(
                state.connected_topics@,
                state.broker_metadata.topics@,
            ) ==> (r matches Err(ProtocolError::UnknownTopic { name }) && !has_topic(
                state.broker_metadata.topics@,
                name@,
            )),
            r matches Ok(req) ==> Self::built(*state, req),
            state.configuration.group_view() is Some && all_topics_known(
                state.connected_topics@,
                state.broker_metadata.topics@,
            ) ==> r is Ok,
    {
        let group_id = configured_group_id(state)?;
        let meta = &state.broker_metadata.topics;
        let connected = &state.connected_topics;
        let mut topics: Vec<OffsetFetchRequestTopic> = Vec::new();
        let mut i: usize = 0;
        while i < connected.len()
            invariant
                i <= connected@.len(),
                topics@.len() == i,
                state.configuration.group_view() == Some(group_id@),
                meta@ == state.broker_metadata.topics@,
                connected@ == state.connected_topics@,
                forall|k: int| 0 <= k < i ==> has_topic(meta@, #[trigger] connected@[k]@),
                forall|k: int|
                    0 <= k < i ==> (#[trigger] topics@[k]).name@ == connected@[k]@ && exists|t: int|
                        first_topic_at(meta@, connected@[k]@, t) && topics@[k].partition_indexes@
                            == partition_indexes_of(meta@[t].partitions@),
            decreases connected@.len() - i,
        {
            match find_topic(meta, &connected[i]) {
                Some(t) => {
                    topics.push(
                        OffsetFetchRequestTopic {
                            name: connected[i].clone(),
                            partition_indexes: partition_indexes(&meta[t].partitions),
                        },
                    );
                },
                None => {
                    assert(!has_topic(meta@, connected@[i as int]@));
                    return Err(ProtocolError::UnknownTopic { name: connected[i].clone() });
                },
            }
            i = i + 1;
        }
        Ok(OffsetFetchRequest { group_id, topics })
    }
}

/// The entries that a topic first seen in OffsetFetch starts with: the
/// committed offset reported, nothing polled yet, no error.
pub open spec fn seeded_entries(ps: Seq<CommittedOffset>) -> Seq<PartitionEntry> {
    ps.map_values(
        |p: CommittedOffset|
            PartitionEntry {
                index: p.partition_index,
                offsets: PartitionOffsetState {
                    commited_offset: p.committed_offset,
                    polled_offset: -1i64,
                    error_code: 0i16,
                },
            },
    )
}

/// The offsets after seeding from `topics` in order: a topic is added only
/// where none of its name is kept yet.
pub open spec fn seed(fs: FetchView, topics: Seq<OffsetFetchTopic>) -> FetchView
    decreases topics.len(),
{
    if topics.len() == 0 {
        fs
    } else {
        let prev = seed(fs, topics.drop_last());
        let t = topics.last();
        if has_view(prev, t.name@) {
            prev
        } else {
            prev.push((t.name@, seeded_entries(t.partitions@)))
        }
    }
}

pub fn seeded_partitions(ps: &Vec<CommittedOffset>) -> (r: Vec<PartitionEntry>)
    ensures
        r@ == seeded_entries(ps@),
{
    let mut r: Vec<PartitionEntry> = Vec::new();
    let mut i: usize = 0;
    while i < ps.len()
        invariant
            i <= ps@.len(),
            r@ == seeded_entries(ps@.subrange(0, i as int)),
        decreases ps@.len() - i,
    {
        r.push(
            PartitionEntry {
                index: ps[i].partition_index,
                offsets: PartitionOffsetState::new(ps[i].committed_offset),
            },
        );
        i = i + 1;
        assert(r@ =~= seeded_entries(ps@.subrange(0, i as int)));
    }
    assert(ps@.subrange(0, ps@.len() as int) =~= ps@);
    r
}

impl OffsetFetchResponse {
    /// Seeds the offsets of each reported topic that is not kept yet; the
    /// offsets of topics already kept stay as they are.
    pub fn process_response(self, state: &mut CallState) -> (r: Result<(), ProtocolError>)
        ensures
            self.error_code != 0 ==> r == Err::<(), ProtocolError>(
                ProtocolError::Broker { api_key: ApiKey::OffsetFetch, error_code: self.error_code },
            ) && *final(state) == *old(state),
            self.error_code == 0 ==> r is Ok && *final(state) == (CallState {
                fetch_state: final(state).fetch_state,
                ..*old(state)
            }) && fetch_view(final(state).fetch_state@) == seed(
                fetch_view(old(state).fetch_state@),
                self.topics@,
            ),
    {
        if self.error_code != 0 {
            return Err(ProtocolError::Broker { api_key: ApiKey::OffsetFetch, error_code: self.error_code });
        }
        let ghost fs0 = fetch_view(state.fetch_state@);
        let mut i: usize = 0;
        while i < self.topics.len()
            invariant
                i <= self.topics@.len(),
                *state == (CallState { fetch_state: state.fetch_state, ..*old(state) }),
                fetch_view(state.fetch_state@) == seed(fs0, self.topics@.subrange(0, i as int)),
                fs0 == fetch_view(old(state).fetch_state@),
            decreases self.topics@.len() - i,
        {
            let topic = &self.topics[i];
            assert(self.topics@.subrange(0, i + 1).drop_last() =~= self.topics@.subrange(0, i as int));
            match find_offsets(&state.fetch_state, &topic.name) {
                Some(_) => {},
                None => {
                    let ghost before = state.fetch_state@;
                    state.fetch_state.push(
                        TopicOffsets {
                            name: topic.name.clone(),
                            partitions: seeded_partitions(&topic.partitions),
                        },
                    );
                    assert(fetch_view(state.fetch_state@) =~= fetch_view(before).push(
                        (topic.name@, seeded_entries(topic.partitions@)),
                    ));
                },
            }
            i = i + 1;
        }
        assert(self.topics@.subrange(0, self.topics@.len() as int) =~= self.topics@);
        Ok(())
    }
}

/// Seeding never touches the offsets already kept: what stood at each
/// position before stands there after, so seeding twice does not reset a
/// committed offset.
pub proof fn lemma_seed_keeps_existing(fs: FetchView, topics: Seq<OffsetFetchTopic>)
    ensures
        seed(fs, topics).len() >= fs.len(),
        forall|i: int| 0 <= i < fs.len() ==> #[trigger] seed(fs, topics)[i] == fs[i],
    decreases topics.len(),
{
    if topics.len() > 0 {
        lemma_seed_keeps_existing(fs, topics.drop_last());
    }
}

} // verus!

verus! {

/// The timestamp that ListOffsets asks about: the protocol's marker for the
/// earliest offset still held.
pub const EARLIEST_TIMESTAMP: i64 = -2;

#[derive(Clone, Copy, Debug, PartialEq, Eq, Structural)]
pub struct PartitionOffsetQuery {
    pub partition_index: i32,
    pub timestamp: i64,
}

pub struct TopicOffsetQuery {
    pub name: String,
    pub partitions: Vec<PartitionOffsetQuery>,
}

pub struct ListOffsetsRequest {
    pub replica_id: i32,
    pub isolation_level: i8,
    pub topics: Vec<TopicOffsetQuery>,
}

/// The offset that ListOffsets reports for one partition of a topic.
pub struct ListedOffset {
    pub topic: String,
    pub partition_index: i32,
    pub offset: i64,
}

pub struct ListOffsetsResponse {
    pub partitions: Vec<ListedOffset>,
}

pub open spec fn list_partitions_of(entries: Seq<PartitionEntry>) -> Seq<PartitionOffsetQuery> {
    entries.map_values(
        |e: PartitionEntry| PartitionOffsetQuery { partition_index: e.index, timestamp: -2i64 },
    )
}

/// Every connected topic has offsets kept for it.
pub open spec fn all_topics_kept(connected: Seq<String>, fs: FetchView) -> bool {
    forall|i: int| 0 <= i < connected.len() ==> has_view(fs, #[trigger] connected[i]@)
}

pub fn list_partitions(entries: &Vec<PartitionEntry>) -> (r: Vec<PartitionOffsetQuery>)
    ensures
        r@ == list_partitions_of(entries@),
{
    let mut r: Vec<PartitionOffsetQuery> = Vec::new();
    let mut i: usize = 0;
    while i < entries.len()
        invariant
            i <= entries@.len(),
            r@ == list_partitions_of(entries@.subrange(0, i as int)),
        decreases entries@.len() - i,
    {
        r.push(PartitionOffsetQuery { partition_index: entries[i].index, timestamp: EARLIEST_TIMESTAMP });
        i = i + 1;
        assert(r@ =~= list_partitions_of(entries@.subrange(0, i as int)));
    }
    assert(entries@.subrange(0, entries@.len() as int) =~= entries@);
    r
}

impl ListOffsetsRequest {
    pub open spec fn built(state: CallState, req: Self) -> bool {
        let fs = fetch_view(state.fetch_state@);
        let connected = state.connected_topics@;
        &&& req.replica_id == -1
        &&& req.isolation_level == 0
        &&& req.topics@.len() == connected.len()
        &&& forall|i: int|
            0 <= i < connected.len() ==> (#[trigger] req.topics@[i]).name@
                == connected[i]@ && exists|t: int|
                first_view_at(fs, connected[i]@, t) && req.topics@[i].partitions@
                    == list_partitions_of(fs[t].1)
    }

    /// For each connected topic, asks about every partition whose offsets
    /// are kept, at the earliest-offset marker.
    pub fn create_request(state: &CallState) -> (r: Result<Self, ProtocolError>)
        ensures
            !all_topics_kept(state.connected_topics@, fetch_view(state.fetch_state@)) ==> (
            r matches Err(ProtocolError::UnknownTopic { name }) && !has_view(
                fetch_view(state.fetch_state@),
                name@,
            )),
            all_topics_kept(state.connected_topics@, fetch_view(state.fetch_state@)) ==> (
            r matches Ok(req) && Self::built(*state, req)),
    {
        let fs = &state.fetch_state;
        let connected = &state.connected_topics;
        let mut topics: Vec<TopicOffsetQuery> = Vec::new();
        let mut i: usize = 0;
        while i < connected.len()
            invariant
                i <= connected@.len(),
                topics@.len() == i,
                fs@ == state.fetch_state@,
                connected@ == state.connected_topics@,
                forall|k: int| 0 <= k < i ==> has_view(fetch_view(fs@), #[trigger] connected@[k]@),
                forall|k: int|
                    0 <= k < i ==> (#[trigger] topics@[k]).name@ == connected@[k]@ && exists|t: int|
                        first_view_at(fetch_view(fs@), connected@[k]@, t) && topics@[k].partitions@
                            == list_partitions_of(fetch_view(fs@)[t].1),
            decreases connected@.len() - i,
        {
            match find_offsets(fs, &connected[i]) {
                Some(t) => {
                    assert(fetch_view(fs@)[t as int].1 == fs@[t as int].partitions@);
                    topics.push(
                        TopicOffsetQuery {
                            name: connected[i].clone(),
                            partitions: list_partitions(&fs[t].partitions),
                        },
                    );
                },
                None => {
                    assert(!has_view(fetch_view(fs@), connected@[i as int]@));
                    return Err(ProtocolError::UnknownTopic { name: connected[i].clone() });
                },
            }
            i = i + 1;
        }
        Ok(ListOffsetsRequest { replica_id: -1, isolation_level: 0, topics })
    }
}

/// The partition of `offset` is known: its topic's offsets are kept and
/// hold an entry of its index.
pub open spec fn listed_known(fs: FetchView, o: ListedOffset) -> bool {
    has_slot(fs, o.topic@, o.partition_index)
}

/// The state after one reported offset: the kept committed offset of its
/// partition moves up to it if it is greater, and never down.
pub open spec fn ratchet_one(fs: FetchView, o: ListedOffset) -> FetchView {
    if exists|t: int| first_view_at(fs, o.topic@, t) {
        let t = choose|t: int| first_view_at(fs, o.topic@, t);
        let parts = fs[t].1;
        if exists|p: int| first_entry_at(parts, o.partition_index, p) {
            let p = choose|p: int| first_entry_at(parts, o.partition_index, p);
            let e = parts[p];
            if o.offset > e.offsets.commited_offset {
                fs.update(
                    t,
                    (
                        fs[t].0,
                        parts.update(
                            p,
                            PartitionEntry {
                                offsets: PartitionOffsetState { commited_offset: o.offset, ..e.offsets },
                                ..e
                            },
                        ),
                    ),
                )
            } else {
                fs
            }
        } else {
            fs
        }
    } else {
        fs
    }
}

pub open spec fn ratchet_all(fs: FetchView, os: Seq<ListedOffset>) -> FetchView
    decreases os.len(),
{
    if os.len() == 0 {
        fs
    } else {
        ratchet_one(ratchet_all(fs, os.drop_last()), os.last())
    }
}

proof fn lemma_first_view_unique(fs: FetchView, name: Seq<char>, a: int, b: int)
    requires
        first_view_at(fs, name, a),
        first_view_at(fs, name, b),
    ensures
        a == b,
{
}

proof fn lemma_first_entry_unique(s: Seq<PartitionEntry>, index: i32, a: int, b: int)
    requires
        first_entry_at(s, index, a),
        first_entry_at(s, index, b),
    ensures
        a == b,
{
}

/// Sets the entry at (`t`, `p`) of the kept offsets.
pub fn set_entry(fs: &mut Vec<TopicOffsets>, t: usize, p: usize, e: PartitionEntry)
    requires
        t < old(fs)@.len(),
        p < old(fs)@[t as int].partitions@.len(),
    ensures
        fetch_view(final(fs)@) == fetch_view(old(fs)@).update(
            t as int,
            (old(fs)@[t as int].name@, old(fs)@[t as int].partitions@.update(p as int, e)),
        ),
{
    let mut topic = fs.remove(t);
    topic.partitions.set(p, e);
    fs.insert(t, topic);
    assert(fetch_view(fs@) =~= fetch_view(old(fs)@).update(
        t as int,
        (old(fs)@[t as int].name@, old(fs)@[t as int].partitions@.update(p as int, e)),
    ));
}

impl ListOffsetsResponse {
    /// Moves each reported partition's committed offset up to the reported
    /// offset where that is greater. A partition whose offsets are not kept
    /// fails the whole response, with nothing changed.
    pub fn process_response(self, state: &mut CallState) -> (r: Result<(), ProtocolError>)
        ensures
            (forall|k: int|
                0 <= k < self.partitions@.len() ==> listed_known(
                    fetch_view(old(state).fetch_state@),
                    #[trigger] self.partitions@[k],
                )) ==> r is Ok && *final(state) == (CallState {
                fetch_state: final(state).fetch_state,
                ..*old(state)
            }) && fetch_view(final(state).fetch_state@) == ratchet_all(
                fetch_view(old(state).fetch_state@),
                self.partitions@,
            ),
            !(forall|k: int|
                0 <= k < self.partitions@.len() ==> listed_known(
                    fetch_view(old(state).fetch_state@),
                    #[trigger] self.partitions@[k],
                )) ==> (r matches Err(ProtocolError::UnknownPartition { .. }) && *final(state)
                == *old(state)),
    {
        let ghost fs0 = fetch_view(state.fetch_state@);
        let mut k: usize = 0;
        while k < self.partitions.len()
            invariant
                k <= self.partitions@.len(),
                *state == *old(state),
                fs0 == fetch_view(old(state).fetch_state@),
                forall|j: int| 0 <= j < k ==> listed_known(fs0, #[trigger] self.partitions@[j]),
            decreases self.partitions@.len() - k,
        {
            let o = &self.partitions[k];
            let known = match find_offsets(&state.fetch_state, &o.topic) {
                Some(t) => {
                    assert(fs0[t as int].1 == state.fetch_state@[t as int].partitions@);
                    match find_entry(&state.fetch_state[t].partitions, o.partition_index) {
                        Some(_) => true,
                        None => {
                            assert forall|t2: int| first_view_at(fs0, o.topic@, t2) implies !(exists|
                                p: int,
                            | first_entry_at(fs0[t2].1, o.partition_index, p)) by {
                                lemma_first_view_unique(fs0, o.topic@, t as int, t2);
                            }
                            false
                        },
                    }
                },
                None => false,
            };
            if !known {
                return Err(
                    ProtocolError::UnknownPartition {
                        name: o.topic.clone(),
                        index: o.partition_index,
                    },
                );
            }
            k = k + 1;
        }
        let mut k: usize = 0;
        while k < self.partitions.len()
            invariant
                k <= self.partitions@.len(),
                *state == (CallState { fetch_state: state.fetch_state, ..*old(state) }),
                fs0 == fetch_view(old(state).fetch_state@),
                fetch_view(state.fetch_state@) == ratchet_all(
                    fs0,
                    self.partitions@.subrange(0, k as int),
                ),
            decreases self.partitions@.len() - k,
        {
            let o = &self.partitions[k];
            let ghost prev = fetch_view(state.fetch_state@);
            assert(self.partitions@.subrange(0, k + 1).drop_last() =~= self.partitions@.subrange(
                0,
                k as int,
            ));
            match find_offsets(&state.fetch_state, &o.topic) {
                Some(t) => {
                    proof {
                        let tc = choose|t2: int| first_view_at(prev, o.topic@, t2);
                        lemma_first_view_unique(prev, o.topic@, t as int, tc);
                    }
                    assert(prev[t as int].1 == state.fetch_state@[t as int].partitions@);
                    match find_entry(&state.fetch_state[t].partitions, o.partition_index) {
                        Some(p) => {
                            proof {
                                let parts = prev[t as int].1;
                                let pc = choose|p2: int| first_entry_at(parts, o.partition_index, p2);
                                lemma_first_entry_unique(parts, o.partition_index, p as int, pc);
                            }
                            let e = state.fetch_state[t].partitions[p];
                            if o.offset > e.offsets.commited_offset {
                                let n = PartitionEntry {
                                    offsets: PartitionOffsetState { commited_offset: o.offset, ..e.offsets },
                                    ..e
                                };
                                set_entry(&mut state.fetch_state, t, p, n);
                            }
                        },
                        None => {},
                    }
                },
                None => {},
            }
            k = k + 1;
        }
        assert(self.partitions@.subrange(0, self.partitions@.len() as int) =~= self.partitions@);
        Ok(())
    }
}

/// The committed offset of every kept partition only grows under ListOffsets.
pub proof fn lemma_ratchet_never_decreases(fs: FetchView, os: Seq<ListedOffset>)
    ensures
        ratchet_all(fs, os).len() == fs.len(),
        forall|t: int|
            0 <= t < fs.len() ==> (#[trigger] ratchet_all(fs, os)[t]).0 == fs[t].0
                && ratchet_all(fs, os)[t].1.len() == fs[t].1.len(),
        forall|t: int, p: int|
            0 <= t < fs.len() && 0 <= p < fs[t].1.len() ==> (#[trigger] ratchet_all(
                fs,
                os,
            )[t].1[p]).offsets.commited_offset >= fs[t].1[p].offsets.commited_offset,
    decreases os.len(),
{
    if os.len() > 0 {
        lemma_ratchet_never_decreases(fs, os.drop_last());
        let prev = ratchet_all(fs, os.drop_last());
        let o = os.last();
        assert forall|t: int, p: int|
            0 <= t < fs.len() && 0 <= p < fs[t].1.len() implies (#[trigger] ratchet_all(
                fs,
                os,
            )[t].1[p]).offsets.commited_offset >= fs[t].1[p].offsets.commited_offset by {
            assert(prev[t].1[p].offsets.commited_offset >= fs[t].1[p].offsets.commited_offset);
        }
    }
}

} // verus!

verus! {

#[derive(Clone, Copy, Debug, PartialEq, Eq, Structural)]
pub struct OffsetCommitPartition {
    pub partition_index: i32,
    pub committed_offset: i64,
    pub committed_leader_epoch: i32,
}

pub struct OffsetCommitTopic {
    pub name: String,
    pub partitions: Vec<OffsetCommitPartition>,
}

pub struct OffsetCommitRequest {
    pub group_id: String,
    pub member_id: String,
    pub generation_id_or_member_epoch: i32,
    pub topics: Vec<OffsetCommitTopic>,
}

/// What is committed for a partition: the offset after the last one polled.
pub open spec fn commit_of(e: PartitionEntry) -> OffsetCommitPartition {
    OffsetCommitPartition {
        partition_index: e.index,
        committed_offset: (e.offsets.polled_offset + 1) as i64,
        committed_leader_epoch: -1i32,
    }
}

/// The commits for the partitions of a topic that have no error, in order.
pub open spec fn commit_partitions(entries: Seq<PartitionEntry>) -> Seq<OffsetCommitPartition>
    decreases entries.len(),
{
    if entries.len() == 0 {
        Seq::empty()
    } else {
        let prev = commit_partitions(entries.drop_last());
        if entries.last().offsets.error_code == 0 {
            prev.push(commit_of(entries.last()))
        } else {
            prev
        }
    }
}

/// Some partition to commit has polled the largest offset there is.
pub open spec fn commit_overflows(fs: FetchView) -> bool {
    exists|t: int, p: int|
        0 <= t < fs.len() && 0 <= p < fs[t].1.len() && fs[t].1[p].offsets.error_code == 0
            && fs[t].1[p].offsets.polled_offset == i64::MAX
}

pub fn commit_partitions_for(entries: &Vec<PartitionEntry>) -> (r: Option<Vec<OffsetCommitPartition>>)
    ensures
        match r {
            Some(v) => v@ == commit_partitions(entries@) && forall|p: int|
                0 <= p < entries@.len() ==> !(entries@[p].offsets.error_code == 0
                    && entries@[p].offsets.polled_offset == i64::MAX),
            None => exists|p: int|
                0 <= p < entries@.len() && entries@[p].offsets.error_code == 0
                    && entries@[p].offsets.polled_offset == i64::MAX,
        },
{
    let mut r: Vec<OffsetCommitPartition> = Vec::new();
    let mut i: usize = 0;
    while i < entries.len()
        invariant
            i <= entries@.len(),
            r@ == commit_partitions(entries@.subrange(0, i as int)),
            forall|p: int|
                0 <= p < i ==> !(entries@[p].offsets.error_code == 0
                    && entries@[p].offsets.polled_offset == i64::MAX),
        decreases entries@.len() - i,
    {
        let e = entries[i];
        assert(entries@.subrange(0, i + 1).drop_last() =~= entries@.subrange(0, i as int));
        if e.offsets.error_code == 0 {
            if e.offsets.polled_offset == i64::MAX {
                return None;
            }
            r.push(
                OffsetCommitPartition {
                    partition_index: e.index,
                    committed_offset: e.offsets.polled_offset + 1,
                    committed_leader_epoch: -1,
                },
            );
        }
        i = i + 1;
    }
    assert(entries@.subrange(0, entries@.len() as int) =~= entries@);
    Some(r)
}

impl OffsetCommitRequest {
    pub open spec fn built(state: CallState, req: Self) -> bool {
        let fs = fetch_view(state.fetch_state@);
        &&& state.configuration.group_view() == Some(req.group_id@)
        &&& req.member_id@ == state.group_subscription.member_id@
        &&& req.generation_id_or_member_epoch == state.group_subscription.generation_id
        &&& req.topics@.len() == fs.len()
        &&& forall|i: int|
            0 <= i < fs.len() ==> (#[trigger] req.topics@[i]).name@ == fs[i].0
                && req.topics@[i].partitions@ == commit_partitions(fs[i].1)
    }

    /// Commits, for every kept partition without an error, the offset after
    /// the last one polled.
    pub fn create_request(state: &CallState) -> (r: Result<Self, ProtocolError>)
        ensures
            state.configuration.group_view() is None ==> r matches Err(
                ProtocolError::Configuration(_),
            ),
            state.configuration.group_view() is Some ==> (commit_overflows(
                fetch_view(state.fetch_state@),
            ) <==> r == Err::<Self, ProtocolError>(ProtocolError::OffsetOverflow)),
            r matches Ok(req) ==> Self::built(*state, req),
            state.configuration.group_view() is Some && !commit_overflows(
                fetch_view(state.fetch_state@),
            ) ==> r is Ok,
    {
        let group_id = configured_group_id(state)?;
        let fs = &state.fetch_state;
        let mut topics: Vec<OffsetCommitTopic> = Vec::new();
        let mut i: usize = 0;
        while i < fs.len()
            invariant
                i <= fs@.len(),
                topics@.len() == i,
                fs@ == state.fetch_state@,
                state.configuration.group_view() == Some(group_id@),
                forall|k: int|
                    0 <= k < i ==> (#[trigger] topics@[k]).name@ == fetch_view(fs@)[k].0
                        && topics@[k].partitions@ == commit_partitions(fetch_view(fs@)[k].1),
                forall|t: int, p: int|
                    0 <= t < i && 0 <= p < fetch_view(fs@)[t].1.len() ==> !(
                    fetch_view(fs@)[t].1[p].offsets.error_code == 0 && fetch_view(
                        fs@,
                    )[t].1[p].offsets.polled_offset == i64::MAX),
            decreases fs@.len() - i,
        {
            assert(fetch_view(fs@)[i as int] == (fs@[i as int].name@, fs@[i as int].partitions@));
            match commit_partitions_for(&fs[i].partitions) {
                Some(partitions) => {
                    topics.push(OffsetCommitTopic { name: fs[i].name.clone(), partitions });
                },
                None => {
                    let ghost p = choose|p: int|
                        0 <= p < fs@[i as int].partitions@.len()
                            && fs@[i as int].partitions@[p].offsets.error_code == 0
                            && fs@[i as int].partitions@[p].offsets.polled_offset == i64::MAX;
                    assert(fetch_view(fs@)[i as int].1[p].offsets.polled_offset == i64::MAX);
                    assert(commit_overflows(fetch_view(fs@)));
                    return Err(ProtocolError::OffsetOverflow);
                },
            }
            i = i + 1;
        }
        Ok(
            OffsetCommitRequest {
                group_id,
                member_id: state.group_subscription.member_id.clone(),
                generation_id_or_member_epoch: state.group_subscription.generation_id,
                topics,
            },
        )
    }
}

/// A partition without an error is committed, at the offset after its last
/// polled one.
pub proof fn lemma_commit_includes(entries: Seq<PartitionEntry>, p: int)
    requires
        0 <= p < entries.len(),
        entries[p].offsets.error_code == 0,
    ensures
        commit_partitions(entries).contains(commit_of(entries[p])),
    decreases entries.len(),
{
    let prev = entries.drop_last();
    if p == entries.len() - 1 {
        assert(commit_partitions(entries) == commit_partitions(prev).push(commit_of(entries[p])));
        assert(commit_partitions(entries)[commit_partitions(prev).len() as int] == commit_of(
            entries[p],
        ));
    } else {
        lemma_commit_includes(prev, p);
        assert(prev[p] == entries[p]);
        let i = choose|i: int|
            0 <= i < commit_partitions(prev).len() && commit_partitions(prev)[i] == commit_of(
                entries[p],
            );
        if entries.last().offsets.error_code == 0 {
            assert(commit_partitions(entries)[i] == commit_of(entries[p]));
        }
    }
}

} // verus!
