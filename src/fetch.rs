use vstd::prelude::*;

use crate::codec::ApiKey;
use crate::errors::ProtocolError;
use crate::offsets::{set_entry, FetchView};
use crate::records::{max_offset, max_record_offset, records_view, BatchRecord, RecordView};
use crate::state::{
    fetch_view, find_entry, find_offsets, find_topic, find_topic_id, first_entry_at, first_topic_at,
    first_topic_id_at, first_view_at, has_entry, has_slot, has_topic, has_topic_id, has_view,
    CallState, PartitionEntry, PartitionOffsetState, Topic,
};
use crate::batch::{batch_deltas_fit, batch_deltas_fit_check};
use crate::wire::{decode_record_batches, decoded_records};

verus! {

pub const FETCH_MIN_BYTES: i32 = 8;

pub const FETCH_MAX_BYTES: i32 = 4194304;

pub const FETCH_MAX_WAIT_MS: i32 = 1000;

pub const PARTITION_MAX_BYTES: i32 = 1048576;

#[derive(Clone, Copy, Debug, PartialEq, Eq, Structural)]
pub struct PartitionFetch {
    pub partition: i32,
    pub fetch_offset: i64,
    pub current_leader_epoch: i32,
    pub last_fetched_epoch: i32,
    pub partition_max_bytes: i32,
}

pub struct TopicFetch {
    pub topic: String,
    pub topic_id: u128,
    pub partitions: Vec<PartitionFetch>,
}

pub struct FetchRequest {
    pub replica_id: i32,
    pub max_wait_ms: i32,
    pub min_bytes: i32,
    pub max_bytes: i32,
    pub cluster_id: Option<String>,
    pub topics: Vec<TopicFetch>,
}

/// One partition of a Fetch response, with its record batches undecoded.
pub struct FetchedPartition {
    pub topic_id: u128,
    pub partition_index: i32,
    pub error_code: i16,
    pub records: Option<Vec<u8>>,
}

pub struct FetchResponse {
    pub error_code: i16,
    pub partitions: Vec<FetchedPartition>,
}

/// Where a partition starts fetching: its committed offset, or the start
/// where none is committed yet.
pub open spec fn fetch_start(committed: i64) -> i64 {
    if committed == -1 {
        0
    } else {
        committed
    }
}

pub open spec fn fetch_partition_of(e: PartitionEntry) -> PartitionFetch {
    PartitionFetch {
        partition: e.index,
        fetch_offset: fetch_start(e.offsets.commited_offset),
        current_leader_epoch: 0,
        last_fetched_epoch: -1i32,
        partition_max_bytes: PARTITION_MAX_BYTES,
    }
}

/// The partitions to fetch: those whose last error code is zero, in order.
pub open spec fn fetch_partitions_of(entries: Seq<PartitionEntry>) -> Seq<PartitionFetch>
    decreases entries.len(),
{
    if entries.len() == 0 {
        Seq::empty()
    } else {
        let prev = fetch_partitions_of(entries.drop_last());
        if entries.last().offsets.error_code == 0 {
            prev.push(fetch_partition_of(entries.last()))
        } else {
            prev
        }
    }
}

/// Every topic whose offsets are kept is described in the stored metadata.
pub open spec fn all_kept_described(fs: FetchView, topics: Seq<Topic>) -> bool {
    forall|i: int| 0 <= i < fs.len() ==> has_topic(topics, #[trigger] fs[i].0)
}

pub fn fetch_partitions(entries: &Vec<PartitionEntry>) -> (r: Vec<PartitionFetch>)
    ensures
        r@ == fetch_partitions_of(entries@),
{
    let mut r: Vec<PartitionFetch> = Vec::new();
    let mut i: usize = 0;
    while i < entries.len()
        invariant
            i <= entries@.len(),
            r@ == fetch_partitions_of(entries@.subrange(0, i as int)),
        decreases entries@.len() - i,
    {
        let e = entries[i];
        assert(entries@.subrange(0, i + 1).drop_last() =~= entries@.subrange(0, i as int));
        if e.offsets.error_code == 0 {
            let start = if e.offsets.commited_offset == -1 {
                0
            } else {
                e.offsets.commited_offset
            };
            r.push(
                PartitionFetch {
                    partition: e.index,
                    fetch_offset: start,
                    current_leader_epoch: 0,
                    last_fetched_epoch: -1,
                    partition_max_bytes: PARTITION_MAX_BYTES,
                },
            );
        }
        i = i + 1;
    }
    assert(entries@.subrange(0, entries@.len() as int) =~= entries@);
    r
}

impl FetchRequest {
    pub open spec fn built(state: CallState, req: Self) -> bool {
        let fs = fetch_view(state.fetch_state@);
        let meta = state.broker_metadata.topics@;
        &&& req.replica_id == -1
        &&& req.max_wait_ms == FETCH_MAX_WAIT_MS
        &&& req.min_bytes == FETCH_MIN_BYTES
        &&& req.max_bytes == FETCH_MAX_BYTES
        &&& req.cluster_id matches Some(c) && c@ == state.broker_metadata.cluster_id@
        &&& req.topics@.len() == fs.len()
        &&& forall|i: int|
            0 <= i < fs.len() ==> (#[trigger] req.topics@[i]).topic@ == fs[i].0
                && req.topics@[i].partitions@ == fetch_partitions_of(fs[i].1)
                && exists|t: int|
                first_topic_at(meta, fs[i].0, t) && req.topics@[i].topic_id == meta[t].id
    }

    /// Fetches, for each topic whose offsets are kept, every partition whose
    /// last error code is zero, from its committed offset (the start where
    /// none is committed), within the fixed wait and byte limits.
    pub fn create_request(state: &CallState) -> (r: Result<Self, ProtocolError>)
        ensures
            !all_kept_described(fetch_view(state.fetch_state@), state.broker_metadata.topics@)
                ==> (r matches Err(ProtocolError::UnknownTopic { name }) && !has_topic(
                state.broker_metadata.topics@,
                name@,
            )),
            all_kept_described(fetch_view(state.fetch_state@), state.broker_metadata.topics@)
                ==> (r matches Ok(req) && Self::built(*state, req)),
    {
        let fs = &state.fetch_state;
        let meta = &state.broker_metadata.topics;
        let mut topics: Vec<TopicFetch> = Vec::new();
        let mut i: usize = 0;
        while i < fs.len()
            invariant
                i <= fs@.len(),
                topics@.len() == i,
                fs@ == state.fetch_state@,
                meta@ == state.broker_metadata.topics@,
                forall|k: int| 0 <= k < i ==> has_topic(meta@, #[trigger] fetch_view(fs@)[k].0),
                forall|k: int|
                    0 <= k < i ==> (#[trigger] topics@[k]).topic@ == fetch_view(fs@)[k].0
                        && topics@[k].partitions@ == fetch_partitions_of(fetch_view(fs@)[k].1)
                        && exists|t: int|
                        first_topic_at(meta@, fetch_view(fs@)[k].0, t) && topics@[k].topic_id
                            == meta@[t].id,
            decreases fs@.len() - i,
        {
            assert(fetch_view(fs@)[i as int] == (fs@[i as int].name@, fs@[i as int].partitions@));
            match find_topic(meta, &fs[i].name) {
                Some(t) => {
                    topics.push(
                        TopicFetch {
                            topic: fs[i].name.clone(),
                            topic_id: meta[t].id,
                            partitions: fetch_partitions(&fs[i].partitions),
                        },
                    );
                },
                None => {
                    assert(!has_topic(meta@, fetch_view(fs@)[i as int].0));
                    return Err(ProtocolError::UnknownTopic { name: fs[i].name.clone() });
                },
            }
            i = i + 1;
        }
        Ok(
            FetchRequest {
                replica_id: -1,
                max_wait_ms: FETCH_MAX_WAIT_MS,
                min_bytes: FETCH_MIN_BYTES,
                max_bytes: FETCH_MAX_BYTES,
                cluster_id: Some(state.broker_metadata.cluster_id.clone()),
                topics,
            },
        )
    }
}

/// The name of the first described topic with identifier `id`.
pub open spec fn topic_name_of(topics: Seq<Topic>, id: u128) -> Seq<char> {
    topics[choose|t: int| first_topic_id_at(topics, id, t)].name@
}

/// The records that a fetched partition carries: its batches decoded, or
/// none where it carries no batches. Batches whose bases leave no room for
/// their records' deltas are not decoded.
pub open spec fn fetched_records(p: FetchedPartition) -> Option<Seq<RecordView>> {
    match p.records {
        Some(b) => if batch_deltas_fit(b@) {
            decoded_records(b@)
        } else {
            None
        },
        None => Some(Seq::empty()),
    }
}

/// A fetched partition can be taken in: its topic is described, its
/// offsets are kept, and its batches decode.
pub open spec fn fetched_known(topics: Seq<Topic>, fs: FetchView, p: FetchedPartition) -> bool {
    &&& has_topic_id(topics, p.topic_id)
    &&& has_slot(fs, topic_name_of(topics, p.topic_id), p.partition_index)
    &&& fetched_records(p) is Some
}

/// The kept offsets after a partition's fetch: its error code is stored and
/// its polled offset becomes the largest offset fetched (-1 for none).
pub open spec fn apply_fetched(
    fs: FetchView,
    name: Seq<char>,
    index: i32,
    error_code: i16,
    rs: Seq<RecordView>,
) -> FetchView {
    if exists|t: int| first_view_at(fs, name, t) {
        let t = choose|t: int| first_view_at(fs, name, t);
        let parts = fs[t].1;
        if exists|p: int| first_entry_at(parts, index, p) {
            let p = choose|p: int| first_entry_at(parts, index, p);
            let e = parts[p];
            fs.update(
                t,
                (
                    fs[t].0,
                    parts.update(
                        p,
                        PartitionEntry {
                            offsets: PartitionOffsetState {
                                error_code,
                                polled_offset: max_offset(rs),
                                ..e.offsets
                            },
                            ..e
                        },
                    ),
                ),
            )
        } else {
            fs
        }
    } else {
        fs
    }
}

/// The kept offsets and the records after taking in `ps` in order.
pub open spec fn fetch_all(fs: FetchView, topics: Seq<Topic>, ps: Seq<FetchedPartition>) -> (
    FetchView,
    Seq<RecordView>,
)
    decreases ps.len(),
{
    if ps.len() == 0 {
        (fs, Seq::empty())
    } else {
        let (f, out) = fetch_all(fs, topics, ps.drop_last());
        let p = ps.last();
        let rs = fetched_records(p).unwrap();
        (
            apply_fetched(f, topic_name_of(topics, p.topic_id), p.partition_index, p.error_code, rs),
            out + rs,
        )
    }
}

/// Stores a partition's error code and sets its polled offset to the
/// largest offset among `records`.
pub fn apply_fetched_partition(
    state: &mut CallState,
    name: &String,
    index: i32,
    error_code: i16,
    records: &Vec<BatchRecord>,
)
    ensures
        *final(state) == (CallState { fetch_state: final(state).fetch_state, ..*old(state) }),
        fetch_view(final(state).fetch_state@) == apply_fetched(
            fetch_view(old(state).fetch_state@),
            name@,
            index,
            error_code,
            records_view(records@),
        ),
{
    let ghost prev = fetch_view(state.fetch_state@);
    match find_offsets(&state.fetch_state, name) {
        Some(t) => {
            proof {
                let tc = choose|t2: int| first_view_at(prev, name@, t2);
                assert(tc == t);
            }
            assert(prev[t as int].1 == state.fetch_state@[t as int].partitions@);
            match find_entry(&state.fetch_state[t].partitions, index) {
                Some(p) => {
                    proof {
                        let parts = prev[t as int].1;
                        let pc = choose|p2: int| first_entry_at(parts, index, p2);
                        assert(pc == p);
                    }
                    let e = state.fetch_state[t].partitions[p];
                    let polled = max_record_offset(records);
                    let n = PartitionEntry {
                        offsets: PartitionOffsetState { error_code, polled_offset: polled, ..e.offsets },
                        ..e
                    };
                    set_entry(&mut state.fetch_state, t, p, n);
                },
                None => {},
            }
        },
        None => {},
    }
}

} // verus!

verus! {

impl FetchResponse {
    /// Takes in each fetched partition in order: stores its error code,
    /// sets its polled offset to the largest offset fetched, and gathers its
    /// records. A partition that cannot be taken in fails the whole response,
    /// with nothing changed.
    pub fn process_response(self, state: &mut CallState) -> (r: Result<Vec<BatchRecord>, ProtocolError>)
        ensures
            self.error_code != 0 ==> r == Err::<Vec<BatchRecord>, ProtocolError>(
                ProtocolError::Broker { api_key: ApiKey::Fetch, error_code: self.error_code },
            ) && *final(state) == *old(state),
            self.error_code == 0 && (forall|k: int|
                0 <= k < self.partitions@.len() ==> fetched_known(
                    old(state).broker_metadata.topics@,
                    fetch_view(old(state).fetch_state@),
                    #[trigger] self.partitions@[k],
                )) ==> (r matches Ok(out) && {
                let res = fetch_all(
                    fetch_view(old(state).fetch_state@),
                    old(state).broker_metadata.topics@,
                    self.partitions@,
                );
                &&& records_view(out@) == res.1
                &&& fetch_view(final(state).fetch_state@) == res.0
                &&& *final(state) == (CallState {
                    fetch_state: final(state).fetch_state,
                    ..*old(state)
                })
            }),
            self.error_code == 0 && !(forall|k: int|
                0 <= k < self.partitions@.len() ==> fetched_known(
                    old(state).broker_metadata.topics@,
                    fetch_view(old(state).fetch_state@),
                    #[trigger] self.partitions@[k],
                )) ==> r is Err && *final(state) == *old(state),
    {
        if self.error_code != 0 {
            return Err(ProtocolError::Broker { api_key: ApiKey::Fetch, error_code: self.error_code });
        }
        let ghost fs0 = fetch_view(state.fetch_state@);
        let ghost meta = state.broker_metadata.topics@;
        let ps = &self.partitions;
        let mut names: Vec<String> = Vec::new();
        let mut decoded: Vec<Vec<BatchRecord>> = Vec::new();
        let mut k: usize = 0;
        while k < ps.len()
            invariant
                k <= ps@.len(),
                ps@ == self.partitions@,
                self.error_code == 0,
                *state == *old(state),
                fs0 == fetch_view(old(state).fetch_state@),
                meta == old(state).broker_metadata.topics@,
                names@.len() == k,
                decoded@.len() == k,
                forall|j: int| 0 <= j < k ==> fetched_known(meta, fs0, #[trigger] ps@[j]),
                forall|j: int|
                    0 <= j < k ==> (#[trigger] names@[j])@ == topic_name_of(meta, ps@[j].topic_id)
                        && fetched_records(ps@[j]) == Some(records_view(decoded@[j]@)),
            decreases ps@.len() - k,
        {
            let p = &ps[k];
            let tid = match find_topic_id(&state.broker_metadata.topics, p.topic_id) {
                Some(t) => t,
                None => {
                    assert(!fetched_known(meta, fs0, ps@[k as int]));
                    return Err(ProtocolError::UnknownTopicId { id: p.topic_id });
                },
            };
            let name = state.broker_metadata.topics[tid].name.clone();
            proof {
                let tc = choose|t2: int| first_topic_id_at(meta, p.topic_id, t2);
                assert(tc == tid);
            }
            let known = match find_offsets(&state.fetch_state, &name) {
                Some(t) => {
                    assert(fs0[t as int].1 == state.fetch_state@[t as int].partitions@);
                    match find_entry(&state.fetch_state[t].partitions, p.partition_index) {
                        Some(_) => true,
                        None => {
                            assert forall|t2: int| first_view_at(fs0, name@, t2) implies !(exists|
                                q: int,
                            | first_entry_at(fs0[t2].1, p.partition_index, q)) by {
                                assert(t2 == t);
                            }
                            false
                        },
                    }
                },
                None => false,
            };
            if !known {
                assert(!fetched_known(meta, fs0, ps@[k as int]));
                return Err(ProtocolError::UnknownPartition { name, index: p.partition_index });
            }
            let batch = match &p.records {
                Some(b) => match if batch_deltas_fit_check(b) {
                    decode_record_batches(b)
                } else {
                    None
                } {
                    Some(v) => v,
                    None => {
                        assert(!fetched_known(meta, fs0, ps@[k as int]));
                        return Err(ProtocolError::Decode);
                    },
                },
                None => {
                    let v: Vec<BatchRecord> = Vec::new();
                    assert(records_view(v@) =~= Seq::<RecordView>::empty());
                    v
                },
            };
            names.push(name);
            decoded.push(batch);
            k = k + 1;
        }
        let ghost all = decoded@;
        let ghost all_names = names@;
        let mut out: Vec<BatchRecord> = Vec::new();
        let mut k: usize = 0;
        while k < ps.len()
            invariant
                k <= ps@.len(),
                ps@ == self.partitions@,
                self.error_code == 0,
                *state == (CallState { fetch_state: state.fetch_state, ..*old(state) }),
                fs0 == fetch_view(old(state).fetch_state@),
                meta == old(state).broker_metadata.topics@,
                all.len() == ps@.len(),
                names@ == all_names,
                all_names.len() == ps@.len(),
                decoded@ == all.subrange(k as int, all.len() as int),
                forall|j: int|
                    0 <= j < ps@.len() ==> (#[trigger] all_names[j])@ == topic_name_of(
                        meta,
                        ps@[j].topic_id,
                    ) && fetched_records(ps@[j]) == Some(records_view(all[j]@)),
                (fetch_view(state.fetch_state@), records_view(out@)) == fetch_all(
                    fs0,
                    meta,
                    ps@.subrange(0, k as int),
                ),
            decreases ps@.len() - k,
        {
            assert(ps@.subrange(0, k + 1).drop_last() =~= ps@.subrange(0, k as int));
            let mut batch = decoded.remove(0);
            assert(decoded@ =~= all.subrange(k + 1, all.len() as int));
            assert(batch == all[k as int]);
            let p = &ps[k];
            apply_fetched_partition(state, &names[k], p.partition_index, p.error_code, &batch);
            let ghost before = out@;
            out.append(&mut batch);
            assert(records_view(out@) =~= records_view(before) + records_view(all[k as int]@));
            k = k + 1;
        }
        assert(ps@.subrange(0, ps@.len() as int) =~= ps@);
        Ok(out)
    }
}

/// After a fetch of `rs` into a kept partition without an error, the
/// partition's polled offset is the largest offset fetched, and the next
/// OffsetCommit commits the offset after it.
pub proof fn lemma_fetch_then_commit(fs: FetchView, name: Seq<char>, index: i32, rs: Seq<RecordView>)
    requires
        has_slot(fs, name, index),
    ensures
        ({
            let after = apply_fetched(fs, name, index, 0, rs);
            let t = choose|t: int| first_view_at(fs, name, t);
            let p = choose|p: int| first_entry_at(fs[t].1, index, p);
            &&& after[t].1[p].offsets.polled_offset == max_offset(rs)
            &&& after[t].1[p].offsets.error_code == 0
            &&& (max_offset(rs) < i64::MAX ==> crate::offsets::commit_partitions(after[t].1).contains(
                crate::offsets::OffsetCommitPartition {
                    partition_index: index,
                    committed_offset: (max_offset(rs) + 1) as i64,
                    committed_leader_epoch: -1i32,
                },
            ))
        }),
{
    let after = apply_fetched(fs, name, index, 0, rs);
    let t = choose|t: int| first_view_at(fs, name, t);
    let tw = choose|tw: int|
        first_view_at(fs, name, tw) && exists|p: int| first_entry_at(fs[tw].1, index, p);
    assert(t == tw);
    let p = choose|p: int| first_entry_at(fs[t].1, index, p);
    assert(after[t].1[p].offsets.polled_offset == max_offset(rs));
    crate::offsets::lemma_commit_includes(after[t].1, p);
}

} // verus!
