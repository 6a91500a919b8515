use vstd::prelude::*;

use crate::errors::ProtocolError;
use crate::records::{
    bytes_view, extract_topics, headers_view, listed, records_view, topics_of, unstamped_record,
    BatchRecord, PutRecord, RecordView, TimestampType,
};
use crate::state::{find_topic, first_topic_at, has_topic, CallState, Topic};
use crate::wire::{encode_record_batch, record_batch_bytes};

verus! {

/// How a record batch is compressed.
#[derive(Clone, Copy, Debug, PartialEq, Eq, Structural)]
pub enum Compression {
    NoCompression,
    Gzip,
    Snappy,
    Lz4,
    Zstd,
}

pub const PRODUCE_COMPRESSION: Compression = Compression::Snappy;

pub const RECORD_BATCH_VERSION: i8 = 2;

pub const PRODUCE_ACKS: i16 = 1;

pub const PRODUCE_TIMEOUT_MS: i32 = 30000;

/// The records for one partition, and the record batch that carries them.
pub struct ProducePartitionData {
    pub index: i32,
    pub records: Vec<BatchRecord>,
    pub batch: Vec<u8>,
}

pub struct TopicRecords {
    pub name: String,
    pub partition_data: Vec<ProducePartitionData>,
}

pub struct ProduceRequest {
    pub acks: i16,
    pub timeout_ms: i32,
    pub transactional_id: Option<String>,
    pub topic_data: Vec<TopicRecords>,
}

/// The record batch of every queued topic encodes.
pub open spec fn batches_encode(queued: Seq<PutRecord>, producer_id: i64, now: i64) -> bool {
    forall|t: Seq<char>|
        #[trigger] topics_of(queued).contains(t) ==> record_batch_bytes(
            stamped_all(records_of_topic(queued, t), producer_id, now),
            PRODUCE_COMPRESSION,
            RECORD_BATCH_VERSION,
        ) is Some
}

/// The records of `rs` for topic `name`, in order.
pub open spec fn records_of_topic(rs: Seq<PutRecord>, name: Seq<char>) -> Seq<PutRecord>
    decreases rs.len(),
{
    if rs.len() == 0 {
        Seq::empty()
    } else {
        let prev = records_of_topic(rs.drop_last(), name);
        if rs.last().topic@ == name {
            prev.push(rs.last())
        } else {
            prev
        }
    }
}

/// A record as the producer sends it: the `seq`-th of its topic, with the
/// session's producer id and the batch's timestamp.
pub open spec fn stamped(p: PutRecord, seq: int, producer_id: i64, now: i64) -> RecordView {
    RecordView {
        transactional: false,
        control: false,
        partition_leader_epoch: -1i32,
        producer_id,
        producer_epoch: -1i16,
        timestamp_type: TimestampType::Creation,
        offset: seq as i64,
        sequence: seq as i32,
        timestamp: now,
        key: bytes_view(p.key),
        value: bytes_view(p.value),
        headers: headers_view(p.headers@),
    }
}

pub open spec fn stamped_all(ps: Seq<PutRecord>, producer_id: i64, now: i64) -> Seq<RecordView> {
    Seq::new(ps.len(), |i: int| stamped(ps[i], i, producer_id, now))
}

/// The topic `name` is described in `topics`, and `index` is the first
/// partition listed for it.
pub open spec fn placed_at(topics: Seq<Topic>, name: Seq<char>, index: i32) -> bool {
    exists|m: int|
        first_topic_at(topics, name, m) && topics[m].partitions@.len() > 0 && index
            == topics[m].partitions@[0].index
}

/// The topics of `data` are exactly the topics of the queued records.
pub open spec fn covers_queued_topics(queued: Seq<PutRecord>, data: Seq<TopicRecords>) -> bool {
    forall|t: Seq<char>|
        #[trigger] topics_of(queued).contains(t) <==> exists|i: int|
            0 <= i < data.len() && data[i].name@ == t
}

/// Every queued topic is described in the stored metadata with at least
/// one partition.
pub open spec fn all_queued_placed(rs: Seq<PutRecord>, topics: Seq<Topic>) -> bool {
    forall|t: Seq<char>|
        #[trigger] topics_of(rs).contains(t) ==> exists|i: int|
            first_topic_at(topics, t, i) && topics[i].partitions@.len() > 0
}

/// The records queued for topic `name`, stamped as the producer sends them.
pub fn stamp_topic_records(
    queued: &Vec<PutRecord>,
    name: &String,
    producer_id: i64,
    now: i64,
) -> (r: Vec<BatchRecord>)
    requires
        queued@.len() <= i32::MAX,
    ensures
        records_view(r@) == stamped_all(records_of_topic(queued@, name@), producer_id, now),
        r@.len() <= queued@.len(),
{
    let mut r: Vec<BatchRecord> = Vec::new();
    let mut j: usize = 0;
    while j < queued.len()
        invariant
            j <= queued@.len(),
            queued@.len() <= i32::MAX,
            r@.len() <= j,
            records_view(r@) == stamped_all(
                records_of_topic(queued@.subrange(0, j as int), name@),
                producer_id,
                now,
            ),
        decreases queued@.len() - j,
    {
        assert(queued@.subrange(0, j + 1).drop_last() =~= queued@.subrange(0, j as int));
        let ghost prev = records_of_topic(queued@.subrange(0, j as int), name@);
        assert(records_view(r@).len() == r@.len());
        assert(prev.len() == r@.len());
        if queued[j].topic == *name {
            let seq = r.len();
            let mut rec = unstamped_record(&queued[j]);
            rec.producer_id = producer_id;
            rec.offset = seq as i64;
            rec.sequence = seq as i32;
            rec.control = false;
            rec.timestamp = now;
            rec.timestamp_type = TimestampType::Creation;
            let ghost before = r@;
            r.push(rec);
            let ghost next = prev.push(queued@[j as int]);
            assert forall|k: int| 0 <= k < next.len() implies records_view(r@)[k] == stamped_all(
                next,
                producer_id,
                now,
            )[k] by {
                if k < prev.len() {
                    assert(r@[k] == before[k]);
                    assert(records_view(before)[k] == stamped_all(prev, producer_id, now)[k]);
                }
            }
            assert(records_view(r@) =~= stamped_all(next, producer_id, now));
        }
        j = j + 1;
    }
    assert(queued@.subrange(0, queued@.len() as int) =~= queued@);
    r
}

impl ProduceRequest {
    pub open spec fn built(state: CallState, now: i64, req: Self) -> bool {
        let queued = state.records_to_send@;
        let meta = state.broker_metadata.topics@;
        &&& all_queued_placed(queued, meta)
        &&& req.acks == PRODUCE_ACKS
        &&& req.timeout_ms == PRODUCE_TIMEOUT_MS
        &&& req.transactional_id is None
        &&& forall|i: int, j: int|
            0 <= i < j < req.topic_data@.len() ==> req.topic_data@[i].name@
                != req.topic_data@[j].name@
        &&& covers_queued_topics(queued, req.topic_data@)
        &&& forall|i: int|
            0 <= i < req.topic_data@.len() ==> {
                let d = #[trigger] req.topic_data@[i];
                &&& d.partition_data@.len() == 1
                &&& exists|m: int|
                    first_topic_at(meta, d.name@, m) && d.partition_data@[0].index
                        == meta[m].partitions@[0].index
                &&& records_view(d.partition_data@[0].records@) == stamped_all(
                    records_of_topic(queued, d.name@),
                    state.producer_id,
                    now,
                )
                &&& record_batch_bytes(
                            records_view(d.partition_data@[0].records@),
                            PRODUCE_COMPRESSION,
                            RECORD_BATCH_VERSION,
                        ) == Some(d.partition_data@[0].batch@)
            }
    }

    /// Groups the queued records by topic, in the order in which each topic
    /// first occurs, and sends each topic's records to the first partition
    /// that the stored metadata lists for it: numbered from zero as offset
    /// and sequence, with the session's producer id and the timestamp `now`,
    /// in one record batch.
    pub fn create_request(state: &CallState, now: i64) -> (r: Result<Self, ProtocolError>)
        requires
            state.records_to_send@.len() <= i32::MAX,
        ensures
            r matches Ok(req) ==> Self::built(*state, now, req),
            !all_queued_placed(state.records_to_send@, state.broker_metadata.topics@) ==> (r matches Err(
                e,
            ) && (e is UnknownTopic || e is NoPartitions)),
            r matches Err(e) ==> (e is UnknownTopic || e is NoPartitions || e is Encode),
            r matches Err(ProtocolError::UnknownTopic { name }) ==> topics_of(
                state.records_to_send@,
            ).contains(name@) && !has_topic(state.broker_metadata.topics@, name@),
            r matches Err(ProtocolError::NoPartitions { name }) ==> topics_of(
                state.records_to_send@,
            ).contains(name@) && exists|m: int|
                first_topic_at(state.broker_metadata.topics@, name@, m)
                    && state.broker_metadata.topics@[m].partitions@.len() == 0,
            all_queued_placed(state.records_to_send@, state.broker_metadata.topics@) ==> (r is Ok || r
                == Err::<Self, ProtocolError>(ProtocolError::Encode)),
            r == Err::<Self, ProtocolError>(ProtocolError::Encode) ==> !batches_encode(
                state.records_to_send@,
                state.producer_id,
                now,
            ),
            all_queued_placed(state.records_to_send@, state.broker_metadata.topics@) && batches_encode(
                state.records_to_send@,
                state.producer_id,
                now,
            ) ==> r is Ok,
    {
        let queued = &state.records_to_send;
        let meta = &state.broker_metadata.topics;
        let names = extract_topics(queued);
        let mut indexes: Vec<i32> = Vec::new();
        let mut i: usize = 0;
        while i < names.len()
            invariant
                i <= names@.len(),
                indexes@.len() == i,
                queued@ == state.records_to_send@,
                meta@ == state.broker_metadata.topics@,
                forall|t: Seq<char>| #[trigger] topics_of(queued@).contains(t) <==> listed(names@, t),
                forall|k: int| 0 <= k < i ==> #[trigger] placed_at(meta@, names@[k]@, indexes@[k]),
            decreases names@.len() - i,
        {
            let name = &names[i];
            assert(listed(names@, name@));
            assert(topics_of(queued@).contains(name@));
            let m = match find_topic(meta, name) {
                Some(m) => m,
                None => {
                    assert(!all_queued_placed(queued@, meta@));
                    return Err(ProtocolError::UnknownTopic { name: name.clone() });
                },
            };
            if meta[m].partitions.len() == 0 {
                assert forall|m2: int| first_topic_at(meta@, name@, m2) implies meta@[m2].partitions@.len()
                    == 0 by {
                    assert(m2 == m);
                }
                assert(!all_queued_placed(queued@, meta@));
                return Err(ProtocolError::NoPartitions { name: name.clone() });
            }
            let ghost before = indexes@;
            indexes.push(meta[m].partitions[0].index);
            assert(placed_at(meta@, names@[i as int]@, indexes@[i as int]));
            assert forall|k: int| 0 <= k < i implies #[trigger] placed_at(
                meta@,
                names@[k]@,
                indexes@[k],
            ) by {
                assert(indexes@[k] == before[k]);
            }
            i = i + 1;
        }
        assert(i == names@.len());
        assert forall|t: Seq<char>| #[trigger] topics_of(queued@).contains(t) implies exists|m: int|
            first_topic_at(meta@, t, m) && meta@[m].partitions@.len() > 0 by {
            assert(listed(names@, t));
            let k = choose|k: int| 0 <= k < names@.len() && names@[k]@ == t;
            assert(placed_at(meta@, names@[k]@, indexes@[k]));
        }
        assert(all_queued_placed(queued@, meta@));
        let mut topic_data: Vec<TopicRecords> = Vec::new();
        let mut i: usize = 0;
        while i < names.len()
            invariant
                i <= names@.len(),
                topic_data@.len() == i,
                indexes@.len() == names@.len(),
                queued@ == state.records_to_send@,
                meta@ == state.broker_metadata.topics@,
                queued@.len() <= i32::MAX,
                all_queued_placed(queued@, meta@),
                forall|t: Seq<char>| #[trigger] topics_of(queued@).contains(t) <==> listed(names@, t),
                forall|a: int, b: int| 0 <= a < b < names@.len() ==> names@[a]@ != names@[b]@,
                forall|k: int|
                    0 <= k < names@.len() ==> #[trigger] placed_at(meta@, names@[k]@, indexes@[k]),
                forall|k: int| 0 <= k < i ==> (#[trigger] topic_data@[k]).name@ == names@[k]@,
                forall|k: int|
                    0 <= k < i ==> {
                        let d = #[trigger] topic_data@[k];
                        &&& d.partition_data@.len() == 1
                        &&& exists|m: int|
                            first_topic_at(meta@, d.name@, m) && d.partition_data@[0].index
                                == meta@[m].partitions@[0].index
                        &&& records_view(d.partition_data@[0].records@) == stamped_all(
                            records_of_topic(queued@, d.name@),
                            state.producer_id,
                            now,
                        )
                        &&& record_batch_bytes(
                            records_view(d.partition_data@[0].records@),
                            PRODUCE_COMPRESSION,
                            RECORD_BATCH_VERSION,
                        ) == Some(d.partition_data@[0].batch@)
                    },
            decreases names@.len() - i,
        {
            let name = &names[i];
            let records = stamp_topic_records(queued, name, state.producer_id, now);
            assert forall|k: int| 0 <= k < records@.len() implies records@[k].offset >= 0 by {
                let ps = records_of_topic(queued@, name@);
                assert(records_view(records@).len() == records@.len());
                assert(stamped_all(ps, state.producer_id, now).len() == ps.len());
                assert(records_view(records@)[k] == crate::records::record_view(records@[k]));
                assert(records_view(records@)[k] == stamped_all(ps, state.producer_id, now)[k]);
                assert(stamped_all(ps, state.producer_id, now)[k] == stamped(
                    ps[k],
                    k,
                    state.producer_id,
                    now,
                ));
                assert(0 <= k <= i32::MAX);
                assert(records@[k].timestamp == now);
            }
            assert forall|k: int| 0 <= k < records@.len() implies (#[trigger] records@[k]).timestamp
                == records@[0].timestamp by {
                let ps = records_of_topic(queued@, name@);
                assert(records_view(records@).len() == records@.len());
                assert(stamped_all(ps, state.producer_id, now).len() == ps.len());
                assert(records_view(records@)[k] == crate::records::record_view(records@[k]));
                assert(records_view(records@)[0] == crate::records::record_view(records@[0]));
                assert(stamped_all(ps, state.producer_id, now)[k] == stamped(ps[k], k, state.producer_id, now));
                assert(stamped_all(ps, state.producer_id, now)[0] == stamped(ps[0], 0, state.producer_id, now));
            }
            let batch = match encode_record_batch(&records, PRODUCE_COMPRESSION, RECORD_BATCH_VERSION) {
                Some(b) => b,
                None => {
                    assert(listed(names@, name@));
                    assert(topics_of(queued@).contains(name@));
                    assert(!batches_encode(queued@, state.producer_id, now));
                    return Err(ProtocolError::Encode);
                },
            };
            assert(placed_at(meta@, names@[i as int]@, indexes@[i as int]));
            let part = ProducePartitionData { index: indexes[i], records, batch };
            topic_data.push(TopicRecords { name: name.clone(), partition_data: vec![part] });
            assert(names@[i as int]@ == topic_data@[i as int].name@);
            i = i + 1;
        }
        assert forall|t: Seq<char>| #[trigger] topics_of(queued@).contains(t) <==> exists|i: int|
            0 <= i < topic_data@.len() && topic_data@[i].name@ == t by {
            if topics_of(queued@).contains(t) {
                assert(listed(names@, t));
                let k = choose|k: int| 0 <= k < names@.len() && names@[k]@ == t;
                assert(topic_data@[k].name@ == t);
            }
            if exists|i: int| 0 <= i < topic_data@.len() && topic_data@[i].name@ == t {
                let k = choose|k: int| 0 <= k < topic_data@.len() && topic_data@[k].name@ == t;
                assert(names@[k]@ == t);
                assert(listed(names@, t));
            }
        }
        assert forall|a: int, b: int| 0 <= a < b < topic_data@.len() implies topic_data@[a].name@
            != topic_data@[b].name@ by {
            assert(topic_data@[a].name@ == names@[a]@);
            assert(topic_data@[b].name@ == names@[b]@);
        }
        assert(covers_queued_topics(queued@, topic_data@));
        let req = ProduceRequest {
            acks: PRODUCE_ACKS,
            timeout_ms: PRODUCE_TIMEOUT_MS,
            transactional_id: None,
            topic_data,
        };
        Ok(req)
    }
}

} // verus!

verus! {

/// The records of every topic in a Produce request built from `state` at
/// `now` carry the session's producer id, their place among the topic's
/// queued records as offset and sequence, and the one timestamp `now`; and
/// there are as many as the topic has queued.
pub proof fn lemma_produce_stamps(state: CallState, now: i64, req: ProduceRequest, i: int, k: int)
    requires
        ProduceRequest::built(state, now, req),
        0 <= i < req.topic_data@.len(),
        state.records_to_send@.len() <= i32::MAX,
    ensures
        ({
            let d = req.topic_data@[i];
            let rs = records_view(d.partition_data@[0].records@);
            &&& d.partition_data@.len() == 1
            &&& rs.len() == records_of_topic(state.records_to_send@, d.name@).len()
            &&& (0 <= k < rs.len() ==> {
                &&& rs[k].producer_id == state.producer_id
                &&& rs[k].offset == k
                &&& rs[k].sequence == k
                &&& rs[k].timestamp == now
            })
        }),
{
    let d = req.topic_data@[i];
    let ps = records_of_topic(state.records_to_send@, d.name@);
    lemma_records_of_topic_len(state.records_to_send@, d.name@);
    if 0 <= k < ps.len() {
        assert(stamped_all(ps, state.producer_id, now)[k] == stamped(ps[k], k, state.producer_id, now));
    }
}

proof fn lemma_records_of_topic_len(rs: Seq<PutRecord>, name: Seq<char>)
    ensures
        records_of_topic(rs, name).len() <= rs.len(),
    decreases rs.len(),
{
    if rs.len() > 0 {
        lemma_records_of_topic_len(rs.drop_last(), name);
    }
}

} // verus!
