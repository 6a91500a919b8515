use vstd::prelude::*;

use crate::state::copy_bytes;
use vstd::string::StringSliceAdditionalSpecFns;

verus! {

/// Whether a record's timestamp is its creation time or the time the log appended it.
#[derive(Clone, Copy, Debug, PartialEq, Eq, Structural)]
pub enum TimestampType {
    Creation,
    LogAppend,
}

/// One header of a record: a name and an optional payload.
#[derive(Debug)]
pub struct RecordHeader {
    pub key: String,
    pub value: Option<Vec<u8>>,
}

/// A record as it travels in a record batch.
#[derive(Debug)]
pub struct BatchRecord {
    pub transactional: bool,
    pub control: bool,
    pub partition_leader_epoch: i32,
    pub producer_id: i64,
    pub producer_epoch: i16,
    pub timestamp_type: TimestampType,
    pub offset: i64,
    pub sequence: i32,
    pub timestamp: i64,
    pub key: Option<Vec<u8>>,
    pub value: Option<Vec<u8>>,
    pub headers: Vec<RecordHeader>,
}

/// A record handed over by the application, before the producer stamps it.
#[derive(Debug)]
pub struct PutRecord {
    pub topic: String,
    pub key: Option<Vec<u8>>,
    pub value: Option<Vec<u8>>,
    pub headers: Vec<RecordHeader>,
}

pub open spec fn bytes_view(b: Option<Vec<u8>>) -> Option<Seq<u8>> {
    match b {
        Some(v) => Some(v@),
        None => None,
    }
}

pub open spec fn header_view(h: RecordHeader) -> (Seq<char>, Option<Seq<u8>>) {
    (h.key@, bytes_view(h.value))
}

pub open spec fn headers_view(hs: Seq<RecordHeader>) -> Seq<(Seq<char>, Option<Seq<u8>>)> {
    hs.map_values(|h: RecordHeader| header_view(h))
}

/// The header names of `hs` are pairwise distinct.
pub open spec fn unique_header_keys(hs: Seq<RecordHeader>) -> bool {
    forall|i: int, j: int| 0 <= i < j < hs.len() ==> hs[i].key@ != hs[j].key@
}

pub fn copy_optional_bytes(b: &Option<Vec<u8>>) -> (r: Option<Vec<u8>>)
    ensures
        bytes_view(r) == bytes_view(*b),
{
    match b {
        Some(v) => Some(copy_bytes(v)),
        None => None,
    }
}

pub fn copy_headers(hs: &Vec<RecordHeader>) -> (r: Vec<RecordHeader>)
    ensures
        headers_view(r@) == headers_view(hs@),
        unique_header_keys(hs@) ==> unique_header_keys(r@),
{
    let mut r: Vec<RecordHeader> = Vec::new();
    let mut i: usize = 0;
    while i < hs.len()
        invariant
            i <= hs.len(),
            r@.len() == i,
            forall|j: int| 0 <= j < i ==> header_view(#[trigger] r@[j]) == header_view(hs@[j]),
        decreases hs.len() - i,
    {
        r.push(RecordHeader { key: hs[i].key.clone(), value: copy_optional_bytes(&hs[i].value) });
        i = i + 1;
    }
    assert(headers_view(r@) =~= headers_view(hs@));
    r
}

/// The UTF-8 bytes of `s`.
pub fn bytes_of_str(s: &str) -> (r: Vec<u8>)
    ensures
        r@ == s.spec_bytes(),
{
    let b = s.as_bytes();
    let mut r: Vec<u8> = Vec::new();
    let mut i: usize = 0;
    while i < b.len()
        invariant
            i <= b@.len(),
            b@ == s.spec_bytes(),
            r@ == b@.subrange(0, i as int),
        decreases b@.len() - i,
    {
        r.push(b[i]);
        i = i + 1;
        assert(r@ =~= b@.subrange(0, i as int));
    }
    assert(r@ =~= b@);
    r
}

impl PutRecord {
    pub fn new(topic: &str) -> (r: Self)
        ensures
            r.topic@ == topic@,
            r.key is None,
            r.value is None,
            r.headers@.len() == 0,
    {
        PutRecord { topic: topic.to_owned(), key: None, value: None, headers: Vec::new() }
    }

    pub fn new_with_key_str(topic: &str, key: &str) -> (r: Self)
        ensures
            r.topic@ == topic@,
            bytes_view(r.key) == Some(key.spec_bytes()),
            r.value is None,
            r.headers@.len() == 0,
    {
        let mut out_new_instance = Self::new(topic);
        out_new_instance.set_key_str(key);
        out_new_instance
    }

    pub fn new_with_key_value_str(topic: &str, key: &str, value: &str) -> (r: Self)
        ensures
            r.topic@ == topic@,
            bytes_view(r.key) == Some(key.spec_bytes()),
            bytes_view(r.value) == Some(value.spec_bytes()),
            r.headers@.len() == 0,
    {
        let mut out_new_instance = Self::new_with_key_str(topic, key);
        out_new_instance.set_value_str(value);
        out_new_instance
    }

    pub fn set_key_str(&mut self, key: &str)
        ensures
            bytes_view(final(self).key) == Some(key.spec_bytes()),
            final(self).topic == old(self).topic,
            final(self).value == old(self).value,
            final(self).headers == old(self).headers,
    {
        self.key = Some(bytes_of_str(key));
    }

    pub fn set_value_str(&mut self, value: &str)
        ensures
            bytes_view(final(self).value) == Some(value.spec_bytes()),
            final(self).topic == old(self).topic,
            final(self).key == old(self).key,
            final(self).headers == old(self).headers,
    {
        self.value = Some(bytes_of_str(value));
    }

    pub fn set_str(&mut self, key: &str, value: &str)
        ensures
            bytes_view(final(self).key) == Some(key.spec_bytes()),
            bytes_view(final(self).value) == Some(value.spec_bytes()),
            final(self).topic == old(self).topic,
            final(self).headers == old(self).headers,
    {
        self.set_key_str(key);
        self.set_value_str(value);
    }

    /// Sets the header `key` to `value`: an existing header of that name is
    /// replaced in place, otherwise the header is added at the end.
    pub fn add_header_with_str_key(&mut self, key: &str, value: &[u8])
        ensures
            final(self).topic == old(self).topic,
            final(self).key == old(self).key,
            final(self).value == old(self).value,
            ({
                let hs = old(self).headers@;
                let ns = final(self).headers@;
                let h = (key@, Some(value@));
                if exists|i: int| 0 <= i < hs.len() && hs[i].key@ == key@ {
                    exists|i: int|
                        0 <= i < hs.len() && hs[i].key@ == key@ && (forall|j: int|
                            0 <= j < i ==> hs[j].key@ != key@) && headers_view(ns)
                            == headers_view(hs).update(i, h)
                } else {
                    headers_view(ns) == headers_view(hs).push(h)
                }
            }),
            unique_header_keys(old(self).headers@) ==> unique_header_keys(final(self).headers@),
    {
        let mut copied: Vec<u8> = Vec::new();
        let mut k: usize = 0;
        while k < value.len()
            invariant
                k <= value@.len(),
                copied@ == value@.subrange(0, k as int),
            decreases value@.len() - k,
        {
            copied.push(value[k]);
            k = k + 1;
            assert(copied@ =~= value@.subrange(0, k as int));
        }
        assert(copied@ =~= value@);
        let name = key.to_owned();
        let ghost hs = self.headers@;
        assert(self.topic == old(self).topic);
        let mut i: usize = 0;
        while i < self.headers.len()
            invariant
                i <= self.headers@.len(),
                self.headers@ == hs,
                hs == old(self).headers@,
                self.topic == old(self).topic,
                self.key == old(self).key,
                self.value == old(self).value,
                name@ == key@,
                copied@ == value@,
                forall|j: int| 0 <= j < i ==> hs[j].key@ != key@,
            decreases self.headers@.len() - i,
        {
            if self.headers[i].key == name {
                assert(hs[i as int].key@ == key@);
                self.headers.set(i, RecordHeader { key: name, value: Some(copied) });
                assert(forall|m: int|
                    0 <= m < hs.len() ==> #[trigger] self.headers@[m].key@ == hs[m].key@);
                assert(headers_view(self.headers@) =~= headers_view(hs).update(
                    i as int,
                    (key@, Some(value@)),
                ));
                assert(0 <= i < hs.len() && hs[i as int].key@ == key@ && (forall|j: int|
                    0 <= j < i ==> hs[j].key@ != key@) && headers_view(self.headers@)
                    == headers_view(hs).update(i as int, (key@, Some(value@))));
                proof {
                    if unique_header_keys(hs) {
                        assert forall|a: int, b: int| 0 <= a < b < self.headers@.len() implies
                            self.headers@[a].key@ != self.headers@[b].key@ by {
                            assert(self.headers@[a].key@ == hs[a].key@);
                            assert(self.headers@[b].key@ == hs[b].key@);
                        }
                    }
                }
                return ;
            }
            i = i + 1;
        }
        self.headers.push(RecordHeader { key: name, value: Some(copied) });
        assert(headers_view(self.headers@) =~= headers_view(hs).push((key@, Some(value@))));
    }
}

/// The topic names of `records`, each once.
pub open spec fn topics_of(records: Seq<PutRecord>) -> Set<Seq<char>> {
    Set::new(|t: Seq<char>| exists|i: int| 0 <= i < records.len() && records[i].topic@ == t)
}

pub open spec fn no_duplicate_names(s: Seq<String>) -> bool {
    forall|i: int, j: int| 0 <= i < j < s.len() ==> s[i]@ != s[j]@
}

pub open spec fn occurs_before(records: Seq<PutRecord>, n: int, t: Seq<char>) -> bool {
    exists|k: int| 0 <= k < n && records[k].topic@ == t
}

pub open spec fn listed(names: Seq<String>, t: Seq<char>) -> bool {
    exists|m: int| 0 <= m < names.len() && names[m]@ == t
}

/// The distinct topics of `records`, in the order in which each first occurs.
pub fn extract_topics(records: &Vec<PutRecord>) -> (r: Vec<String>)
    ensures
        no_duplicate_names(r@),
        forall|t: Seq<char>| #[trigger] topics_of(records@).contains(t) <==> listed(r@, t),
{
    let mut r: Vec<String> = Vec::new();
    let mut i: usize = 0;
    while i < records.len()
        invariant
            i <= records@.len(),
            no_duplicate_names(r@),
            forall|t: Seq<char>|
                #![trigger occurs_before(records@, i as int, t)]
                #![trigger listed(r@, t)]
                occurs_before(records@, i as int, t) <==> listed(r@, t),
        decreases records@.len() - i,
    {
        let topic = &records[i].topic;
        let mut j: usize = 0;
        let mut seen = false;
        while j < r.len()
            invariant
                j <= r@.len(),
                !seen ==> forall|m: int| 0 <= m < j ==> r@[m]@ != topic@,
                seen ==> listed(r@, topic@),
            decreases r@.len() - j,
        {
            if r[j] == *topic {
                seen = true;
            }
            j = j + 1;
        }
        let ghost before = r@;
        if !seen {
            r.push(topic.clone());
        }
        assert forall|t: Seq<char>|
            occurs_before(records@, i + 1, t) <==> #[trigger] listed(r@, t) by {
            if occurs_before(records@, i + 1, t) {
                let k = choose|k: int| 0 <= k < i + 1 && records@[k].topic@ == t;
                if k < i {
                    assert(occurs_before(records@, i as int, t));
                    let m = choose|m: int| 0 <= m < before.len() && before[m]@ == t;
                    assert(r@[m] == before[m]);
                } else if !seen {
                    assert(r@[before.len() as int]@ == t);
                }
            }
            if listed(r@, t) {
                let m = choose|m: int| 0 <= m < r@.len() && r@[m]@ == t;
                if m < before.len() {
                    assert(listed(before, t));
                    assert(occurs_before(records@, i as int, t));
                } else {
                    assert(records@[i as int].topic@ == t);
                }
            }
        }
        i = i + 1;
    }
    assert forall|t: Seq<char>| #[trigger] topics_of(records@).contains(t) <==> listed(r@, t) by {
        assert(topics_of(records@).contains(t) == occurs_before(records@, records@.len() as int, t));
    }
    r
}

/// A record whose batch fields are not set yet: no producer, offset,
/// sequence or timestamp, and creation time as the timestamp's meaning.
pub fn unstamped_record(put_record: &PutRecord) -> (r: BatchRecord)
    ensures
        !r.transactional,
        !r.control,
        r.partition_leader_epoch == -1,
        r.producer_id == -1,
        r.producer_epoch == -1,
        r.timestamp_type == TimestampType::Creation,
        r.offset == -1,
        r.sequence == -1,
        r.timestamp == -1,
        bytes_view(r.key) == bytes_view(put_record.key),
        bytes_view(r.value) == bytes_view(put_record.value),
        headers_view(r.headers@) == headers_view(put_record.headers@),
{
    BatchRecord {
        transactional: false,
        control: false,
        partition_leader_epoch: -1,
        producer_id: -1,
        producer_epoch: -1,
        timestamp_type: TimestampType::Creation,
        offset: -1,
        sequence: -1,
        timestamp: -1,
        key: copy_optional_bytes(&put_record.key),
        value: copy_optional_bytes(&put_record.value),
        headers: copy_headers(&put_record.headers),
    }
}

} // verus!

verus! {

/// What a record holds, as plain values.
pub struct RecordView {
    pub transactional: bool,
    pub control: bool,
    pub partition_leader_epoch: i32,
    pub producer_id: i64,
    pub producer_epoch: i16,
    pub timestamp_type: TimestampType,
    pub offset: i64,
    pub sequence: i32,
    pub timestamp: i64,
    pub key: Option<Seq<u8>>,
    pub value: Option<Seq<u8>>,
    pub headers: Seq<(Seq<char>, Option<Seq<u8>>)>,
}

pub open spec fn record_view(r: BatchRecord) -> RecordView {
    RecordView {
        transactional: r.transactional,
        control: r.control,
        partition_leader_epoch: r.partition_leader_epoch,
        producer_id: r.producer_id,
        producer_epoch: r.producer_epoch,
        timestamp_type: r.timestamp_type,
        offset: r.offset,
        sequence: r.sequence,
        timestamp: r.timestamp,
        key: bytes_view(r.key),
        value: bytes_view(r.value),
        headers: headers_view(r.headers@),
    }
}

pub open spec fn records_view(rs: Seq<BatchRecord>) -> Seq<RecordView> {
    rs.map_values(|r: BatchRecord| record_view(r))
}

/// The largest offset among `rs`, or -1 where there is none.
pub open spec fn max_offset(rs: Seq<RecordView>) -> i64
    decreases rs.len(),
{
    if rs.len() == 0 {
        -1i64
    } else if rs.len() == 1 {
        rs[0].offset
    } else {
        let m = max_offset(rs.drop_last());
        if rs.last().offset > m {
            rs.last().offset
        } else {
            m
        }
    }
}

pub fn max_record_offset(rs: &Vec<BatchRecord>) -> (r: i64)
    ensures
        r == max_offset(records_view(rs@)),
{
    let mut m: i64 = -1;
    let mut i: usize = 0;
    while i < rs.len()
        invariant
            i <= rs@.len(),
            m == max_offset(records_view(rs@.subrange(0, i as int))),
        decreases rs@.len() - i,
    {
        assert(records_view(rs@.subrange(0, i + 1)).drop_last() =~= records_view(
            rs@.subrange(0, i as int),
        ));
        if i == 0 || rs[i].offset > m {
            m = rs[i].offset;
        }
        i = i + 1;
    }
    assert(rs@.subrange(0, rs@.len() as int) =~= rs@);
    m
}

} // verus!
