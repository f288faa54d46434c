//! MCAP writer with manual chunk control and a summary section.
//!
//! The writer accepts pre-compressed chunks, or buffers single messages and
//! compresses them into chunks itself, and serializes MCAP records into its
//! output buffer. On `finish` it writes a summary section (schemas, channels,
//! statistics and chunk indexes) and a footer that points at it, so that the
//! output can be read in parallel.

use vstd::prelude::*;
use std::collections::BTreeMap;
use vstd::std_specs::iter::IteratorSpec;
use vstd::std_specs::cmp::OrdSpec;
use crate::bytes::{put_bytes, put_u16, put_u32, put_u64, put_u8, le16};
use crate::errors::CodecError;
use crate::format::mcap_constants::{
    OP_CHANNEL, OP_CHUNK, OP_CHUNK_INDEX, OP_DATA_END, OP_FOOTER, OP_HEADER, OP_MESSAGE,
    OP_MESSAGE_INDEX, OP_SCHEMA, OP_STATISTICS,
};
use crate::format::mcap_records::{
    channel_record, chunk_record, file_start, magic, metadata_entries, metadata_map,
    message_index_record, index_entries, zstd_name, message_record, u16_u64_entries,
    chunk_index_record, statistics_record, data_end_record, footer_record,
    schema_record, sorted_listing, lemma_file_start_len, string_pairs_bytes, utf8,
};
use crate::pipeline::types::chunk::{CompressedChunk, MessageIndexEntry, entry_pairs};
use crate::text::owned;
use crate::compression::{zstd_bulk_compress, zstd_compress};

verus! {

broadcast use vstd::std_specs::btree::group_btree_axioms, vstd::laws_cmp::group_laws_cmp;

/// Default target size of buffered messages before a chunk is written (4 MiB).
pub const DEFAULT_CHUNK_SIZE: usize = 4194304;

/// The entries of a `u16`-keyed map in increasing key order, by reference.
pub(crate) fn sorted_refs<'a, V>(m: &'a BTreeMap<u16, V>) -> (v: Vec<(u16, &'a V)>)
    ensures
        sorted_listing(m@, v@.map_values(|p: (u16, &'a V)| (p.0, *p.1))),
{
    let mut v: Vec<(u16, &'a V)> = Vec::new();
    assert(vstd::std_specs::btree::key_obeys_cmp_spec::<u16>());
    let iter = m.iter();
    let ghost s = iter.remaining();
    for kv in it: iter
        invariant
            it.seq() == s,
            v@.len() == it.index(),
            forall|i: int| 0 <= i < v@.len() ==> #[trigger] v@[i] == (*it.seq()[i].0, it.seq()[i].1),
    {
        v.push((*kv.0, kv.1));
    }
    let ghost l = v@.map_values(|p: (u16, &'a V)| (p.0, *p.1));
    assert(vstd::std_specs::btree::increasing_seq(s.map_values(|kv: (&u16, &V)| *kv.0)));
    assert forall|i: int, j: int| 0 <= i < j < l.len() implies l[i].0 < l[j].0 by {
        let ks = s.map_values(|kv: (&u16, &V)| *kv.0);
        assert(ks[i] == l[i].0);
        assert(ks[j] == l[j].0);
        assert(vstd::laws_cmp::obeys_cmp::<u16>());
        assert(ks[i].cmp_spec(&ks[j]) is Less);
    }
    assert forall|k: u16| #[trigger] m@.contains_key(k) implies exists|i: int|
        0 <= i < l.len() && l[i].0 == k by {
        assert(s.contains((&k, &m@[k])));
        let i = choose|i: int| 0 <= i < s.len() && s[i] == (&k, &m@[k]);
        assert(l[i].0 == k);
    }
    v
}

/// The entries of a `u16 -> u64` map in increasing key order.
fn u16_u64_listing(m: &BTreeMap<u16, u64>) -> (v: Vec<(u16, u64)>)
    ensures
        sorted_listing(m@, v@),
{
    let refs = sorted_refs(m);
    let mut v: Vec<(u16, u64)> = Vec::new();
    let mut i: usize = 0;
    while i < refs.len()
        invariant
            0 <= i <= refs@.len(),
            v@.len() == i,
            forall|j: int| 0 <= j < i ==> #[trigger] v@[j] == (refs@[j].0, *refs@[j].1),
        decreases refs.len() - i,
    {
        v.push((refs[i].0, *refs[i].1));
        i = i + 1;
    }
    assert(v@ =~= refs@.map_values(|p: (u16, &u64)| (p.0, *p.1)));
    v
}

/// Chunk index entry kept for the summary section.
#[derive(Debug, Clone)]
pub struct ChunkIndexRecord {
    /// Earliest message log time in the chunk.
    pub message_start_time: u64,
    /// Latest message log time in the chunk.
    pub message_end_time: u64,
    /// Offset of the chunk record from the start of the output.
    pub chunk_start_offset: u64,
    /// Length of the chunk record.
    pub chunk_length: u64,
    /// Per channel, the offset of its message index record.
    pub message_index_offsets: BTreeMap<u16, u64>,
    /// Total length of the message index records after the chunk.
    pub message_index_length: u64,
    /// Compression name.
    pub compression: String,
    /// Size of the compressed chunk data.
    pub compressed_size: u64,
    /// Size of the uncompressed chunk data.
    pub uncompressed_size: u64,
}

/// Schema kept for the summary section.
#[derive(Debug, Clone)]
pub struct SchemaRecord {
    pub id: u16,
    pub name: String,
    pub encoding: String,
    pub data: Vec<u8>,
}

/// Channel kept for the summary section.
#[derive(Debug, Clone)]
pub struct ChannelRecord {
    pub id: u16,
    pub schema_id: u16,
    pub topic: String,
    pub message_encoding: String,
    pub metadata: Vec<(String, String)>,
}

/// A message waiting to be written as part of a chunk.
#[derive(Debug, Clone)]
pub struct BufferedMessage {
    pub channel_id: u16,
    pub sequence: u32,
    pub log_time: u64,
    pub publish_time: u64,
    pub data: Vec<u8>,
}

/// The message index records of a chunk, one per channel in the listing.
pub open spec fn index_records(s: Seq<(u16, Vec<MessageIndexEntry>)>) -> Seq<u8>
    decreases s.len(),
{
    if s.len() == 0 {
        Seq::empty()
    } else {
        index_records(s.drop_last()) + message_index_record(s.last().0, entry_pairs(s.last().1@))
    }
}

/// The total length of the message index records of the listing `s`:
/// 15 bytes per channel plus 16 per entry.
pub open spec fn index_records_len(s: Seq<(u16, Vec<MessageIndexEntry>)>) -> nat
    decreases s.len(),
{
    if s.len() == 0 {
        0
    } else {
        index_records_len(s.drop_last()) + 15 + 16 * s.last().1@.len()
    }
}

proof fn lemma_index_entries_len(es: Seq<(u64, u64)>)
    ensures
        index_entries(es).len() == 16 * es.len(),
    decreases es.len(),
{
    if es.len() > 0 {
        lemma_index_entries_len(es.drop_last());
        crate::bytes::lemma_le_len(es.last().0 as nat, 8);
        crate::bytes::lemma_le_len(es.last().1 as nat, 8);
    }
}

proof fn lemma_index_records_len(s: Seq<(u16, Vec<MessageIndexEntry>)>)
    ensures
        index_records(s).len() == index_records_len(s),
    decreases s.len(),
{
    if s.len() > 0 {
        lemma_index_records_len(s.drop_last());
        let es = entry_pairs(s.last().1@);
        lemma_index_entries_len(es);
        crate::bytes::lemma_le_len((6 + 16 * es.len()) as u64 as nat, 8);
        crate::bytes::lemma_le_len(s.last().0 as nat, 2);
        crate::bytes::lemma_le_len((16 * es.len()) as u32 as nat, 4);
    }
}

/// A chunk whose index entry counts fit the `u32` length fields.
pub open spec fn chunk_fits(chunk: CompressedChunk) -> bool {
    &&& 40 + zstd_name().len() + chunk.compressed_data@.len() <= u64::MAX
    &&& forall|k: u16| #[trigger]
        chunk.message_indexes@.contains_key(k) ==> 16 * chunk.message_indexes@[k]@.len()
            <= u32::MAX
}

/// The record of chunk index `ci` lies in `bytes` at its offset.
pub open spec fn chunk_located(bytes: Seq<u8>, ci: ChunkIndexRecord) -> bool {
    &&& ci.chunk_start_offset + ci.chunk_length <= bytes.len()
    &&& exists|c: Seq<u8>|
        c.len() == ci.compressed_size && #[trigger] bytes.subrange(
            ci.chunk_start_offset as int,
            ci.chunk_start_offset + ci.chunk_length,
        ) == chunk_record(ci.message_start_time, ci.message_end_time, ci.uncompressed_size, c)
}

/// Each message index offset of `ci` points at a message index record in
/// `bytes` for its channel.
pub open spec fn indexes_located(bytes: Seq<u8>, ci: ChunkIndexRecord) -> bool {
    forall|k: u16| #[trigger]
        ci.message_index_offsets@.contains_key(k) ==> ci.message_index_offsets@[k] + 15 <= bytes.len()
            && bytes[ci.message_index_offsets@[k] as int] == OP_MESSAGE_INDEX && bytes.subrange(
            ci.message_index_offsets@[k] + 9,
            ci.message_index_offsets@[k] + 11,
        ) == le16(k)
}

/// Appending bytes keeps chunk and message index records where they were.
pub proof fn lemma_located_append(bytes: Seq<u8>, extra: Seq<u8>, ci: ChunkIndexRecord)
    requires
        chunk_located(bytes, ci),
        indexes_located(bytes, ci),
    ensures
        chunk_located(bytes + extra, ci),
        indexes_located(bytes + extra, ci),
{
    let c = choose|c: Seq<u8>|
        c.len() == ci.compressed_size && #[trigger] bytes.subrange(
            ci.chunk_start_offset as int,
            ci.chunk_start_offset + ci.chunk_length,
        ) == chunk_record(ci.message_start_time, ci.message_end_time, ci.uncompressed_size, c);
    assert((bytes + extra).subrange(
        ci.chunk_start_offset as int,
        ci.chunk_start_offset + ci.chunk_length,
    ) =~= bytes.subrange(ci.chunk_start_offset as int, ci.chunk_start_offset + ci.chunk_length));
    assert forall|k: u16| #[trigger] ci.message_index_offsets@.contains_key(k) implies (bytes
        + extra).subrange(
        ci.message_index_offsets@[k] + 9,
        ci.message_index_offsets@[k] + 11,
    ) == le16(k) by {
        assert((bytes + extra).subrange(
            ci.message_index_offsets@[k] + 9,
            ci.message_index_offsets@[k] + 11,
        ) =~= bytes.subrange(ci.message_index_offsets@[k] + 9, ci.message_index_offsets@[k] + 11));
    }
}

/// All chunk indexes of a list are located in `bytes`.
pub open spec fn all_located(bytes: Seq<u8>, cis: Seq<ChunkIndexRecord>) -> bool {
    forall|i: int|
        0 <= i < cis.len() ==> chunk_located(bytes, #[trigger] cis[i]) && indexes_located(
            bytes,
            cis[i],
        )
}

/// Appending bytes keeps every chunk index located.
pub proof fn lemma_all_located_append(bytes: Seq<u8>, extra: Seq<u8>, cis: Seq<ChunkIndexRecord>)
    requires
        all_located(bytes, cis),
    ensures
        all_located(bytes + extra, cis),
{
    assert forall|i: int| 0 <= i < cis.len() implies chunk_located(bytes + extra, #[trigger] cis[i])
        && indexes_located(bytes + extra, cis[i]) by {
        lemma_located_append(bytes, extra, cis[i]);
    }
}

/// A schema whose record length fits its `u64` field.
pub open spec fn schema_fits(r: SchemaRecord) -> bool {
    14 + sbytes(r.name).len() + sbytes(r.encoding).len() + r.data@.len() <= u64::MAX
}

/// The summary copies of a list of schemas.
pub open spec fn schemas_bytes(rs: Seq<SchemaRecord>) -> Seq<u8>
    decreases rs.len(),
{
    if rs.len() == 0 {
        Seq::empty()
    } else {
        schemas_bytes(rs.drop_last()) + schema_bytes(rs.last())
    }
}

/// The summary copies of a list of channels.
pub open spec fn channels_bytes(rs: Seq<ChannelRecord>) -> Seq<u8>
    decreases rs.len(),
{
    if rs.len() == 0 {
        Seq::empty()
    } else {
        channels_bytes(rs.drop_last()) + channel_bytes(rs.last())
    }
}

/// Bytes of the record of chunk index `ci`, its offsets listed by `offsets`.
pub open spec fn chunk_index_bytes(ci: ChunkIndexRecord, offsets: Seq<(u16, u64)>) -> Seq<u8> {
    chunk_index_record(
        ci.message_start_time,
        ci.message_end_time,
        ci.chunk_start_offset,
        ci.chunk_length,
        offsets,
        ci.message_index_length,
        sbytes(ci.compression),
        ci.compressed_size,
        ci.uncompressed_size,
    )
}

/// The chunk index records of a list, the offsets of each listed by `ls`.
pub open spec fn chunk_indexes_bytes(cis: Seq<ChunkIndexRecord>, ls: Seq<Seq<(u16, u64)>>) -> Seq<u8>
    decreases cis.len(),
{
    if cis.len() == 0 || ls.len() == 0 {
        Seq::empty()
    } else {
        chunk_indexes_bytes(cis.drop_last(), ls.drop_last()) + chunk_index_bytes(cis.last(), ls.last())
    }
}

/// A strictly increasing listing of `u16` keys has at most 65536 entries.
pub proof fn lemma_listing_len<V>(s: Seq<(u16, V)>)
    requires
        forall|i: int, j: int| 0 <= i < j < s.len() ==> s[i].0 < s[j].0,
    ensures
        s.len() <= 65536,
{
    if s.len() > 65536 {
        lemma_listing_lower_bound(s, 65536);
        assert(s[65536].0 >= 65536);
    }
}

proof fn lemma_listing_lower_bound<V>(s: Seq<(u16, V)>, i: int)
    requires
        forall|a: int, b: int| 0 <= a < b < s.len() ==> s[a].0 < s[b].0,
        0 <= i < s.len(),
    ensures
        s[i].0 >= i,
    decreases i,
{
    if i > 0 {
        lemma_listing_lower_bound(s, i - 1);
        assert(s[i - 1].0 < s[i].0);
    }
}

/// Appends the summary copy of each schema.
fn put_schema_records(out: &mut Vec<u8>, rs: &Vec<SchemaRecord>)
    requires
        forall|i: int| 0 <= i < rs@.len() ==> schema_fits(#[trigger] rs@[i]),
    ensures
        final(out)@ == old(out)@ + schemas_bytes(rs@),
{
    let ghost start = out@;
    let mut i: usize = 0;
    while i < rs.len()
        invariant
            0 <= i <= rs@.len(),
            forall|j: int| 0 <= j < rs@.len() ==> schema_fits(#[trigger] rs@[j]),
            out@ == start + schemas_bytes(rs@.take(i as int)),
        decreases rs.len() - i,
    {
        let r = &rs[i];
        let ghost before = out@;
        let name_bytes = r.name.as_str().as_bytes();
        let encoding_bytes = r.encoding.as_str().as_bytes();
        proof {
            assert(schema_fits(rs@[i as int]));
        }
        let record_length: u64 = 2 + 4 + name_bytes.len() as u64 + 4 + encoding_bytes.len() as u64
            + 4 + r.data.len() as u64;
        put_u8(out, OP_SCHEMA);
        put_u64(out, record_length);
        put_u16(out, r.id);
        put_u32(out, name_bytes.len() as u32);
        put_bytes(out, name_bytes);
        put_u32(out, encoding_bytes.len() as u32);
        put_bytes(out, encoding_bytes);
        put_u32(out, r.data.len() as u32);
        put_bytes(out, r.data.as_slice());
        proof {
            assert(out@ =~= before + schema_bytes(rs@[i as int]));
            assert(rs@.take(i + 1).drop_last() =~= rs@.take(i as int));
        }
        i = i + 1;
        assert(out@ =~= start + schemas_bytes(rs@.take(i as int)));
    }
    assert(rs@.take(rs@.len() as int) =~= rs@);
}

/// Appends the summary copy of each channel.
fn put_channel_records(out: &mut Vec<u8>, rs: &Vec<ChannelRecord>)
    requires
        forall|i: int|
            0 <= i < rs@.len() ==> ParallelMcapWriter::channel_fits(
                #[trigger] rs@[i].topic@,
                rs@[i].message_encoding@,
                rs@[i].metadata@,
            ),
    ensures
        final(out)@ == old(out)@ + channels_bytes(rs@),
{
    let ghost start = out@;
    let mut i: usize = 0;
    while i < rs.len()
        invariant
            0 <= i <= rs@.len(),
            forall|j: int|
                0 <= j < rs@.len() ==> ParallelMcapWriter::channel_fits(
                    #[trigger] rs@[j].topic@,
                    rs@[j].message_encoding@,
                    rs@[j].metadata@,
                ),
            out@ == start + channels_bytes(rs@.take(i as int)),
        decreases rs.len() - i,
    {
        let r = &rs[i];
        proof {
            assert(ParallelMcapWriter::channel_fits(r.topic@, r.message_encoding@, r.metadata@));
        }
        let ghost before = out@;
        let meta = serialize_metadata(&r.metadata);
        proof {
            crate::bytes::lemma_le_len(
                metadata_entries(string_pairs_bytes(r.metadata@)).len() as u32 as nat,
                4,
            );
        }
        let topic_bytes = r.topic.as_str().as_bytes();
        let encoding_bytes = r.message_encoding.as_str().as_bytes();
        let record_length: u64 = 2 + 2 + 4 + topic_bytes.len() as u64 + 4
            + encoding_bytes.len() as u64 + meta.len() as u64;
        put_u8(out, OP_CHANNEL);
        put_u64(out, record_length);
        put_u16(out, r.id);
        put_u16(out, r.schema_id);
        put_u32(out, topic_bytes.len() as u32);
        put_bytes(out, topic_bytes);
        put_u32(out, encoding_bytes.len() as u32);
        put_bytes(out, encoding_bytes);
        put_bytes(out, meta.as_slice());
        proof {
            assert(out@ =~= before + channel_bytes(rs@[i as int]));
            assert(rs@.take(i + 1).drop_last() =~= rs@.take(i as int));
        }
        i = i + 1;
        assert(out@ =~= start + channels_bytes(rs@.take(i as int)));
    }
    assert(rs@.take(rs@.len() as int) =~= rs@);
}

/// Appends the entries of a `u16 -> u64` listing.
fn put_u16_u64_entries(out: &mut Vec<u8>, es: &Vec<(u16, u64)>)
    ensures
        final(out)@ == old(out)@ + u16_u64_entries(es@),
{
    let ghost start = out@;
    let mut i: usize = 0;
    while i < es.len()
        invariant
            0 <= i <= es@.len(),
            out@ == start + u16_u64_entries(es@.take(i as int)),
        decreases es.len() - i,
    {
        put_u16(out, es[i].0);
        put_u64(out, es[i].1);
        proof {
            assert(es@.take(i + 1).drop_last() =~= es@.take(i as int));
        }
        i = i + 1;
        assert(out@ =~= start + u16_u64_entries(es@.take(i as int)));
    }
    assert(es@.take(es@.len() as int) =~= es@);
}

/// Appends the chunk index record of each chunk.
/// Append a statistics record.
fn put_statistics(
    out: &mut Vec<u8>,
    message_count: u64,
    schema_count: u16,
    channel_count: u32,
    chunk_count: u32,
    start: u64,
    end: u64,
    counts: &Vec<(u16, u64)>,
)
    requires
        counts@.len() <= 65536,
    ensures
        final(out)@ == old(out)@ + statistics_record(
            message_count,
            schema_count,
            channel_count,
            chunk_count,
            start,
            end,
            counts@,
        ),
{
    let ghost before = out@;
    let map_bytes: u64 = 10 * counts.len() as u64;
    let record_length: u64 = 46 + map_bytes;
    put_u8(out, OP_STATISTICS);
    put_u64(out, record_length);
    put_u64(out, message_count);
    put_u16(out, schema_count);
    put_u32(out, channel_count);
    put_u32(out, 0);
    put_u32(out, 0);
    put_u32(out, chunk_count);
    put_u64(out, start);
    put_u64(out, end);
    put_u32(out, map_bytes as u32);
    put_u16_u64_entries(out, counts);
    assert(out@ =~= before + statistics_record(
        message_count,
        schema_count,
        channel_count,
        chunk_count,
        start,
        end,
        counts@,
    ));
}

/// Append a data end record with a zero CRC.
fn put_data_end(out: &mut Vec<u8>)
    ensures
        final(out)@ == old(out)@ + data_end_record(),
{
    let ghost before = out@;
    put_u8(out, OP_DATA_END);
    put_u64(out, 4);
    put_u32(out, 0);
    assert(out@ =~= before + data_end_record());
}

/// Append a footer record and the closing magic.
fn put_footer(out: &mut Vec<u8>, summary_start: u64)
    ensures
        final(out)@ == old(out)@ + footer_record(summary_start) + magic(),
{
    let ghost before = out@;
    put_u8(out, OP_FOOTER);
    put_u64(out, 20);
    put_u64(out, summary_start);
    put_u64(out, 0);
    put_u32(out, 0);
    let ghost mid = out@;
    put_u8(out, 0x89);
    put_u8(out, 0x4D);
    put_u8(out, 0x43);
    put_u8(out, 0x41);
    put_u8(out, 0x50);
    put_u8(out, 0x30);
    put_u8(out, 0x0D);
    put_u8(out, 0x0A);
    assert(mid =~= before + footer_record(summary_start));
    assert(out@ =~= mid + magic());
}

fn put_chunk_indexes(out: &mut Vec<u8>, cis: &Vec<ChunkIndexRecord>) -> (ls: Ghost<Seq<Seq<(u16, u64)>>>)
    requires
        forall|i: int| 0 <= i < cis@.len() ==> utf8(#[trigger] cis@[i].compression@).len() <= u32::MAX,
    ensures
        ls@.len() == cis@.len(),
        forall|i: int| 0 <= i < cis@.len() ==> sorted_listing(cis@[i].message_index_offsets@, #[trigger] ls@[i]),
        final(out)@ == old(out)@ + chunk_indexes_bytes(cis@, ls@),
{
    let ghost start = out@;
    let ghost mut ls: Seq<Seq<(u16, u64)>> = Seq::empty();
    let mut i: usize = 0;
    while i < cis.len()
        invariant
            0 <= i <= cis@.len(),
            forall|j: int| 0 <= j < cis@.len() ==> utf8(#[trigger] cis@[j].compression@).len() <= u32::MAX,
            ls.len() == i,
            forall|j: int| 0 <= j < i ==> sorted_listing(cis@[j].message_index_offsets@, #[trigger] ls[j]),
            out@ == start + chunk_indexes_bytes(cis@.take(i as int), ls),
        decreases cis.len() - i,
    {
        let ci = &cis[i];
        let ghost before = out@;
        let offsets = u16_u64_listing(&ci.message_index_offsets);
        proof {
            lemma_listing_len(offsets@);
            assert(utf8(cis@[i as int].compression@).len() <= u32::MAX);
        }
        let map_bytes: u64 = 10 * offsets.len() as u64;
        let compression_bytes = ci.compression.as_str().as_bytes();
        let record_length: u64 = 8 * 7 + 4 + map_bytes + 4 + compression_bytes.len() as u64;
        put_u8(out, OP_CHUNK_INDEX);
        put_u64(out, record_length);
        put_u64(out, ci.message_start_time);
        put_u64(out, ci.message_end_time);
        put_u64(out, ci.chunk_start_offset);
        put_u64(out, ci.chunk_length);
        put_u32(out, map_bytes as u32);
        put_u16_u64_entries(out, &offsets);
        put_u64(out, ci.message_index_length);
        put_u32(out, compression_bytes.len() as u32);
        put_bytes(out, compression_bytes);
        put_u64(out, ci.compressed_size);
        put_u64(out, ci.uncompressed_size);
        proof {
            assert(out@ =~= before + chunk_index_bytes(cis@[i as int], offsets@));
            assert(cis@.take(i + 1).drop_last() =~= cis@.take(i as int));
            let ls2 = ls.push(offsets@);
            assert(ls2.drop_last() =~= ls);
            ls = ls2;
        }
        i = i + 1;
        assert(out@ =~= start + chunk_indexes_bytes(cis@.take(i as int), ls));
    }
    assert(cis@.take(cis@.len() as int) =~= cis@);
    Ghost(ls)
}

/// Appends a message index record for one channel.
fn put_message_index(out: &mut Vec<u8>, channel_id: u16, entries: &Vec<MessageIndexEntry>)
    requires
        16 * entries@.len() <= u32::MAX,
    ensures
        final(out)@ == old(out)@ + message_index_record(channel_id, entry_pairs(entries@)),
{
    let ghost before = out@;
    let records_byte_length: u32 = entries.len() as u32 * 16;
    let record_length: u64 = 2 + 4 + records_byte_length as u64;
    put_u8(out, OP_MESSAGE_INDEX);
    put_u64(out, record_length);
    put_u16(out, channel_id);
    put_u32(out, records_byte_length);
    let ghost head = out@;
    let ghost es = entry_pairs(entries@);
    let mut i: usize = 0;
    while i < entries.len()
        invariant
            0 <= i <= entries@.len(),
            es == entry_pairs(entries@),
            out@ == head + index_entries(es.take(i as int)),
        decreases entries.len() - i,
    {
        put_u64(out, entries[i].log_time);
        put_u64(out, entries[i].offset);
        proof {
            assert(es.take(i + 1).drop_last() =~= es.take(i as int));
        }
        i = i + 1;
        assert(out@ =~= head + index_entries(es.take(i as int)));
    }
    assert(es.take(entries@.len() as int) =~= es);
    assert(out@ =~= before + message_index_record(channel_id, es));
}

/// The message records of a buffer, in order.
pub open spec fn buffer_bytes(b: Seq<BufferedMessage>) -> Seq<u8>
    decreases b.len(),
{
    if b.len() == 0 {
        Seq::empty()
    } else {
        buffer_bytes(b.drop_last()) + message_record(
            b.last().channel_id,
            b.last().sequence,
            b.last().log_time,
            b.last().publish_time,
            b.last().data@,
        )
    }
}

/// For the messages of channel `ch` in a buffer, in order: the log time and
/// the offset of the message record within `buffer_bytes(b)`.
pub open spec fn channel_entries(b: Seq<BufferedMessage>, ch: u16) -> Seq<(u64, u64)>
    decreases b.len(),
{
    if b.len() == 0 {
        Seq::empty()
    } else if b.last().channel_id == ch {
        channel_entries(b.drop_last(), ch).push(
            (b.last().log_time, buffer_bytes(b.drop_last()).len() as u64),
        )
    } else {
        channel_entries(b.drop_last(), ch)
    }
}

/// The earliest log time of a buffer (`u64::MAX` when empty).
pub open spec fn min_log_time(b: Seq<BufferedMessage>) -> u64
    decreases b.len(),
{
    if b.len() == 0 {
        u64::MAX
    } else if b.last().log_time < min_log_time(b.drop_last()) {
        b.last().log_time
    } else {
        min_log_time(b.drop_last())
    }
}

/// The latest log time of a buffer (0 when empty).
pub open spec fn max_log_time(b: Seq<BufferedMessage>) -> u64
    decreases b.len(),
{
    if b.len() == 0 {
        0
    } else if b.last().log_time > max_log_time(b.drop_last()) {
        b.last().log_time
    } else {
        max_log_time(b.drop_last())
    }
}

/// Whether some buffered message is on channel `ch`.
pub open spec fn has_channel(b: Seq<BufferedMessage>, ch: u16) -> bool {
    exists|j: int| 0 <= j < b.len() && b[j].channel_id == ch
}

/// `chunk` is the chunk made from buffer `b`: its records compressed with
/// zstd at level 3, its time bounds, message count and per-channel indexes.
pub open spec fn chunk_from_buffer(b: Seq<BufferedMessage>, sequence: u64, chunk: CompressedChunk) -> bool {
    &&& chunk.sequence == sequence
    &&& chunk.compressed_data@ == zstd_bulk_compress(buffer_bytes(b), 3)
    &&& chunk.uncompressed_size == buffer_bytes(b).len()
    &&& chunk.message_start_time == min_log_time(b)
    &&& chunk.message_end_time == max_log_time(b)
    &&& chunk.message_count == b.len()
    &&& forall|ch: u16| #[trigger] chunk.message_indexes@.contains_key(ch) <==> has_channel(b, ch)
    &&& forall|ch: u16| #[trigger]
        chunk.message_indexes@.contains_key(ch) ==> entry_pairs(chunk.message_indexes@[ch]@)
            == channel_entries(b, ch)
}

/// A message record takes 31 bytes plus its data.
pub proof fn lemma_message_record_len(ch: u16, sq: u32, lt: u64, pt: u64, d: Seq<u8>)
    ensures
        message_record(ch, sq, lt, pt, d).len() == 31 + d.len(),
{
    crate::bytes::lemma_le_len((22 + d.len()) as u64 as nat, 8);
    crate::bytes::lemma_le_len(ch as nat, 2);
    crate::bytes::lemma_le_len(sq as nat, 4);
    crate::bytes::lemma_le_len(lt as nat, 8);
    crate::bytes::lemma_le_len(pt as nat, 8);
}

/// The records of a prefix of a buffer are a prefix of the buffer's records.
pub proof fn lemma_buffer_bytes_prefix(b: Seq<BufferedMessage>, n: int)
    requires
        0 <= n <= b.len(),
    ensures
        buffer_bytes(b.take(n)).len() <= buffer_bytes(b).len(),
    decreases b.len() - n,
{
    if n < b.len() {
        lemma_buffer_bytes_prefix(b, n + 1);
        assert(b.take(n + 1).drop_last() =~= b.take(n));
    } else {
        assert(b.take(n) =~= b);
    }
}

/// A prefix of a buffer has no more entries on a channel than the buffer.
pub proof fn lemma_channel_entries_prefix(b: Seq<BufferedMessage>, n: int, ch: u16)
    requires
        0 <= n <= b.len(),
    ensures
        channel_entries(b.take(n), ch).len() <= channel_entries(b, ch).len(),
    decreases b.len() - n,
{
    if n < b.len() {
        lemma_channel_entries_prefix(b, n + 1, ch);
        assert(b.take(n + 1).drop_last() =~= b.take(n));
    } else {
        assert(b.take(n) =~= b);
    }
}

/// A buffer without messages on `ch` has no entries for it.
pub proof fn lemma_no_channel_entries(b: Seq<BufferedMessage>, ch: u16)
    requires
        !has_channel(b, ch),
    ensures
        channel_entries(b, ch) == Seq::<(u64, u64)>::empty(),
    decreases b.len(),
{
    if b.len() > 0 {
        assert(!has_channel(b.drop_last(), ch)) by {
            if has_channel(b.drop_last(), ch) {
                let j = choose|j: int| 0 <= j < b.len() - 1 && b.drop_last()[j].channel_id == ch;
                assert(b[j].channel_id == ch);
            }
        }
        lemma_no_channel_entries(b.drop_last(), ch);
        assert(b[b.len() - 1].channel_id != ch);
    }
}

/// UTF-8 bytes of a `String`.
pub open spec fn sbytes(s: String) -> Seq<u8> {
    utf8(s@)
}

/// Bytes of the schema record that `r` stands for.
pub open spec fn schema_bytes(r: SchemaRecord) -> Seq<u8> {
    schema_record(r.id, sbytes(r.name), sbytes(r.encoding), r.data@)
}

/// Bytes of the metadata map of a channel.
pub open spec fn metadata_bytes(m: Seq<(String, String)>) -> Seq<u8> {
    metadata_map(string_pairs_bytes(m))
}

/// Bytes of the channel record that `r` stands for.
pub open spec fn channel_bytes(r: ChannelRecord) -> Seq<u8> {
    channel_record(
        r.id,
        r.schema_id,
        sbytes(r.topic),
        sbytes(r.message_encoding),
        metadata_bytes(r.metadata@),
    )
}

/// The character views of a list of string pairs.
pub open spec fn pair_views(m: Seq<(String, String)>) -> Seq<(Seq<char>, Seq<char>)> {
    m.map_values(|p: (String, String)| (p.0@, p.1@))
}

/// A copy of a list of string pairs.
fn copy_pairs(m: &Vec<(String, String)>) -> (r: Vec<(String, String)>)
    ensures
        pair_views(r@) == pair_views(m@),
        metadata_bytes(r@) == metadata_bytes(m@),
        metadata_fits(r@) == metadata_fits(m@),
        string_pairs_bytes(r@) == string_pairs_bytes(m@),
{
    let mut r: Vec<(String, String)> = Vec::new();
    let mut i: usize = 0;
    while i < m.len()
        invariant
            0 <= i <= m.len(),
            r@.len() == i,
            forall|j: int| 0 <= j < i ==> r@[j].0@ == m@[j].0@ && r@[j].1@ == m@[j].1@,
        decreases m.len() - i,
    {
        let k = owned(m[i].0.as_str());
        let v = owned(m[i].1.as_str());
        r.push((k, v));
        i = i + 1;
    }
    assert(pair_views(r@) =~= pair_views(m@));
    assert(string_pairs_bytes(r@) =~= string_pairs_bytes(m@));
    r
}

/// Metadata whose serialized entries fit the `u32` length prefix.
pub open spec fn metadata_fits(m: Seq<(String, String)>) -> bool {
    metadata_entries(string_pairs_bytes(m)).len() <= u32::MAX
}

/// Serializes a string map as an MCAP map: the total byte length of the
/// entries as a `u32`, then each key and value with its `u32` length.
pub fn serialize_metadata(metadata: &Vec<(String, String)>) -> (bytes: Vec<u8>)
    requires
        metadata_fits(metadata@),
    ensures
        bytes@ == metadata_bytes(metadata@),
{
    let ghost es = string_pairs_bytes(metadata@);
    let mut entries: Vec<u8> = Vec::new();
    let mut i: usize = 0;
    while i < metadata.len()
        invariant
            0 <= i <= metadata.len(),
            es == string_pairs_bytes(metadata@),
            entries@ == metadata_entries(es.take(i as int)),
            metadata_entries(es).len() <= u32::MAX,
        decreases metadata.len() - i,
    {
        let key = metadata[i].0.as_str();
        let value = metadata[i].1.as_str();
        proof {
            assert(es.take(i + 1).drop_last() =~= es.take(i as int));
            lemma_metadata_entries_prefix(es, i + 1);
        }
        put_u32(&mut entries, key.len() as u32);
        put_bytes(&mut entries, key.as_bytes());
        put_u32(&mut entries, value.len() as u32);
        put_bytes(&mut entries, value.as_bytes());
        i = i + 1;
        proof {
            assert(entries@ =~= metadata_entries(es.take(i as int)));
        }
    }
    assert(es.take(metadata.len() as int) =~= es);
    let mut bytes: Vec<u8> = Vec::new();
    put_u32(&mut bytes, entries.len() as u32);
    put_bytes(&mut bytes, entries.as_slice());
    bytes
}

/// The entries of a prefix are no longer than those of the whole list.
proof fn lemma_metadata_entries_prefix(es: Seq<(Seq<u8>, Seq<u8>)>, n: int)
    requires
        0 <= n <= es.len(),
    ensures
        metadata_entries(es.take(n)).len() <= metadata_entries(es).len(),
    decreases es.len() - n,
{
    if n < es.len() {
        lemma_metadata_entries_prefix(es, n + 1);
        assert(es.take(n + 1).drop_last() =~= es.take(n));
    } else {
        assert(es.take(n) =~= es);
    }
}

/// Custom MCAP writer with manual chunk control.
///
/// Unlike a writer that compresses internally, this writer accepts chunks
/// that were already compressed, and writes them directly, so that
/// compression can run in parallel elsewhere. Single messages given to
/// `write_message` are buffered and written as zstd-compressed chunks once
/// the buffer reaches the target chunk size.
pub struct ParallelMcapWriter {
    /// Output buffer; the MCAP file is everything after `base`.
    writer: Vec<u8>,
    /// Length of the output buffer when the writer was created.
    base: usize,
    /// Schemas written so far, in order (names are distinct).
    schema_records: Vec<SchemaRecord>,
    /// Channels written so far, in order (topics are distinct).
    channel_records: Vec<ChannelRecord>,
    /// Next schema ID to assign.
    next_schema_id: u16,
    /// Next channel ID to assign.
    next_channel_id: u16,
    /// Next sequence number per channel.
    sequences: BTreeMap<u16, u32>,
    /// Chunks written.
    chunks_written: u64,
    /// Messages written (including buffered ones).
    messages_written: u64,
    /// Offset just after the header.
    write_start: u64,
    /// Chunk index records for the summary section.
    pub chunk_indexes: Vec<ChunkIndexRecord>,
    /// Message count per channel.
    channel_message_counts: BTreeMap<u16, u64>,
    /// Earliest message log time in the file.
    pub file_message_start_time: u64,
    /// Latest message log time in the file.
    pub file_message_end_time: u64,
    /// Offset of the summary section (set by `finish`).
    pub summary_start_offset: u64,
    /// Messages waiting to be written as a chunk.
    message_buffer: Vec<BufferedMessage>,
    /// Uncompressed size of the buffered message records.
    buffer_size: usize,
    /// Buffer size at which a chunk is written.
    target_chunk_size: usize,
}

impl ParallelMcapWriter {
    /// The bytes of the MCAP file written so far.
    pub closed spec fn written(&self) -> Seq<u8> {
        self.writer@.subrange(self.base as int, self.writer@.len() as int)
    }

    /// Current write position: the number of bytes written.
    pub closed spec fn pos(&self) -> nat {
        self.written().len()
    }

    pub closed spec fn schemas(&self) -> Seq<SchemaRecord> {
        self.schema_records@
    }

    pub closed spec fn channels(&self) -> Seq<ChannelRecord> {
        self.channel_records@
    }

    pub closed spec fn next_schema(&self) -> u16 {
        self.next_schema_id
    }

    pub closed spec fn next_channel(&self) -> u16 {
        self.next_channel_id
    }

    pub closed spec fn sequence_map(&self) -> Map<u16, u32> {
        self.sequences@
    }

    pub closed spec fn count_map(&self) -> Map<u16, u64> {
        self.channel_message_counts@
    }

    /// Chunk index records collected for the summary section.
    pub closed spec fn chunk_index_list(&self) -> Seq<ChunkIndexRecord> {
        self.chunk_indexes@
    }

    /// Summary section offset recorded by `finish`.
    pub closed spec fn summary_start(&self) -> u64 {
        self.summary_start_offset
    }

    pub closed spec fn chunk_count(&self) -> u64 {
        self.chunks_written
    }

    /// The earliest and latest message log times written or buffered
    /// (`u64::MAX` and 0 before any).
    pub closed spec fn time_bounds(&self) -> (u64, u64) {
        (self.file_message_start_time, self.file_message_end_time)
    }

    pub closed spec fn message_count(&self) -> u64 {
        self.messages_written
    }

    pub closed spec fn buffered(&self) -> Seq<BufferedMessage> {
        self.message_buffer@
    }

    pub closed spec fn buffered_size(&self) -> usize {
        self.buffer_size
    }

    pub closed spec fn target_size(&self) -> usize {
        self.target_chunk_size
    }

    /// Well-formedness: the output starts with the magic and header, schema
    /// names and channel topics are distinct, and every buffered message has
    /// been counted.
    pub closed spec fn wf(&self) -> bool {
        &&& self.base <= self.writer@.len()
        &&& self.written().len() >= file_start().len()
        &&& self.written().take(file_start().len() as int) == file_start()
        &&& self.write_start == file_start().len()
        &&& forall|i: int, j: int|
            0 <= i < j < self.schema_records@.len() ==> self.schema_records@[i].name@
                != self.schema_records@[j].name@
        &&& forall|i: int, j: int|
            0 <= i < j < self.channel_records@.len() ==> self.channel_records@[i].topic@
                != self.channel_records@[j].topic@
        &&& self.messages_written >= self.message_buffer@.len()
        &&& all_located(self.written(), self.chunk_indexes@)
        &&& self.buffer_size == buffer_bytes(self.message_buffer@).len()
        &&& forall|i: int|
            0 <= i < self.schema_records@.len() ==> schema_fits(#[trigger] self.schema_records@[i])
        &&& forall|i: int|
            0 <= i < self.channel_records@.len() ==> Self::channel_fits(
                #[trigger] self.channel_records@[i].topic@,
                self.channel_records@[i].message_encoding@,
                self.channel_records@[i].metadata@,
            )
        &&& forall|i: int|
            0 <= i < self.chunk_indexes@.len() ==> utf8(#[trigger] self.chunk_indexes@[i].compression@).len()
                <= u32::MAX
        &&& forall|ch: u16| 16 * #[trigger] channel_entries(self.message_buffer@, ch).len() <= u32::MAX
        &&& self.sequences_count_messages()
        &&& self.chunks_written == self.chunk_indexes@.len()
    }

    /// Each channel's next sequence number is the number of messages
    /// written on it since it was registered.
    pub closed spec fn sequences_count_messages(&self) -> bool {
        &&& self.sequences@.dom() == self.channel_message_counts@.dom()
        &&& forall|ch: u16| #[trigger]
            self.sequences@.contains_key(ch) ==> self.sequences@[ch] as u64 == self.channel_message_counts@[ch]
    }

    /// The output buffer holds the bytes it was created with, then the file.
    pub closed spec fn output(&self) -> Seq<u8> {
        self.writer@
    }

    /// Length of the output buffer when the writer was created.
    pub closed spec fn output_base(&self) -> nat {
        self.base as nat
    }

    proof fn lemma_written_append(&self, other: &Self, extra: Seq<u8>)
        requires
            self.base <= self.writer@.len(),
            other.base == self.base,
            other.writer@ == self.writer@ + extra,
        ensures
            other.written() == self.written() + extra,
            other.written().take(file_start().len() as int) =~= self.written().take(
                file_start().len() as int,
            ) || self.written().len() < file_start().len(),
    {
        assert(other.written() =~= self.written() + extra);
    }

    /// Appending bytes to the output keeps a writer well-formed.
    proof fn lemma_wf_append(&self, other: &Self, extra: Seq<u8>)
        requires
            self.wf(),
            other.writer@ == self.writer@ + extra,
            other.base == self.base,
            other.schema_records == self.schema_records,
            other.channel_records == self.channel_records,
            other.messages_written == self.messages_written,
            other.write_start == self.write_start,
            other.chunk_indexes == self.chunk_indexes,
            other.message_buffer == self.message_buffer,
            other.buffer_size == self.buffer_size,
            other.sequences == self.sequences,
            other.channel_message_counts == self.channel_message_counts,
            other.chunks_written == self.chunks_written,
        ensures
            other.wf(),
            other.written() == self.written() + extra,
    {
        self.lemma_written_append(other, extra);
        lemma_all_located_append(self.written(), extra, self.chunk_indexes@);
    }

    /// Create a new writer with the default target chunk size.
    pub fn new(writer: Vec<u8>) -> (r: Result<Self, CodecError>)
        ensures
            r matches Ok(w) && w.wf() && w.fresh(writer@, DEFAULT_CHUNK_SIZE),
    {
        Self::with_chunk_size(writer, DEFAULT_CHUNK_SIZE)
    }

    /// A writer that has just written the magic and header after `prefix`.
    pub closed spec fn fresh(&self, prefix: Seq<u8>, target: usize) -> bool {
        &&& self.writer@ == prefix + file_start()
        &&& self.base == prefix.len()
        &&& self.written() == file_start()
        &&& self.schema_records@.len() == 0
        &&& self.channel_records@.len() == 0
        &&& self.next_schema_id == 1
        &&& self.next_channel_id == 0
        &&& self.sequences@ == Map::<u16, u32>::empty()
        &&& self.channel_message_counts@ == Map::<u16, u64>::empty()
        &&& self.chunks_written == 0
        &&& self.messages_written == 0
        &&& self.chunk_indexes@.len() == 0
        &&& self.file_message_start_time == u64::MAX
        &&& self.file_message_end_time == 0
        &&& self.summary_start_offset == 0
        &&& self.message_buffer@.len() == 0
        &&& self.buffer_size == 0
        &&& self.target_chunk_size == target
    }

    /// Create a new writer with a specific target chunk size. Writes the
    /// magic bytes and a header record with empty profile and library.
    pub fn with_chunk_size(writer: Vec<u8>, target_chunk_size: usize) -> (r: Result<
        Self,
        CodecError,
    >)
        ensures
            r matches Ok(w) && w.wf() && w.fresh(writer@, target_chunk_size),
    {
        let base = writer.len();
        let mut slf = Self {
            writer,
            base,
            schema_records: Vec::new(),
            channel_records: Vec::new(),
            next_schema_id: 1,
            next_channel_id: 0,
            sequences: BTreeMap::new(),
            chunks_written: 0,
            messages_written: 0,
            write_start: 0,
            chunk_indexes: Vec::new(),
            channel_message_counts: BTreeMap::new(),
            file_message_start_time: u64::MAX,
            file_message_end_time: 0,
            summary_start_offset: 0,
            message_buffer: Vec::new(),
            buffer_size: 0,
            target_chunk_size,
        };
        slf.write_header();
        proof {
            lemma_file_start_len();
            assert(slf.written() =~= file_start());
            assert(slf.written().take(25) =~= file_start());
        }
        Ok(slf)
    }

    /// Current write position.
    fn position(&self) -> (p: u64)
        requires
            self.base <= self.writer@.len(),
        ensures
            p == self.pos(),
    {
        (self.writer.len() - self.base) as u64
    }

    /// Everything but the output and the schema table is as in `other`.
    pub closed spec fn same_except_schemas(&self, other: &Self) -> bool {
        &&& self.base == other.base
        &&& self.channel_records == other.channel_records
        &&& self.next_channel_id == other.next_channel_id
        &&& self.sequences == other.sequences
        &&& self.channel_message_counts == other.channel_message_counts
        &&& self.chunks_written == other.chunks_written
        &&& self.messages_written == other.messages_written
        &&& self.write_start == other.write_start
        &&& self.chunk_indexes == other.chunk_indexes
        &&& self.file_message_start_time == other.file_message_start_time
        &&& self.file_message_end_time == other.file_message_end_time
        &&& self.summary_start_offset == other.summary_start_offset
        &&& self.message_buffer == other.message_buffer
        &&& self.buffer_size == other.buffer_size
        &&& self.target_chunk_size == other.target_chunk_size
    }

    /// Add a schema, or return the ID of the schema already added under
    /// `name`. A new schema gets the next schema ID (IDs start at 1, since 0
    /// means "no schema") and its record is written.
    pub fn add_schema(&mut self, name: &str, encoding: &str, data: &[u8]) -> (r: Result<
        u16,
        CodecError,
    >)
        requires
            old(self).wf(),
            14 + utf8(name@).len() + utf8(encoding@).len() + data@.len() <= u64::MAX,
        ensures
            final(self).wf(),
            r is Ok,
            forall|i: int|
                0 <= i < old(self).schemas().len() && old(self).schemas()[i].name@ == name@
                    ==> r == Ok::<u16, CodecError>(old(self).schemas()[i].id) && *final(self)
                    == *old(self),
            (forall|i: int|
                0 <= i < old(self).schemas().len() ==> old(self).schemas()[i].name@ != name@)
                ==> {
                &&& r == Ok::<u16, CodecError>(old(self).next_schema())
                &&& final(self).next_schema() == (if old(self).next_schema() == u16::MAX {
                    0u16
                } else {
                    (old(self).next_schema() + 1) as u16
                })
                &&& final(self).written() == old(self).written() + schema_record(
                    old(self).next_schema(),
                    utf8(name@),
                    utf8(encoding@),
                    data@,
                )
                &&& final(self).schemas().len() == old(self).schemas().len() + 1
                &&& final(self).schemas().drop_last() == old(self).schemas()
                &&& final(self).schemas().last().id == old(self).next_schema()
                &&& final(self).schemas().last().name@ == name@
                &&& final(self).schemas().last().encoding@ == encoding@
                &&& final(self).schemas().last().data@ == data@
                &&& final(self).same_except_schemas(old(self))
            },
    {
        let mut i: usize = 0;
        while i < self.schema_records.len()
            invariant
                0 <= i <= self.schema_records@.len(),
                *self == *old(self),
                old(self).wf(),
                forall|j: int| 0 <= j < i ==> self.schema_records@[j].name@ != name@,
            decreases self.schema_records.len() - i,
        {
            if crate::text::str_eq(self.schema_records[i].name.as_str(), name) {
                let id = self.schema_records[i].id;
                proof {
                    assert(old(self).schemas()[i as int].name@ == name@);
                    assert forall|j: int|
                        0 <= j < old(self).schemas().len() && old(self).schemas()[j].name@
                            == name@ implies old(self).schemas()[j].id == id by {
                        if j != i {
                            if j < i {
                            } else {
                                assert(old(self).schema_records@[i as int].name@
                                    != old(self).schema_records@[j].name@);
                            }
                        }
                    }
                }
                return Ok(id);
            }
            i = i + 1;
        }
        let id = self.next_schema_id;
        self.next_schema_id = id.wrapping_add(1);
        let ghost before = self.writer@;
        let name_bytes = name.as_bytes();
        let encoding_bytes = encoding.as_bytes();
        let record_length: u64 = 2 + 4 + name_bytes.len() as u64 + 4 + encoding_bytes.len() as u64
            + 4 + data.len() as u64;
        put_u8(&mut self.writer, OP_SCHEMA);
        put_u64(&mut self.writer, record_length);
        put_u16(&mut self.writer, id);
        put_u32(&mut self.writer, name_bytes.len() as u32);
        put_bytes(&mut self.writer, name_bytes);
        put_u32(&mut self.writer, encoding_bytes.len() as u32);
        put_bytes(&mut self.writer, encoding_bytes);
        put_u32(&mut self.writer, data.len() as u32);
        put_bytes(&mut self.writer, data);
        let ghost extra = schema_record(id, utf8(name@), utf8(encoding@), data@);
        assert(self.writer@ =~= before + extra);
        let mut data_copy: Vec<u8> = Vec::new();
        put_bytes(&mut data_copy, data);
        self.schema_records.push(
            SchemaRecord { id, name: owned(name), encoding: owned(encoding), data: data_copy },
        );
        proof {
            old(self).lemma_written_append(self, extra);
            lemma_all_located_append(old(self).written(), extra, self.chunk_indexes@);
            assert(self.schema_records@.drop_last() =~= old(self).schema_records@);
        }
        Ok(id)
    }

    /// Everything but the output, the channel table, the next channel ID and
    /// the per-channel maps is as in `other`.
    pub closed spec fn same_except_channels(&self, other: &Self) -> bool {
        &&& self.base == other.base
        &&& self.schema_records == other.schema_records
        &&& self.next_schema_id == other.next_schema_id
        &&& self.chunks_written == other.chunks_written
        &&& self.messages_written == other.messages_written
        &&& self.write_start == other.write_start
        &&& self.chunk_indexes == other.chunk_indexes
        &&& self.file_message_start_time == other.file_message_start_time
        &&& self.file_message_end_time == other.file_message_end_time
        &&& self.summary_start_offset == other.summary_start_offset
        &&& self.message_buffer == other.message_buffer
        &&& self.buffer_size == other.buffer_size
        &&& self.target_chunk_size == other.target_chunk_size
    }

    /// `self` is `old` with the channel `(id, schema_id, topic, encoding,
    /// metadata)` written and registered, its sequence number and message
    /// count reset to 0. The next channel ID is not constrained here.
    pub closed spec fn channel_added(
        &self,
        old: &Self,
        id: u16,
        schema_id: u16,
        topic: Seq<char>,
        encoding: Seq<char>,
        metadata: Seq<(String, String)>,
    ) -> bool {
        &&& self.written() == old.written() + channel_record(
            id,
            schema_id,
            utf8(topic),
            utf8(encoding),
            metadata_bytes(metadata),
        )
        &&& self.channels().len() == old.channels().len() + 1
        &&& self.channels().drop_last() == old.channels()
        &&& self.channels().last().id == id
        &&& self.channels().last().schema_id == schema_id
        &&& self.channels().last().topic@ == topic
        &&& self.channels().last().message_encoding@ == encoding
        &&& pair_views(self.channels().last().metadata@) == pair_views(metadata)
        &&& metadata_bytes(self.channels().last().metadata@) == metadata_bytes(metadata)
        &&& self.sequence_map() == old.sequence_map().insert(id, 0)
        &&& self.count_map() == old.count_map().insert(id, 0)
        &&& self.same_except_channels(old)
    }

    /// Whether a channel has been added under `topic`.
    pub open spec fn has_topic(&self, topic: Seq<char>) -> bool {
        exists|i: int| 0 <= i < self.channels().len() && self.channels()[i].topic@ == topic
    }

    /// Record sizes of a channel that fit their length fields.
    pub open spec fn channel_fits(
        topic: Seq<char>,
        encoding: Seq<char>,
        metadata: Seq<(String, String)>,
    ) -> bool {
        &&& metadata_fits(metadata)
        &&& 16 + utf8(topic).len() + utf8(encoding).len() + metadata_entries(
            string_pairs_bytes(metadata),
        ).len() <= u64::MAX
    }

    /// Get the channel ID for a topic.
    pub fn get_channel_id(&self, topic: &str) -> (r: Option<u16>)
        requires
            self.wf(),
        ensures
            match r {
                Some(id) => exists|i: int|
                    0 <= i < self.channels().len() && self.channels()[i].topic@ == topic@
                        && self.channels()[i].id == id,
                None => !self.has_topic(topic@),
            },
            forall|i: int|
                0 <= i < self.channels().len() && self.channels()[i].topic@ == topic@ ==> r
                    == Some(self.channels()[i].id),
    {
        let mut i: usize = 0;
        while i < self.channel_records.len()
            invariant
                0 <= i <= self.channel_records@.len(),
                self.wf(),
                forall|j: int| 0 <= j < i ==> self.channel_records@[j].topic@ != topic@,
            decreases self.channel_records.len() - i,
        {
            if crate::text::str_eq(self.channel_records[i].topic.as_str(), topic) {
                proof {
                    assert(self.channels()[i as int].topic@ == topic@);
                    assert forall|j: int|
                        0 <= j < self.channels().len() && self.channels()[j].topic@
                            == topic@ implies self.channels()[j].id
                        == self.channel_records@[i as int].id by {
                        if j > i {
                            assert(self.channel_records@[i as int].topic@
                                != self.channel_records@[j].topic@);
                        }
                    }
                }
                return Some(self.channel_records[i].id);
            }
            i = i + 1;
        }
        None
    }

    /// Add a channel, or return the ID of the channel already added under
    /// `topic`. A new channel gets the next channel ID (starting at 0).
    pub fn add_channel(
        &mut self,
        schema_id: u16,
        topic: &str,
        encoding: &str,
        metadata: &Vec<(String, String)>,
    ) -> (r: Result<u16, CodecError>)
        requires
            old(self).wf(),
            Self::channel_fits(topic@, encoding@, metadata@),
        ensures
            final(self).wf(),
            r is Ok,
            forall|i: int|
                0 <= i < old(self).channels().len() && old(self).channels()[i].topic@ == topic@
                    ==> r == Ok::<u16, CodecError>(old(self).channels()[i].id) && *final(self)
                    == *old(self),
            !old(self).has_topic(topic@) ==> {
                &&& r == Ok::<u16, CodecError>(old(self).next_channel())
                &&& final(self).next_channel() == (if old(self).next_channel() == u16::MAX {
                    0u16
                } else {
                    (old(self).next_channel() + 1) as u16
                })
                &&& final(self).channel_added(
                    old(self),
                    old(self).next_channel(),
                    schema_id,
                    topic@,
                    encoding@,
                    metadata@,
                )
            },
    {
        match self.get_channel_id(topic) {
            Some(id) => Ok(id),
            None => {
                let id = self.next_channel_id;
                self.next_channel_id = id.wrapping_add(1);
                self.write_channel_record(id, schema_id, topic, encoding, metadata)
            },
        }
    }

    /// Add a channel with a specific ID, or return the ID of the channel
    /// already added under `topic`. The next channel ID moves past `channel_id`
    /// so that later channels do not collide with it.
    pub fn add_channel_with_id(
        &mut self,
        channel_id: u16,
        schema_id: u16,
        topic: &str,
        encoding: &str,
        metadata: &Vec<(String, String)>,
    ) -> (r: Result<u16, CodecError>)
        requires
            old(self).wf(),
            Self::channel_fits(topic@, encoding@, metadata@),
        ensures
            final(self).wf(),
            r is Ok,
            forall|i: int|
                0 <= i < old(self).channels().len() && old(self).channels()[i].topic@ == topic@
                    ==> r == Ok::<u16, CodecError>(old(self).channels()[i].id) && *final(self)
                    == *old(self),
            !old(self).has_topic(topic@) ==> {
                &&& r == Ok::<u16, CodecError>(channel_id)
                &&& final(self).next_channel() == (if channel_id >= old(self).next_channel() {
                    if channel_id == u16::MAX {
                        0u16
                    } else {
                        (channel_id + 1) as u16
                    }
                } else {
                    old(self).next_channel()
                })
                &&& final(self).channel_added(
                    old(self),
                    channel_id,
                    schema_id,
                    topic@,
                    encoding@,
                    metadata@,
                )
            },
    {
        match self.get_channel_id(topic) {
            Some(id) => Ok(id),
            None => {
                if channel_id >= self.next_channel_id {
                    self.next_channel_id = channel_id.wrapping_add(1);
                }
                self.write_channel_record(channel_id, schema_id, topic, encoding, metadata)
            },
        }
    }

    /// Write a channel record and register the channel.
    #[verifier::rlimit(60)]
    fn write_channel_record(
        &mut self,
        id: u16,
        schema_id: u16,
        topic: &str,
        encoding: &str,
        metadata: &Vec<(String, String)>,
    ) -> (r: Result<u16, CodecError>)
        requires
            old(self).wf(),
            Self::channel_fits(topic@, encoding@, metadata@),
            !old(self).has_topic(topic@),
        ensures
            final(self).wf(),
            r == Ok::<u16, CodecError>(id),
            final(self).next_channel_id == old(self).next_channel_id,
            final(self).channel_added(old(self), id, schema_id, topic@, encoding@, metadata@),
    {
        let meta = serialize_metadata(metadata);
        proof {
            crate::bytes::lemma_le_len(
                metadata_entries(string_pairs_bytes(metadata@)).len() as u32 as nat,
                4,
            );
        }
        let topic_bytes = topic.as_bytes();
        let encoding_bytes = encoding.as_bytes();
        let ghost before = self.writer@;
        let record_length: u64 = 2 + 2 + 4 + topic_bytes.len() as u64 + 4
            + encoding_bytes.len() as u64 + meta.len() as u64;
        put_u8(&mut self.writer, OP_CHANNEL);
        put_u64(&mut self.writer, record_length);
        put_u16(&mut self.writer, id);
        put_u16(&mut self.writer, schema_id);
        put_u32(&mut self.writer, topic_bytes.len() as u32);
        put_bytes(&mut self.writer, topic_bytes);
        put_u32(&mut self.writer, encoding_bytes.len() as u32);
        put_bytes(&mut self.writer, encoding_bytes);
        put_bytes(&mut self.writer, meta.as_slice());
        let ghost extra = channel_record(
            id,
            schema_id,
            utf8(topic@),
            utf8(encoding@),
            metadata_bytes(metadata@),
        );
        assert(self.writer@ =~= before + extra);
        self.channel_records.push(
            ChannelRecord {
                id,
                schema_id,
                topic: owned(topic),
                message_encoding: owned(encoding),
                metadata: copy_pairs(metadata),
            },
        );
        self.sequences.insert(id, 0);
        self.channel_message_counts.insert(id, 0);
        proof {
            old(self).lemma_written_append(self, extra);
            lemma_all_located_append(old(self).written(), extra, self.chunk_indexes@);
            assert(self.channel_records@.drop_last() =~= old(self).channel_records@);
            let last = self.channel_records@.last();
            assert(Self::channel_fits(last.topic@, last.message_encoding@, last.metadata@));
            assert forall|i: int|
                0 <= i < self.channel_records@.len() implies Self::channel_fits(
                    #[trigger] self.channel_records@[i].topic@,
                    self.channel_records@[i].message_encoding@,
                    self.channel_records@[i].metadata@,
                ) by {
                if i < old(self).channel_records@.len() {
                    assert(self.channel_records@[i] == old(self).channel_records@[i]);
                }
            }
            assert forall|i: int, j: int|
                0 <= i < j < self.channel_records@.len() implies self.channel_records@[i].topic@
                != self.channel_records@[j].topic@ by {
                if j == self.channel_records@.len() - 1 {
                    assert(old(self).channels()[i].topic@ != topic@);
                } else {
                    assert(old(self).channel_records@[i].topic@ != old(self).channel_records@[j].topic@);
                }
            }
        }
        Ok(id)
    }

    /// Everything but the output, the chunk table, the counters and the file
    /// time bounds is as in `other`.
    pub closed spec fn same_except_chunks(&self, other: &Self) -> bool {
        &&& self.base == other.base
        &&& self.schema_records == other.schema_records
        &&& self.channel_records == other.channel_records
        &&& self.next_schema_id == other.next_schema_id
        &&& self.next_channel_id == other.next_channel_id
        &&& self.sequences == other.sequences
        &&& self.channel_message_counts == other.channel_message_counts
        &&& self.write_start == other.write_start
        &&& self.summary_start_offset == other.summary_start_offset
        &&& self.target_chunk_size == other.target_chunk_size
    }

    /// `self` is `old` after writing `chunk`: the chunk record, then one
    /// message index record per channel of the chunk in increasing channel
    /// order; the chunk indexed for the summary; the counters and the file
    /// time bounds updated.
    pub closed spec fn chunk_written(&self, old: &Self, chunk: CompressedChunk) -> bool {
        let ci = self.chunk_indexes@.last();
        &&& exists|s: Seq<(u16, Vec<MessageIndexEntry>)>|
            sorted_listing(chunk.message_indexes@, s) && self.written() == old.written()
                + chunk_record(
                chunk.message_start_time,
                chunk.message_end_time,
                chunk.uncompressed_size as u64,
                chunk.compressed_data@,
            ) + #[trigger] index_records(s) && ci.message_index_length == index_records(s).len()
        &&& self.chunk_indexes@.len() == old.chunk_indexes@.len() + 1
        &&& self.chunk_indexes@.drop_last() == old.chunk_indexes@
        &&& ci.message_start_time == chunk.message_start_time
        &&& ci.message_end_time == chunk.message_end_time
        &&& ci.chunk_start_offset == old.pos()
        &&& ci.chunk_length == chunk_record(
            chunk.message_start_time,
            chunk.message_end_time,
            chunk.uncompressed_size as u64,
            chunk.compressed_data@,
        ).len()
        &&& forall|k: u16|
            ci.message_index_offsets@.contains_key(k) <==> #[trigger] chunk.message_indexes@.contains_key(k)
        &&& ci.compression@ == "zstd"@
        &&& ci.compressed_size == chunk.compressed_data@.len()
        &&& ci.uncompressed_size == chunk.uncompressed_size
        &&& self.chunks_written == old.chunks_written + 1
        &&& self.file_message_start_time == (if chunk.message_start_time < old.file_message_start_time {
            chunk.message_start_time
        } else {
            old.file_message_start_time
        })
        &&& self.file_message_end_time == (if chunk.message_end_time > old.file_message_end_time {
            chunk.message_end_time
        } else {
            old.file_message_end_time
        })
        &&& self.same_except_chunks(old)
    }

    /// Write a pre-compressed chunk, followed by a message index record per
    /// channel, and track the chunk for the summary section.
    #[verifier::rlimit(60)]
    pub fn write_compressed_chunk(&mut self, chunk: CompressedChunk) -> (r: Result<(), CodecError>)
        requires
            old(self).wf(),
            chunk_fits(chunk),
            old(self).chunk_count() < u64::MAX,
            old(self).message_count() + chunk.message_count <= u64::MAX,
        ensures
            final(self).wf(),
            r is Ok,
            final(self).chunk_written(old(self), chunk),
            final(self).message_count() == old(self).message_count() + chunk.message_count,
            final(self).buffered() == old(self).buffered(),
            final(self).buffered_size() == old(self).buffered_size(),
    {
        let ghost w0 = self.written();
        let chunk_start_offset = self.position();
        if chunk.message_start_time < self.file_message_start_time {
            self.file_message_start_time = chunk.message_start_time;
        }
        if chunk.message_end_time > self.file_message_end_time {
            self.file_message_end_time = chunk.message_end_time;
        }
        let compression_str = "zstd";
        let compression_bytes = compression_str.as_bytes();
        let compressed_size = chunk.compressed_data.len() as u64;
        let uncompressed_size = chunk.uncompressed_size as u64;
        let record_length: u64 = 8 + 8 + 8 + 4 + 4 + compression_bytes.len() as u64 + 8
            + compressed_size;
        let ghost before = self.writer@;
        put_u8(&mut self.writer, OP_CHUNK);
        put_u64(&mut self.writer, record_length);
        put_u64(&mut self.writer, chunk.message_start_time);
        put_u64(&mut self.writer, chunk.message_end_time);
        put_u64(&mut self.writer, uncompressed_size);
        put_u32(&mut self.writer, 0);
        put_u32(&mut self.writer, compression_bytes.len() as u32);
        put_bytes(&mut self.writer, compression_bytes);
        put_u64(&mut self.writer, compressed_size);
        put_bytes(&mut self.writer, chunk.compressed_data.as_slice());
        let ghost crec = chunk_record(
            chunk.message_start_time,
            chunk.message_end_time,
            chunk.uncompressed_size as u64,
            chunk.compressed_data@,
        );
        assert(self.writer@ =~= before + crec);
        proof {
            old(self).lemma_written_append(self, crec);
        }
        let chunk_end_offset = self.position();
        let chunk_length = chunk_end_offset - chunk_start_offset;
        let message_index_start = self.position();
        let mut message_index_offsets: BTreeMap<u16, u64> = BTreeMap::new();
        let listing = sorted_refs(&chunk.message_indexes);
        let ghost l = listing@.map_values(|p: (u16, &Vec<MessageIndexEntry>)| (p.0, *p.1));
        let ghost w1 = self.written();
        let ghost ts = self.file_message_start_time;
        let ghost te = self.file_message_end_time;
        let mut i: usize = 0;
        while i < listing.len()
            invariant
                0 <= i <= listing@.len(),
                l == listing@.map_values(|p: (u16, &Vec<MessageIndexEntry>)| (p.0, *p.1)),
                sorted_listing(chunk.message_indexes@, l),
                chunk_fits(chunk),
                self.base <= self.writer@.len(),
                self.base == old(self).base,
                self.chunks_written == old(self).chunks_written,
                self.messages_written == old(self).messages_written,
                self.chunk_indexes == old(self).chunk_indexes,
                self.same_except_chunks(old(self)),
                self.message_buffer == old(self).message_buffer,
                self.buffer_size == old(self).buffer_size,
                self.file_message_start_time == ts,
                self.file_message_end_time == te,
                w1.len() == message_index_start,
                self.written() == w1 + index_records(l.take(i as int)),
                forall|k: u16|
                    message_index_offsets@.contains_key(k) <==> exists|j: int|
                        0 <= j < i && #[trigger] l[j].0 == k,
                forall|k: u16| #[trigger]
                    message_index_offsets@.contains_key(k) ==> message_index_offsets@[k] + 15
                        <= self.written().len() && self.written()[message_index_offsets@[k] as int]
                        == OP_MESSAGE_INDEX && self.written().subrange(
                        message_index_offsets@[k] + 9,
                        message_index_offsets@[k] + 11,
                    ) == le16(k),
            decreases listing.len() - i,
        {
            let (channel_id, entries) = listing[i];
            let index_offset = self.position();
            let ghost wb = self.written();
            let ghost wvec = self.writer@;
            message_index_offsets.insert(channel_id, index_offset);
            proof {
                assert(l[i as int].0 == channel_id);
                assert(chunk.message_indexes@.contains_key(channel_id));
            }
            put_message_index(&mut self.writer, channel_id, entries);
            let ghost rec = message_index_record(channel_id, entry_pairs(entries@));
            proof {
                assert(self.written() =~= wb + rec);
                crate::bytes::lemma_le_len(((6 + 16 * entries@.len()) as u64) as nat, 8);
                crate::bytes::lemma_le_len(channel_id as nat, 2);
                crate::bytes::lemma_le_len(((16 * entries@.len()) as u32) as nat, 4);
                assert(rec.subrange(9, 11) =~= le16(channel_id));
                assert(rec[0] == OP_MESSAGE_INDEX);
                assert(rec.len() >= 15);
                assert(self.written()[index_offset as int] == rec[0]);
                assert(self.written().subrange(index_offset + 9, index_offset + 11) =~= rec.subrange(9, 11));
                assert(l.take(i + 1).drop_last() =~= l.take(i as int));
                assert(l[i as int].1 == *entries);
                assert forall|k: u16| #[trigger]
                    message_index_offsets@.contains_key(k) && k != channel_id implies self.written().subrange(
                        message_index_offsets@[k] + 9,
                        message_index_offsets@[k] + 11,
                    ) == le16(k) by {
                    assert(self.written().subrange(
                        message_index_offsets@[k] + 9,
                        message_index_offsets@[k] + 11,
                    ) =~= wb.subrange(message_index_offsets@[k] + 9, message_index_offsets@[k] + 11));
                    assert(self.written()[message_index_offsets@[k] as int] == wb[message_index_offsets@[k] as int]);
                }
                assert forall|k: u16|
                    message_index_offsets@.contains_key(k) implies exists|j: int|
                        0 <= j < i + 1 && #[trigger] l[j].0 == k by {
                    if k == channel_id {
                        assert(l[i as int].0 == k);
                    } else {
                        let j = choose|j: int| 0 <= j < i && #[trigger] l[j].0 == k;
                        assert(l[j].0 == k);
                    }
                }
                assert forall|k: u16| (exists|j: int| 0 <= j < i + 1 && #[trigger] l[j].0 == k) implies
                    message_index_offsets@.contains_key(k) by {
                    let j = choose|j: int| 0 <= j < i + 1 && #[trigger] l[j].0 == k;
                    if j < i {
                        assert(l[j].0 == k);
                    }
                }
            }
            i = i + 1;
            assert(self.written() =~= w1 + index_records(l.take(i as int)));
        }
        assert(l.take(listing@.len() as int) =~= l);
        let message_index_length = self.position() - message_index_start;
        self.chunk_indexes.push(
            ChunkIndexRecord {
                message_start_time: chunk.message_start_time,
                message_end_time: chunk.message_end_time,
                chunk_start_offset,
                chunk_length,
                message_index_offsets,
                message_index_length,
                compression: owned(compression_str),
                compressed_size,
                uncompressed_size,
            },
        );
        self.chunks_written = self.chunks_written + 1;
        self.messages_written = self.messages_written + chunk.message_count as u64;
        proof {
            let ci = self.chunk_indexes@.last();
            let extra = crec + index_records(l);
            assert(self.written() =~= w0 + extra);
            lemma_all_located_append(w0, extra, old(self).chunk_indexes@);
            assert(self.chunk_indexes@.drop_last() =~= old(self).chunk_indexes@);
            assert(self.written().subrange(
                ci.chunk_start_offset as int,
                ci.chunk_start_offset + ci.chunk_length,
            ) =~= crec);
            assert(chunk_located(self.written(), ci));
            assert(indexes_located(self.written(), ci));
            crate::format::mcap_records::lemma_zstd_name_len();
            assert(utf8(ci.compression@).len() <= u32::MAX);
            assert forall|k: u16|
                ci.message_index_offsets@.contains_key(k) <==> #[trigger] chunk.message_indexes@.contains_key(k) by {
                if chunk.message_indexes@.contains_key(k) {
                    let j = choose|j: int| 0 <= j < l.len() && l[j].0 == k;
                    assert(l[j].0 == k);
                }
                if ci.message_index_offsets@.contains_key(k) {
                    let j = choose|j: int| 0 <= j < l.len() && #[trigger] l[j].0 == k;
                    assert(chunk.message_indexes@.contains_key(l[j].0));
                }
            }
            assert(self.written().take(file_start().len() as int) =~= w0.take(file_start().len() as int));
            assert(all_located(self.written(), self.chunk_indexes@));
        }
        Ok(())
    }

    /// The outcome of flushing the message buffer of `old`: nothing when it is
    /// empty; otherwise, on success, its messages written as one chunk (made
    /// by `chunk_from_buffer`) and the buffer emptied, and on failure no change.
    pub closed spec fn flushed(&self, old: &Self, r: Result<(), CodecError>) -> bool {
        if old.message_buffer@.len() == 0 {
            r is Ok && *self == *old
        } else {
            &&& r is Err ==> *self == *old
            &&& r is Ok ==> {
                &&& self.message_buffer@.len() == 0
                &&& self.buffer_size == 0
                &&& self.messages_written == old.messages_written
                &&& exists|chunk: CompressedChunk|
                    chunk_from_buffer(old.message_buffer@, old.chunks_written, chunk)
                        && #[trigger] self.chunk_written(old, chunk)
            }
        }
    }

    /// `self` is `old` with the message `(ch, log_time, publish_time, data)`
    /// buffered: given the channel's next sequence number (0 for a channel
    /// not seen yet), counted for its channel and for the file, and taken
    /// into the file's time bounds.
    pub closed spec fn buffered_message(
        &self,
        old: &Self,
        ch: u16,
        log_time: u64,
        publish_time: u64,
        data: Seq<u8>,
    ) -> bool {
        let sq = if old.sequences@.contains_key(ch) {
            old.sequences@[ch]
        } else {
            0
        };
        let cnt = if old.channel_message_counts@.contains_key(ch) {
            old.channel_message_counts@[ch]
        } else {
            0
        };
        &&& self.sequences@ == old.sequences@.insert(ch, (sq + 1) as u32)
        &&& self.channel_message_counts@ == old.channel_message_counts@.insert(ch, (cnt + 1) as u64)
        &&& self.file_message_start_time == (if log_time < old.file_message_start_time {
            log_time
        } else {
            old.file_message_start_time
        })
        &&& self.file_message_end_time == (if log_time > old.file_message_end_time {
            log_time
        } else {
            old.file_message_end_time
        })
        &&& self.message_buffer@.len() == old.message_buffer@.len() + 1
        &&& self.message_buffer@.drop_last() == old.message_buffer@
        &&& self.message_buffer@.last().channel_id == ch
        &&& self.message_buffer@.last().sequence == sq
        &&& self.message_buffer@.last().log_time == log_time
        &&& self.message_buffer@.last().publish_time == publish_time
        &&& self.message_buffer@.last().data@ == data
        &&& self.buffer_size == old.buffer_size + 31 + data.len()
        &&& self.messages_written == old.messages_written + 1
        &&& self.writer == old.writer
        &&& self.base == old.base
        &&& self.schema_records == old.schema_records
        &&& self.channel_records == old.channel_records
        &&& self.next_schema_id == old.next_schema_id
        &&& self.next_channel_id == old.next_channel_id
        &&& self.chunks_written == old.chunks_written
        &&& self.write_start == old.write_start
        &&& self.chunk_indexes == old.chunk_indexes
        &&& self.summary_start_offset == old.summary_start_offset
        &&& self.target_chunk_size == old.target_chunk_size
    }

    /// Limits that a message must respect to be written: the counters it
    /// bumps do not overflow.
    pub open spec fn message_fits(&self, ch: u16, data: Seq<u8>) -> bool {
        &&& self.chunk_count() < u64::MAX
        &&& self.message_count() < u64::MAX
        &&& self.sequence_map().contains_key(ch) ==> self.sequence_map()[ch] < u32::MAX
        &&& self.count_map().contains_key(ch) ==> self.count_map()[ch] < u64::MAX
        &&& self.buffered_size() + 31 + data.len() <= usize::MAX
        &&& 16 * (channel_entries(self.buffered(), ch).len() + 1) <= u32::MAX
    }

    /// Write a single message. Messages are buffered and written as a
    /// compressed chunk once the buffered size reaches the target chunk size.
    pub fn write_message(&mut self, channel_id: u16, log_time: u64, publish_time: u64, data: &[u8]) -> (r:
        Result<(), CodecError>)
        requires
            old(self).wf(),
            old(self).message_fits(channel_id, data@),
        ensures
            final(self).wf(),
            exists|m: Self|
                m.wf() && #[trigger] m.buffered_message(old(self), channel_id, log_time, publish_time, data@)
                    && if m.buffered_size() >= m.target_size() {
                    final(self).flushed(&m, r)
                } else {
                    r is Ok && *final(self) == m
                },
            final(self).message_count() == old(self).message_count() + 1,
            final(self).sequence_map() == old(self).sequence_map().insert(
                channel_id,
                ((if old(self).sequence_map().contains_key(channel_id) {
                    old(self).sequence_map()[channel_id]
                } else {
                    0u32
                }) + 1) as u32,
            ),
            final(self).count_map() == old(self).count_map().insert(
                channel_id,
                ((if old(self).count_map().contains_key(channel_id) {
                    old(self).count_map()[channel_id]
                } else {
                    0u64
                }) + 1) as u64,
            ),
            final(self).schemas() == old(self).schemas(),
            final(self).channels() == old(self).channels(),
            final(self).time_bounds().0 <= log_time <= final(self).time_bounds().1,
            old(self).buffered_size() + 31 + data@.len() < old(self).target_size() ==> {
                &&& r is Ok
                &&& final(self).chunk_count() == old(self).chunk_count()
                &&& final(self).buffered().len() == old(self).buffered().len() + 1
                &&& final(self).buffered_size() == old(self).buffered_size() + 31 + data@.len()
                &&& final(self).written() == old(self).written()
                &&& final(self).time_bounds() == (
                    if log_time < old(self).time_bounds().0 {
                        log_time
                    } else {
                        old(self).time_bounds().0
                    },
                    if log_time > old(self).time_bounds().1 {
                        log_time
                    } else {
                        old(self).time_bounds().1
                    },
                )
            },
            old(self).buffered_size() + 31 + data@.len() >= old(self).target_size() ==> {
                &&& r is Ok ==> final(self).chunk_count() == old(self).chunk_count() + 1
                    && final(self).buffered().len() == 0 && final(self).buffered_size() == 0
                &&& r is Err ==> final(self).chunk_count() == old(self).chunk_count()
                    && final(self).buffered().len() == old(self).buffered().len() + 1
            },
    {
        let sequence = match self.sequences.get(&channel_id) {
            Some(s) => *s,
            None => 0,
        };
        self.sequences.insert(channel_id, sequence + 1);
        let count = match self.channel_message_counts.get(&channel_id) {
            Some(c) => *c,
            None => 0,
        };
        self.channel_message_counts.insert(channel_id, count + 1);
        if log_time < self.file_message_start_time {
            self.file_message_start_time = log_time;
        }
        if log_time > self.file_message_end_time {
            self.file_message_end_time = log_time;
        }
        let message_size: usize = 1 + 8 + 2 + 4 + 8 + 8 + data.len();
        let mut data_copy: Vec<u8> = Vec::new();
        put_bytes(&mut data_copy, data);
        let ghost b0 = self.message_buffer@;
        self.message_buffer.push(
            BufferedMessage { channel_id, sequence, log_time, publish_time, data: data_copy },
        );
        self.buffer_size = self.buffer_size + message_size;
        self.messages_written = self.messages_written + 1;
        proof {
            let b1 = self.message_buffer@;
            assert(b1.drop_last() =~= b0);
            lemma_message_record_len(channel_id, sequence, log_time, publish_time, data@);
            assert forall|ch: u16| 16 * #[trigger] channel_entries(b1, ch).len() <= u32::MAX by {
                assert(channel_entries(b1, ch).len() <= channel_entries(b0, ch).len() + 1);
                if ch != channel_id {
                    assert(channel_entries(b1, ch) == channel_entries(b0, ch));
                }
            }
        }
        let ghost m = *self;
        if self.buffer_size >= self.target_chunk_size {
            let r = self.flush_message_buffer();
            assert(m.buffered_message(old(self), channel_id, log_time, publish_time, data@));
            proof {
                if r is Ok {
                    let chunk = choose|chunk: CompressedChunk|
                        chunk_from_buffer(m.message_buffer@, m.chunks_written, chunk)
                            && #[trigger] self.chunk_written(&m, chunk);
                    law_chunk_written(self, &m, chunk);
                }
            }
            return r;
        }
        assert(m.buffered_message(old(self), channel_id, log_time, publish_time, data@));
        Ok(())
    }

    /// The summary section written for `self`: schemas, channels,
    /// statistics (with per-channel counts listed as `cs`) and chunk indexes
    /// (with message index offsets listed as `ls`).
    pub open spec fn summary_section(&self, cs: Seq<(u16, u64)>, ls: Seq<Seq<(u16, u64)>>) -> Seq<u8> {
        schemas_bytes(self.schemas()) + channels_bytes(self.channels())
            + statistics_record(
            self.message_count(),
            self.schemas().len() as u16,
            self.channels().len() as u32,
            self.chunk_count() as u32,
            if self.message_count() > 0 {
                self.time_bounds().0
            } else {
                0
            },
            if self.message_count() > 0 {
                self.time_bounds().1
            } else {
                0
            },
            cs,
        ) + chunk_indexes_bytes(self.chunk_index_list(), ls)
    }

    /// The summary start that the footer records: 0 for a file with no
    /// chunks and no messages, else the offset just after the data end record.
    pub open spec fn footer_summary_start(&self) -> u64 {
        if self.chunk_index_list().len() == 0 && self.message_count() == 0 {
            0
        } else {
            (self.pos() + 13) as u64
        }
    }

    /// `self` is `m` after writing the data end record, the summary section
    /// (schemas, channels, statistics, chunk indexes), the footer and the
    /// closing magic. The footer points at the summary section, unless
    /// nothing was written, in which case its summary start is 0.
    #[verifier::opaque]
    pub closed spec fn finished(&self, m: &Self) -> bool {
        &&& self.summary_start_offset == m.pos() + 13
        &&& exists|cs: Seq<(u16, u64)>, ls: Seq<Seq<(u16, u64)>>|
            #![trigger m.summary_section(cs, ls)]
            sorted_listing(m.channel_message_counts@, cs) && ls.len() == m.chunk_indexes@.len()
                && (forall|i: int|
                0 <= i < ls.len() ==> sorted_listing(
                    m.chunk_indexes@[i].message_index_offsets@,
                    #[trigger] ls[i],
                )) && self.written() == m.written() + data_end_record() + m.summary_section(cs, ls)
                + footer_record(m.footer_summary_start()) + magic()
        &&& self.base == m.base
        &&& self.schema_records == m.schema_records
        &&& self.channel_records == m.channel_records
        &&& self.next_schema_id == m.next_schema_id
        &&& self.next_channel_id == m.next_channel_id
        &&& self.sequences == m.sequences
        &&& self.channel_message_counts == m.channel_message_counts
        &&& self.chunks_written == m.chunks_written
        &&& self.messages_written == m.messages_written
        &&& self.write_start == m.write_start
        &&& self.chunk_indexes == m.chunk_indexes
        &&& self.file_message_start_time == m.file_message_start_time
        &&& self.file_message_end_time == m.file_message_end_time
        &&& self.message_buffer == m.message_buffer
        &&& self.buffer_size == m.buffer_size
        &&& self.target_chunk_size == m.target_chunk_size
    }

    /// Number of chunks written.
    pub fn chunks_written(&self) -> (n: u64)
        ensures
            n == self.chunk_count(),
    {
        self.chunks_written
    }

    /// Number of messages written, buffered ones included.
    pub fn messages_written(&self) -> (n: u64)
        ensures
            n == self.message_count(),
    {
        self.messages_written
    }

    /// Flush the output. The output is an in-memory buffer, so nothing
    /// changes and this always succeeds.
    pub fn flush(&mut self) -> (r: Result<(), CodecError>)
        ensures
            r is Ok,
            *final(self) == *old(self),
    {
        Ok(())
    }

    /// The output buffer: what it held when the writer was created, followed
    /// by the bytes written.
    pub fn into_inner(self) -> (w: Vec<u8>)
        ensures
            w@ == self.output(),
    {
        self.writer
    }

    /// Finalize the file: flush buffered messages as a last chunk, then write
    /// the data end record, the summary section, the footer and the closing
    /// magic. Returns the number of chunks written.
    pub fn finish(&mut self) -> (r: Result<u64, CodecError>)
        requires
            old(self).wf(),
            old(self).chunk_count() < u64::MAX,
        ensures
            final(self).wf(),
            r is Err ==> final(self).flushed(old(self), Err(r->Err_0)),
            r matches Ok(n) ==> exists|m: Self|
                m.wf() && #[trigger] m.flushed(old(self), Ok(())) && n == m.chunk_count()
                    && final(self).finished(&m),
    {
        let rf = self.flush_message_buffer();
        match rf {
            Err(e) => {
                return Err(e);
            },
            Ok(()) => {},
        }
        let ghost m = *self;
        self.write_summary();
        assert(m.wf() && m.flushed(old(self), Ok(())) && self.finished(&m));
        Ok(self.chunks_written)
    }

    /// Write the data end record, the summary section, the footer and the
    /// closing magic.
    #[verifier::rlimit(60)]
    fn write_summary(&mut self)
        requires
            old(self).wf(),
        ensures
            final(self).wf(),
            final(self).chunk_count() == old(self).chunk_count(),
            final(self).finished(old(self)),
    {
        let ghost m = *old(self);
        let ghost w0 = self.writer@;
        put_data_end(&mut self.writer);
        self.summary_start_offset = self.position();
        let ghost w1 = self.writer@;
        put_schema_records(&mut self.writer, &self.schema_records);
        put_channel_records(&mut self.writer, &self.channel_records);
        let ghost w2 = self.writer@;
        let counts = u16_u64_listing(&self.channel_message_counts);
        proof {
            lemma_listing_len(counts@);
        }
        let start_time = if self.messages_written > 0 {
            self.file_message_start_time
        } else {
            0
        };
        let end_time = if self.messages_written > 0 {
            self.file_message_end_time
        } else {
            0
        };
        put_statistics(
            &mut self.writer,
            self.messages_written,
            self.schema_records.len() as u16,
            self.channel_records.len() as u32,
            self.chunks_written as u32,
            start_time,
            end_time,
            &counts,
        );
        let ls = put_chunk_indexes(&mut self.writer, &self.chunk_indexes);
        let ghost w3 = self.writer@;
        let summary_start = if self.chunk_indexes.len() == 0 && self.messages_written == 0 {
            0
        } else {
            self.summary_start_offset
        };
        put_footer(&mut self.writer, summary_start);
        proof {
            let stats = statistics_record(
                m.messages_written,
                m.schema_records@.len() as u16,
                m.channel_records@.len() as u32,
                m.chunks_written as u32,
                start_time,
                end_time,
                counts@,
            );
            let summary = schemas_bytes(m.schema_records@) + channels_bytes(m.channel_records@);
            let tail = stats + chunk_indexes_bytes(m.chunk_indexes@, ls@);
            let extra = data_end_record() + summary + tail + (footer_record(summary_start)
                + magic());
            assert(w2 =~= w1 + summary);
            assert(w3 =~= w2 + tail);
            assert(self.writer@ =~= w0 + extra);
            m.lemma_wf_append(self, extra);
            crate::bytes::lemma_le_len(4, 8);
            crate::bytes::lemma_le_len(0, 4);
            assert(self.summary_start_offset == m.pos() + 13);
            assert(self.finished(&m)) by {
                reveal(ParallelMcapWriter::finished);
                assert(m.summary_section(counts@, ls@) == summary + tail);
                assert(self.written() =~= m.written() + data_end_record() + m.summary_section(
                    counts@,
                    ls@,
                ) + footer_record(m.footer_summary_start()) + magic());
            }
        }
    }

    /// Flush buffered messages as one zstd-compressed chunk.
    fn flush_message_buffer(&mut self) -> (r: Result<(), CodecError>)
        requires
            old(self).wf(),
            old(self).chunk_count() < u64::MAX,
        ensures
            final(self).wf(),
            final(self).flushed(old(self), r),
    {
        if self.message_buffer.len() == 0 {
            return Ok(());
        }
        let ghost b = self.message_buffer@;
        let mut data: Vec<u8> = Vec::new();
        let mut start: u64 = u64::MAX;
        let mut end: u64 = 0;
        let mut indexes: BTreeMap<u16, Vec<MessageIndexEntry>> = BTreeMap::new();
        let mut i: usize = 0;
        while i < self.message_buffer.len()
            invariant
                0 <= i <= b.len(),
                b == self.message_buffer@,
                self.wf(),
                data@ == buffer_bytes(b.take(i as int)),
                start == min_log_time(b.take(i as int)),
                end == max_log_time(b.take(i as int)),
                forall|ch: u16| #[trigger]
                    indexes@.contains_key(ch) <==> has_channel(b.take(i as int), ch),
                forall|ch: u16| #[trigger]
                    indexes@.contains_key(ch) ==> entry_pairs(indexes@[ch]@) == channel_entries(
                        b.take(i as int),
                        ch,
                    ),
            decreases b.len() - i,
        {
            let msg = &self.message_buffer[i];
            let ghost t = b.take(i as int);
            let ghost t1 = b.take(i + 1);
            proof {
                assert(t1.drop_last() =~= t);
                assert(t1.last() == b[i as int]);
                lemma_buffer_bytes_prefix(b, i + 1);
                lemma_message_record_len(msg.channel_id, msg.sequence, msg.log_time, msg.publish_time, msg.data@);
            }
            if msg.log_time < start {
                start = msg.log_time;
            }
            if msg.log_time > end {
                end = msg.log_time;
            }
            let offset = data.len() as u64;
            let mut entries = match indexes.remove(&msg.channel_id) {
                Some(v) => v,
                None => Vec::new(),
            };
            let ghost old_entries = entries@;
            entries.push(MessageIndexEntry { log_time: msg.log_time, offset });
            indexes.insert(msg.channel_id, entries);
            let ghost before = data@;
            put_u8(&mut data, OP_MESSAGE);
            let record_len: usize = 2 + 4 + 8 + 8 + msg.data.len();
            put_u64(&mut data, record_len as u64);
            put_u16(&mut data, msg.channel_id);
            put_u32(&mut data, msg.sequence);
            put_u64(&mut data, msg.log_time);
            put_u64(&mut data, msg.publish_time);
            put_bytes(&mut data, msg.data.as_slice());
            proof {
                assert(data@ =~= before + message_record(
                    msg.channel_id,
                    msg.sequence,
                    msg.log_time,
                    msg.publish_time,
                    msg.data@,
                ));
                assert forall|ch: u16| #[trigger]
                    indexes@.contains_key(ch) implies has_channel(t1, ch) by {
                    if ch == msg.channel_id {
                        assert(t1[i as int].channel_id == ch);
                    } else {
                        let j = choose|j: int| 0 <= j < t.len() && t[j].channel_id == ch;
                        assert(t1[j].channel_id == ch);
                    }
                }
                assert forall|ch: u16| has_channel(t1, ch) implies #[trigger] indexes@.contains_key(ch) by {
                    let j = choose|j: int| 0 <= j < t1.len() && t1[j].channel_id == ch;
                    if j < i {
                        assert(t[j].channel_id == ch);
                    }
                }
                assert forall|ch: u16| #[trigger]
                    indexes@.contains_key(ch) implies entry_pairs(indexes@[ch]@) == channel_entries(t1, ch) by {
                    if ch == msg.channel_id {
                        assert(entry_pairs(indexes@[ch]@) =~= entry_pairs(old_entries).push(
                            (msg.log_time, offset),
                        ));
                        if !has_channel(t, ch) {
                            lemma_no_channel_entries(t, ch);
                        }
                    }
                }
            }
            i = i + 1;
        }
        proof {
            assert(b.take(b.len() as int) =~= b);
        }
        let message_count = self.message_buffer.len();
        let uncompressed_size = data.len();
        let compressed = match zstd_compress(data.as_slice(), 3) {
            Ok(c) => c,
            Err(e) => {
                return Err(
                    CodecError::Encode {
                        context: owned("ParallelMcapWriter"),
                        message: e,
                    },
                );
            },
        };
        if compressed.len() as u64 >= u64::MAX - 64 {
            return Err(
                CodecError::Encode {
                    context: owned("ParallelMcapWriter"),
                    message: owned("compressed chunk too large"),
                },
            );
        }
        proof {
            crate::format::mcap_records::lemma_zstd_name_len();
        }
        let chunk = CompressedChunk {
            sequence: self.chunks_written,
            compressed_data: compressed,
            uncompressed_size,
            message_start_time: start,
            message_end_time: end,
            message_count,
            message_indexes: indexes,
        };
        let ghost old_self = *self;
        proof {
            assert forall|k: u16| #[trigger]
                chunk.message_indexes@.contains_key(k) implies 16 * chunk.message_indexes@[k]@.len()
                    <= u32::MAX by {
                assert(entry_pairs(chunk.message_indexes@[k]@).len() == chunk.message_indexes@[k]@.len());
            }
            assert(chunk_from_buffer(b, old(self).chunks_written, chunk));
        }
        self.message_buffer.clear();
        self.buffer_size = 0;
        let saved_messages = self.messages_written;
        self.messages_written = self.messages_written - message_count as u64;
        proof {
            assert(channel_entries(self.message_buffer@, 0u16) =~= Seq::<(u64, u64)>::empty());
            assert forall|ch: u16| 16 * #[trigger] channel_entries(self.message_buffer@, ch).len() <= u32::MAX by {
                assert(self.message_buffer@ =~= Seq::<BufferedMessage>::empty());
            }
            assert(self.message_buffer@ =~= Seq::<BufferedMessage>::empty());
        }
        let ghost mid = *self;
        self.write_compressed_chunk(chunk)?;
        self.messages_written = saved_messages;
        proof {
            assert(self.chunk_written(old(self), chunk));
        }
        Ok(())
    }

    /// Write the magic bytes and the header record.
    fn write_header(&mut self)
        requires
            old(self).base == old(self).writer@.len(),
        ensures
            final(self).writer@ == old(self).writer@ + file_start(),
            final(self).write_start == file_start().len(),
            final(self).base == old(self).base,
            final(self).schema_records == old(self).schema_records,
            final(self).channel_records == old(self).channel_records,
            final(self).next_schema_id == old(self).next_schema_id,
            final(self).next_channel_id == old(self).next_channel_id,
            final(self).sequences == old(self).sequences,
            final(self).channel_message_counts == old(self).channel_message_counts,
            final(self).chunks_written == old(self).chunks_written,
            final(self).messages_written == old(self).messages_written,
            final(self).chunk_indexes == old(self).chunk_indexes,
            final(self).file_message_start_time == old(self).file_message_start_time,
            final(self).file_message_end_time == old(self).file_message_end_time,
            final(self).summary_start_offset == old(self).summary_start_offset,
            final(self).message_buffer == old(self).message_buffer,
            final(self).buffer_size == old(self).buffer_size,
            final(self).target_chunk_size == old(self).target_chunk_size,
    {
        let ghost before = self.writer@;
        put_u8(&mut self.writer, 0x89);
        put_u8(&mut self.writer, 0x4D);
        put_u8(&mut self.writer, 0x43);
        put_u8(&mut self.writer, 0x41);
        put_u8(&mut self.writer, 0x50);
        put_u8(&mut self.writer, 0x30);
        put_u8(&mut self.writer, 0x0D);
        put_u8(&mut self.writer, 0x0A);
        put_u8(&mut self.writer, OP_HEADER);
        put_u64(&mut self.writer, 8);
        put_u32(&mut self.writer, 0);
        put_u32(&mut self.writer, 0);
        assert(self.writer@ =~= before + file_start());
        self.write_start = self.position();
    }
}


/// Every well-formed writer's file starts with the MCAP magic followed by a
/// header record, right after the bytes its output buffer held at creation.
pub proof fn law_file_starts_with_header(w: &ParallelMcapWriter)
    requires
        w.wf(),
    ensures
        w.output_base() + file_start().len() <= w.output().len(),
        w.output().subrange(w.output_base() as int, (w.output_base() + file_start().len()) as int)
            == file_start(),
        w.output().subrange(w.output_base() as int, (w.output_base() + 8) as int) == magic(),
{
    lemma_file_start_len();
    assert(w.output().subrange(w.output_base() as int, (w.output_base() + file_start().len()) as int)
        =~= w.written().take(file_start().len() as int));
    assert(w.output().subrange(w.output_base() as int, (w.output_base() + 8) as int) =~= file_start().take(
        8,
    ));
}

/// Each channel's next sequence number is the number of messages written
/// on it since it was registered: the per-channel sequence numbers and
/// message counts of a well-formed writer agree.
pub proof fn law_sequences_count_messages(w: &ParallelMcapWriter)
    requires
        w.wf(),
    ensures
        w.sequence_map().dom() == w.count_map().dom(),
        forall|ch: u16| #[trigger]
            w.sequence_map().contains_key(ch) ==> w.sequence_map()[ch] as u64 == w.count_map()[ch],
{
}

/// Every chunk written has its index: the chunk count of a well-formed
/// writer is the number of chunk indexes its summary will list.
pub proof fn law_every_chunk_indexed(w: &ParallelMcapWriter)
    requires
        w.wf(),
    ensures
        w.chunk_count() == w.chunk_index_list().len(),
{
}

/// A channel added under a new topic is the one found under that topic:
/// with `get_channel_id`'s contract, looking the topic up afterwards gives
/// the ID it was added with.
pub proof fn law_added_channel_found(
    w: &ParallelMcapWriter,
    old: &ParallelMcapWriter,
    id: u16,
    schema_id: u16,
    topic: Seq<char>,
    encoding: Seq<char>,
    metadata: Seq<(String, String)>,
)
    requires
        w.wf(),
        w.channel_added(old, id, schema_id, topic, encoding, metadata),
    ensures
        w.has_topic(topic),
        forall|i: int| 0 <= i < w.channels().len() && w.channels()[i].topic@ == topic ==> w.channels()[i].id == id,
{
    let n = w.channels().len() - 1;
    assert(w.channels()[n].topic@ == topic);
    assert forall|i: int| 0 <= i < w.channels().len() && w.channels()[i].topic@ == topic implies w.channels()[i].id
        == id by {
        if i != n {
            assert(w.channel_records@[i].topic@ != w.channel_records@[n].topic@);
        }
    }
}

/// Adding a schema changes only the output and the schema table: the
/// channels, the next channel ID, the per-channel maps, the chunks, the
/// counters, the time bounds and the buffer stay as they were.
pub proof fn law_schema_added(w: &ParallelMcapWriter, old: &ParallelMcapWriter)
    requires
        w.same_except_schemas(old),
    ensures
        w.channels() == old.channels(),
        w.next_channel() == old.next_channel(),
        w.sequence_map() == old.sequence_map(),
        w.count_map() == old.count_map(),
        w.chunk_index_list() == old.chunk_index_list(),
        w.chunk_count() == old.chunk_count(),
        w.message_count() == old.message_count(),
        w.time_bounds() == old.time_bounds(),
        w.summary_start() == old.summary_start(),
        w.buffered() == old.buffered(),
        w.buffered_size() == old.buffered_size(),
        w.target_size() == old.target_size(),
        w.output_base() == old.output_base(),
{
}

/// Adding a channel appends its channel record to the file and the channel
/// to the channel table, after the channels already there, with the given
/// ID, schema, topic, encoding and metadata; its sequence number and
/// message count start at 0. The schemas, the next schema ID, the chunks,
/// the counters, the time bounds and the buffer stay as they were.
pub proof fn law_channel_added(
    w: &ParallelMcapWriter,
    old: &ParallelMcapWriter,
    id: u16,
    schema_id: u16,
    topic: Seq<char>,
    encoding: Seq<char>,
    metadata: Seq<(String, String)>,
)
    requires
        w.channel_added(old, id, schema_id, topic, encoding, metadata),
    ensures
        w.written() == old.written() + channel_record(
            id,
            schema_id,
            utf8(topic),
            utf8(encoding),
            metadata_bytes(metadata),
        ),
        w.channels().len() == old.channels().len() + 1,
        w.channels().drop_last() == old.channels(),
        forall|i: int| 0 <= i < old.channels().len() ==> #[trigger] w.channels()[i] == old.channels()[i],
        w.channels().last().id == id,
        w.channels().last().schema_id == schema_id,
        w.channels().last().topic@ == topic,
        w.channels().last().message_encoding@ == encoding,
        pair_views(w.channels().last().metadata@) == pair_views(metadata),
        w.sequence_map() == old.sequence_map().insert(id, 0),
        w.count_map() == old.count_map().insert(id, 0),
        w.schemas() == old.schemas(),
        w.next_schema() == old.next_schema(),
        w.chunk_index_list() == old.chunk_index_list(),
        w.chunk_count() == old.chunk_count(),
        w.message_count() == old.message_count(),
        w.time_bounds() == old.time_bounds(),
        w.summary_start() == old.summary_start(),
        w.buffered() == old.buffered(),
        w.buffered_size() == old.buffered_size(),
        w.target_size() == old.target_size(),
        w.output_base() == old.output_base(),
{
    assert forall|i: int| 0 <= i < old.channels().len() implies #[trigger] w.channels()[i] == old.channels()[i] by {
        assert(w.channels().drop_last()[i] == w.channels()[i]);
    }
}

/// A freshly created writer has written the magic and header after the
/// bytes its buffer held, and has no schemas, channels, chunks, messages
/// or buffered messages.
pub proof fn law_fresh(w: &ParallelMcapWriter, prefix: Seq<u8>, target: usize)
    requires
        w.fresh(prefix, target),
    ensures
        w.output() == prefix + file_start(),
        w.output_base() == prefix.len(),
        w.written() == file_start(),
        w.schemas().len() == 0,
        w.channels().len() == 0,
        w.next_schema() == 1,
        w.next_channel() == 0,
        w.sequence_map() == Map::<u16, u32>::empty(),
        w.count_map() == Map::<u16, u64>::empty(),
        w.chunk_count() == 0,
        w.message_count() == 0,
        w.chunk_index_list().len() == 0,
        w.time_bounds() == (u64::MAX, 0u64),
        w.summary_start() == 0,
        w.buffered().len() == 0,
        w.buffered_size() == 0,
        w.target_size() == target,
{
}

/// Writing a chunk appends its chunk record (then its message index
/// records) at the old end of the file, indexes it as the last chunk, with
/// its times, offset, length, channels and sizes, counts one more chunk,
/// widens the file's time bounds, and keeps the schemas, channels,
/// sequence numbers and per-channel counts.
pub proof fn law_chunk_written(w: &ParallelMcapWriter, old: &ParallelMcapWriter, chunk: CompressedChunk)
    requires
        w.chunk_written(old, chunk),
    ensures
        ({
            let rec = chunk_record(
                chunk.message_start_time,
                chunk.message_end_time,
                chunk.uncompressed_size as u64,
                chunk.compressed_data@,
            );
            &&& w.written().len() >= old.pos() + rec.len()
            &&& w.written().subrange(0, (old.pos() + rec.len()) as int) == old.written() + rec
            &&& w.chunk_index_list().last().chunk_length == rec.len()
            &&& exists|s: Seq<(u16, Vec<MessageIndexEntry>)>|
                sorted_listing(chunk.message_indexes@, s) && w.written() == old.written() + rec
                    + #[trigger] index_records(s) && w.chunk_index_list().last().message_index_length
                    == index_records(s).len() && index_records(s).len() == index_records_len(s)
        }),
        w.chunk_count() == old.chunk_count() + 1,
        w.chunk_index_list().len() == old.chunk_index_list().len() + 1,
        w.chunk_index_list().drop_last() == old.chunk_index_list(),
        w.chunk_index_list().last().message_start_time == chunk.message_start_time,
        w.chunk_index_list().last().message_end_time == chunk.message_end_time,
        w.chunk_index_list().last().chunk_start_offset == old.pos(),
        forall|k: u16| w.chunk_index_list().last().message_index_offsets@.contains_key(k)
            <==> #[trigger] chunk.message_indexes@.contains_key(k),
        w.chunk_index_list().last().compression@ == "zstd"@,
        w.chunk_index_list().last().compressed_size == chunk.compressed_data@.len(),
        w.chunk_index_list().last().uncompressed_size == chunk.uncompressed_size,
        w.time_bounds().0 == (if chunk.message_start_time < old.time_bounds().0 {
            chunk.message_start_time
        } else {
            old.time_bounds().0
        }),
        w.time_bounds().1 == (if chunk.message_end_time > old.time_bounds().1 {
            chunk.message_end_time
        } else {
            old.time_bounds().1
        }),
        w.schemas() == old.schemas(),
        w.channels() == old.channels(),
        w.sequence_map() == old.sequence_map(),
        w.count_map() == old.count_map(),
        w.summary_start() == old.summary_start(),
        w.target_size() == old.target_size(),
        w.output_base() == old.output_base(),
{
    let rec = chunk_record(
        chunk.message_start_time,
        chunk.message_end_time,
        chunk.uncompressed_size as u64,
        chunk.compressed_data@,
    );
    let s = choose|s: Seq<(u16, Vec<MessageIndexEntry>)>|
        sorted_listing(chunk.message_indexes@, s) && w.written() == old.written() + rec
            + #[trigger] index_records(s) && w.chunk_index_list().last().message_index_length
            == index_records(s).len();
    assert(w.written().subrange(0, (old.pos() + rec.len()) as int) =~= old.written() + rec);
    lemma_index_records_len(s);
}

/// Flushing the buffer: with nothing buffered it succeeds and changes
/// nothing; a failure changes nothing; a success writes the buffered
/// messages as one chunk (numbered by the chunk count), empties the buffer
/// and keeps the message count.
pub proof fn law_flushed(w: &ParallelMcapWriter, old: &ParallelMcapWriter, r: Result<(), CodecError>)
    requires
        w.flushed(old, r),
    ensures
        old.buffered().len() == 0 ==> r is Ok && *w == *old,
        r is Err ==> *w == *old,
        r is Ok && old.buffered().len() > 0 ==> {
            &&& w.buffered().len() == 0
            &&& w.buffered_size() == 0
            &&& w.message_count() == old.message_count()
            &&& w.chunk_count() == old.chunk_count() + 1
            &&& exists|chunk: CompressedChunk|
                chunk_from_buffer(old.buffered(), old.chunk_count(), chunk) && #[trigger] w.chunk_written(
                    old,
                    chunk,
                )
        },
{
}

/// Buffering a message gives it its channel's next sequence number (0 for
/// a channel not seen yet) and counts it for its channel and for the file,
/// widens the file's time bounds by its log time, appends it to the buffer
/// (31 bytes of record header besides its data), and writes nothing.
pub proof fn law_buffered_message(
    w: &ParallelMcapWriter,
    old: &ParallelMcapWriter,
    ch: u16,
    log_time: u64,
    publish_time: u64,
    data: Seq<u8>,
)
    requires
        w.buffered_message(old, ch, log_time, publish_time, data),
    ensures
        ({
            let sq = if old.sequence_map().contains_key(ch) {
                old.sequence_map()[ch]
            } else {
                0
            };
            let cnt = if old.count_map().contains_key(ch) {
                old.count_map()[ch]
            } else {
                0
            };
            &&& w.sequence_map() == old.sequence_map().insert(ch, (sq + 1) as u32)
            &&& w.count_map() == old.count_map().insert(ch, (cnt + 1) as u64)
            &&& w.buffered().last().sequence == sq
        }),
        w.message_count() == old.message_count() + 1,
        w.chunk_count() == old.chunk_count(),
        w.buffered().len() == old.buffered().len() + 1,
        w.buffered().drop_last() == old.buffered(),
        w.buffered().last().channel_id == ch,
        w.buffered().last().log_time == log_time,
        w.buffered().last().publish_time == publish_time,
        w.buffered().last().data@ == data,
        w.buffered_size() == old.buffered_size() + 31 + data.len(),
        w.time_bounds().0 == (if log_time < old.time_bounds().0 {
            log_time
        } else {
            old.time_bounds().0
        }),
        w.time_bounds().1 == (if log_time > old.time_bounds().1 {
            log_time
        } else {
            old.time_bounds().1
        }),
        w.written() == old.written(),
        w.chunk_index_list() == old.chunk_index_list(),
        w.schemas() == old.schemas(),
        w.channels() == old.channels(),
{
}

/// Finishing keeps every count and list of the flushed writer: its chunks,
/// messages, chunk indexes, channels and schemas, and leaves nothing
/// buffered that was not buffered before.
pub proof fn law_finished_counts(w: &ParallelMcapWriter, m: &ParallelMcapWriter)
    requires
        w.finished(m),
    ensures
        w.chunk_count() == m.chunk_count(),
        w.message_count() == m.message_count(),
        w.chunk_index_list() == m.chunk_index_list(),
        w.channels() == m.channels(),
        w.schemas() == m.schemas(),
        w.buffered() == m.buffered(),
        w.count_map() == m.count_map(),
{
    reveal(ParallelMcapWriter::finished);
}

/// Every chunk index that a well-formed writer holds points at a chunk
/// record of its recorded size in the file, and each of its message index
/// offsets points at a message index record for that channel.
pub proof fn law_chunk_indexes_locate_records(w: &ParallelMcapWriter, i: int)
    requires
        w.wf(),
        0 <= i < w.chunk_index_list().len(),
    ensures
        chunk_located(w.output().subrange(w.output_base() as int, w.output().len() as int), w.chunk_index_list()[i]),
        indexes_located(w.output().subrange(w.output_base() as int, w.output().len() as int), w.chunk_index_list()[i]),
{
    assert(w.output().subrange(w.output_base() as int, w.output().len() as int) == w.written());
}

/// A finished file continues where the unfinished one ended with a data end
/// record, records the offset just after it as the summary start, and ends
/// with a footer record (29 bytes) followed by the closing magic.
pub proof fn law_finished_file_layout(w: &ParallelMcapWriter, m: &ParallelMcapWriter)
    requires
        w.finished(m),
    ensures
        w.summary_start() == m.pos() + data_end_record().len(),
        w.pos() >= m.pos() + data_end_record().len() + 37,
        w.written().subrange(0, m.pos() as int) == m.written(),
        w.written().subrange(m.pos() as int, (m.pos() + data_end_record().len()) as int) == data_end_record(),
        w.written().subrange(w.pos() - 8, w.pos() as int) == magic(),
        w.written()[w.pos() - 37] == OP_FOOTER,
        w.written().subrange(w.pos() - 37, w.pos() - 8) == footer_record(m.footer_summary_start()),
{
    reveal(ParallelMcapWriter::finished);
    crate::bytes::lemma_le_len(4, 8);
    crate::bytes::lemma_le_len(0, 4);
    crate::bytes::lemma_le_len(20, 8);
    crate::bytes::lemma_le_len(m.footer_summary_start() as nat, 8);
    crate::bytes::lemma_le_len(0, 8);
    let (cs, ls) = choose|cs: Seq<(u16, u64)>, ls: Seq<Seq<(u16, u64)>>|
        #![trigger m.summary_section(cs, ls)]
        sorted_listing(m.channel_message_counts@, cs) && ls.len() == m.chunk_indexes@.len() && (
        forall|i: int|
            0 <= i < ls.len() ==> sorted_listing(
                m.chunk_indexes@[i].message_index_offsets@,
                #[trigger] ls[i],
            )) && w.written() == m.written() + data_end_record() + m.summary_section(cs, ls)
            + footer_record(m.footer_summary_start()) + magic();
    lemma_five_parts(
        w.written(),
        m.written(),
        data_end_record(),
        m.summary_section(cs, ls),
        footer_record(m.footer_summary_start()),
        magic(),
    );
}


/// A finished file is the unfinished one followed by the data end record,
/// the summary section (schemas, channels, statistics with the per-channel
/// counts in channel order, chunk indexes with their message index offsets
/// in channel order), the footer with the summary start (0 when no chunk
/// and no message was written) and the closing magic.
pub proof fn law_finished_summary(w: &ParallelMcapWriter, m: &ParallelMcapWriter)
    requires
        w.finished(m),
    ensures
        exists|cs: Seq<(u16, u64)>, ls: Seq<Seq<(u16, u64)>>|
            #![trigger m.summary_section(cs, ls)]
            sorted_listing(m.count_map(), cs) && ls.len() == m.chunk_index_list().len() && (forall|i: int|
                0 <= i < ls.len() ==> sorted_listing(
                    m.chunk_index_list()[i].message_index_offsets@,
                    #[trigger] ls[i],
                )) && w.written() == m.written() + data_end_record() + m.summary_section(cs, ls)
                + footer_record(m.footer_summary_start()) + magic(),
{
    reveal(ParallelMcapWriter::finished);
}

proof fn lemma_five_parts(x: Seq<u8>, a: Seq<u8>, b: Seq<u8>, c: Seq<u8>, f: Seq<u8>, e: Seq<u8>)
    requires
        x == a + b + c + f + e,
        f.len() > 0,
    ensures
        x.len() == a.len() + b.len() + c.len() + f.len() + e.len(),
        x.subrange(0, a.len() as int) == a,
        x.subrange(a.len() as int, (a.len() + b.len()) as int) == b,
        x.subrange(x.len() - e.len(), x.len() as int) == e,
        x[x.len() - e.len() - f.len()] == f[0],
        x.subrange(x.len() - e.len() - f.len(), x.len() - e.len()) == f,
{
    assert(x.subrange(x.len() - e.len() - f.len(), x.len() - e.len()) =~= f);
    assert(x.subrange(0, a.len() as int) =~= a);
    assert(x.subrange(a.len() as int, (a.len() + b.len()) as int) =~= b);
    assert(x.subrange(x.len() - e.len(), x.len() as int) =~= e);
}

} // verus!
