//! Byte layout of the MCAP records that the writer emits.
//!
//! Every record is an opcode byte, a little-endian `u64` record length, and
//! the record's fields. Strings and byte arrays are prefixed by their length
//! as a little-endian `u32`; maps are prefixed by their total byte length.

use vstd::prelude::*;
use crate::bytes::{le16, le32, le64};
use crate::format::mcap_constants::{
    OP_CHANNEL, OP_CHUNK, OP_CHUNK_INDEX, OP_DATA_END, OP_FOOTER, OP_HEADER, OP_MESSAGE,
    OP_MESSAGE_INDEX, OP_SCHEMA, OP_STATISTICS,
};

verus! {

/// The eight magic bytes `0x89 "MCAP" 0x30 "\r\n"`.
pub open spec fn magic() -> Seq<u8> {
    seq![0x89u8, 0x4Du8, 0x43u8, 0x41u8, 0x50u8, 0x30u8, 0x0Du8, 0x0Au8]
}

/// UTF-8 bytes of a character sequence.
pub open spec fn utf8(s: Seq<char>) -> Seq<u8> {
    vstd::utf8::encode_utf8(s)
}

/// A string or byte array with its `u32` length prefix.
pub open spec fn prefixed(s: Seq<u8>) -> Seq<u8> {
    le32(s.len() as u32) + s
}

/// The compression name written for every chunk: `"zstd"`.
pub open spec fn zstd_name() -> Seq<u8> {
    utf8("zstd"@)
}

/// The compression name is four bytes long.
pub proof fn lemma_zstd_name_len()
    ensures
        zstd_name().len() == 4,
{
    reveal_strlit("zstd");
    assert(vstd::string::is_ascii("zstd"));
    vstd::string::is_ascii_spec_bytes("zstd");
}

/// Magic followed by a header record with empty profile and library.
pub open spec fn file_start() -> Seq<u8> {
    magic() + seq![OP_HEADER] + le64(8) + le32(0) + le32(0)
}

/// The magic and header take 25 bytes.
pub proof fn lemma_file_start_len()
    ensures
        file_start().len() == 25,
{
    crate::bytes::lemma_le_len(8, 8);
    crate::bytes::lemma_le_len(0, 4);
}

/// Schema record.
pub open spec fn schema_record(id: u16, name: Seq<u8>, encoding: Seq<u8>, data: Seq<u8>) -> Seq<
    u8,
> {
    seq![OP_SCHEMA] + le64((14 + name.len() + encoding.len() + data.len()) as u64) + le16(id)
        + prefixed(name) + prefixed(encoding) + prefixed(data)
}

/// The entries of a string map, each key and value length-prefixed.
pub open spec fn metadata_entries(es: Seq<(Seq<u8>, Seq<u8>)>) -> Seq<u8>
    decreases es.len(),
{
    if es.len() == 0 {
        Seq::empty()
    } else {
        metadata_entries(es.drop_last()) + prefixed(es.last().0) + prefixed(es.last().1)
    }
}

/// A string map: its entries prefixed by their total byte length.
pub open spec fn metadata_map(es: Seq<(Seq<u8>, Seq<u8>)>) -> Seq<u8> {
    le32(metadata_entries(es).len() as u32) + metadata_entries(es)
}

/// Byte view of a list of string pairs.
pub open spec fn string_pairs_bytes(es: Seq<(String, String)>) -> Seq<(Seq<u8>, Seq<u8>)> {
    es.map_values(|p: (String, String)| (utf8(p.0@), utf8(p.1@)))
}

/// Channel record; `meta` is the already-prefixed metadata map.
pub open spec fn channel_record(
    id: u16,
    schema_id: u16,
    topic: Seq<u8>,
    encoding: Seq<u8>,
    meta: Seq<u8>,
) -> Seq<u8> {
    seq![OP_CHANNEL] + le64((12 + topic.len() + encoding.len() + meta.len()) as u64) + le16(id)
        + le16(schema_id) + prefixed(topic) + prefixed(encoding) + meta
}

/// Chunk record holding zstd-compressed records.
pub open spec fn chunk_record(start: u64, end: u64, uncompressed: u64, data: Seq<u8>) -> Seq<u8> {
    seq![OP_CHUNK] + le64((40 + zstd_name().len() + data.len()) as u64) + le64(start) + le64(end)
        + le64(uncompressed)
        + le32(0) + prefixed(zstd_name()) + le64(data.len() as u64) + data
}

/// Entries of a message index: log time and offset of each message.
pub open spec fn index_entries(es: Seq<(u64, u64)>) -> Seq<u8>
    decreases es.len(),
{
    if es.len() == 0 {
        Seq::empty()
    } else {
        index_entries(es.drop_last()) + le64(es.last().0) + le64(es.last().1)
    }
}

/// Message index record for one channel.
pub open spec fn message_index_record(channel: u16, es: Seq<(u64, u64)>) -> Seq<u8> {
    seq![OP_MESSAGE_INDEX] + le64((6 + 16 * es.len()) as u64) + le16(channel) + le32(
        (16 * es.len()) as u32,
    ) + index_entries(es)
}

/// Message record (as stored inside a chunk).
pub open spec fn message_record(
    channel: u16,
    sequence: u32,
    log_time: u64,
    publish_time: u64,
    data: Seq<u8>,
) -> Seq<u8> {
    seq![OP_MESSAGE] + le64((22 + data.len()) as u64) + le16(channel) + le32(sequence) + le64(
        log_time,
    ) + le64(publish_time) + data
}

/// Data end record with a zero CRC.
pub open spec fn data_end_record() -> Seq<u8> {
    seq![OP_DATA_END] + le64(4) + le32(0)
}

/// Entries of a `u16 -> u64` map: key then value.
pub open spec fn u16_u64_entries(es: Seq<(u16, u64)>) -> Seq<u8>
    decreases es.len(),
{
    if es.len() == 0 {
        Seq::empty()
    } else {
        u16_u64_entries(es.drop_last()) + le16(es.last().0) + le64(es.last().1)
    }
}

/// Statistics record.
pub open spec fn statistics_record(
    message_count: u64,
    schema_count: u16,
    channel_count: u32,
    chunk_count: u32,
    start: u64,
    end: u64,
    counts: Seq<(u16, u64)>,
) -> Seq<u8> {
    seq![OP_STATISTICS] + le64((46 + 10 * counts.len()) as u64) + le64(message_count) + le16(
        schema_count,
    ) + le32(channel_count) + le32(0) + le32(0) + le32(chunk_count) + le64(start) + le64(end)
        + le32((10 * counts.len()) as u32) + u16_u64_entries(counts)
}

/// Chunk index record.
pub open spec fn chunk_index_record(
    start: u64,
    end: u64,
    offset: u64,
    length: u64,
    index_offsets: Seq<(u16, u64)>,
    index_length: u64,
    compression: Seq<u8>,
    compressed_size: u64,
    uncompressed_size: u64,
) -> Seq<u8> {
    seq![OP_CHUNK_INDEX] + le64((64 + 10 * index_offsets.len() + compression.len()) as u64) + le64(
        start,
    ) + le64(end) + le64(offset) + le64(length) + le32((10 * index_offsets.len()) as u32)
        + u16_u64_entries(index_offsets) + le64(index_length) + prefixed(compression) + le64(
        compressed_size,
    ) + le64(uncompressed_size)
}

/// Footer record; a zero `summary_start` means there is no summary.
pub open spec fn footer_record(summary_start: u64) -> Seq<u8> {
    seq![OP_FOOTER] + le64(20) + le64(summary_start) + le64(0) + le32(0)
}

/// `s` lists the entries of `m` in increasing key order, each once.
pub open spec fn sorted_listing<V>(m: Map<u16, V>, s: Seq<(u16, V)>) -> bool {
    &&& forall|i: int, j: int| 0 <= i < j < s.len() ==> s[i].0 < s[j].0
    &&& forall|i: int|
        0 <= i < s.len() ==> #[trigger] m.contains_key(s[i].0) && m[s[i].0] == s[i].1
    &&& forall|k: u16| #[trigger] m.contains_key(k) ==> exists|i: int| 0 <= i < s.len() && s[i].0 == k
}

} // verus!
