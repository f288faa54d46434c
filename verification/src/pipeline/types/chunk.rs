//! Compressed chunks produced by the compression stage.

use vstd::prelude::*;
use std::collections::BTreeMap;

verus! {

/// Location of one message inside an uncompressed chunk.
#[derive(Debug, Clone, Copy, PartialEq, Eq)]
pub struct MessageIndexEntry {
    /// Log time of the message.
    pub log_time: u64,
    /// Byte offset of the message record within the uncompressed chunk.
    pub offset: u64,
}

/// A chunk of message records, already compressed with zstd.
#[derive(Debug, Clone)]
pub struct CompressedChunk {
    /// Position of the chunk in the output.
    pub sequence: u64,
    /// The compressed record bytes.
    pub compressed_data: Vec<u8>,
    /// Size of the records before compression.
    pub uncompressed_size: usize,
    /// Earliest log time in the chunk.
    pub message_start_time: u64,
    /// Latest log time in the chunk.
    pub message_end_time: u64,
    /// Number of messages in the chunk.
    pub message_count: usize,
    /// Per channel, the log time and offset of each of its messages.
    pub message_indexes: BTreeMap<u16, Vec<MessageIndexEntry>>,
}

/// The `(log_time, offset)` pairs of a list of index entries.
pub open spec fn entry_pairs(es: Seq<MessageIndexEntry>) -> Seq<(u64, u64)> {
    es.map_values(|e: MessageIndexEntry| (e.log_time, e.offset))
}

} // verus!
