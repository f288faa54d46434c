use roboflow::format::mcap_constants::{MCAP_MAGIC, OP_FOOTER};
use roboflow::format::writer::mcap::{serialize_metadata, ChunkIndexRecord, ParallelMcapWriter};
use roboflow::pipeline::types::chunk::{CompressedChunk, MessageIndexEntry};
use std::collections::BTreeMap;

fn no_metadata() -> Vec<(String, String)> {
    Vec::new()
}

#[test]
fn test_serialize_metadata_empty() {
    let metadata = Vec::new();
    let bytes = serialize_metadata(&metadata);
    assert_eq!(bytes.len(), 4);
    assert_eq!(bytes, [0, 0, 0, 0]);
}

#[test]
fn test_serialize_metadata() {
    let metadata = vec![
        ("key1".to_string(), "value1".to_string()),
        ("key2".to_string(), "value2".to_string()),
    ];
    let bytes = serialize_metadata(&metadata);
    assert!(!bytes.is_empty());
    let total_len = u32::from_le_bytes([bytes[0], bytes[1], bytes[2], bytes[3]]);
    assert_eq!(total_len as usize, bytes.len() - 4);
}

#[test]
fn test_channel_record_format_readable_by_mcap_crate() {
    let mut writer = ParallelMcapWriter::new(Vec::new()).unwrap();
    let schema_id = writer.add_schema("test/Type", "ros1msg", b"test").unwrap();
    let metadata = vec![("key".to_string(), "value".to_string())];
    let channel_id = writer.add_channel(schema_id, "/test/topic", "cdr", &metadata).unwrap();
    writer.write_message(channel_id, 1000, 1000, b"test data").unwrap();
    writer.finish().unwrap();
    let bytes = writer.into_inner();
    match mcap::Summary::read(&bytes) {
        Ok(Some(summary)) => {
            assert_eq!(summary.schemas.len(), 1);
            assert_eq!(summary.channels.len(), 1);
            let channel = summary.channels.values().next().unwrap();
            assert_eq!(channel.topic, "/test/topic");
            assert_eq!(channel.metadata.get("key"), Some(&"value".to_string()));
        }
        Ok(None) => {
            assert_eq!(&bytes[0..8], MCAP_MAGIC);
        }
        Err(e) => panic!("mcap crate failed to read file: {:?}", e),
    }
}

#[test]
fn test_custom_writer_create_memory() {
    let writer = ParallelMcapWriter::new(Vec::new());
    assert!(writer.is_ok());
}

#[test]
fn test_custom_writer_add_schema() {
    let mut writer = ParallelMcapWriter::new(Vec::new()).unwrap();
    let id1 = writer.add_schema("test_schema", "ros1msg", b"schema data").unwrap();
    let id2 = writer.add_schema("test_schema", "ros1msg", b"schema data").unwrap();
    assert_eq!(id1, id2);
    assert_eq!(id1, 1);
}

#[test]
fn test_custom_writer_add_channel() {
    let mut writer = ParallelMcapWriter::new(Vec::new()).unwrap();
    let schema_id = writer.add_schema("schema", "ros1msg", b"data").unwrap();
    let id1 = writer.add_channel(schema_id, "/topic", "cdr", &no_metadata()).unwrap();
    let id2 = writer.add_channel(schema_id, "/topic", "cdr", &no_metadata()).unwrap();
    assert_eq!(id1, id2);
    assert_eq!(id1, 0);
}

#[test]
fn test_custom_writer_write_chunk() {
    let mut writer = ParallelMcapWriter::new(Vec::new()).unwrap();
    let chunk = CompressedChunk {
        sequence: 0,
        compressed_data: vec![1, 2, 3, 4],
        uncompressed_size: 100,
        message_start_time: 1000,
        message_end_time: 5000,
        message_count: 5,
        message_indexes: BTreeMap::new(),
    };
    let result = writer.write_compressed_chunk(chunk);
    assert!(result.is_ok());
    assert_eq!(writer.chunks_written(), 1);
    assert_eq!(writer.messages_written(), 5);
    assert_eq!(writer.chunk_indexes.len(), 1);
    assert_eq!(writer.chunk_indexes[0].message_start_time, 1000);
    assert_eq!(writer.chunk_indexes[0].message_end_time, 5000);
    assert_eq!(writer.chunk_indexes[0].compression, "zstd");
}

#[test]
fn test_custom_writer_write_message() {
    let mut writer = ParallelMcapWriter::new(Vec::new()).unwrap();
    writer.write_message(0, 1000, 1000, b"test data").unwrap();
    assert_eq!(writer.messages_written(), 1);
    assert_eq!(writer.file_message_start_time, 1000);
    assert_eq!(writer.file_message_end_time, 1000);
}

#[test]
fn test_custom_writer_finish_with_summary() {
    let mut writer = ParallelMcapWriter::new(Vec::new()).unwrap();
    let schema_id = writer.add_schema("schema", "ros1msg", b"data").unwrap();
    writer.add_channel(schema_id, "/topic", "cdr", &no_metadata()).unwrap();
    let chunk = CompressedChunk {
        sequence: 0,
        compressed_data: vec![1, 2, 3, 4],
        uncompressed_size: 100,
        message_start_time: 1000,
        message_end_time: 5000,
        message_count: 5,
        message_indexes: BTreeMap::new(),
    };
    writer.write_compressed_chunk(chunk).unwrap();
    let result = writer.finish();
    assert!(result.is_ok());
    assert_eq!(result.unwrap(), 1);
    assert!(writer.summary_start_offset > 0);
    assert_eq!(writer.chunk_indexes.len(), 1);
}

#[test]
fn test_chunk_index_record() {
    let record = ChunkIndexRecord {
        message_start_time: 1000,
        message_end_time: 5000,
        chunk_start_offset: 100,
        chunk_length: 200,
        message_index_offsets: BTreeMap::new(),
        message_index_length: 0,
        compression: "zstd".to_string(),
        compressed_size: 50,
        uncompressed_size: 100,
    };
    assert_eq!(record.message_start_time, 1000);
    assert_eq!(record.message_end_time, 5000);
    assert_eq!(record.compression, "zstd");
}

#[test]
fn test_round_trip_simple_file() {
    let mut writer = ParallelMcapWriter::new(Vec::new()).unwrap();
    let schema_id = writer.add_schema("std_msgs/String", "ros1msg", b"string data").unwrap();
    let channel_id = writer.add_channel(schema_id, "/chatter", "cdr", &no_metadata()).unwrap();
    for i in 0..10 {
        let data = format!("message {}", i);
        writer.write_message(channel_id, 1000 + i * 100, 1000 + i * 100, data.as_bytes()).unwrap();
    }
    let chunks_written = writer.finish().unwrap();
    assert!(chunks_written > 0);
    let bytes = writer.into_inner();
    assert_eq!(&bytes[0..8], MCAP_MAGIC);
    assert_eq!(&bytes[bytes.len() - 8..], MCAP_MAGIC);
}

#[test]
fn test_round_trip_with_compressed_chunks() {
    let mut writer = ParallelMcapWriter::new(Vec::new()).unwrap();
    let schema_id = writer.add_schema("test/Message", "ros1msg", b"int32 data").unwrap();
    let _channel_id = writer.add_channel(schema_id, "/test", "cdr", &no_metadata()).unwrap();
    let chunk = CompressedChunk {
        sequence: 0,
        compressed_data: vec![1, 2, 3, 4, 5],
        uncompressed_size: 100,
        message_start_time: 1000,
        message_end_time: 5000,
        message_count: 10,
        message_indexes: BTreeMap::new(),
    };
    writer.write_compressed_chunk(chunk).unwrap();
    let chunk2 = CompressedChunk {
        sequence: 1,
        compressed_data: vec![6, 7, 8, 9, 10],
        uncompressed_size: 200,
        message_start_time: 6000,
        message_end_time: 10000,
        message_count: 15,
        message_indexes: BTreeMap::new(),
    };
    writer.write_compressed_chunk(chunk2).unwrap();
    let chunks_written = writer.finish().unwrap();
    assert_eq!(chunks_written, 2);
    let bytes = writer.into_inner();
    assert_eq!(&bytes[0..8], MCAP_MAGIC);
    assert_eq!(&bytes[bytes.len() - 8..], MCAP_MAGIC);
    assert!(bytes.len() > 100);
}

#[test]
fn test_summary_section_written() {
    let mut writer = ParallelMcapWriter::new(Vec::new()).unwrap();
    let schema_id = writer.add_schema("test/Msg", "ros1msg", b"string data").unwrap();
    let channel_id = writer.add_channel(schema_id, "/topic", "cdr", &no_metadata()).unwrap();
    for i in 0..100 {
        let data = format!("test message {}", i);
        writer.write_message(channel_id, i * 1000, i * 1000, data.as_bytes()).unwrap();
    }
    writer.finish().unwrap();
    let summary_offset = writer.summary_start_offset;
    assert!(summary_offset > 0);
    let bytes = writer.into_inner();
    let footer_start = bytes.len() - 8 - 29;
    assert!(bytes[footer_start] == OP_FOOTER);
    let footer_summary_start = u64::from_le_bytes([
        bytes[footer_start + 9],
        bytes[footer_start + 10],
        bytes[footer_start + 11],
        bytes[footer_start + 12],
        bytes[footer_start + 13],
        bytes[footer_start + 14],
        bytes[footer_start + 15],
        bytes[footer_start + 16],
    ]);
    assert!(footer_summary_start > 0);
    assert!(footer_summary_start < footer_start as u64);
}

#[test]
fn test_round_trip_multiple_channels() {
    let mut writer = ParallelMcapWriter::new(Vec::new()).unwrap();
    let schema1_id = writer.add_schema("std_msgs/String", "ros1msg", b"string data").unwrap();
    let schema2_id = writer.add_schema("std_msgs/Int32", "ros1msg", b"int32 data").unwrap();
    let channel1_id = writer.add_channel(schema1_id, "/chatter", "cdr", &no_metadata()).unwrap();
    let channel2_id = writer.add_channel(schema2_id, "/numbers", "cdr", &no_metadata()).unwrap();
    for i in 0..10 {
        let data = format!("string {}", i);
        writer.write_message(channel1_id, i * 1000, i * 1000, data.as_bytes()).unwrap();
    }
    for i in 0..10 {
        let data = (i as i32 * 42i32).to_le_bytes().to_vec();
        writer.write_message(channel2_id, i as u64 * 1000 + 500, i as u64 * 1000 + 500, &data).unwrap();
    }
    let chunks_written = writer.finish().unwrap();
    assert!(chunks_written > 0);
    let bytes = writer.into_inner();
    assert_eq!(&bytes[0..8], MCAP_MAGIC);
    assert_eq!(&bytes[bytes.len() - 8..], MCAP_MAGIC);
}

#[test]
fn test_round_trip_with_metadata() {
    let mut writer = ParallelMcapWriter::new(Vec::new()).unwrap();
    let metadata = vec![
        ("encoding".to_string(), "cdr".to_string()),
        ("endianness".to_string(), "little".to_string()),
    ];
    let schema_id = writer.add_schema("test/Msg", "ros1msg", b"string data").unwrap();
    writer.add_channel(schema_id, "/topic", "cdr", &metadata).unwrap();
    for i in 0..5 {
        let data = format!("message {}", i);
        writer.write_message(0, i * 1000, i * 1000, data.as_bytes()).unwrap();
    }
    writer.finish().unwrap();
    let bytes = writer.into_inner();
    assert_eq!(&bytes[0..8], MCAP_MAGIC);
    assert_eq!(&bytes[bytes.len() - 8..], MCAP_MAGIC);
}

#[test]
fn test_round_trip_empty_file() {
    let mut writer = ParallelMcapWriter::new(Vec::new()).unwrap();
    let schema_id = writer.add_schema("test/Msg", "ros1msg", b"string data").unwrap();
    writer.add_channel(schema_id, "/topic", "cdr", &no_metadata()).unwrap();
    let chunks_written = writer.finish().unwrap();
    assert_eq!(chunks_written, 0);
    let bytes = writer.into_inner();
    assert_eq!(&bytes[0..8], MCAP_MAGIC);
    assert_eq!(&bytes[bytes.len() - 8..], MCAP_MAGIC);
    assert!(bytes.len() < 500);
}

#[test]
fn test_round_trip_large_data() {
    let mut writer = ParallelMcapWriter::with_chunk_size(Vec::new(), 1024).unwrap();
    let schema_id = writer.add_schema("test/Msg", "ros1msg", b"string data").unwrap();
    let channel_id = writer.add_channel(schema_id, "/topic", "cdr", &no_metadata()).unwrap();
    for i in 0..1000 {
        let data = format!("message number {} with some payload", i);
        writer.write_message(channel_id, i * 1000, i * 1000, data.as_bytes()).unwrap();
    }
    let chunks_written = writer.finish().unwrap();
    assert!(chunks_written > 1);
    let chunk_indexes_count = writer.chunk_indexes.len();
    assert!(chunk_indexes_count > 1);
    let bytes = writer.into_inner();
    assert_eq!(&bytes[0..8], MCAP_MAGIC);
    assert_eq!(&bytes[bytes.len() - 8..], MCAP_MAGIC);
}

#[test]
fn test_add_channel_with_id() {
    let mut writer = ParallelMcapWriter::new(Vec::new()).unwrap();
    let schema_id = writer.add_schema("test/Msg", "ros1msg", b"data").unwrap();
    let id1 = writer.add_channel_with_id(5, schema_id, "/topic_a", "ros1", &no_metadata()).unwrap();
    let id2 = writer.add_channel_with_id(2, schema_id, "/topic_b", "ros1", &no_metadata()).unwrap();
    let id3 = writer.add_channel_with_id(10, schema_id, "/topic_c", "ros1", &no_metadata()).unwrap();
    assert_eq!(id1, 5);
    assert_eq!(id2, 2);
    assert_eq!(id3, 10);
    writer.write_message(5, 1000, 1000, b"test data").unwrap();
    writer.finish().unwrap();
    let bytes = writer.into_inner();
    match mcap::Summary::read(&bytes) {
        Ok(Some(summary)) => {
            assert_eq!(summary.channels.len(), 3);
            assert!(summary.channels.contains_key(&5));
            assert!(summary.channels.contains_key(&2));
            assert!(summary.channels.contains_key(&10));
            assert_eq!(summary.channels.get(&5).unwrap().topic, "/topic_a");
            assert_eq!(summary.channels.get(&2).unwrap().topic, "/topic_b");
            assert_eq!(summary.channels.get(&10).unwrap().topic, "/topic_c");
        }
        Ok(None) => {
            assert_eq!(&bytes[0..8], MCAP_MAGIC);
            assert_eq!(&bytes[bytes.len() - 8..], MCAP_MAGIC);
        }
        Err(e) => panic!("mcap crate failed to read file: {:?}", e),
    }
}

fn three_entry_chunk() -> CompressedChunk {
    let mut message_indexes = BTreeMap::new();
    message_indexes.insert(
        0u16,
        vec![
            MessageIndexEntry { log_time: 1000, offset: 0 },
            MessageIndexEntry { log_time: 2000, offset: 50 },
            MessageIndexEntry { log_time: 3000, offset: 100 },
        ],
    );
    CompressedChunk {
        sequence: 0,
        compressed_data: vec![1, 2, 3, 4],
        uncompressed_size: 100,
        message_start_time: 1000,
        message_end_time: 3000,
        message_count: 3,
        message_indexes,
    }
}

#[test]
fn test_message_index_records_written() {
    let mut writer = ParallelMcapWriter::new(Vec::new()).unwrap();
    let schema_id = writer.add_schema("test/Msg", "ros1msg", b"data").unwrap();
    writer.add_channel_with_id(0, schema_id, "/topic", "ros1", &no_metadata()).unwrap();
    writer.write_compressed_chunk(three_entry_chunk()).unwrap();
    writer.finish().unwrap();
    let bytes = writer.into_inner();
    let mut found_message_index = false;
    let mut pos = 8;
    while pos < bytes.len() - 8 {
        let opcode = bytes[pos];
        let record_len = u64::from_le_bytes(bytes[pos + 1..pos + 9].try_into().unwrap()) as usize;
        if opcode == 0x07 {
            found_message_index = true;
            let channel_id = u16::from_le_bytes(bytes[pos + 9..pos + 11].try_into().unwrap());
            assert_eq!(channel_id, 0);
            let records_len = u32::from_le_bytes(bytes[pos + 11..pos + 15].try_into().unwrap());
            assert_eq!(records_len, 48);
            break;
        }
        pos += 9 + record_len;
    }
    assert!(found_message_index, "MessageIndex record should be present in the file");
}

#[test]
fn test_chunk_index_has_message_index_offsets() {
    let mut writer = ParallelMcapWriter::new(Vec::new()).unwrap();
    let schema_id = writer.add_schema("test/Msg", "ros1msg", b"data").unwrap();
    writer.add_channel_with_id(0, schema_id, "/topic", "ros1", &no_metadata()).unwrap();
    let mut message_indexes = BTreeMap::new();
    message_indexes.insert(0u16, vec![MessageIndexEntry { log_time: 1000, offset: 0 }]);
    let chunk = CompressedChunk {
        sequence: 0,
        compressed_data: vec![1, 2, 3, 4],
        uncompressed_size: 100,
        message_start_time: 1000,
        message_end_time: 1000,
        message_count: 1,
        message_indexes,
    };
    writer.write_compressed_chunk(chunk).unwrap();
    assert_eq!(writer.chunk_indexes.len(), 1);
    let chunk_index = &writer.chunk_indexes[0];
    assert!(!chunk_index.message_index_offsets.is_empty());
    assert!(chunk_index.message_index_offsets.contains_key(&0));
    assert!(chunk_index.message_index_length > 0);
    writer.finish().unwrap();
    let bytes = writer.into_inner();
    match mcap::Summary::read(&bytes) {
        Ok(Some(summary)) => {
            assert_eq!(summary.chunk_indexes.len(), 1);
            let chunk_index = &summary.chunk_indexes[0];
            assert!(!chunk_index.message_index_offsets.is_empty());
            assert!(chunk_index.message_index_length > 0);
        }
        Ok(None) => panic!("Summary should exist"),
        Err(e) => panic!("mcap crate failed to read file: {:?}", e),
    }
}

// The output keeps what the buffer held and then starts with magic and a
// 25-byte header.
#[test]
fn writer_output_starts_after_prefix_with_magic_and_header() {
    let writer = ParallelMcapWriter::new(vec![7, 7, 7]).unwrap();
    let bytes = writer.into_inner();
    assert_eq!(bytes.len(), 3 + 25);
    assert_eq!(&bytes[0..3], &[7, 7, 7]);
    assert_eq!(&bytes[3..11], MCAP_MAGIC);
    assert_eq!(bytes[11], 0x01);
}

// Finished files are read back by the mcap crate with their messages.
#[test]
fn written_messages_read_back_by_mcap_crate() {
    let mut writer = ParallelMcapWriter::with_chunk_size(Vec::new(), 200).unwrap();
    let schema_id = writer.add_schema("std_msgs/String", "ros1msg", b"string data").unwrap();
    let channel_id = writer.add_channel(schema_id, "/chatter", "cdr", &no_metadata()).unwrap();
    for i in 0..50u64 {
        let data = format!("message {}", i);
        writer.write_message(channel_id, 1000 + i, 2000 + i, data.as_bytes()).unwrap();
    }
    writer.finish().unwrap();
    let bytes = writer.into_inner();
    let mut seen = 0u64;
    for m in mcap::MessageStream::new(&bytes).unwrap() {
        let m = m.unwrap();
        assert_eq!(m.channel.topic, "/chatter");
        assert_eq!(m.log_time, 1000 + seen);
        assert_eq!(m.publish_time, 2000 + seen);
        assert_eq!(m.sequence, seen as u32);
        assert_eq!(&m.data[..], format!("message {}", seen).as_bytes());
        seen += 1;
    }
    assert_eq!(seen, 50);
    let summary = mcap::Summary::read(&bytes).unwrap().unwrap();
    let stats = summary.stats.unwrap();
    assert_eq!(stats.message_count, 50);
    assert_eq!(stats.message_start_time, 1000);
    assert_eq!(stats.message_end_time, 1049);
    assert_eq!(stats.channel_message_counts.get(&channel_id), Some(&50));
}

// A channel is found by its topic once added.
#[test]
fn channel_id_lookup_by_topic() {
    let mut writer = ParallelMcapWriter::new(Vec::new()).unwrap();
    let before = writer.get_channel_id("/x");
    assert!(before.is_none());
    let id = writer.add_channel(0, "/x", "cdr", &no_metadata()).unwrap();
    assert_eq!(writer.get_channel_id("/x"), Some(id));
}

// Message counts are per channel and sequence numbers run per channel.
#[test]
fn writer_counts_messages_across_chunks() {
    let mut writer = ParallelMcapWriter::with_chunk_size(Vec::new(), 64).unwrap();
    writer.write_message(3, 10, 10, b"aaaaaaaaaaaaaaaaaaaaaaaaaaaaaaaaaaaaaaaa").unwrap();
    writer.write_message(3, 20, 20, b"bbbbbbbbbbbbbbbbbbbbbbbbbbbbbbbbbbbbbbbb").unwrap();
    writer.write_message(3, 5, 5, b"c").unwrap();
    assert_eq!(writer.messages_written(), 3);
    let chunks = writer.finish().unwrap();
    assert!(chunks >= 2);
    assert_eq!(writer.file_message_start_time, 5);
    assert_eq!(writer.file_message_end_time, 20);
}

#[test]
fn test_message_chunks_are_zstd_compressed() {
    let mut writer = ParallelMcapWriter::new(Vec::new()).unwrap();
    let schema_id = writer.add_schema("test/Blob", "ros1msg", b"uint8[] data").unwrap();
    let channel_id = writer.add_channel(schema_id, "/blob", "cdr", &no_metadata()).unwrap();
    let payload = vec![b'A'; 4096];
    writer.write_message(channel_id, 1, 1, &payload).unwrap();
    writer.finish().unwrap();
    let bytes = writer.into_inner();
    let zstd_magic = [0x28u8, 0xB5, 0x2F, 0xFD];
    assert!(bytes.windows(4).any(|w| w == zstd_magic));
    assert!(!bytes.windows(payload.len()).any(|w| w == payload.as_slice()));
    assert!(bytes.len() < payload.len());
}

#[test]
fn added_channel_is_found_by_topic() {
    let mut writer = ParallelMcapWriter::new(Vec::new()).unwrap();
    let schema_id = writer.add_schema("s", "ros1msg", b"d").unwrap();
    let a = writer.add_channel(schema_id, "/a", "cdr", &no_metadata()).unwrap();
    let b = writer.add_channel(schema_id, "/b", "cdr", &no_metadata()).unwrap();
    assert_ne!(a, b);
    assert_eq!(writer.get_channel_id("/a"), Some(a));
    assert_eq!(writer.get_channel_id("/b"), Some(b));
    assert_eq!(writer.get_channel_id("/c"), None);
}

#[test]
fn every_chunk_has_an_index() {
    let mut writer = ParallelMcapWriter::with_chunk_size(Vec::new(), 64).unwrap();
    let schema_id = writer.add_schema("s", "ros1msg", b"d").unwrap();
    let ch = writer.add_channel(schema_id, "/a", "cdr", &no_metadata()).unwrap();
    for i in 0..10u64 {
        writer.write_message(ch, i, i, &[7u8; 40]).unwrap();
    }
    let chunks = writer.finish().unwrap();
    assert!(chunks >= 2);
    assert_eq!(writer.chunks_written(), chunks);
    assert_eq!(writer.chunk_indexes.len() as u64, chunks);
    assert_eq!(writer.messages_written(), 10);
}

// The footer: opcode 0x02, length 20, then the summary start (0 when no
// chunk and no message was written, else just after the data end record).
fn footer_summary_start(bytes: &[u8]) -> u64 {
    let f = bytes.len() - 8 - 29;
    assert_eq!(bytes[f], 0x02);
    assert_eq!(u64::from_le_bytes(bytes[f + 1..f + 9].try_into().unwrap()), 20);
    u64::from_le_bytes(bytes[f + 9..f + 17].try_into().unwrap())
}

#[test]
fn footer_summary_start_zero_for_empty_file() {
    let mut writer = ParallelMcapWriter::new(Vec::new()).unwrap();
    let schema_id = writer.add_schema("test/Msg", "ros1msg", b"string data").unwrap();
    writer.add_channel(schema_id, "/topic", "cdr", &no_metadata()).unwrap();
    writer.finish().unwrap();
    let bytes = writer.into_inner();
    assert_eq!(footer_summary_start(&bytes), 0);
}

#[test]
fn footer_summary_start_after_data_end() {
    let mut writer = ParallelMcapWriter::new(Vec::new()).unwrap();
    let schema_id = writer.add_schema("test/Msg", "ros1msg", b"data").unwrap();
    let ch = writer.add_channel(schema_id, "/topic", "cdr", &no_metadata()).unwrap();
    writer.write_message(ch, 1000, 1000, b"test data").unwrap();
    writer.finish().unwrap();
    let data_end_at = writer.summary_start_offset - 13;
    let bytes = writer.into_inner();
    let start = footer_summary_start(&bytes);
    assert_eq!(start, data_end_at + 13);
    assert_eq!(bytes[data_end_at as usize], 0x0F);
    assert!(0 < start && (start as usize) < bytes.len() - 8 - 29);
}

#[test]
fn message_index_length_sums_channels() {
    let mut writer = ParallelMcapWriter::new(Vec::new()).unwrap();
    let mut message_indexes = BTreeMap::new();
    message_indexes.insert(0u16, vec![MessageIndexEntry { log_time: 1, offset: 0 }]);
    message_indexes.insert(3u16, vec![
        MessageIndexEntry { log_time: 2, offset: 10 },
        MessageIndexEntry { log_time: 3, offset: 20 },
    ]);
    let chunk = CompressedChunk {
        sequence: 0,
        compressed_data: vec![9; 7],
        uncompressed_size: 50,
        message_start_time: 1,
        message_end_time: 3,
        message_count: 3,
        message_indexes,
    };
    writer.write_compressed_chunk(chunk).unwrap();
    let ci = &writer.chunk_indexes[0];
    assert_eq!(ci.message_index_length, (15 + 16) + (15 + 2 * 16));
    assert_eq!(ci.chunk_length, 53 + 7);
}
