use roboflow::errors::CodecError;
use roboflow::format::mcap::reader::{McapReader, StreamedMessage};
use roboflow::format::writer::mcap::ParallelMcapWriter;
use roboflow::io::formats::sequential_mcap::SequentialMcapReader;

fn sample_file() -> Vec<u8> {
    let mut writer = ParallelMcapWriter::new(Vec::new()).unwrap();
    let s = writer.add_schema("std_msgs/String", "ros1msg", b"string data").unwrap();
    let a = writer.add_channel(s, "/chatter", "cdr", &Vec::new()).unwrap();
    let b = writer.add_channel(0, "/raw", "json", &Vec::new()).unwrap();
    for i in 0..4u64 {
        writer.write_message(a, 100 + i, 100 + i, b"x").unwrap();
    }
    writer.write_message(b, 50, 50, b"y").unwrap();
    writer.finish().unwrap();
    writer.into_inner()
}

#[test]
fn mcap_reader_reads_summary_of_written_file() {
    let bytes = sample_file();
    let reader = McapReader::from_bytes("mem.mcap", &bytes);
    assert_eq!(reader.path(), "mem.mcap");
    assert_eq!(reader.message_count(), 5);
    assert_eq!(reader.start_time(), Some(50));
    assert_eq!(reader.end_time(), Some(103));
    assert_eq!(reader.channels().len(), 2);
    let chatter = reader.channel_by_topic("/chatter").unwrap();
    assert_eq!(chatter.message_type, "std_msgs/String");
    assert_eq!(chatter.schema.as_deref(), Some("string data"));
    assert_eq!(chatter.schema_encoding.as_deref(), Some("ros1msg"));
    assert_eq!(chatter.message_count, 4);
    let raw = reader.channel_by_topic("/raw").unwrap();
    assert_eq!(raw.message_type, "");
    assert_eq!(raw.message_count, 1);
    assert!(reader.channel_by_topic("/none").is_none());
}

#[test]
fn mcap_reader_without_summary_is_empty() {
    let reader = McapReader::from_bytes("bad.mcap", b"not an mcap file");
    assert_eq!(reader.message_count(), 0);
    assert_eq!(reader.start_time(), None);
    assert!(reader.channels().is_empty());
}

#[test]
fn sequential_reader_keeps_channel_summary() {
    let bytes = sample_file();
    let reader = SequentialMcapReader::from_bytes("mem.mcap", &bytes);
    assert_eq!(reader.message_count(), 5);
    assert_eq!(reader.end_time(), Some(103));
    let c = reader.channels().values().find(|c| c.topic == "/chatter").unwrap();
    assert_eq!(c.message_count, 4);
    assert_eq!(c.encoding, "cdr");
    assert_eq!(reader.path(), "mem.mcap");
}

#[test]
fn mcap_reader_iter_raw_reads_messages_in_file_order() {
    let bytes = sample_file();
    let reader = McapReader::from_bytes("mem.mcap", &bytes);
    let items = reader.iter_raw(&bytes).unwrap();
    assert!(items.iter().all(|i| i.is_ok()));
    let messages: Vec<_> = items.into_iter().map(|i| i.unwrap()).collect();
    let seen: Vec<(String, u64, Vec<u8>, Option<u64>)> = messages
        .iter()
        .map(|(m, c)| (c.topic.clone(), m.log_time, m.data.clone(), m.sequence))
        .collect();
    assert_eq!(
        seen,
        vec![
            ("/chatter".to_string(), 100, b"x".to_vec(), None),
            ("/chatter".to_string(), 101, b"x".to_vec(), None),
            ("/chatter".to_string(), 102, b"x".to_vec(), None),
            ("/chatter".to_string(), 103, b"x".to_vec(), None),
            ("/raw".to_string(), 50, b"y".to_vec(), None),
        ]
    );
    for (m, c) in &messages {
        assert_eq!(m.channel_id, c.id);
        assert_eq!(m.publish_time, m.log_time);
    }
}

#[test]
fn sequential_reader_iter_raw_keeps_sequence_numbers() {
    let bytes = sample_file();
    let reader = SequentialMcapReader::from_bytes("mem.mcap", &bytes);
    let items = reader.iter_raw(&bytes).unwrap();
    assert!(items.iter().all(|i| i.is_ok()));
    let messages: Vec<_> = items.into_iter().map(|i| i.unwrap()).collect();
    let seen: Vec<(String, u32, Vec<u8>)> =
        messages.iter().map(|(m, c)| (c.topic.clone(), m.sequence, m.data.clone())).collect();
    assert_eq!(
        seen,
        vec![
            ("/chatter".to_string(), 0, b"x".to_vec()),
            ("/chatter".to_string(), 1, b"x".to_vec()),
            ("/chatter".to_string(), 2, b"x".to_vec()),
            ("/chatter".to_string(), 3, b"x".to_vec()),
            ("/raw".to_string(), 0, b"y".to_vec()),
        ]
    );
}

#[test]
fn iter_raw_reports_unreadable_bytes() {
    let bytes = sample_file();
    let reader = McapReader::from_bytes("mem.mcap", &bytes);
    match reader.iter_raw(b"not an mcap file") {
        Ok(items) => {
            assert!(!items.is_empty());
            assert!(items.iter().all(|i| i.is_err()));
            match &items[0] {
                Err(CodecError::Encode { context, message }) => {
                    assert_eq!(context, "McapReader");
                    assert!(message.starts_with("Read error: "));
                }
                other => panic!("unexpected item: {:?}", other),
            }
        }
        Err(CodecError::Encode { context, message }) => {
            assert_eq!(context, "McapReader");
            assert!(message.starts_with("Failed to create stream: "));
        }
        other => panic!("unexpected result: {:?}", other),
    }
}

#[test]
fn raw_messages_from_skips_unknown_channels() {
    let bytes = sample_file();
    let reader = McapReader::from_bytes("mem.mcap", &bytes);
    let chatter = reader.channel_by_topic("/chatter").unwrap().id;
    let stream = vec![
        Ok(StreamedMessage { channel_id: 999, sequence: 0, log_time: 1, publish_time: 2, data: vec![1] }),
        Ok(StreamedMessage { channel_id: chatter, sequence: 7, log_time: 3, publish_time: 4, data: vec![2, 3] }),
        Err("unknown channel".to_string()),
        Ok(StreamedMessage { channel_id: chatter, sequence: 8, log_time: 5, publish_time: 6, data: vec![4] }),
    ];
    let items = reader.raw_messages_from(&stream);
    assert_eq!(items.len(), 3);
    match &items[0] {
        Ok((m, c)) => {
            assert_eq!(m.channel_id, chatter);
            assert_eq!(m.log_time, 3);
            assert_eq!(m.publish_time, 4);
            assert_eq!(m.data, vec![2, 3]);
            assert_eq!(c.topic, "/chatter");
        }
        other => panic!("unexpected item: {:?}", other),
    }
    match &items[1] {
        Err(CodecError::Encode { context, message }) => {
            assert_eq!(context, "McapReader");
            assert_eq!(message, "Read error: unknown channel");
        }
        other => panic!("unexpected item: {:?}", other),
    }
    match &items[2] {
        Ok((m, _)) => assert_eq!(m.log_time, 5),
        other => panic!("unexpected item: {:?}", other),
    }
}

