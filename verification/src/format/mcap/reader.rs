//! MCAP file reader: the channels, message count and time range that an
//! MCAP file's summary section records.

use vstd::prelude::*;
use std::collections::BTreeMap;
use crate::format::mcap_records::sorted_listing;
use crate::format::writer::mcap::sorted_refs;
use crate::bytes::copy_bytes;
use crate::errors::{is_encode_error, CodecError};
use crate::text::{concat, owned, str_eq};

verus! {

broadcast use vstd::std_specs::btree::group_btree_axioms;

/// Information about a channel in an MCAP file.
#[derive(Debug, Clone)]
pub struct ChannelInfo {
    /// Channel ID
    pub id: u16,
    /// Topic name (e.g., "/joint_states")
    pub topic: String,
    /// Message type (e.g., "sensor_msgs/msg/JointState")
    pub message_type: String,
    /// Encoding (e.g., "cdr", "protobuf", "json")
    pub encoding: String,
    /// Schema definition (message definition text)
    pub schema: Option<String>,
    /// Schema data (binary, for protobuf FileDescriptorSet)
    pub schema_data: Option<Vec<u8>>,
    /// Schema encoding (e.g., "ros2msg", "protobuf")
    pub schema_encoding: Option<String>,
    /// Message count
    pub message_count: u64,
    /// Caller ID (ROS1 only; MCAP has none)
    pub callerid: Option<String>,
}

/// Raw message data from MCAP with metadata (undecoded).
#[derive(Debug, Clone)]
pub struct RawMessage {
    /// Channel ID
    pub channel_id: u16,
    /// Log timestamp (nanoseconds)
    pub log_time: u64,
    /// Publish timestamp (nanoseconds)
    pub publish_time: u64,
    /// Raw message data
    pub data: Vec<u8>,
    /// Sequence number (if available)
    pub sequence: Option<u64>,
}

/// Decoded message with timestamp metadata.
#[derive(Debug, Clone)]
pub struct TimestampedDecodedMessage {
    /// The decoded message fields
    pub message: Vec<(String, crate::codec::CodecValue)>,
    /// Log timestamp (nanoseconds)
    pub log_time: u64,
    /// Publish timestamp (nanoseconds)
    pub publish_time: u64,
}

/// A schema of a summary section.
#[derive(Debug)]
pub struct SummarySchema {
    pub name: String,
    pub encoding: String,
    pub data: Vec<u8>,
}

/// A channel of a summary section.
#[derive(Debug)]
pub struct SummaryChannel {
    pub id: u16,
    pub topic: String,
    pub encoding: String,
    pub schema: Option<SummarySchema>,
}

/// A schema's name, encoding and data.
pub type SchemaView = (Seq<char>, Seq<char>, Seq<u8>);

/// A summary channel's topic, message encoding and schema.
pub type RowView = (Seq<char>, Seq<char>, Option<SchemaView>);

/// What a summary section records: the statistics record's message start
/// time, end time and count (if there is one), the per-channel message
/// counts (empty without statistics), and the channels by ID.
pub type SummaryView = (Option<(u64, u64, u64)>, Map<u16, u64>, Map<u16, RowView>);

/// What `mcap::Summary::read` gives for the bytes of a file: an error
/// message, no summary section, or the summary's records.
pub uninterp spec fn mcap_summary(bytes: Seq<u8>) -> Result<Option<SummaryView>, Seq<char>>;

/// The records of a summary section as plain values; the channels are in
/// no particular order.
#[derive(Debug)]
pub struct SummaryParts {
    pub stats: Option<(u64, u64, u64)>,
    pub counts: BTreeMap<u16, u64>,
    pub channels: Vec<SummaryChannel>,
}

pub open spec fn schema_view(s: SummarySchema) -> SchemaView {
    (s.name@, s.encoding@, s.data@)
}

pub open spec fn row_view(c: SummaryChannel) -> RowView {
    (
        c.topic@,
        c.encoding@,
        match c.schema {
            Some(s) => Some(schema_view(s)),
            None => None,
        },
    )
}

/// `rows` list the channels of `m`, each once.
pub open spec fn rows_match(rows: Seq<SummaryChannel>, m: Map<u16, RowView>) -> bool {
    &&& forall|i: int, j: int| 0 <= i < j < rows.len() ==> rows[i].id != rows[j].id
    &&& forall|i: int|
        0 <= i < rows.len() ==> m.contains_key(#[trigger] rows[i].id) && m[rows[i].id] == row_view(
            rows[i],
        )
    &&& forall|k: u16| #[trigger] m.contains_key(k) ==> exists|i: int| 0 <= i < rows.len() && rows[i].id == k
}

pub open spec fn parts_match(p: SummaryParts, v: SummaryView) -> bool {
    &&& p.stats == v.0
    &&& p.counts@ == v.1
    &&& rows_match(p.channels@, v.2)
}

/// Reads the summary section of an MCAP file with `mcap::Summary::read`.
///
/// Trusted: the result is what the mcap crate reads from these bytes,
/// named `mcap_summary`: its error message, no summary, or the statistics,
/// per-channel counts and channels (each channel once, under its own ID,
/// in the order the crate's hash map lists them).
#[verifier::external_body]
fn read_summary_parts(bytes: &[u8]) -> (r: Result<Option<SummaryParts>, String>)
    ensures
        match (r, mcap_summary(bytes@)) {
            (Ok(None), Ok(None)) => true,
            (Ok(Some(p)), Ok(Some(v))) => parts_match(p, v),
            (Err(e), Err(m)) => e@ == m,
            _ => false,
        },
{
    let s = match mcap::Summary::read(bytes).map_err(|e| e.to_string())? {
        Some(s) => s,
        None => return Ok(None),
    };
    Ok(Some(SummaryParts {
        stats: s.stats.as_ref().map(|t| (t.message_start_time, t.message_end_time, t.message_count)),
        counts: s.stats.map(|t| t.channel_message_counts).unwrap_or_default(),
        channels: s.channels.values().map(|c| SummaryChannel { id: c.id, topic: c.topic.clone(),
            encoding: c.message_encoding.clone(), schema: c.schema.as_ref().map(|x| SummarySchema {
            name: x.name.clone(), encoding: x.encoding.clone(), data: x.data.to_vec() }) }).collect(),
    }))
}

/// A message's channel ID, sequence number, log time, publish time and
/// data.
pub type StreamedView = (u16, u32, u64, u64, Seq<u8>);

/// An item of the message stream: a message, or a read error's message.
pub type StreamItem = Result<StreamedView, Seq<char>>;

/// What `mcap::MessageStream` gives for the bytes of a file: the message of
/// the error that kept it from starting, or every item it yields, in file
/// order, until it ends: the messages and the read errors' messages.
pub uninterp spec fn mcap_message_stream(bytes: Seq<u8>) -> Result<Seq<StreamItem>, Seq<char>>;

/// A message as the message stream yields it.
#[derive(Debug)]
pub struct StreamedMessage {
    pub channel_id: u16,
    pub sequence: u32,
    pub log_time: u64,
    pub publish_time: u64,
    pub data: Vec<u8>,
}

pub open spec fn streamed_view(m: StreamedMessage) -> StreamedView {
    (m.channel_id, m.sequence, m.log_time, m.publish_time, m.data@)
}

pub open spec fn item_view(i: Result<StreamedMessage, String>) -> StreamItem {
    match i {
        Ok(m) => Ok(streamed_view(m)),
        Err(e) => Err(e@),
    }
}

pub open spec fn item_views(items: Seq<Result<StreamedMessage, String>>) -> Seq<StreamItem> {
    items.map_values(|i: Result<StreamedMessage, String>| item_view(i))
}

/// Reads every item of an MCAP file's message stream, in file order, with
/// `mcap::MessageStream`.
///
/// Trusted: the result is what the mcap crate's stream gives for these
/// bytes, named `mcap_message_stream`: the error message when the stream
/// cannot start, or each message and each read error's message it yields
/// until it ends.
#[verifier::external_body]
pub(crate) fn read_message_stream(bytes: &[u8]) -> (r: Result<Vec<Result<StreamedMessage, String>>, String>)
    ensures
        match (r, mcap_message_stream(bytes@)) {
            (Ok(items), Ok(vs)) => item_views(items@) == vs,
            (Err(e), Err(m)) => e@ == m,
            _ => false,
        },
{
    let stream = match mcap::MessageStream::new(bytes) {
        Ok(s) => s,
        Err(e) => return Err(format!("{e}")),
    };
    let mut out = Vec::new();
    for m in stream {
        out.push(match m {
            Ok(m) => Ok(StreamedMessage { channel_id: m.channel.id, sequence: m.sequence,
                log_time: m.log_time, publish_time: m.publish_time, data: m.data.into_owned() }),
            Err(e) => Err(format!("{e}")),
        });
    }
    Ok(out)
}

/// What iterating the raw messages of the channels in `channels` hands out
/// for the stream items `items`: each message of a known channel with that
/// channel, and each read error, in order; messages of other channels are
/// skipped.
pub open spec fn known_items<V>(channels: Map<u16, V>, items: Seq<StreamItem>) -> Seq<
    Result<(StreamedView, V), Seq<char>>,
>
    decreases items.len(),
{
    if items.len() == 0 {
        Seq::empty()
    } else {
        let pre = known_items(channels, items.drop_last());
        match items.last() {
            Ok(m) => if channels.contains_key(m.0) {
                pre.push(Ok((m, channels[m.0])))
            } else {
                pre
            },
            Err(e) => pre.push(Err(e)),
        }
    }
}

/// A codec error's kind (encoding or not), context and message.
pub open spec fn codec_error_view(e: CodecError) -> (bool, Seq<char>, Seq<char>) {
    match e {
        CodecError::Encode { context, message } => (true, context@, message@),
        CodecError::Parse { context, message } => (false, context@, message@),
    }
}

/// A raw message's channel ID, log time, publish time, data and sequence
/// number.
pub open spec fn raw_view(r: RawMessage) -> (u16, u64, u64, Seq<u8>, Option<u64>) {
    (r.channel_id, r.log_time, r.publish_time, r.data@, r.sequence)
}

/// The raw message that a streamed message gives (without its sequence
/// number).
pub open spec fn raw_of(m: StreamedView) -> (u16, u64, u64, Seq<u8>, Option<u64>) {
    (m.0, m.2, m.3, m.4, None)
}

/// The view of an item handed out by the raw message iterator.
pub open spec fn raw_item_view(p: Result<(RawMessage, ChannelInfo), CodecError>) -> Result<
    ((u16, u64, u64, Seq<u8>, Option<u64>), ChannelView),
    (bool, Seq<char>, Seq<char>),
> {
    match p {
        Ok((m, c)) => Ok((raw_view(m), channel_view(c))),
        Err(e) => Err(codec_error_view(e)),
    }
}

/// What the raw message iterator hands out for a known item.
pub open spec fn raw_item_of(q: Result<(StreamedView, ChannelView), Seq<char>>) -> Result<
    ((u16, u64, u64, Seq<u8>, Option<u64>), ChannelView),
    (bool, Seq<char>, Seq<char>),
> {
    match q {
        Ok((m, c)) => Ok((raw_of(m), c)),
        Err(e) => Err((true, "McapReader"@, "Read error: "@ + e)),
    }
}

/// A copy of a channel.
fn copy_channel(c: &ChannelInfo) -> (r: ChannelInfo)
    ensures
        channel_view(r) == channel_view(*c),
{
    ChannelInfo {
        id: c.id,
        topic: c.topic.clone(),
        message_type: c.message_type.clone(),
        encoding: c.encoding.clone(),
        schema: c.schema.clone(),
        schema_data: match &c.schema_data {
            Some(d) => Some(copy_bytes(d)),
            None => None,
        },
        schema_encoding: c.schema_encoding.clone(),
        message_count: c.message_count,
        callerid: c.callerid.clone(),
    }
}

/// The text that UTF-8 `bytes` encode, if they are valid UTF-8.
///
/// Trusted wrapper of `String::from_utf8`: valid UTF-8 decodes to its
/// characters, anything else gives no text.
#[verifier::external_body]
fn utf8_text(bytes: Vec<u8>) -> (r: Option<String>)
    ensures
        r is Some == vstd::utf8::valid_utf8(bytes@),
        r is Some ==> r->0@ == vstd::utf8::decode_utf8(bytes@),
{
    String::from_utf8(bytes).ok()
}

/// A channel's characters and bytes.
pub type ChannelView = (
    u16,
    Seq<char>,
    Seq<char>,
    Seq<char>,
    Option<Seq<char>>,
    Option<Seq<u8>>,
    Option<Seq<char>>,
    u64,
    Option<Seq<char>>,
);

pub open spec fn opt_chars(o: Option<String>) -> Option<Seq<char>> {
    match o {
        Some(s) => Some(s@),
        None => None,
    }
}

pub open spec fn opt_bytes(o: Option<Vec<u8>>) -> Option<Seq<u8>> {
    match o {
        Some(b) => Some(b@),
        None => None,
    }
}

/// The view of a channel.
pub open spec fn channel_view(c: ChannelInfo) -> ChannelView {
    (
        c.id,
        c.topic@,
        c.message_type@,
        c.encoding@,
        opt_chars(c.schema),
        opt_bytes(c.schema_data),
        opt_chars(c.schema_encoding),
        c.message_count,
        opt_chars(c.callerid),
    )
}

/// The channel that a summary channel of ID `id` describes: its schema's
/// name as message type (empty without a schema), the schema's text when
/// its data is UTF-8, and the channel's message count (0 when not
/// recorded).
pub open spec fn channel_of_row(id: u16, row: RowView, counts: Map<u16, u64>) -> ChannelView {
    (
        id,
        row.0,
        match row.2 {
            Some(s) => s.0,
            None => Seq::empty(),
        },
        row.1,
        match row.2 {
            Some(s) => if vstd::utf8::valid_utf8(s.2) {
                Some(vstd::utf8::decode_utf8(s.2))
            } else {
                None
            },
            None => None,
        },
        match row.2 {
            Some(s) => Some(s.2),
            None => None,
        },
        match row.2 {
            Some(s) => Some(s.1),
            None => None,
        },
        if counts.contains_key(id) {
            counts[id]
        } else {
            0
        },
        None,
    )
}

/// The channel that a summary channel describes.
pub open spec fn channel_of(row: SummaryChannel, counts: Map<u16, u64>) -> ChannelView {
    channel_of_row(row.id, row_view(row), counts)
}

/// The channels that a summary records, by ID.
pub open spec fn summary_channel_map(v: SummaryView) -> Map<u16, ChannelView> {
    Map::new(|k: u16| v.2.contains_key(k), |k: u16| channel_of_row(k, v.2[k], v.1))
}

/// The channels of a summary by ID; a later row with the same ID wins.
pub open spec fn channels_of(rows: Seq<SummaryChannel>, counts: Map<u16, u64>) -> Map<u16, ChannelView>
    decreases rows.len(),
{
    if rows.len() == 0 {
        Map::empty()
    } else {
        channels_of(rows.drop_last(), counts).insert(rows.last().id, channel_of(rows.last(), counts))
    }
}

/// Rows that list each channel of `m` once give the channels of `m`,
/// whatever their order.
pub proof fn lemma_rows_channels(rows: Seq<SummaryChannel>, m: Map<u16, RowView>, counts: Map<u16, u64>)
    requires
        rows_match(rows, m),
    ensures
        channels_of(rows, counts) == Map::new(
            |k: u16| m.contains_key(k),
            |k: u16| channel_of_row(k, m[k], counts),
        ),
    decreases rows.len(),
{
    if rows.len() == 0 {
        assert(Map::new(|k: u16| m.contains_key(k), |k: u16| channel_of_row(k, m[k], counts)) =~= Map::<
            u16,
            ChannelView,
        >::empty()) by {
            assert forall|k: u16| !m.contains_key(k) by {
                if m.contains_key(k) {
                    let i = choose|i: int| 0 <= i < rows.len() && rows[i].id == k;
                }
            }
        }
    } else {
        let last = rows.last();
        let pre = rows.drop_last();
        let n = rows.len() - 1;
        assert(rows[n] == last);
        let sub = m.remove(last.id);
        assert(rows_match(pre, sub)) by {
            assert forall|i: int| 0 <= i < pre.len() implies sub.contains_key(#[trigger] pre[i].id)
                && sub[pre[i].id] == row_view(pre[i]) by {
                assert(rows[i] == pre[i]);
                assert(rows[i].id != rows[n].id);
            }
            assert forall|k: u16| #[trigger] sub.contains_key(k) implies exists|i: int|
                0 <= i < pre.len() && pre[i].id == k by {
                let i = choose|i: int| 0 <= i < rows.len() && rows[i].id == k;
                assert(i != n);
                assert(pre[i] == rows[i]);
            }
        }
        lemma_rows_channels(pre, sub, counts);
        assert(m.contains_key(last.id) && m[last.id] == row_view(last));
        assert(channels_of(rows, counts) =~= Map::new(
            |k: u16| m.contains_key(k),
            |k: u16| channel_of_row(k, m[k], counts),
        ));
    }
}

/// Robotics data reader: the channels and statistics of an MCAP file.
#[derive(Debug)]
pub struct McapReader {
    /// Path to the MCAP file
    path: String,
    /// Channel information indexed by channel ID
    channels: BTreeMap<u16, ChannelInfo>,
    /// Total message count
    message_count: u64,
    /// Start timestamp (nanoseconds)
    pub start_time: Option<u64>,
    /// End timestamp (nanoseconds)
    pub end_time: Option<u64>,
}

fn channel_info(row: SummaryChannel, counts: &BTreeMap<u16, u64>) -> (r: ChannelInfo)
    ensures
        channel_view(r) == channel_of(row, counts@),
{
    let count = match counts.get(&row.id) {
        Some(c) => *c,
        None => 0,
    };
    match row.schema {
        Some(s) => {
            let text = utf8_text(s.data.clone());
            ChannelInfo {
                id: row.id,
                topic: row.topic,
                message_type: s.name,
                encoding: row.encoding,
                schema: text,
                schema_data: Some(s.data),
                schema_encoding: Some(s.encoding),
                message_count: count,
                callerid: None,
            }
        },
        None => {
            let r = ChannelInfo {
                id: row.id,
                topic: row.topic,
                message_type: String::new(),
                encoding: row.encoding,
                schema: None,
                schema_data: None,
                schema_encoding: None,
                message_count: count,
                callerid: None,
            };
            r
        },
    }
}

impl McapReader {
    pub closed spec fn path_spec(&self) -> Seq<char> {
        self.path@
    }

    /// The channels by ID.
    pub closed spec fn channel_map(&self) -> Map<u16, ChannelView> {
        self.channels@.map_values(|c: ChannelInfo| channel_view(c))
    }

    pub closed spec fn start(&self) -> Option<u64> {
        self.start_time
    }

    pub closed spec fn end(&self) -> Option<u64> {
        self.end_time
    }

    pub closed spec fn count(&self) -> u64 {
        self.message_count
    }

    /// Every channel is stored under its own ID.
    pub closed spec fn wf(&self) -> bool {
        forall|id: u16| #[trigger] self.channels@.contains_key(id) ==> self.channels@[id].id == id
    }

    /// A reader for the file at `path` from what its summary records:
    /// the channels (with the per-channel message counts) and, when
    /// statistics are recorded, the time range and message count.
    pub fn from_summary_parts(
        path: &str,
        rows: Vec<SummaryChannel>,
        counts: &BTreeMap<u16, u64>,
        stats: Option<(u64, u64, u64)>,
    ) -> (r: Self)
        ensures
            r.wf(),
            r.path_spec() == path@,
            r.channel_map() == channels_of(rows@, counts@),
            r.start() == match stats {
                Some(t) => Some(t.0),
                None => None,
            },
            r.end() == match stats {
                Some(t) => Some(t.1),
                None => None,
            },
            r.count() == match stats {
                Some(t) => t.2,
                None => 0,
            },
    {
        let ghost all = rows@;
        let mut channels: BTreeMap<u16, ChannelInfo> = BTreeMap::new();
        let mut rest = rows;
        let ghost mut done: Seq<SummaryChannel> = Seq::empty();
        proof {
            assert(channels@.map_values(|c: ChannelInfo| channel_view(c)) =~= Map::empty());
            assert(all == done + rest@);
        }
        while rest.len() > 0
            invariant
                all == done + rest@,
                channels@.map_values(|c: ChannelInfo| channel_view(c)) == channels_of(done, counts@),
                forall|id: u16| #[trigger] channels@.contains_key(id) ==> channels@[id].id == id,
            decreases rest@.len(),
        {
            let row = rest.remove(0);
            proof {
                assert(done.push(row).drop_last() =~= done);
                assert(all =~= done.push(row) + rest@);
                done = done.push(row);
            }
            let id = row.id;
            let info = channel_info(row, counts);
            let ghost before = channels@;
            channels.insert(id, info);
            proof {
                assert(channels@.map_values(|c: ChannelInfo| channel_view(c)) =~= before.map_values(
                    |c: ChannelInfo| channel_view(c),
                ).insert(id, channel_view(info)));
            }
        }
        proof {
            assert(done =~= all);
        }
        let (start_time, end_time, message_count) = match stats {
            Some(t) => (Some(t.0), Some(t.1), t.2),
            None => (None, None, 0),
        };
        McapReader { path: owned(path), channels, message_count, start_time, end_time }
    }

    /// A reader for the MCAP file at `path` whose bytes are `bytes`: the
    /// channels, time range and message count that its summary section
    /// records. A file without a readable summary section has no channels,
    /// no time range and a message count of 0.
    pub fn from_bytes(path: &str, bytes: &[u8]) -> (r: Self)
        ensures
            r.wf(),
            r.path_spec() == path@,
            match mcap_summary(bytes@) {
                Ok(Some(v)) => {
                    &&& r.channel_map() == summary_channel_map(v)
                    &&& r.start() == match v.0 {
                        Some(t) => Some(t.0),
                        None => None,
                    }
                    &&& r.end() == match v.0 {
                        Some(t) => Some(t.1),
                        None => None,
                    }
                    &&& r.count() == match v.0 {
                        Some(t) => t.2,
                        None => 0,
                    }
                },
                _ => {
                    &&& r.channel_map() == Map::<u16, ChannelView>::empty()
                    &&& r.start() is None
                    &&& r.end() is None
                    &&& r.count() == 0
                },
            },
    {
        match read_summary_parts(bytes) {
            Ok(Some(parts)) => {
                proof {
                    let v = mcap_summary(bytes@)->Ok_0->Some_0;
                    lemma_rows_channels(parts.channels@, v.2, parts.counts@);
                }
                Self::from_summary_parts(path, parts.channels, &parts.counts, parts.stats)
            },
            _ => {
                let r = Self::from_summary_parts(path, Vec::new(), &BTreeMap::new(), None);
                proof {
                    assert(channels_of(Seq::<SummaryChannel>::empty(), Map::empty()) =~= Map::empty());
                }
                r
            },
        }
    }

    /// What the raw message iterator hands out for the stream items
    /// `items`: each message of a known channel with its channel, and each
    /// read error, in order.
    pub fn raw_messages_from(&self, items: &Vec<Result<StreamedMessage, String>>) -> (r: Vec<
        Result<(RawMessage, ChannelInfo), CodecError>,
    >)
        ensures
            r@.map_values(|p: Result<(RawMessage, ChannelInfo), CodecError>| raw_item_view(p))
                == known_items(self.channel_map(), item_views(items@)).map_values(
                |q: Result<(StreamedView, ChannelView), Seq<char>>| raw_item_of(q),
            ),
    {
        let ghost vs = item_views(items@);
        let ghost pv = |p: Result<(RawMessage, ChannelInfo), CodecError>| raw_item_view(p);
        let ghost qv = |q: Result<(StreamedView, ChannelView), Seq<char>>| raw_item_of(q);
        let mut out: Vec<Result<(RawMessage, ChannelInfo), CodecError>> = Vec::new();
        let mut i: usize = 0;
        while i < items.len()
            invariant
                0 <= i <= items@.len(),
                vs == item_views(items@),
                pv == (|p: Result<(RawMessage, ChannelInfo), CodecError>| raw_item_view(p)),
                qv == (|q: Result<(StreamedView, ChannelView), Seq<char>>| raw_item_of(q)),
                out@.map_values(pv) == known_items(self.channel_map(), vs.take(i as int)).map_values(qv),
            decreases items.len() - i,
        {
            proof {
                assert(vs.take(i + 1).drop_last() =~= vs.take(i as int));
                assert(vs.take(i + 1).last() == item_view(items@[i as int]));
            }
            let ghost before = out@;
            match &items[i] {
                Ok(m) => {
                    match self.channels.get(&m.channel_id) {
                        Some(c) => {
                            let raw = RawMessage {
                                channel_id: m.channel_id,
                                log_time: m.log_time,
                                publish_time: m.publish_time,
                                data: copy_bytes(&m.data),
                                sequence: None,
                            };
                            let ci = copy_channel(c);
                            let item = Ok((raw, ci));
                            out.push(item);
                            proof {
                                assert(out@.map_values(pv) =~= before.map_values(pv).push(pv(item)));
                                assert(known_items(self.channel_map(), vs.take(i + 1)).map_values(qv)
                                    =~= known_items(self.channel_map(), vs.take(i as int)).map_values(
                                    qv,
                                ).push(qv(Ok((streamed_view(*m), self.channel_map()[m.channel_id])))));
                            }
                        },
                        None => {},
                    }
                },
                Err(e) => {
                    let item = Err(
                        CodecError::Encode {
                            context: owned("McapReader"),
                            message: concat("Read error: ", e.as_str()),
                        },
                    );
                    out.push(item);
                    proof {
                        assert(out@.map_values(pv) =~= before.map_values(pv).push(pv(item)));
                        assert(known_items(self.channel_map(), vs.take(i + 1)).map_values(qv)
                            =~= known_items(self.channel_map(), vs.take(i as int)).map_values(qv).push(
                            qv(Err(e@)),
                        ));
                    }
                },
            }
            i = i + 1;
        }
        proof {
            assert(vs.take(items@.len() as int) =~= vs);
        }
        out
    }

    /// What iterating the raw messages of the MCAP file whose bytes are
    /// `bytes` hands out: each message of a known channel with its channel,
    /// and each read error, in file order; or the error that kept the
    /// stream from starting.
    pub fn iter_raw(&self, bytes: &[u8]) -> (r: Result<Vec<Result<(RawMessage, ChannelInfo), CodecError>>, CodecError>)
        ensures
            match (r, mcap_message_stream(bytes@)) {
                (Ok(out), Ok(vs)) => out@.map_values(
                    |p: Result<(RawMessage, ChannelInfo), CodecError>| raw_item_view(p),
                ) == known_items(self.channel_map(), vs).map_values(
                    |q: Result<(StreamedView, ChannelView), Seq<char>>| raw_item_of(q),
                ),
                (Err(x), Err(m)) => is_encode_error(x, "McapReader"@, "Failed to create stream: "@ + m),
                _ => false,
            },
    {
        match read_message_stream(bytes) {
            Ok(items) => Ok(self.raw_messages_from(&items)),
            Err(e) => Err(
                CodecError::Encode {
                    context: owned("McapReader"),
                    message: concat("Failed to create stream: ", e.as_str()),
                },
            ),
        }
    }

    /// Get all channel information, by channel ID.
    pub fn channels(&self) -> (r: &BTreeMap<u16, ChannelInfo>)
        ensures
            r@.map_values(|c: ChannelInfo| channel_view(c)) == self.channel_map(),
    {
        &self.channels
    }

    /// The channel with the lowest ID whose topic is `topic`, if any.
    pub fn channel_by_topic(&self, topic: &str) -> (r: Option<&ChannelInfo>)
        requires
            self.wf(),
        ensures
            match r {
                Some(c) => self.channel_map().contains_key(c.id) && self.channel_map()[c.id]
                    == channel_view(*c) && c.topic@ == topic@ && forall|id: u16|
                    id < c.id && #[trigger] self.channel_map().contains_key(id) ==> self.channel_map()[id].1
                        != topic@,
                None => forall|id: u16| #[trigger]
                    self.channel_map().contains_key(id) ==> self.channel_map()[id].1 != topic@,
            },
    {
        let refs = sorted_refs(&self.channels);
        let ghost l = refs@.map_values(|p: (u16, &ChannelInfo)| (p.0, *p.1));
        let mut i: usize = 0;
        while i < refs.len()
            invariant
                0 <= i <= refs@.len(),
                l == refs@.map_values(|p: (u16, &ChannelInfo)| (p.0, *p.1)),
                sorted_listing(self.channels@, l),
                self.wf(),
                forall|k: int| 0 <= k < i ==> (#[trigger] l[k]).1.topic@ != topic@,
            decreases refs.len() - i,
        {
            let c = refs[i].1;
            if str_eq(c.topic.as_str(), topic) {
                proof {
                    assert(l[i as int] == (refs@[i as int].0, *c));
                    assert(self.channels@.contains_key(l[i as int].0));
                    assert(self.channels@[l[i as int].0] == l[i as int].1);
                    assert(c.id == l[i as int].0);
                    assert forall|id: u16| id < c.id && #[trigger] self.channel_map().contains_key(id)
                        implies self.channel_map()[id].1 != topic@ by {
                        assert(self.channels@.contains_key(id));
                        let k = choose|k: int| 0 <= k < l.len() && l[k].0 == id;
                        if k > i {
                            assert(l[i as int].0 < l[k].0);
                        }
                        assert(k < i);
                        assert(self.channels@[l[k].0] == l[k].1);
                        assert(l[k].1.topic@ != topic@);
                    }
                }
                return Some(c);
            }
            i = i + 1;
        }
        proof {
            assert forall|id: u16| #[trigger] self.channel_map().contains_key(id) implies self.channel_map()[id].1
                != topic@ by {
                assert(self.channels@.contains_key(id));
                let k = choose|k: int| 0 <= k < l.len() && l[k].0 == id;
                assert(self.channels@[l[k].0] == l[k].1);
                assert(l[k].1.topic@ != topic@);
            }
        }
        None
    }

    /// Get total message count.
    pub fn message_count(&self) -> (r: u64)
        ensures
            r == self.count(),
    {
        self.message_count
    }

    /// Get start timestamp in nanoseconds.
    pub fn start_time(&self) -> (r: Option<u64>)
        ensures
            r == self.start(),
    {
        self.start_time
    }

    /// Get end timestamp in nanoseconds.
    pub fn end_time(&self) -> (r: Option<u64>)
        ensures
            r == self.end(),
    {
        self.end_time
    }

    /// Get the file path.
    pub fn path(&self) -> (r: &str)
        ensures
            r@ == self.path_spec(),
    {
        self.path.as_str()
    }
}

} // verus!
