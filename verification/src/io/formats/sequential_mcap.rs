//! Sequential MCAP reader: the channels, message count and time range that
//! an MCAP file's summary section records, for reading its messages in
//! file order.

use vstd::prelude::*;
use std::collections::BTreeMap;
use crate::bytes::copy_bytes;
use crate::errors::{is_encode_error, CodecError};
use crate::format::mcap::reader::{
    channel_view, codec_error_view, item_view, item_views, known_items, mcap_message_stream, mcap_summary,
    opt_chars, read_message_stream, streamed_view, summary_channel_map, ChannelView, McapReader,
    StreamedMessage, StreamedView,
};
use crate::text::{concat, owned};
use crate::format::mcap_records::sorted_listing;
use crate::format::writer::mcap::sorted_refs;

verus! {

broadcast use vstd::std_specs::btree::group_btree_axioms;

/// Information about a channel.
#[derive(Debug, Clone)]
pub struct ChannelInfo {
    pub id: u16,
    pub topic: String,
    pub message_type: String,
    pub encoding: String,
    pub schema: Option<String>,
    pub message_count: u64,
    pub schema_encoding: Option<String>,
}

/// Raw message data (undecoded).
#[derive(Debug, Clone)]
pub struct RawMessage {
    pub channel_id: u16,
    pub log_time: u64,
    pub publish_time: u64,
    pub data: Vec<u8>,
    pub sequence: u32,
}

/// A channel's characters: ID, topic, message type, encoding, schema
/// text, message count, schema encoding.
pub type SeqChannelView = (u16, Seq<char>, Seq<char>, Seq<char>, Option<Seq<char>>, u64, Option<Seq<char>>);

/// The view of a channel.
pub open spec fn seq_channel_view(c: ChannelInfo) -> SeqChannelView {
    (c.id, c.topic@, c.message_type@, c.encoding@, opt_chars(c.schema), c.message_count, opt_chars(c.schema_encoding))
}

/// The part of a full channel view that this reader keeps.
pub open spec fn project(v: ChannelView) -> SeqChannelView {
    (v.0, v.1, v.2, v.3, v.4, v.7, v.6)
}

/// The channels that a sequential reader reads from a summary (as
/// `from_bytes` takes them) are the summary's channels by ID, each with its
/// topic, its message type as the name of its schema (empty without a
/// schema), its message encoding, its schema's text when that is UTF-8,
/// its message count from the statistics (0 when not recorded) and its
/// schema's encoding.
pub proof fn law_channels_from_summary(v: crate::format::mcap::reader::SummaryView, k: u16)
    ensures
        summary_channel_map(v).map_values(|c: ChannelView| project(c)).contains_key(k)
            == v.2.contains_key(k),
        v.2.contains_key(k) ==> {
            let c = summary_channel_map(v).map_values(|c: ChannelView| project(c))[k];
            &&& c.0 == k
            &&& c.1 == v.2[k].0
            &&& c.2 == match v.2[k].2 {
                Some(s) => s.0,
                None => Seq::<char>::empty(),
            }
            &&& c.3 == v.2[k].1
            &&& c.4 == match v.2[k].2 {
                Some(s) => if vstd::utf8::valid_utf8(s.2) {
                    Some(vstd::utf8::decode_utf8(s.2))
                } else {
                    None
                },
                None => None,
            }
            &&& c.5 == (if v.1.contains_key(k) {
                v.1[k]
            } else {
                0
            })
            &&& c.6 == match v.2[k].2 {
                Some(s) => Some(s.1),
                None => None,
            }
        },
{
}

fn project_channel(c: &crate::format::mcap::reader::ChannelInfo) -> (r: ChannelInfo)
    ensures
        seq_channel_view(r) == project(channel_view(*c)),
{
    ChannelInfo {
        id: c.id,
        topic: c.topic.clone(),
        message_type: c.message_type.clone(),
        encoding: c.encoding.clone(),
        schema: c.schema.clone(),
        message_count: c.message_count,
        schema_encoding: c.schema_encoding.clone(),
    }
}

/// A raw message's channel ID, log time, publish time, data and sequence
/// number.
pub open spec fn seq_raw_view(r: RawMessage) -> (u16, u64, u64, Seq<u8>, u32) {
    (r.channel_id, r.log_time, r.publish_time, r.data@, r.sequence)
}

/// The raw message that a streamed message gives.
pub open spec fn seq_raw_of(m: StreamedView) -> (u16, u64, u64, Seq<u8>, u32) {
    (m.0, m.2, m.3, m.4, m.1)
}

/// The view of an item handed out by the raw message iterator.
pub open spec fn seq_raw_item_view(p: Result<(RawMessage, ChannelInfo), CodecError>) -> Result<
    ((u16, u64, u64, Seq<u8>, u32), SeqChannelView),
    (bool, Seq<char>, Seq<char>),
> {
    match p {
        Ok((m, c)) => Ok((seq_raw_view(m), seq_channel_view(c))),
        Err(e) => Err(codec_error_view(e)),
    }
}

/// What the raw message iterator hands out for a known item.
pub open spec fn seq_raw_item_of(q: Result<(StreamedView, SeqChannelView), Seq<char>>) -> Result<
    ((u16, u64, u64, Seq<u8>, u32), SeqChannelView),
    (bool, Seq<char>, Seq<char>),
> {
    match q {
        Ok((m, c)) => Ok((seq_raw_of(m), c)),
        Err(e) => Err((true, "SequentialMcapReader"@, "Read error: "@ + e)),
    }
}

fn copy_channel(c: &ChannelInfo) -> (r: ChannelInfo)
    ensures
        seq_channel_view(r) == seq_channel_view(*c),
{
    ChannelInfo {
        id: c.id,
        topic: c.topic.clone(),
        message_type: c.message_type.clone(),
        encoding: c.encoding.clone(),
        schema: c.schema.clone(),
        message_count: c.message_count,
        schema_encoding: c.schema_encoding.clone(),
    }
}

/// Sequential MCAP reader.
#[derive(Debug)]
pub struct SequentialMcapReader {
    path: String,
    channels: BTreeMap<u16, ChannelInfo>,
    message_count: u64,
    pub start_time: Option<u64>,
    pub end_time: Option<u64>,
}

impl SequentialMcapReader {
    pub closed spec fn path_spec(&self) -> Seq<char> {
        self.path@
    }

    pub closed spec fn channel_map(&self) -> Map<u16, SeqChannelView> {
        self.channels@.map_values(|c: ChannelInfo| seq_channel_view(c))
    }

    pub closed spec fn start(&self) -> Option<u64> {
        self.start_time
    }

    pub closed spec fn end(&self) -> Option<u64> {
        self.end_time
    }

    pub closed spec fn count(&self) -> u64 {
        self.message_count
    }

    /// The reader over what `reader` read of the same file.
    pub fn from_reader(reader: &McapReader) -> (r: Self)
        ensures
            r.path_spec() == reader.path_spec(),
            r.channel_map() == reader.channel_map().map_values(|v: ChannelView| project(v)),
            r.start() == reader.start(),
            r.end() == reader.end(),
            r.count() == reader.count(),
    {
        let all = reader.channels();
        let refs = sorted_refs(all);
        let ghost l = refs@.map_values(|p: (u16, &crate::format::mcap::reader::ChannelInfo)| (p.0, *p.1));
        let mut channels: BTreeMap<u16, ChannelInfo> = BTreeMap::new();
        let mut i: usize = 0;
        while i < refs.len()
            invariant
                0 <= i <= refs@.len(),
                l == refs@.map_values(|p: (u16, &crate::format::mcap::reader::ChannelInfo)| (p.0, *p.1)),
                sorted_listing(all@, l),
                forall|id: u16| #[trigger] channels@.contains_key(id) <==> exists|k: int| 0 <= k < i && l[k].0 == id,
                forall|k: int| 0 <= k < i ==> #[trigger] seq_channel_view(channels@[l[k].0]) == project(channel_view(l[k].1)),
            decreases refs.len() - i,
        {
            let id = refs[i].0;
            let c = project_channel(refs[i].1);
            proof {
                assert(l[i as int] == (id, *refs@[i as int].1));
            }
            channels.insert(id, c);
            proof {
                assert forall|k: int| 0 <= k < i + 1 implies #[trigger] seq_channel_view(channels@[l[k].0])
                    == project(channel_view(l[k].1)) by {
                    if k < i {
                        assert(l[k].0 != id) by {
                            assert(l[k].0 < l[i as int].0);
                        }
                    }
                }
                assert forall|x: u16| #[trigger] channels@.contains_key(x) <==> exists|k: int| 0 <= k < i + 1 && l[k].0 == x by {
                    if x == id {
                        assert(l[i as int].0 == x);
                    }
                }
            }
            i = i + 1;
        }
        proof {
            assert(channels@.map_values(|c: ChannelInfo| seq_channel_view(c)) =~= all@.map_values(
                |c: crate::format::mcap::reader::ChannelInfo| channel_view(c),
            ).map_values(|v: ChannelView| project(v))) by {
                assert forall|id: u16| channels@.contains_key(id) implies all@.contains_key(id) by {
                    let k = choose|k: int| 0 <= k < l.len() && l[k].0 == id;
                }
                assert forall|id: u16| all@.contains_key(id) implies channels@.contains_key(id) && seq_channel_view(channels@[id]) == project(channel_view(all@[id])) by {
                    let k = choose|k: int| 0 <= k < l.len() && l[k].0 == id;
                    assert(all@[l[k].0] == l[k].1);
                }
            }
        }
        SequentialMcapReader {
            path: owned(reader.path()),
            channels,
            message_count: reader.message_count(),
            start_time: reader.start_time(),
            end_time: reader.end_time(),
        }
    }

    /// A reader for the MCAP file at `path` whose bytes are `bytes`: the
    /// channels, time range and message count that its summary section
    /// records. A file without a readable summary section has no channels,
    /// no time range and a message count of 0.
    pub fn from_bytes(path: &str, bytes: &[u8]) -> (r: Self)
        ensures
            r.path_spec() == path@,
            match mcap_summary(bytes@) {
                Ok(Some(v)) => {
                    &&& r.channel_map() == summary_channel_map(v).map_values(|c: ChannelView| project(c))
                    &&& r.start() == match v.0 {
                        Some(t) => Some(t.0),
                        None => None,
                    }
                    &&& r.end() == match v.0 {
                        Some(t) => Some(t.1),
                        None => None,
                    }
                    &&& r.count() == match v.0 {
                        Some(t) => t.2,
                        None => 0,
                    }
                },
                _ => {
                    &&& r.channel_map() == Map::<u16, SeqChannelView>::empty()
                    &&& r.start() is None
                    &&& r.end() is None
                    &&& r.count() == 0
                },
            },
    {
        let reader = McapReader::from_bytes(path, bytes);
        let r = Self::from_reader(&reader);
        proof {
            assert(Map::<u16, ChannelView>::empty().map_values(|c: ChannelView| project(c)) =~= Map::<
                u16,
                SeqChannelView,
            >::empty());
        }
        r
    }

    /// What the raw message iterator hands out for the stream items
    /// `items`: each message of a known channel with its channel, and each
    /// read error, in order.
    pub fn raw_messages_from(&self, items: &Vec<Result<StreamedMessage, String>>) -> (r: Vec<
        Result<(RawMessage, ChannelInfo), CodecError>,
    >)
        ensures
            r@.map_values(|p: Result<(RawMessage, ChannelInfo), CodecError>| seq_raw_item_view(p))
                == known_items(self.channel_map(), item_views(items@)).map_values(
                |q: Result<(StreamedView, SeqChannelView), Seq<char>>| seq_raw_item_of(q),
            ),
    {
        let ghost vs = item_views(items@);
        let ghost pv = |p: Result<(RawMessage, ChannelInfo), CodecError>| seq_raw_item_view(p);
        let ghost qv = |q: Result<(StreamedView, SeqChannelView), Seq<char>>| seq_raw_item_of(q);
        let mut out: Vec<Result<(RawMessage, ChannelInfo), CodecError>> = Vec::new();
        let mut i: usize = 0;
        while i < items.len()
            invariant
                0 <= i <= items@.len(),
                vs == item_views(items@),
                pv == (|p: Result<(RawMessage, ChannelInfo), CodecError>| seq_raw_item_view(p)),
                qv == (|q: Result<(StreamedView, SeqChannelView), Seq<char>>| seq_raw_item_of(q)),
                out@.map_values(pv) == known_items(self.channel_map(), vs.take(i as int)).map_values(qv),
            decreases items.len() - i,
        {
            proof {
                assert(vs.take(i + 1).drop_last() =~= vs.take(i as int));
                assert(vs.take(i + 1).last() == item_view(items@[i as int]));
            }
            let ghost before = out@;
            match &items[i] {
                Ok(m) => {
                    match self.channels.get(&m.channel_id) {
                        Some(c) => {
                            let raw = RawMessage {
                                channel_id: m.channel_id,
                                log_time: m.log_time,
                                publish_time: m.publish_time,
                                data: copy_bytes(&m.data),
                                sequence: m.sequence,
                            };
                            let ci = copy_channel(c);
                            let item = Ok((raw, ci));
                            out.push(item);
                            proof {
                                assert(out@.map_values(pv) =~= before.map_values(pv).push(pv(item)));
                                assert(known_items(self.channel_map(), vs.take(i + 1)).map_values(qv)
                                    =~= known_items(self.channel_map(), vs.take(i as int)).map_values(
                                    qv,
                                ).push(qv(Ok((streamed_view(*m), self.channel_map()[m.channel_id])))));
                            }
                        },
                        None => {},
                    }
                },
                Err(e) => {
                    let item = Err(
                        CodecError::Encode {
                            context: owned("SequentialMcapReader"),
                            message: concat("Read error: ", e.as_str()),
                        },
                    );
                    out.push(item);
                    proof {
                        assert(out@.map_values(pv) =~= before.map_values(pv).push(pv(item)));
                        assert(known_items(self.channel_map(), vs.take(i + 1)).map_values(qv)
                            =~= known_items(self.channel_map(), vs.take(i as int)).map_values(qv).push(
                            qv(Err(e@)),
                        ));
                    }
                },
            }
            i = i + 1;
        }
        proof {
            assert(vs.take(items@.len() as int) =~= vs);
        }
        out
    }

    /// What iterating the raw messages of the MCAP file whose bytes are
    /// `bytes` hands out: each message of a known channel with its channel,
    /// and each read error, in file order; or the error that kept the
    /// stream from starting.
    pub fn iter_raw(&self, bytes: &[u8]) -> (r: Result<Vec<Result<(RawMessage, ChannelInfo), CodecError>>, CodecError>)
        ensures
            match (r, mcap_message_stream(bytes@)) {
                (Ok(out), Ok(vs)) => out@.map_values(
                    |p: Result<(RawMessage, ChannelInfo), CodecError>| seq_raw_item_view(p),
                ) == known_items(self.channel_map(), vs).map_values(
                    |q: Result<(StreamedView, SeqChannelView), Seq<char>>| seq_raw_item_of(q),
                ),
                (Err(x), Err(m)) => is_encode_error(x, "SequentialMcapReader"@, "Failed to create stream: "@ + m),
                _ => false,
            },
    {
        match read_message_stream(bytes) {
            Ok(items) => Ok(self.raw_messages_from(&items)),
            Err(e) => Err(
                CodecError::Encode {
                    context: owned("SequentialMcapReader"),
                    message: concat("Failed to create stream: ", e.as_str()),
                },
            ),
        }
    }

    /// Get all channel information, by channel ID.
    pub fn channels(&self) -> (r: &BTreeMap<u16, ChannelInfo>)
        ensures
            r@.map_values(|c: ChannelInfo| seq_channel_view(c)) == self.channel_map(),
    {
        &self.channels
    }

    /// Get total message count.
    pub fn message_count(&self) -> (r: u64)
        ensures
            r == self.count(),
    {
        self.message_count
    }

    /// Get start timestamp in nanoseconds.
    pub fn start_time(&self) -> (r: Option<u64>)
        ensures
            r == self.start(),
    {
        self.start_time
    }

    /// Get end timestamp in nanoseconds.
    pub fn end_time(&self) -> (r: Option<u64>)
        ensures
            r == self.end(),
    {
        self.end_time
    }

    /// Get the file path.
    pub fn path(&self) -> (r: &str)
        ensures
            r@ == self.path_spec(),
    {
        self.path.as_str()
    }
}

} // verus!
