//! Audio writer of KPS episodes: WAV files under `<output>/audio`.

use vstd::prelude::*;
use crate::bytes::{le, put_bytes, put_le};
use crate::text::{join, join_path, owned};

verus! {

/// Writes the audio tracks of an episode.
#[derive(Debug, Clone)]
pub struct AudioWriter {
    output_dir: String,
    episode_id: String,
}

impl AudioWriter {
    pub closed spec fn output_dir_spec(&self) -> Seq<char> {
        self.output_dir@
    }

    pub closed spec fn episode_id_spec(&self) -> Seq<char> {
        self.episode_id@
    }

    /// A writer for episode `episode_id` under `output_dir`.
    pub fn new(output_dir: &str, episode_id: &str) -> (r: Self)
        ensures
            r.output_dir_spec() == output_dir@,
            r.episode_id_spec() == episode_id@,
    {
        AudioWriter { output_dir: owned(output_dir), episode_id: owned(episode_id) }
    }

    /// The output directory.
    pub fn output_dir(&self) -> (r: &str)
        ensures
            r@ == self.output_dir_spec(),
    {
        self.output_dir.as_str()
    }

    /// The episode ID.
    pub fn episode_id(&self) -> (r: &str)
        ensures
            r@ == self.episode_id_spec(),
    {
        self.episode_id.as_str()
    }

    /// The directory the audio files go to: `audio` under the output
    /// directory.
    pub fn audio_dir(&self) -> (r: String)
        ensures
            r@ == join_path(self.output_dir_spec(), "audio"@),
    {
        join(self.output_dir.as_str(), "audio")
    }
}

/// Factory of audio writers.
pub struct AudioWriterFactory;

impl AudioWriterFactory {
    /// An audio writer for episode `episode_id` under `output_dir`.
    pub fn create(output_dir: &str, episode_id: &str) -> (r: AudioWriter)
        ensures
            r.output_dir_spec() == output_dir@,
            r.episode_id_spec() == episode_id@,
    {
        AudioWriter::new(output_dir, episode_id)
    }
}

/// The number of frames (samples per channel) in `sample_count`
/// interleaved samples of `channels` channels; 0 without channels.
pub fn audio_frames(sample_count: usize, channels: u8) -> (r: usize)
    ensures
        channels > 0 ==> r as nat == (sample_count as nat) / (channels as nat),
        channels == 0 ==> r == 0,
{
    if channels > 0 {
        sample_count / (channels as usize)
    } else {
        0
    }
}

/// The WAV header written before `sample_count` 16-bit samples: the RIFF
/// size, the format chunk (PCM, the channel count as one byte, the
/// sample rate, the byte rate and block alignment as 32-bit words, 16 bits
/// per sample) and the size of the data chunk.
pub open spec fn wav_header_bytes(sample_count: nat, sample_rate: u32, channels: u8) -> Seq<u8> {
    let data_size: nat = sample_count * 2;
    let byte_rate: nat = (sample_rate * channels * 2) as nat;
    let block_align: nat = (channels * 2) as nat;
    seq![0x52u8, 0x49, 0x46, 0x46] + le(36 + data_size, 4) + seq![0x57u8, 0x41, 0x56, 0x45]
        + seq![0x66u8, 0x6d, 0x74, 0x20] + le(16, 4) + le(1, 2) + seq![channels]
        + le(sample_rate as nat, 4) + le(byte_rate, 4) + le(block_align, 4)
        + le(16, 2) + seq![0x64u8, 0x61, 0x74, 0x61] + le(data_size, 4)
}

/// The WAV header for `sample_count` samples at `sample_rate` Hz over
/// `channels` channels. The sizes are 32-bit, as the header stores them.
pub fn wav_header(sample_count: usize, sample_rate: u32, channels: u8) -> (r: Vec<u8>)
    requires
        36 + sample_count * 2 <= u32::MAX,
        sample_rate * channels * 2 <= u32::MAX,
    ensures
        r@ == wav_header_bytes(sample_count as nat, sample_rate, channels),
{
    let data_size: u64 = (sample_count as u64) * 2;
    let byte_rate: u64 = (sample_rate as u64) * (channels as u64) * 2;
    let block_align: u64 = (channels as u64) * 2;
    let mut out: Vec<u8> = Vec::new();
    put_bytes(&mut out, &[0x52u8, 0x49, 0x46, 0x46]);
    put_le(&mut out, 36 + data_size, 4);
    put_bytes(&mut out, &[0x57u8, 0x41, 0x56, 0x45]);
    put_bytes(&mut out, &[0x66u8, 0x6d, 0x74, 0x20]);
    put_le(&mut out, 16, 4);
    put_le(&mut out, 1, 2);
    out.push(channels);
    put_le(&mut out, sample_rate as u64, 4);
    put_le(&mut out, byte_rate, 4);
    put_le(&mut out, block_align, 4);
    put_le(&mut out, 16, 2);
    put_bytes(&mut out, &[0x64u8, 0x61, 0x74, 0x61]);
    put_le(&mut out, data_size, 4);
    assert(out@ =~= wav_header_bytes(sample_count as nat, sample_rate, channels));
    out
}

} // verus!
