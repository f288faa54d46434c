//! Video encoding profiles: ffmpeg speed presets, quality tiers and
//! ready-made profiles that trade encoding speed against quality and size.

use vstd::prelude::*;
use vstd::string::StringExecFns;
use crate::text::{decimal, owned, push_decimal};

verus! {

/// Encoder speed preset (ffmpeg `-preset`).
#[derive(Debug, Clone, Copy, PartialEq, Eq, Structural)]
pub enum SpeedPreset {
    /// Best compression, slowest ("veryslow")
    Ultra,
    /// "slower"
    Slow,
    /// "medium"
    Medium,
    /// "fast"
    Fast,
    /// "faster"
    Faster,
    /// "superfast"
    Superfast,
    /// Fastest ("veryfast")
    Veryfast,
}

/// The ffmpeg name of a preset.
pub open spec fn preset_name(p: SpeedPreset) -> Seq<char> {
    match p {
        SpeedPreset::Ultra => "veryslow"@,
        SpeedPreset::Slow => "slower"@,
        SpeedPreset::Medium => "medium"@,
        SpeedPreset::Fast => "fast"@,
        SpeedPreset::Faster => "faster"@,
        SpeedPreset::Superfast => "superfast"@,
        SpeedPreset::Veryfast => "veryfast"@,
    }
}

/// The CRF recommended with a preset.
pub open spec fn preset_crf(p: SpeedPreset) -> u32 {
    match p {
        SpeedPreset::Ultra => 18,
        SpeedPreset::Slow => 19,
        SpeedPreset::Medium => 20,
        SpeedPreset::Fast => 22,
        SpeedPreset::Faster => 24,
        SpeedPreset::Superfast => 26,
        SpeedPreset::Veryfast => 28,
    }
}

impl SpeedPreset {
    /// The ffmpeg name of this preset.
    pub fn as_ffmpeg_preset(self) -> (r: &'static str)
        ensures
            r@ == preset_name(self),
    {
        match self {
            SpeedPreset::Ultra => "veryslow",
            SpeedPreset::Slow => "slower",
            SpeedPreset::Medium => "medium",
            SpeedPreset::Fast => "fast",
            SpeedPreset::Faster => "faster",
            SpeedPreset::Superfast => "superfast",
            SpeedPreset::Veryfast => "veryfast",
        }
    }

    /// The constant rate factor recommended with this preset.
    pub fn recommended_crf(self) -> (r: u32)
        ensures
            r == preset_crf(self),
    {
        match self {
            SpeedPreset::Ultra => 18,
            SpeedPreset::Slow => 19,
            SpeedPreset::Medium => 20,
            SpeedPreset::Fast => 22,
            SpeedPreset::Faster => 24,
            SpeedPreset::Superfast => 26,
            SpeedPreset::Veryfast => 28,
        }
    }
}

/// Target quality tier.
#[derive(Debug, Clone, Copy, PartialEq, Eq, Structural)]
pub enum QualityTier {
    /// Archival quality
    High,
    /// Balanced
    Medium,
    /// Small files
    Low,
    /// Quick previews
    Prototype,
}

impl QualityTier {
    /// The preset recommended for this tier.
    pub fn recommended_preset(self) -> (r: SpeedPreset)
        ensures
            r == match self {
                QualityTier::High => SpeedPreset::Fast,
                QualityTier::Medium => SpeedPreset::Faster,
                QualityTier::Low => SpeedPreset::Superfast,
                QualityTier::Prototype => SpeedPreset::Veryfast,
            },
    {
        match self {
            QualityTier::High => SpeedPreset::Fast,
            QualityTier::Medium => SpeedPreset::Faster,
            QualityTier::Low => SpeedPreset::Superfast,
            QualityTier::Prototype => SpeedPreset::Veryfast,
        }
    }

    /// The constant rate factor recommended for this tier.
    pub fn recommended_crf(self) -> (r: u32)
        ensures
            r == match self {
                QualityTier::High => 18u32,
                QualityTier::Medium => 23u32,
                QualityTier::Low => 28u32,
                QualityTier::Prototype => 32u32,
            },
    {
        match self {
            QualityTier::High => 18,
            QualityTier::Medium => 23,
            QualityTier::Low => 28,
            QualityTier::Prototype => 32,
        }
    }
}

/// A video encoding profile.
#[derive(Debug, Clone, Copy)]
pub struct VideoEncodingProfile {
    /// Encoder preset
    pub preset: SpeedPreset,
    /// Constant rate factor
    pub crf: u32,
    /// Use hardware acceleration where available
    pub hardware_accel: bool,
    /// Number of videos encoded in parallel (at least 1)
    pub parallel_jobs: usize,
}

impl VideoEncodingProfile {
    /// A profile with the given preset and CRF, software encoding, one job.
    pub fn new(preset: SpeedPreset, crf: u32) -> (r: Self)
        ensures
            r == (VideoEncodingProfile { preset, crf, hardware_accel: false, parallel_jobs: 1 }),
    {
        VideoEncodingProfile { preset, crf, hardware_accel: false, parallel_jobs: 1 }
    }

    /// Fastest encoding: the superfast preset at its recommended CRF.
    pub fn speed() -> (r: Self)
        ensures
            r == (VideoEncodingProfile {
                preset: SpeedPreset::Superfast,
                crf: preset_crf(SpeedPreset::Superfast),
                hardware_accel: false,
                parallel_jobs: 1,
            }),
    {
        VideoEncodingProfile {
            preset: SpeedPreset::Superfast,
            crf: SpeedPreset::Superfast.recommended_crf(),
            hardware_accel: false,
            parallel_jobs: 1,
        }
    }

    /// Best quality: the fast preset at CRF 18.
    pub fn quality() -> (r: Self)
        ensures
            r == (VideoEncodingProfile {
                preset: SpeedPreset::Fast,
                crf: 18,
                hardware_accel: false,
                parallel_jobs: 1,
            }),
    {
        VideoEncodingProfile { preset: SpeedPreset::Fast, crf: 18, hardware_accel: false, parallel_jobs: 1 }
    }

    /// Smallest files: the medium preset at CRF 23.
    pub fn storage() -> (r: Self)
        ensures
            r == (VideoEncodingProfile {
                preset: SpeedPreset::Medium,
                crf: 23,
                hardware_accel: false,
                parallel_jobs: 1,
            }),
    {
        VideoEncodingProfile { preset: SpeedPreset::Medium, crf: 23, hardware_accel: false, parallel_jobs: 1 }
    }

    /// Quick previews: the veryfast preset at CRF 32.
    pub fn prototype() -> (r: Self)
        ensures
            r == (VideoEncodingProfile {
                preset: SpeedPreset::Veryfast,
                crf: 32,
                hardware_accel: false,
                parallel_jobs: 1,
            }),
    {
        VideoEncodingProfile { preset: SpeedPreset::Veryfast, crf: 32, hardware_accel: false, parallel_jobs: 1 }
    }

    /// Enable hardware acceleration.
    pub fn with_hardware_accel(self) -> (r: Self)
        ensures
            r == (VideoEncodingProfile { hardware_accel: true, ..self }),
    {
        VideoEncodingProfile { hardware_accel: true, ..self }
    }

    /// Set the number of parallel jobs (at least 1).
    pub fn with_parallel_jobs(self, jobs: usize) -> (r: Self)
        ensures
            r == (VideoEncodingProfile { parallel_jobs: if jobs >= 1 { jobs } else { 1 }, ..self }),
    {
        let j = if jobs >= 1 {
            jobs
        } else {
            1
        };
        VideoEncodingProfile { parallel_jobs: j, ..self }
    }

    /// The `[video]` TOML table of this profile.
    pub open spec fn toml_table(&self) -> Seq<char> {
        "[video]\npreset = \""@ + preset_name(self.preset) + "\"\ncrf = "@ + decimal(
            self.crf as nat,
        ) + "\n"@
    }

    /// Render the profile as a `[video]` TOML table with its preset and CRF.
    pub fn to_toml_table(&self) -> (r: String)
        ensures
            r@ == self.toml_table(),
    {
        let mut out = owned("[video]\npreset = \"");
        out.append(self.preset.as_ffmpeg_preset());
        out.append("\"\ncrf = ");
        push_decimal(&mut out, self.crf as u64);
        out.append("\n");
        assert(out@ =~= self.toml_table());
        out
    }
}

} // verus!
