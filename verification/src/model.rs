//! The data an export works on.
//!
//! Times are whole microseconds, speeds and frame rates are whole
//! millionths, so that every rule of the engine is exact integer
//! arithmetic. A clip's `duration` is its length on the timeline, after its
//! speed has been applied.

use vstd::prelude::*;
use vstd::string::*;
use crate::text::is_text;

verus! {

/// Microseconds in a second; also the speed that plays a clip unchanged and
/// the scale of frame rates.
pub const MILLION: i64 = 1_000_000;

/// The fastest speed a clip may have: one hundred times.
pub const MAX_SPEED: i64 = 100_000_000;

/// The frame rate used when the configuration names none: 30 per second.
pub const DEFAULT_FPS: u64 = 30_000_000;

/// One piece of source media placed on the timeline.
pub struct Clip {
    pub id: String,
    pub file_path: String,
    /// Where the clip starts on the timeline, in microseconds.
    pub start_time: i64,
    /// How much of the source is skipped at its start, in microseconds.
    pub trim_start: i64,
    /// How much of the source is cut at its end, in microseconds.
    pub trim_end: i64,
    /// How long the clip lasts on the timeline, in microseconds.
    pub duration: i64,
    /// Playback speed in millionths: 1 000 000 is unchanged.
    pub speed: i64,
    pub track_index: Option<u32>,
}

/// What a [`Clip`] stands for.
pub struct ClipView {
    pub id: Seq<char>,
    pub file_path: Seq<char>,
    pub start_time: int,
    pub trim_start: int,
    pub trim_end: int,
    pub duration: int,
    pub speed: int,
    pub track_index: Option<u32>,
}

impl View for Clip {
    type V = ClipView;

    open spec fn view(&self) -> ClipView {
        ClipView {
            id: self.id@,
            file_path: self.file_path@,
            start_time: self.start_time as int,
            trim_start: self.trim_start as int,
            trim_end: self.trim_end as int,
            duration: self.duration as int,
            speed: self.speed as int,
            track_index: self.track_index,
        }
    }
}

impl ClipView {
    /// The track the clip lies on; a clip without one lies on track 0.
    pub open spec fn track(self) -> int {
        match self.track_index {
            Some(t) => t as int,
            None => 0,
        }
    }

    /// Where the clip ends on the timeline, in microseconds.
    pub open spec fn end(self) -> int {
        self.start_time + self.duration
    }

    /// How much source material the clip plays, in picoseconds: its
    /// timeline duration times its speed.
    pub open spec fn source_duration(self) -> int {
        self.duration * self.speed
    }
}

/// The views of a list of clips.
pub open spec fn clip_views(v: Seq<Clip>) -> Seq<ClipView> {
    Seq::new(v.len(), |i: int| v[i]@)
}

impl Clip {
    /// A copy of this clip.
    pub fn duplicate(&self) -> (r: Clip)
        ensures
            r@ == self@,
    {
        Clip {
            id: self.id.clone(),
            file_path: self.file_path.clone(),
            start_time: self.start_time,
            trim_start: self.trim_start,
            trim_end: self.trim_end,
            duration: self.duration,
            speed: self.speed,
            track_index: self.track_index,
        }
    }

    /// The track the clip lies on.
    pub fn track(&self) -> (t: u32)
        ensures
            t == self@.track(),
    {
        match self.track_index {
            Some(t) => t,
            None => 0,
        }
    }

    /// Where the clip ends on the timeline, in microseconds.
    pub fn end(&self) -> (e: i128)
        ensures
            e == self@.end(),
    {
        self.start_time as i128 + self.duration as i128
    }

    /// How much source material the clip plays, in picoseconds.
    pub fn source_duration(&self) -> (d: i128)
        ensures
            d == self@.source_duration(),
    {
        let a = self.duration;
        let b = self.speed;
        assert(-0x4000_0000_0000_0000_0000_0000_0000_0000 <= a * b
            <= 0x4000_0000_0000_0000_0000_0000_0000_0000) by (nonlinear_arith)
            requires
                -0x8000_0000_0000_0000 <= a < 0x8000_0000_0000_0000,
                -0x8000_0000_0000_0000 <= b < 0x8000_0000_0000_0000,
        ;
        (a as i128) * (b as i128)
    }
}

/// The picture sizes an export can ask for.
#[derive(Clone, Copy, Debug, PartialEq, Eq, Structural)]
pub enum Resolution {
    /// The largest picture among the clips.
    Source,
    Hd720,
    Hd1080,
    Qhd1440,
    Uhd4k,
    /// Any other name; rendered as 1080p.
    Other,
}

/// The encoder families.
#[derive(Clone, Copy, Debug, PartialEq, Eq, Structural)]
pub enum Codec {
    H264,
    H265,
}

/// The quality levels, from coarse to fine.
#[derive(Clone, Copy, Debug, PartialEq, Eq, Structural)]
pub enum Quality {
    Low,
    Medium,
    High,
}

/// The resolution that a name stands for.
pub open spec fn resolution_named(name: Seq<char>) -> Resolution {
    if name == "source"@ {
        Resolution::Source
    } else if name == "720p"@ {
        Resolution::Hd720
    } else if name == "1080p"@ {
        Resolution::Hd1080
    } else if name == "1440p"@ {
        Resolution::Qhd1440
    } else if name == "4K"@ {
        Resolution::Uhd4k
    } else {
        Resolution::Other
    }
}

/// The codec that a name stands for: `h265` is itself, everything else is
/// H.264.
pub open spec fn codec_named(name: Seq<char>) -> Codec {
    if name == "h265"@ {
        Codec::H265
    } else {
        Codec::H264
    }
}

/// The quality that a name stands for; an unknown name is medium.
pub open spec fn quality_named(name: Seq<char>) -> Quality {
    if name == "low"@ {
        Quality::Low
    } else if name == "high"@ {
        Quality::High
    } else {
        Quality::Medium
    }
}

impl Resolution {
    /// Width and height in pixels of a fixed resolution; `Source` has none.
    pub open spec fn spec_dimensions(self) -> Option<(u32, u32)> {
        match self {
            Resolution::Source => None,
            Resolution::Hd720 => Some((1280u32, 720u32)),
            Resolution::Hd1080 => Some((1920u32, 1080u32)),
            Resolution::Qhd1440 => Some((2560u32, 1440u32)),
            Resolution::Uhd4k => Some((3840u32, 2160u32)),
            Resolution::Other => Some((1920u32, 1080u32)),
        }
    }

    /// Width and height in pixels of a fixed resolution; `Source` has none.
    #[verifier::when_used_as_spec(spec_dimensions)]
    pub fn dimensions(self) -> (d: Option<(u32, u32)>)
        ensures
            d == self.spec_dimensions(),
    {
        match self {
            Resolution::Source => None,
            Resolution::Hd720 => Some((1280, 720)),
            Resolution::Hd1080 => Some((1920, 1080)),
            Resolution::Qhd1440 => Some((2560, 1440)),
            Resolution::Uhd4k => Some((3840, 2160)),
            Resolution::Other => Some((1920, 1080)),
        }
    }

    /// The resolution that `name` stands for.
    pub fn from_name(name: &String) -> (r: Resolution)
        ensures
            r == resolution_named(name@),
    {
        if is_text(name, "source") {
            Resolution::Source
        } else if is_text(name, "720p") {
            Resolution::Hd720
        } else if is_text(name, "1080p") {
            Resolution::Hd1080
        } else if is_text(name, "1440p") {
            Resolution::Qhd1440
        } else if is_text(name, "4K") {
            Resolution::Uhd4k
        } else {
            Resolution::Other
        }
    }
}

impl Codec {
    /// The encoder's name for the transcoding program.
    pub open spec fn spec_encoder(self) -> Seq<char> {
        match self {
            Codec::H264 => "libx264"@,
            Codec::H265 => "libx265"@,
        }
    }

    /// The encoder's name for the transcoding program.
    pub fn encoder(self) -> (name: &'static str)
        ensures
            name@ == self.spec_encoder(),
    {
        match self {
            Codec::H264 => "libx264",
            Codec::H265 => "libx265",
        }
    }

    /// The codec that `name` stands for.
    pub fn from_name(name: &String) -> (c: Codec)
        ensures
            c == codec_named(name@),
    {
        if is_text(name, "h265") {
            Codec::H265
        } else {
            Codec::H264
        }
    }
}

impl Quality {
    /// The constant rate factor of the level: the finer, the lower.
    pub open spec fn spec_crf(self) -> u8 {
        match self {
            Quality::Low => 28,
            Quality::Medium => 23,
            Quality::High => 18,
        }
    }

    /// The constant rate factor of the level: the finer, the lower.
    #[verifier::when_used_as_spec(spec_crf)]
    pub fn crf(self) -> (f: u8)
        ensures
            f == self.spec_crf(),
    {
        match self {
            Quality::Low => 28,
            Quality::Medium => 23,
            Quality::High => 18,
        }
    }

    /// The quality that `name` stands for.
    pub fn from_name(name: &String) -> (q: Quality)
        ensures
            q == quality_named(name@),
    {
        if is_text(name, "low") {
            Quality::Low
        } else if is_text(name, "high") {
            Quality::High
        } else {
            Quality::Medium
        }
    }
}

/// What the user asked of an export.
pub struct ExportConfig {
    pub output_path: String,
    pub resolution: String,
    pub format: String,
    pub codec: String,
    pub quality: String,
    /// Frames per second in millionths, if the user chose a rate.
    pub fps: Option<u64>,
    pub include_audio: bool,
}

impl ExportConfig {
    /// The frame rate of the output, in millionths of a frame per second.
    pub open spec fn spec_target_fps(&self) -> u64 {
        match self.fps {
            Some(f) => f,
            None => DEFAULT_FPS,
        }
    }

    /// The frame rate of the output, in millionths of a frame per second.
    #[verifier::when_used_as_spec(spec_target_fps)]
    pub fn target_fps(&self) -> (f: u64)
        ensures
            f == self.spec_target_fps(),
    {
        match self.fps {
            Some(f) => f,
            None => DEFAULT_FPS,
        }
    }
}

/// What the probe reports about a media file.
pub struct VideoInfo {
    /// Length in microseconds.
    pub duration: i64,
    pub width: u32,
    pub height: u32,
    /// Frames per second in millionths.
    pub fps: u64,
    pub codec: String,
    pub bitrate: u64,
    pub audio_codec: Option<String>,
    pub file_size: u64,
}

/// The picture size and frame rate every segment of an export is brought to.
#[derive(Clone, Copy, Debug, PartialEq, Eq, Structural)]
pub struct Target {
    pub width: u32,
    pub height: u32,
    /// Frames per second in millionths.
    pub fps: u64,
}

} // verus!
