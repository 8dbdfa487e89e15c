//! Checking clips before any work starts.
//!
//! The host looks at each clip's source file and probes it; this module
//! decides from what the host found whether the clip can be exported.

use vstd::prelude::*;
use vstd::string::*;
use crate::model::{Clip, ClipView, VideoInfo, MAX_SPEED, clip_views};
use crate::text::{decimal, magnitude, magnitude_of, push_decimal, push_trimmed, trimmed_text};

verus! {

/// What the host found out about a clip's source file.
pub enum SourceProbe {
    /// Nothing exists at the path.
    Missing,
    /// Something exists at the path, but not a regular file.
    NotAFile,
    /// The file's metadata cannot be read, for the reason the host gives.
    Unreadable(String),
    /// The probe could not make sense of the file, for the reason the host
    /// gives.
    ProbeFailed(String),
    /// The probe's findings.
    Probed(VideoInfo),
}

/// What is wrong with a source file.
#[derive(Clone, Copy, Debug, PartialEq, Eq, Structural)]
pub enum FileProblem {
    Missing,
    NotAFile,
    Unreadable,
}

/// What is wrong with a clip's trim values.
#[derive(Clone, Copy, Debug, PartialEq, Eq, Structural)]
pub enum TrimProblem {
    NegativeStart,
    NegativeEnd,
    /// Nothing of the source is left between the trims.
    NothingLeft,
}

/// What is wrong with a clip's speed.
#[derive(Clone, Copy, Debug, PartialEq, Eq, Structural)]
pub enum SpeedProblem {
    NotPositive,
    TooHigh,
}

/// Why a clip cannot be exported.
#[derive(Clone, Copy, Debug, PartialEq, Eq, Structural)]
pub enum ValidationError {
    FileNotFound(FileProblem),
    ProbeFailure,
    InvalidTrim(TrimProblem),
    InvalidSpeed(SpeedProblem),
}

/// Why a timeline cannot be exported.
pub enum TimelineError {
    /// There are no clips.
    EmptyTimeline,
    /// A clip is not fit for export.
    InvalidClip {
        /// The clip's place in the list, counted from one.
        number: usize,
        /// The clip's id.
        id: String,
        error: ValidationError,
        /// What is wrong, in words.
        reason: String,
    },
}

/// The facts about a clip's source, found once before the export.
pub struct ClipValidation {
    pub exists: bool,
    pub is_readable: bool,
    pub has_video: bool,
    pub has_audio: bool,
    pub codec: String,
    pub resolution: (u32, u32),
    /// Frames per second in millionths.
    pub fps: u64,
    /// Length of the source in microseconds.
    pub actual_duration: i64,
}

/// How much of a source of `probed_duration` microseconds is left between
/// the trims of `clip`.
pub open spec fn available_duration(clip: ClipView, probed_duration: int) -> int {
    probed_duration - clip.trim_start - clip.trim_end
}

/// What is wrong with the numbers of `clip`, given the length of its source:
/// the first of negative trim at the start, negative trim at the end,
/// nothing left between the trims, speed not positive, speed too high.
pub open spec fn value_fault(clip: ClipView, probed_duration: int) -> Option<ValidationError> {
    if clip.trim_start < 0 {
        Some(ValidationError::InvalidTrim(TrimProblem::NegativeStart))
    } else if clip.trim_end < 0 {
        Some(ValidationError::InvalidTrim(TrimProblem::NegativeEnd))
    } else if available_duration(clip, probed_duration) <= 0 {
        Some(ValidationError::InvalidTrim(TrimProblem::NothingLeft))
    } else if clip.speed <= 0 {
        Some(ValidationError::InvalidSpeed(SpeedProblem::NotPositive))
    } else if clip.speed > MAX_SPEED {
        Some(ValidationError::InvalidSpeed(SpeedProblem::TooHigh))
    } else {
        None
    }
}

/// Why `clip` cannot be exported, if it cannot: a problem with the file
/// comes before a failed probe, and both before a problem with the clip's
/// own numbers.
pub open spec fn clip_fault(clip: ClipView, probe: SourceProbe) -> Option<ValidationError> {
    match probe {
        SourceProbe::Missing => Some(ValidationError::FileNotFound(FileProblem::Missing)),
        SourceProbe::NotAFile => Some(ValidationError::FileNotFound(FileProblem::NotAFile)),
        SourceProbe::Unreadable(_) => Some(
            ValidationError::FileNotFound(FileProblem::Unreadable),
        ),
        SourceProbe::ProbeFailed(_) => Some(ValidationError::ProbeFailure),
        SourceProbe::Probed(info) => value_fault(clip, info.duration as int),
    }
}

/// Whether `v` records what the probe found in `info`.
pub open spec fn records(v: ClipValidation, info: VideoInfo) -> bool {
    &&& v.exists
    &&& v.is_readable
    &&& v.has_video
    &&& v.has_audio == info.audio_codec is Some
    &&& v.codec@ == info.codec@
    &&& v.resolution == (info.width, info.height)
    &&& v.fps == info.fps
    &&& v.actual_duration == info.duration
}

/// Checks one clip against what the host found about its source.
pub fn validate_clip(clip: &Clip, probe: &SourceProbe) -> (r: Result<
    ClipValidation,
    ValidationError,
>)
    ensures
        match r {
            Ok(v) => clip_fault(clip@, *probe) is None && probe is Probed && records(
                v,
                probe->Probed_0,
            ),
            Err(e) => clip_fault(clip@, *probe) == Some(e),
        },
{
    match probe {
        SourceProbe::Missing => Err(ValidationError::FileNotFound(FileProblem::Missing)),
        SourceProbe::NotAFile => Err(ValidationError::FileNotFound(FileProblem::NotAFile)),
        SourceProbe::Unreadable(_) => Err(ValidationError::FileNotFound(FileProblem::Unreadable)),
        SourceProbe::ProbeFailed(_) => Err(ValidationError::ProbeFailure),
        SourceProbe::Probed(info) => {
            if clip.trim_start < 0 {
                return Err(ValidationError::InvalidTrim(TrimProblem::NegativeStart));
            }
            if clip.trim_end < 0 {
                return Err(ValidationError::InvalidTrim(TrimProblem::NegativeEnd));
            }
            let available: i128 = info.duration as i128 - clip.trim_start as i128
                - clip.trim_end as i128;
            if available <= 0 {
                return Err(ValidationError::InvalidTrim(TrimProblem::NothingLeft));
            }
            if clip.speed <= 0 {
                return Err(ValidationError::InvalidSpeed(SpeedProblem::NotPositive));
            }
            if clip.speed > MAX_SPEED {
                return Err(ValidationError::InvalidSpeed(SpeedProblem::TooHigh));
            }
            Ok(
                ClipValidation {
                    exists: true,
                    is_readable: true,
                    has_video: true,
                    has_audio: info.audio_codec.is_some(),
                    codec: info.codec.clone(),
                    resolution: (info.width, info.height),
                    fps: info.fps,
                    actual_duration: info.duration,
                },
            )
        },
    }
}

/// A count of millionths in words: the shortest decimal text.
pub open spec fn amount_text(millionths: int) -> Seq<char> {
    trimmed_text(millionths < 0, magnitude_of(millionths), 6)
}

/// What is wrong with the numbers of `clip` in words, if anything is.
pub open spec fn value_fault_text(clip: ClipView, probed_duration: int) -> Option<Seq<char>> {
    match value_fault(clip, probed_duration) {
        Some(ValidationError::InvalidTrim(TrimProblem::NegativeStart)) => Some(
            "Clip "@ + clip.id + " has negative trim_start: "@ + amount_text(clip.trim_start),
        ),
        Some(ValidationError::InvalidTrim(TrimProblem::NegativeEnd)) => Some(
            "Clip "@ + clip.id + " has negative trim_end: "@ + amount_text(clip.trim_end),
        ),
        Some(ValidationError::InvalidTrim(TrimProblem::NothingLeft)) => Some(
            "Clip "@ + clip.id + " trim values (start: "@ + amount_text(clip.trim_start)
                + ", end: "@ + amount_text(clip.trim_end) + ") exceed video duration ("@
                + amount_text(probed_duration) + ")"@,
        ),
        Some(ValidationError::InvalidSpeed(SpeedProblem::NotPositive)) => Some(
            "Clip "@ + clip.id + " has invalid speed: "@ + amount_text(clip.speed),
        ),
        Some(ValidationError::InvalidSpeed(SpeedProblem::TooHigh)) => Some(
            "Clip "@ + clip.id + " speed too high (max 100x): "@ + amount_text(clip.speed),
        ),
        _ => None,
    }
}

/// Why `clip` cannot be exported in words, if it cannot.
pub open spec fn clip_fault_text(clip: ClipView, probe: SourceProbe) -> Option<Seq<char>> {
    match probe {
        SourceProbe::Missing => Some("Clip file not found: "@ + clip.file_path),
        SourceProbe::NotAFile => Some("Path is not a file: "@ + clip.file_path),
        SourceProbe::Unreadable(reason) => Some(
            "Cannot read file "@ + clip.file_path + ": "@ + reason@,
        ),
        SourceProbe::ProbeFailed(reason) => Some(
            "Failed to probe clip "@ + clip.file_path + ": "@ + reason@,
        ),
        SourceProbe::Probed(info) => value_fault_text(clip, info.duration as int),
    }
}

/// What the caller is told about a clip that is not fit for export.
pub open spec fn invalid_clip_text(number: nat, id: Seq<char>, reason: Seq<char>) -> Seq<char> {
    "Validation failed for clip "@ + decimal(number) + " ("@ + id + "): "@ + reason
}

fn push_amount(out: &mut String, millionths: i64)
    ensures
        final(out)@ == old(out)@ + amount_text(millionths as int),
{
    push_trimmed(out, millionths < 0, magnitude(millionths as i128), 6);
}

fn clip_sentence(clip: &Clip, middle: &str, millionths: i64) -> (s: String)
    ensures
        s@ == "Clip "@ + clip@.id + middle@ + amount_text(millionths as int),
{
    let mut s = String::from_str("Clip ");
    s.append(clip.id.as_str());
    s.append(middle);
    push_amount(&mut s, millionths);
    s
}

fn file_sentence(start: &str, clip: &Clip, reason: Option<&str>) -> (s: String)
    ensures
        s@ == match reason {
            Some(r) => start@ + clip@.file_path + ": "@ + r@,
            None => start@ + clip@.file_path,
        },
{
    let mut s = String::from_str(start);
    s.append(clip.file_path.as_str());
    match reason {
        Some(r) => {
            s.append(": ");
            s.append(r);
        },
        None => {},
    }
    s
}

/// Why `clip` cannot be exported, in words; nothing where it can.
pub fn describe_fault(clip: &Clip, probe: &SourceProbe) -> (r: Option<String>)
    ensures
        match r {
            Some(text) => clip_fault_text(clip@, *probe) == Some(text@),
            None => clip_fault_text(clip@, *probe) is None,
        },
        r is Some <==> clip_fault(clip@, *probe) is Some,
{
    match probe {
        SourceProbe::Missing => Some(file_sentence("Clip file not found: ", clip, None)),
        SourceProbe::NotAFile => Some(file_sentence("Path is not a file: ", clip, None)),
        SourceProbe::Unreadable(reason) => Some(
            file_sentence("Cannot read file ", clip, Some(reason.as_str())),
        ),
        SourceProbe::ProbeFailed(reason) => Some(
            file_sentence("Failed to probe clip ", clip, Some(reason.as_str())),
        ),
        SourceProbe::Probed(info) => {
            if clip.trim_start < 0 {
                return Some(clip_sentence(clip, " has negative trim_start: ", clip.trim_start));
            }
            if clip.trim_end < 0 {
                return Some(clip_sentence(clip, " has negative trim_end: ", clip.trim_end));
            }
            let available: i128 = info.duration as i128 - clip.trim_start as i128
                - clip.trim_end as i128;
            if available <= 0 {
                let mut s = clip_sentence(clip, " trim values (start: ", clip.trim_start);
                s.append(", end: ");
                push_amount(&mut s, clip.trim_end);
                s.append(") exceed video duration (");
                push_amount(&mut s, info.duration);
                s.append(")");
                return Some(s);
            }
            if clip.speed <= 0 {
                return Some(clip_sentence(clip, " has invalid speed: ", clip.speed));
            }
            if clip.speed > MAX_SPEED {
                return Some(clip_sentence(clip, " speed too high (max 100x): ", clip.speed));
            }
            None
        },
    }
}

impl TimelineError {
    /// What the caller is told.
    pub open spec fn text(self) -> Seq<char> {
        match self {
            TimelineError::EmptyTimeline => "No clips to export"@,
            TimelineError::InvalidClip { number, id, error, reason } => invalid_clip_text(
                number as nat,
                id@,
                reason@,
            ),
        }
    }

    /// What the caller is told.
    pub fn message(&self) -> (s: String)
        ensures
            s@ == self.text(),
    {
        match self {
            TimelineError::EmptyTimeline => String::from_str("No clips to export"),
            TimelineError::InvalidClip { number, id, error, reason } => {
                let mut s = String::from_str("Validation failed for clip ");
                push_decimal(&mut s, *number as u128);
                s.append(" (");
                s.append(id.as_str());
                s.append("): ");
                s.append(reason.as_str());
                s
            },
        }
    }
}

/// What is wrong with the clip at `i` in words, where the host reported
/// nothing about a clip beyond the end of `probes`.
pub open spec fn fault_text_at(clips: Seq<ClipView>, probes: Seq<SourceProbe>, i: int) -> Option<
    Seq<char>,
> {
    if i < probes.len() {
        clip_fault_text(clips[i], probes[i])
    } else {
        Some("Failed to probe clip "@ + clips[i].file_path + ": "@ + "not probed"@)
    }
}

/// What is wrong with the clip at `i`, where the host reported nothing
/// about a clip beyond the end of `probes`.
pub open spec fn fault_at(clips: Seq<ClipView>, probes: Seq<SourceProbe>, i: int) -> Option<
    ValidationError,
> {
    if i < probes.len() {
        clip_fault(clips[i], probes[i])
    } else {
        Some(ValidationError::ProbeFailure)
    }
}

/// Checks every clip of a timeline, stopping at the first that is not fit
/// for export. `probes` holds what the host found about each clip's source,
/// in the order of `clips`.
pub fn validate_all_clips(clips: &Vec<Clip>, probes: &Vec<SourceProbe>) -> (r: Result<
    Vec<ClipValidation>,
    TimelineError,
>)
    ensures
        match r {
            Ok(list) => {
                &&& clips.len() > 0
                &&& list.len() == clips.len()
                &&& probes.len() >= clips.len()
                &&& forall|i: int|
                    0 <= i < clips.len() ==> {
                        &&& (#[trigger] fault_at(clip_views(clips@), probes@, i)) is None
                        &&& probes[i] is Probed
                        &&& records(list[i], probes[i]->Probed_0)
                    }
            },
            Err(TimelineError::EmptyTimeline) => clips.len() == 0,
            Err(TimelineError::InvalidClip { number, id, error, reason }) => {
                &&& 1 <= number <= clips.len()
                &&& id@ == clips[number - 1].id@
                &&& fault_at(clip_views(clips@), probes@, number - 1) == Some(error)
                &&& fault_text_at(clip_views(clips@), probes@, number - 1) == Some(reason@)
                &&& forall|i: int|
                    0 <= i < number - 1 ==> (#[trigger] fault_at(
                        clip_views(clips@),
                        probes@,
                        i,
                    )) is None
            },
        },
{
    if clips.len() == 0 {
        return Err(TimelineError::EmptyTimeline);
    }
    let ghost views = clip_views(clips@);
    let mut list: Vec<ClipValidation> = Vec::new();
    let mut i: usize = 0;
    while i < clips.len()
        invariant
            i <= clips.len(),
            i <= probes.len(),
            clips.len() > 0,
            views == clip_views(clips@),
            list.len() == i,
            forall|j: int|
                0 <= j < i ==> {
                    &&& (#[trigger] fault_at(views, probes@, j)) is None
                    &&& probes[j] is Probed
                    &&& records(list[j], probes[j]->Probed_0)
                },
        decreases clips.len() - i,
    {
        assert(views[i as int] == clips[i as int]@);
        if i >= probes.len() {
            return Err(
                TimelineError::InvalidClip {
                    number: i + 1,
                    id: clips[i].id.clone(),
                    error: ValidationError::ProbeFailure,
                    reason: file_sentence("Failed to probe clip ", &clips[i], Some("not probed")),
                },
            );
        }
        match validate_clip(&clips[i], &probes[i]) {
            Ok(v) => {
                list.push(v);
            },
            Err(error) => {
                let reason = match describe_fault(&clips[i], &probes[i]) {
                    Some(text) => text,
                    None => String::new(),
                };
                return Err(
                    TimelineError::InvalidClip {
                        number: i + 1,
                        id: clips[i].id.clone(),
                        error,
                        reason,
                    },
                );
            },
        }
        i += 1;
    }
    Ok(list)
}

} // verus!
