//! Making sense of what the probe reports about a media file.
//!
//! The probe's report arrives as texts and optional numbers, stream by
//! stream. This module picks the picture stream and the sound stream and
//! reads the numbers, with a default wherever the report is silent or
//! cannot be read.

use vstd::prelude::*;
use vstd::string::*;
use crate::diagnostics::chars_of;
use crate::model::{VideoInfo, DEFAULT_FPS};
use crate::numbers::{
    find_char, parse_millionths, parse_u64, parsed_millionths, parsed_u64, position_of,
};
use crate::text::{is_text, opt_text, scaled_round};

verus! {

/// What the probe reports about the file as a whole.
pub struct FFProbeFormat {
    pub duration: Option<String>,
    pub size: Option<String>,
    pub bit_rate: Option<String>,
}

/// What the probe reports about one stream of the file.
pub struct FFProbeStream {
    pub codec_type: String,
    pub codec_name: Option<String>,
    pub width: Option<u32>,
    pub height: Option<u32>,
    pub r_frame_rate: Option<String>,
}

/// The probe's report.
pub struct FFProbeOutput {
    pub format: FFProbeFormat,
    pub streams: Vec<FFProbeStream>,
}

/// Why a report does not describe a video.
#[derive(Clone, Copy, Debug, PartialEq, Eq, Structural)]
pub enum ProbeError {
    NoVideoStream,
}

/// The frame rate that a quotient of two counts of millionths comes to, in
/// millionths and rounded to the nearest, if the quotient is of a
/// non-negative and a positive number and fits 64 bits.
pub open spec fn quotient_rate(num: Option<i64>, den: Option<i64>) -> Option<u64> {
    match (num, den) {
        (Some(n), Some(d)) => if n >= 0 && d > 0 && scaled_round(n as nat, d as nat, 6)
            <= u64::MAX {
            Some(scaled_round(n as nat, d as nat, 6) as u64)
        } else {
            None
        },
        _ => None,
    }
}

/// The frame rate that a single count of millionths comes to, if it is not
/// negative.
pub open spec fn plain_rate(value: Option<i64>) -> Option<u64> {
    match value {
        Some(v) => if v >= 0 {
            Some(v as u64)
        } else {
            None
        },
        None => None,
    }
}

/// The frame rate in millionths that `text` writes: a quotient `a/b` of two
/// decimal fractions where the text has exactly one slash, a single
/// decimal fraction otherwise.
pub open spec fn frame_rate_of(text: Seq<char>) -> Option<u64> {
    let slash = position_of(text, '/');
    if slash < text.len() && position_of(text.skip(slash + 1), '/') == text.len() - slash - 1 {
        quotient_rate(
            parsed_millionths(text.take(slash)),
            parsed_millionths(text.skip(slash + 1)),
        )
    } else {
        plain_rate(parsed_millionths(text))
    }
}

/// The frame rate that an optional text writes.
pub open spec fn optional_frame_rate(text: Option<String>) -> Option<u64> {
    match text {
        Some(t) => frame_rate_of(t@),
        None => None,
    }
}

fn rate_from_quotient(num: Option<i64>, den: Option<i64>) -> (r: Option<u64>)
    ensures
        r == quotient_rate(num, den),
{
    match (num, den) {
        (Some(n), Some(d)) => {
            if n < 0 || d <= 0 {
                return None;
            }
            proof {
                crate::text::lemma_pow10_values();
            }
            let nn: u128 = n as u128;
            let dd: u128 = d as u128;
            assert(2 * nn * 1_000_000 + dd <= 0xffff_ffff_ffff_ffff_ffff_ffff) by (nonlinear_arith)
                requires
                    nn < 0x8000_0000_0000_0000,
                    dd < 0x8000_0000_0000_0000,
            ;
            let rounded: u128 = (2 * nn * 1_000_000 + dd) / (2 * dd);
            if rounded > u64::MAX as u128 {
                None
            } else {
                Some(rounded as u64)
            }
        },
        _ => None,
    }
}

fn rate_from_value(value: Option<i64>) -> (r: Option<u64>)
    ensures
        r == plain_rate(value),
{
    match value {
        Some(v) => if v >= 0 {
            Some(v as u64)
        } else {
            None
        },
        None => None,
    }
}

/// The frame rate in millionths of a frame per second that the probe's text
/// writes, if it writes one.
pub fn parse_frame_rate(rate: &Option<String>) -> (r: Option<u64>)
    ensures
        r == optional_frame_rate(*rate),
{
    match rate {
        None => None,
        Some(text) => {
            let chars = chars_of(text.as_str());
            assert(chars@.skip(0) =~= chars@);
            let slash = find_char(&chars, 0, '/');
            if slash < chars.len() {
                let next = find_char(&chars, slash + 1, '/');
                if next == chars.len() {
                    let num = text.as_str().substring_char(0, slash);
                    let den = text.as_str().substring_char(slash + 1, chars.len());
                    assert(num@ =~= text@.take(slash as int));
                    assert(den@ =~= text@.skip(slash + 1));
                    return rate_from_quotient(parse_millionths(num), parse_millionths(den));
                }
            }
            rate_from_value(parse_millionths(text.as_str()))
        },
    }
}

/// Whether the stream at `i` is the first of its kind.
pub open spec fn is_first_of_kind(streams: Seq<FFProbeStream>, kind: Seq<char>, i: int) -> bool {
    &&& 0 <= i < streams.len()
    &&& streams[i].codec_type@ == kind
    &&& forall|j: int| 0 <= j < i ==> (#[trigger] streams[j]).codec_type@ != kind
}

/// Whether no stream is of the kind.
pub open spec fn has_none_of_kind(streams: Seq<FFProbeStream>, kind: Seq<char>) -> bool {
    forall|j: int| 0 <= j < streams.len() ==> (#[trigger] streams[j]).codec_type@ != kind
}

/// The whole number that an optional text writes, 0 where there is no text
/// or it writes none.
pub open spec fn count_or_zero(text: Option<String>) -> u64 {
    match text {
        Some(t) => match parsed_u64(t@) {
            Some(v) => v,
            None => 0,
        },
        None => 0,
    }
}

/// The millionths that an optional text writes, 0 where there is no text or
/// it writes none.
pub open spec fn millionths_or_zero(text: Option<String>) -> i64 {
    match text {
        Some(t) => match parsed_millionths(t@) {
            Some(v) => v,
            None => 0,
        },
        None => 0,
    }
}

/// Whether `info` says of the file what the report says, with `video` as
/// its picture stream: numbers as the report writes them, and where it is
/// silent a length of 0, a size and bit rate of 0, 30 frames per second, a
/// picture of 1920 by 1080 and the codec name `unknown`.
pub open spec fn describes(info: VideoInfo, probe: FFProbeOutput, video: int) -> bool {
    let stream = probe.streams[video];
    &&& info.duration == millionths_or_zero(probe.format.duration)
    &&& info.file_size == count_or_zero(probe.format.size)
    &&& info.bitrate == count_or_zero(probe.format.bit_rate)
    &&& info.fps == match optional_frame_rate(stream.r_frame_rate) {
        Some(f) => f,
        None => DEFAULT_FPS,
    }
    &&& info.width == match stream.width {
        Some(w) => w,
        None => 1920u32,
    }
    &&& info.height == match stream.height {
        Some(h) => h,
        None => 1080u32,
    }
    &&& info.codec@ == match stream.codec_name {
        Some(name) => name@,
        None => "unknown"@,
    }
}

/// Whether `codec` is the codec of the report's first sound stream, if it
/// has one that names its codec.
pub open spec fn is_audio_codec_of(codec: Option<String>, streams: Seq<FFProbeStream>) -> bool {
    if has_none_of_kind(streams, "audio"@) {
        codec is None
    } else {
        exists|a: int| #[trigger]
            is_first_of_kind(streams, "audio"@, a) && opt_text(codec) == opt_text(
                streams[a].codec_name,
            )
    }
}

fn find_stream(streams: &Vec<FFProbeStream>, kind: &str) -> (r: Option<usize>)
    ensures
        match r {
            Some(i) => is_first_of_kind(streams@, kind@, i as int),
            None => has_none_of_kind(streams@, kind@),
        },
{
    let mut i: usize = 0;
    while i < streams.len()
        invariant
            i <= streams.len(),
            forall|j: int| 0 <= j < i ==> (#[trigger] streams[j]).codec_type@ != kind@,
        decreases streams.len() - i,
    {
        if is_text(&streams[i].codec_type, kind) {
            return Some(i);
        }
        i += 1;
    }
    None
}

fn read_count(text: &Option<String>) -> (v: u64)
    ensures
        v == count_or_zero(*text),
{
    match text {
        Some(t) => match parse_u64(t.as_str()) {
            Some(v) => v,
            None => 0,
        },
        None => 0,
    }
}

fn copy_of(text: &Option<String>) -> (r: Option<String>)
    ensures
        opt_text(r) == opt_text(*text),
{
    match text {
        Some(t) => Some(t.clone()),
        None => None,
    }
}

/// What the probe's report says about the file, if it has a picture stream.
pub fn get_video_info(probe: &FFProbeOutput) -> (r: Result<VideoInfo, ProbeError>)
    ensures
        match r {
            Ok(info) => exists|v: int| #[trigger]
                is_first_of_kind(probe.streams@, "video"@, v) && describes(info, *probe, v)
                    && is_audio_codec_of(info.audio_codec, probe.streams@),
            Err(_) => has_none_of_kind(probe.streams@, "video"@),
        },
{
    let video = match find_stream(&probe.streams, "video") {
        Some(i) => i,
        None => {
            return Err(ProbeError::NoVideoStream);
        },
    };
    let stream = &probe.streams[video];
    let audio_codec = match find_stream(&probe.streams, "audio") {
        Some(a) => copy_of(&probe.streams[a].codec_name),
        None => None,
    };
    let duration = match &probe.format.duration {
        Some(t) => match parse_millionths(t.as_str()) {
            Some(v) => v,
            None => 0,
        },
        None => 0,
    };
    let info = VideoInfo {
        duration,
        width: match stream.width {
            Some(w) => w,
            None => 1920,
        },
        height: match stream.height {
            Some(h) => h,
            None => 1080,
        },
        fps: match parse_frame_rate(&stream.r_frame_rate) {
            Some(f) => f,
            None => DEFAULT_FPS,
        },
        codec: match &stream.codec_name {
            Some(name) => name.clone(),
            None => String::from_str("unknown"),
        },
        bitrate: read_count(&probe.format.bit_rate),
        audio_codec,
        file_size: read_count(&probe.format.size),
    };
    assert(is_first_of_kind(probe.streams@, "video"@, video as int));
    assert(describes(info, *probe, video as int));
    Ok(info)
}

} // verus!
