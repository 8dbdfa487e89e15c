//! Rendering a short slice of the timeline into one file, for playback from
//! a cache.

use vstd::prelude::*;
use vstd::string::*;
use crate::planner::{retime_filter, retime_filter_text, tempo_filters};
use crate::single_pass::{label_chain, labelled_chain, pads_of, push_pads};
use crate::tempo::{
    audio_tempo_steps, is_retimed, speed_is_retimed,
    tempo_filter_texts, tempo_steps,
};
use crate::text::{
    decimal, join, joined, push_all, push_decimal, push_owned, push_seconds, push_text,
    seconds_text, texts,
};

verus! {

/// A slice of the timeline that is rendered ahead of playback.
pub struct PrerenderSegment {
    pub id: String,
    /// Where the slice starts on the timeline, in microseconds.
    pub start_time: i64,
    /// Where the slice ends on the timeline, in microseconds.
    pub end_time: i64,
    pub clip_ids: Vec<String>,
}

/// One clip of a slice.
pub struct SegmentClip {
    pub file_path: String,
    /// How much of the source is skipped at its start, in microseconds.
    pub trim_start: i64,
    /// How much of the source is cut at its end, in microseconds.
    pub trim_end: i64,
    /// How much is read, in microseconds.
    pub duration: i64,
    /// Playback speed in millionths.
    pub speed: i64,
}

/// Why a slice cannot be rendered.
#[derive(Clone, Copy, Debug, PartialEq, Eq, Structural)]
pub enum PrerenderError {
    /// The slice has no clips.
    NoClips,
    /// The clip with this number, counted from one, has no positive speed.
    InvalidSpeed { number: usize },
}

/// The arguments that encode a slice into `output`.
pub open spec fn slice_encode_args_of(output: Seq<char>) -> Seq<Seq<char>> {
    seq![
        "-c:v"@,
        "libx264"@,
        "-preset"@,
        "ultrafast"@,
        "-crf"@,
        "23"@,
        "-c:a"@,
        "aac"@,
        "-y"@,
        output,
    ]
}

/// The argument list that renders a slice of one clip: a plain trim, and
/// for a retimed clip the retimed picture and the sound brought to the same
/// speed by a tempo chain.
pub open spec fn single_clip_args_of(clip: SegmentClip, output: Seq<char>) -> Seq<Seq<char>> {
    let retime = if is_retimed(clip.speed as int) {
        seq![
            "-vf"@,
            retime_filter_text(clip.speed as int),
            "-af"@,
            joined(tempo_filter_texts(tempo_steps(clip.speed as int), 3), ","@),
        ]
    } else {
        Seq::empty()
    };
    seq![
        "-ss"@,
        seconds_text(clip.trim_start as int),
        "-i"@,
        clip.file_path@,
        "-t"@,
        seconds_text(clip.duration as int),
    ] + retime + slice_encode_args_of(output)
}

/// The arguments that open the first `count` clips of a slice as inputs.
pub open spec fn slice_inputs_of(clips: Seq<SegmentClip>, count: nat) -> Seq<Seq<char>>
    decreases count,
{
    if count == 0 {
        Seq::empty()
    } else {
        let clip = clips[count - 1];
        slice_inputs_of(clips, (count - 1) as nat) + seq![
            "-ss"@,
            seconds_text(clip.trim_start as int),
            "-t"@,
            seconds_text(clip.duration as int),
            "-i"@,
            clip.file_path@,
        ]
    }
}

/// The parts of the filter graph that belong to the clip at `index` of a
/// slice: its picture, retimed if need be, and its sound, brought to the
/// same speed by a tempo chain.
pub open spec fn slice_parts_of(index: nat, clip: SegmentClip) -> Seq<Seq<char>> {
    let picture = if is_retimed(clip.speed as int) {
        seq![retime_filter_text(clip.speed as int)]
    } else {
        Seq::empty()
    };
    seq![
        labelled_chain(index, "v"@, picture, "null"@),
        labelled_chain(
            index,
            "a"@,
            tempo_filter_texts(tempo_steps(clip.speed as int), 3),
            "anull"@,
        ),
    ]
}

/// The parts of the filter graph that belong to the first `count` clips of
/// a slice.
pub open spec fn slice_graph_parts_of(clips: Seq<SegmentClip>, count: nat) -> Seq<Seq<char>>
    decreases count,
{
    if count == 0 {
        Seq::empty()
    } else {
        let index = (count - 1) as nat;
        slice_graph_parts_of(clips, index) + slice_parts_of(index, clips[index as int])
    }
}

/// The part of a slice's filter graph that joins the clips.
pub open spec fn slice_join_part_of(count: nat) -> Seq<char> {
    pads_of("v"@, count) + "concat=n="@ + decimal(count) + ":v=1:a=1[outv][outa]"@
}

/// The argument list that renders a slice of several clips.
pub open spec fn multiple_clips_args_of(clips: Seq<SegmentClip>, output: Seq<char>) -> Seq<
    Seq<char>,
> {
    let graph = joined(
        slice_graph_parts_of(clips, clips.len()).push(slice_join_part_of(clips.len())),
        ";"@,
    );
    slice_inputs_of(clips, clips.len()) + seq![
        "-filter_complex"@,
        graph,
        "-map"@,
        "[outv]"@,
        "-map"@,
        "[outa]"@,
    ] + slice_encode_args_of(output)
}

/// Whether the clip at `i` is the first of a slice without a positive
/// speed.
pub open spec fn is_first_unplayable(clips: Seq<SegmentClip>, i: int) -> bool {
    &&& 0 <= i < clips.len()
    &&& clips[i].speed <= 0
    &&& forall|j: int| 0 <= j < i ==> (#[trigger] clips[j]).speed > 0
}

fn slice_encode_args(output: &str) -> (args: Vec<String>)
    ensures
        texts(args@) == slice_encode_args_of(output@),
{
    let mut args: Vec<String> = Vec::new();
    push_text(&mut args, "-c:v");
    push_text(&mut args, "libx264");
    push_text(&mut args, "-preset");
    push_text(&mut args, "ultrafast");
    push_text(&mut args, "-crf");
    push_text(&mut args, "23");
    push_text(&mut args, "-c:a");
    push_text(&mut args, "aac");
    push_text(&mut args, "-y");
    push_text(&mut args, output);
    assert(texts(args@) =~= slice_encode_args_of(output@));
    args
}

fn seconds_string(micros: i64) -> (s: String)
    ensures
        s@ == seconds_text(micros as int),
{
    let mut s = String::new();
    push_seconds(&mut s, micros as i128);
    assert(s@ =~= seconds_text(micros as int));
    s
}

/// The argument list that renders a slice of one clip to `output`.
pub fn render_single_clip(clip: &SegmentClip, output: &str) -> (args: Vec<String>)
    requires
        clip.speed > 0,
    ensures
        texts(args@) == single_clip_args_of(*clip, output@),
{
    let mut args: Vec<String> = Vec::new();
    push_text(&mut args, "-ss");
    push_owned(&mut args, seconds_string(clip.trim_start));
    push_text(&mut args, "-i");
    push_text(&mut args, clip.file_path.as_str());
    push_text(&mut args, "-t");
    push_owned(&mut args, seconds_string(clip.duration));
    if speed_is_retimed(clip.speed) {
        let steps = audio_tempo_steps(clip.speed);
        let sound = tempo_filters(&steps, 3);
        push_text(&mut args, "-vf");
        push_owned(&mut args, retime_filter(clip.speed));
        push_text(&mut args, "-af");
        push_owned(&mut args, join(&sound, ","));
    }
    push_all(&mut args, slice_encode_args(output));
    assert(texts(args@) =~= single_clip_args_of(*clip, output@));
    args
}

fn slice_parts(index: usize, clip: &SegmentClip) -> (parts: Vec<String>)
    requires
        clip.speed > 0,
    ensures
        texts(parts@) == slice_parts_of(index as nat, *clip),
{
    let mut picture: Vec<String> = Vec::new();
    if speed_is_retimed(clip.speed) {
        push_owned(&mut picture, retime_filter(clip.speed));
    }
    let steps = audio_tempo_steps(clip.speed);
    let sound = tempo_filters(&steps, 3);
    let mut parts: Vec<String> = Vec::new();
    assert(texts(picture@) =~= if is_retimed(clip.speed as int) {
        seq![retime_filter_text(clip.speed as int)]
    } else {
        Seq::empty()
    });
    push_owned(&mut parts, label_chain(index, "v", &picture, "null"));
    push_owned(&mut parts, label_chain(index, "a", &sound, "anull"));
    assert(texts(parts@) =~= slice_parts_of(index as nat, *clip));
    parts
}

/// The argument list that renders a slice of several clips to `output`
/// through one filter graph.
pub fn render_multiple_clips(clips: &Vec<SegmentClip>, output: &str) -> (args: Vec<String>)
    requires
        forall|i: int| 0 <= i < clips.len() ==> (#[trigger] clips[i]).speed > 0,
    ensures
        texts(args@) == multiple_clips_args_of(clips@, output@),
{
    let mut args: Vec<String> = Vec::new();
    let mut parts: Vec<String> = Vec::new();
    let mut i: usize = 0;
    while i < clips.len()
        invariant
            i <= clips.len(),
            forall|j: int| 0 <= j < clips.len() ==> (#[trigger] clips[j]).speed > 0,
            texts(args@) == slice_inputs_of(clips@, i as nat),
            texts(parts@) == slice_graph_parts_of(clips@, i as nat),
        decreases clips.len() - i,
    {
        let clip = &clips[i];
        let mut input: Vec<String> = Vec::new();
        push_text(&mut input, "-ss");
        push_owned(&mut input, seconds_string(clip.trim_start));
        push_text(&mut input, "-t");
        push_owned(&mut input, seconds_string(clip.duration));
        push_text(&mut input, "-i");
        push_text(&mut input, clip.file_path.as_str());
        assert(texts(input@) =~= seq![
            "-ss"@,
            seconds_text(clip.trim_start as int),
            "-t"@,
            seconds_text(clip.duration as int),
            "-i"@,
            clip.file_path@,
        ]);
        push_all(&mut args, input);
        push_all(&mut parts, slice_parts(i, clip));
        i += 1;
    }
    let mut join_part = String::new();
    push_pads(&mut join_part, "v", clips.len());
    join_part.append("concat=n=");
    push_decimal(&mut join_part, clips.len() as u128);
    join_part.append(":v=1:a=1[outv][outa]");
    assert(join_part@ =~= slice_join_part_of(clips.len() as nat));
    push_owned(&mut parts, join_part);
    let graph = join(&parts, ";");
    let mut tail: Vec<String> = Vec::new();
    push_text(&mut tail, "-filter_complex");
    push_owned(&mut tail, graph);
    push_text(&mut tail, "-map");
    push_text(&mut tail, "[outv]");
    push_text(&mut tail, "-map");
    push_text(&mut tail, "[outa]");
    push_all(&mut args, tail);
    push_all(&mut args, slice_encode_args(output));
    assert(texts(args@) =~= multiple_clips_args_of(clips@, output@));
    args
}

/// The argument list that renders the slice made of `clips` to
/// `output_path`: a plain trim for one clip, a filter graph for several.
pub fn prerender_segment(clips: &Vec<SegmentClip>, output_path: &str) -> (r: Result<
    Vec<String>,
    PrerenderError,
>)
    ensures
        match r {
            Ok(args) => {
                &&& clips.len() > 0
                &&& forall|i: int| 0 <= i < clips.len() ==> (#[trigger] clips[i]).speed > 0
                &&& texts(args@) == if clips.len() == 1 {
                    single_clip_args_of(clips[0], output_path@)
                } else {
                    multiple_clips_args_of(clips@, output_path@)
                }
            },
            Err(PrerenderError::NoClips) => clips.len() == 0,
            Err(PrerenderError::InvalidSpeed { number }) => number >= 1 && is_first_unplayable(
                clips@,
                number - 1,
            ),
        },
{
    if clips.len() == 0 {
        return Err(PrerenderError::NoClips);
    }
    let mut i: usize = 0;
    while i < clips.len()
        invariant
            i <= clips.len(),
            forall|j: int| 0 <= j < i ==> (#[trigger] clips[j]).speed > 0,
        decreases clips.len() - i,
    {
        if clips[i].speed <= 0 {
            return Err(PrerenderError::InvalidSpeed { number: i + 1 });
        }
        i += 1;
    }
    if clips.len() == 1 {
        Ok(render_single_clip(&clips[0], output_path))
    } else {
        Ok(render_multiple_clips(clips, output_path))
    }
}

} // verus!
