//! Planning the transcoding of one clip.
//!
//! A clip becomes a directive: which stretch of the source to read, how to
//! retime picture and sound, which picture size and frame rate to bring it
//! to, and how to encode it. The directive is then written out as the
//! argument list of one run of the transcoding program.

use vstd::prelude::*;
use vstd::string::*;
use crate::model::{
    Clip, ClipView, Codec, ExportConfig, Quality, Target, codec_named, quality_named,
    MILLION,
};
use crate::tempo::{
    TempoStep, audio_tempo_steps, has_denominators, is_retimed,
    push_tempo_filter, speed_is_retimed, tempo_filter_text, tempo_filter_texts, tempo_steps,
};
use crate::text::{
    decimal, fixed_text, join, joined, pico_seconds_text, plain_text, push_all, push_decimal,
    push_fixed, push_owned, push_pico_seconds, push_plain, push_seconds, push_text, seconds_text,
    texts,
};

verus! {

/// How one clip is to be transcoded.
pub struct ClipDirective {
    /// Where reading the source starts, in microseconds.
    pub seek: i64,
    /// How much of the source is read, in picoseconds.
    pub source_duration: i128,
    /// How long the result lasts, in microseconds.
    pub timeline_duration: i64,
    /// The speed in millionths by which picture and sound are retimed, if
    /// they are.
    pub retime: Option<i64>,
    /// Picture size and frame rate of the result.
    pub target: Target,
    /// Whether the sound of the source is used; else silence is made.
    pub uses_source_audio: bool,
    /// The tempo chain for the sound of the source.
    pub tempo: Vec<TempoStep>,
    pub codec: Codec,
    /// The encoder's constant rate factor.
    pub crf: u8,
}

/// What a [`ClipDirective`] stands for.
pub struct DirectiveView {
    pub seek: int,
    pub source_duration: int,
    pub timeline_duration: int,
    pub retime: Option<i64>,
    pub target: Target,
    pub uses_source_audio: bool,
    pub tempo: Seq<TempoStep>,
    pub codec: Codec,
    pub crf: u8,
}

impl View for ClipDirective {
    type V = DirectiveView;

    open spec fn view(&self) -> DirectiveView {
        DirectiveView {
            seek: self.seek as int,
            source_duration: self.source_duration as int,
            timeline_duration: self.timeline_duration as int,
            retime: self.retime,
            target: self.target,
            uses_source_audio: self.uses_source_audio,
            tempo: self.tempo@,
            codec: self.codec,
            crf: self.crf,
        }
    }
}

impl DirectiveView {
    /// Whether the directive can be written out: a retiming speed is
    /// positive and no tempo stage divides by zero.
    pub open spec fn wf(self) -> bool {
        &&& self.retime matches Some(speed) ==> speed > 0
        &&& has_denominators(self.tempo)
    }
}

impl ClipDirective {
    /// Whether the directive can be written out.
    pub open spec fn wf(&self) -> bool {
        self@.wf()
    }
}

/// The directive for a clip whose source has a sound track or not, as
/// `has_audio` says: the trim window starts at the clip's trim and is as
/// long as its timeline duration times its speed; picture and sound are
/// retimed where the speed differs from unchanged playback; the sound of
/// the source is used where there is one and the export includes sound,
/// with the tempo chain of the speed, and silence is made otherwise; codec
/// and quality are those that the configuration names.
pub open spec fn directive_of(
    clip: ClipView,
    has_audio: bool,
    config: ExportConfig,
    target: Target,
) -> DirectiveView {
    DirectiveView {
        seek: clip.trim_start,
        source_duration: clip.source_duration(),
        timeline_duration: clip.duration,
        retime: if is_retimed(clip.speed) {
            Some(clip.speed as i64)
        } else {
            None
        },
        target,
        uses_source_audio: has_audio && config.include_audio,
        tempo: if has_audio && config.include_audio {
            tempo_steps(clip.speed)
        } else {
            Seq::empty()
        },
        codec: codec_named(config.codec@),
        crf: quality_named(config.quality@).spec_crf(),
    }
}

/// The source duration of a clip is exactly its timeline duration times its
/// speed, and dividing it by the speed gives the timeline duration back
/// without remainder.
pub proof fn lemma_source_duration_invertible(clip: ClipView)
    requires
        clip.speed > 0,
    ensures
        clip.source_duration() == clip.duration * clip.speed,
        clip.source_duration() / clip.speed == clip.duration,
        clip.source_duration() % clip.speed == 0,
{
    let d = clip.duration;
    let s = clip.speed;
    assert(d * s == s * d + 0) by (nonlinear_arith);
    vstd::arithmetic::div_mod::lemma_fundamental_div_mod_converse(d * s, s, d, 0);
}

/// The directive for `clip`. `has_audio` says whether the source has a
/// sound track at all.
pub fn plan_clip(clip: &Clip, has_audio: bool, config: &ExportConfig, target: Target) -> (d:
    ClipDirective)
    requires
        clip.speed > 0,
    ensures
        d.wf(),
        d@ == directive_of(clip@, has_audio, *config, target),
{
    let uses_source_audio = has_audio && config.include_audio;
    let tempo = if uses_source_audio {
        audio_tempo_steps(clip.speed)
    } else {
        Vec::new()
    };
    ClipDirective {
        seek: clip.trim_start,
        source_duration: clip.source_duration(),
        timeline_duration: clip.duration,
        retime: if speed_is_retimed(clip.speed) {
            Some(clip.speed)
        } else {
            None
        },
        target,
        uses_source_audio,
        tempo,
        codec: Codec::from_name(&config.codec),
        crf: Quality::from_name(&config.quality).crf(),
    }
}

/// The filter that scales timestamps by the inverse of `speed`.
pub open spec fn retime_filter_text(speed: int) -> Seq<char> {
    "setpts="@ + fixed_text(false, MILLION as nat, speed as nat, 6) + "*PTS"@
}

/// The filter that fits the picture into `width` by `height`, keeping its
/// shape, and centres it on black.
pub open spec fn scale_pad_text(width: u32, height: u32) -> Seq<char> {
    "scale="@ + decimal(width as nat) + ":"@ + decimal(height as nat)
        + ":force_original_aspect_ratio=decrease,pad="@ + decimal(width as nat) + ":"@ + decimal(
        height as nat,
    ) + ":(ow-iw)/2:(oh-ih)/2:black"@
}

/// The filter that locks the frame rate.
pub open spec fn frame_rate_text(fps: u64) -> Seq<char> {
    "fps="@ + plain_text(fps as nat)
}

/// The picture filters of a directive, in the order they are applied.
pub open spec fn video_filters_of(d: DirectiveView) -> Seq<Seq<char>> {
    let retime = match d.retime {
        Some(speed) => seq![retime_filter_text(speed as int)],
        None => Seq::empty(),
    };
    retime + seq![scale_pad_text(d.target.width, d.target.height), frame_rate_text(d.target.fps)]
}

/// The sound filters of a directive that uses the source's sound: the tempo
/// chain, then resampling and the sample format.
pub open spec fn audio_filters_of(d: DirectiveView) -> Seq<Seq<char>> {
    tempo_filter_texts(d.tempo, 6) + seq![
        "aresample=48000"@,
        "aformat=sample_fmts=fltp:channel_layouts=stereo"@,
    ]
}

/// The silent source that stands in for a missing sound track.
pub open spec fn silence_source_text(micros: int) -> Seq<char> {
    "anullsrc=channel_layout=stereo:sample_rate=48000:duration="@ + seconds_text(micros)
}

/// The arguments that deal with sound.
pub open spec fn audio_args_of(d: DirectiveView) -> Seq<Seq<char>> {
    if d.uses_source_audio {
        seq![
            "-af"@,
            joined(audio_filters_of(d), ","@),
            "-c:a"@,
            "aac"@,
            "-b:a"@,
            "192k"@,
            "-ar"@,
            "48000"@,
            "-ac"@,
            "2"@,
        ]
    } else {
        seq![
            "-f"@,
            "lavfi"@,
            "-i"@,
            silence_source_text(d.timeline_duration),
            "-c:a"@,
            "aac"@,
            "-b:a"@,
            "192k"@,
            "-shortest"@,
        ]
    }
}

/// The arguments that read the source and filter the picture.
pub open spec fn input_args_of(source: Seq<char>, d: DirectiveView) -> Seq<Seq<char>> {
    seq![
        "-ss"@,
        seconds_text(d.seek),
        "-t"@,
        pico_seconds_text(d.source_duration),
        "-i"@,
        source,
        "-vf"@,
        joined(video_filters_of(d), ","@),
    ]
}

/// The arguments that encode the picture and name the result.
pub open spec fn encode_args_of(d: DirectiveView, output: Seq<char>) -> Seq<Seq<char>> {
    seq![
        "-c:v"@,
        d.codec.spec_encoder(),
        "-preset"@,
        "medium"@,
        "-crf"@,
        decimal(d.crf as nat),
        "-pix_fmt"@,
        "yuv420p"@,
        "-vsync"@,
        "cfr"@,
        "-async"@,
        "1"@,
        "-max_muxing_queue_size"@,
        "1024"@,
        "-movflags"@,
        "+faststart"@,
        "-y"@,
        output,
    ]
}

/// The argument list that transcodes `source` as `d` directs and writes the
/// result to `output`.
pub open spec fn clip_args_of(source: Seq<char>, d: DirectiveView, output: Seq<char>) -> Seq<
    Seq<char>,
> {
    input_args_of(source, d) + audio_args_of(d) + encode_args_of(d, output)
}

/// The filter that scales timestamps by the inverse of `speed`.
pub fn retime_filter(speed: i64) -> (s: String)
    requires
        speed > 0,
    ensures
        s@ == retime_filter_text(speed as int),
{
    let mut s = String::from_str("setpts=");
    push_fixed(&mut s, false, MILLION as u128, speed as u64, 6);
    s.append("*PTS");
    s
}

/// The filter that fits the picture into `width` by `height`.
pub fn scale_pad_filter(width: u32, height: u32) -> (s: String)
    ensures
        s@ == scale_pad_text(width, height),
{
    let mut s = String::from_str("scale=");
    push_decimal(&mut s, width as u128);
    s.append(":");
    push_decimal(&mut s, height as u128);
    s.append(":force_original_aspect_ratio=decrease,pad=");
    push_decimal(&mut s, width as u128);
    s.append(":");
    push_decimal(&mut s, height as u128);
    s.append(":(ow-iw)/2:(oh-ih)/2:black");
    s
}

/// The filter that locks the frame rate.
pub fn frame_rate_filter(fps: u64) -> (s: String)
    ensures
        s@ == frame_rate_text(fps),
{
    let mut s = String::from_str("fps=");
    push_plain(&mut s, fps);
    s
}

/// The picture filters of a directive.
pub fn video_filters(d: &ClipDirective) -> (filters: Vec<String>)
    requires
        d.wf(),
    ensures
        texts(filters@) == video_filters_of(d@),
{
    let mut filters: Vec<String> = Vec::new();
    match d.retime {
        Some(speed) => {
            push_owned(&mut filters, retime_filter(speed));
        },
        None => {},
    }
    push_owned(&mut filters, scale_pad_filter(d.target.width, d.target.height));
    push_owned(&mut filters, frame_rate_filter(d.target.fps));
    assert(texts(filters@) =~= video_filters_of(d@));
    filters
}

/// The texts of the stages of a tempo chain, a `Ratio` stage written with
/// `places` decimals.
pub fn tempo_filters(steps: &Vec<TempoStep>, places: u8) -> (filters: Vec<String>)
    requires
        has_denominators(steps@),
        places <= 9,
    ensures
        texts(filters@) == tempo_filter_texts(steps@, places as nat),
{
    let mut filters: Vec<String> = Vec::new();
    let mut i: usize = 0;
    while i < steps.len()
        invariant
            i <= steps.len(),
            places <= 9,
            has_denominators(steps@),
            filters.len() == i,
            forall|j: int|
                0 <= j < i ==> (#[trigger] filters@[j])@ == tempo_filter_text(
                    steps@[j],
                    places as nat,
                ),
        decreases steps.len() - i,
    {
        let mut s = String::new();
        let step = steps[i];
        assert(step == steps@[i as int]);
        push_tempo_filter(&mut s, step, places);
        assert(s@ =~= tempo_filter_text(step, places as nat));
        filters.push(s);
        i += 1;
    }
    assert(texts(filters@) =~= tempo_filter_texts(steps@, places as nat));
    filters
}

/// The sound filters of a directive that uses the source's sound.
pub fn audio_filters(d: &ClipDirective) -> (filters: Vec<String>)
    requires
        d.wf(),
    ensures
        texts(filters@) == audio_filters_of(d@),
{
    let mut filters = tempo_filters(&d.tempo, 6);
    push_text(&mut filters, "aresample=48000");
    push_text(&mut filters, "aformat=sample_fmts=fltp:channel_layouts=stereo");
    assert(texts(filters@) =~= audio_filters_of(d@));
    filters
}

/// The silent source that stands in for a missing sound track.
pub fn silence_source(micros: i64) -> (s: String)
    ensures
        s@ == silence_source_text(micros as int),
{
    let mut s = String::from_str("anullsrc=channel_layout=stereo:sample_rate=48000:duration=");
    push_seconds(&mut s, micros as i128);
    s
}

fn audio_args(d: &ClipDirective) -> (args: Vec<String>)
    requires
        d.wf(),
    ensures
        texts(args@) == audio_args_of(d@),
{
    let mut args: Vec<String> = Vec::new();
    if d.uses_source_audio {
        let filters = audio_filters(d);
        push_text(&mut args, "-af");
        push_owned(&mut args, join(&filters, ","));
        push_text(&mut args, "-c:a");
        push_text(&mut args, "aac");
        push_text(&mut args, "-b:a");
        push_text(&mut args, "192k");
        push_text(&mut args, "-ar");
        push_text(&mut args, "48000");
        push_text(&mut args, "-ac");
        push_text(&mut args, "2");
    } else {
        push_text(&mut args, "-f");
        push_text(&mut args, "lavfi");
        push_text(&mut args, "-i");
        push_owned(&mut args, silence_source(d.timeline_duration));
        push_text(&mut args, "-c:a");
        push_text(&mut args, "aac");
        push_text(&mut args, "-b:a");
        push_text(&mut args, "192k");
        push_text(&mut args, "-shortest");
    }
    assert(texts(args@) =~= audio_args_of(d@));
    args
}

fn input_args(source: &str, d: &ClipDirective) -> (args: Vec<String>)
    requires
        d.wf(),
    ensures
        texts(args@) == input_args_of(source@, d@),
{
    let mut args: Vec<String> = Vec::new();
    let mut seek = String::new();
    push_seconds(&mut seek, d.seek as i128);
    let mut length = String::new();
    push_pico_seconds(&mut length, d.source_duration);
    let filters = video_filters(d);
    assert(seek@ =~= seconds_text(d.seek as int));
    assert(length@ =~= pico_seconds_text(d.source_duration as int));
    push_text(&mut args, "-ss");
    push_owned(&mut args, seek);
    push_text(&mut args, "-t");
    push_owned(&mut args, length);
    push_text(&mut args, "-i");
    push_text(&mut args, source);
    push_text(&mut args, "-vf");
    push_owned(&mut args, join(&filters, ","));
    assert(texts(args@) =~= input_args_of(source@, d@));
    args
}

fn encode_args(d: &ClipDirective, output: &str) -> (args: Vec<String>)
    ensures
        texts(args@) == encode_args_of(d@, output@),
{
    let mut args: Vec<String> = Vec::new();
    let mut crf = String::new();
    push_decimal(&mut crf, d.crf as u128);
    assert(crf@ =~= decimal(d.crf as nat));
    push_text(&mut args, "-c:v");
    push_text(&mut args, d.codec.encoder());
    push_text(&mut args, "-preset");
    push_text(&mut args, "medium");
    push_text(&mut args, "-crf");
    push_owned(&mut args, crf);
    push_text(&mut args, "-pix_fmt");
    push_text(&mut args, "yuv420p");
    push_text(&mut args, "-vsync");
    push_text(&mut args, "cfr");
    push_text(&mut args, "-async");
    push_text(&mut args, "1");
    push_text(&mut args, "-max_muxing_queue_size");
    push_text(&mut args, "1024");
    push_text(&mut args, "-movflags");
    push_text(&mut args, "+faststart");
    push_text(&mut args, "-y");
    push_text(&mut args, output);
    assert(texts(args@) =~= encode_args_of(d@, output@));
    args
}

/// The argument list that transcodes `source` as `d` directs and writes the
/// result to `output`.
pub fn clip_args(source: &str, d: &ClipDirective, output: &str) -> (args: Vec<String>)
    requires
        d.wf(),
    ensures
        texts(args@) == clip_args_of(source@, d@, output@),
{
    let mut args = input_args(source, d);
    push_all(&mut args, audio_args(d));
    push_all(&mut args, encode_args(d, output));
    args
}

} // verus!
