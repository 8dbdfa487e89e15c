//! The single-pass strategy: every clip is an input of one run of the
//! transcoding program, whose filter graph retimes and scales each clip and
//! joins them all. Gaps between clips are not filled in this strategy.

use vstd::prelude::*;
use vstd::string::*;
use crate::export::{
    ExportProgress, Outcome, Phase, single_pass_failure, single_pass_share, tool_missing_message,
};
use crate::model::{
    Clip, ClipView, Codec, ExportConfig, Quality, Resolution, clip_views, codec_named,
    quality_named, resolution_named,
};
use crate::planner::{retime_filter, retime_filter_text, tempo_filters};
use crate::tempo::{
    audio_tempo_steps, is_retimed, speed_is_retimed,
    tempo_filter_texts, tempo_steps,
};
use crate::text::{
    decimal, join, joined, opt_text, pico_seconds_text, push_all, push_decimal, push_owned,
    push_pico_seconds, push_seconds, push_text, seconds_text, texts,
};
use crate::timeline::{check_for_gaps, gap_before, is_significant, is_timeline_order, normalize};

verus! {

/// Why a single-pass export cannot be planned.
#[derive(Clone, Copy, Debug, PartialEq, Eq, Structural)]
pub enum PlanError {
    /// There are no clips.
    EmptyTimeline,
    /// The clip with this number, counted from one, has no positive speed.
    InvalidSpeed { number: usize },
}

/// One run of the transcoding program that renders a whole timeline.
pub struct SinglePassPlan {
    pub args: Vec<String>,
    /// Whether the timeline has gaps, which this strategy leaves out.
    pub drops_gaps: bool,
    /// The timeline order of the clips: for each input of the run, the
    /// position of its clip in the list that was given.
    pub order: Vec<usize>,
}

/// The clips of `clips` in the order that `order` gives.
pub open spec fn arranged_views(clips: Seq<ClipView>, order: Seq<usize>) -> Seq<ClipView> {
    Seq::new(order.len(), |k: int| clips[order[k] as int])
}

/// Whether `plan` renders `clips` as `config` asks: its inputs are the
/// clips in their timeline order, its arguments those of the single run
/// over the clips in that order, and it drops gaps exactly if the timeline
/// has any.
pub open spec fn is_single_pass_plan(
    plan: SinglePassPlan,
    clips: Seq<ClipView>,
    config: ExportConfig,
) -> bool {
    let arranged = arranged_views(clips, plan.order@);
    &&& is_timeline_order(clips, plan.order@)
    &&& texts(plan.args@) == single_pass_args_of(arranged, config)
    &&& plan.drops_gaps == exists|i: int|
        0 <= i < arranged.len() && is_significant(#[trigger] gap_before(arranged, i))
}

/// The filter that fits the picture into `width` by `height`, keeping its
/// shape, and centres it.
pub open spec fn fit_filter_text(width: u32, height: u32) -> Seq<char> {
    "scale="@ + decimal(width as nat) + ":"@ + decimal(height as nat)
        + ":force_original_aspect_ratio=decrease,pad="@ + decimal(width as nat) + ":"@ + decimal(
        height as nat,
    ) + ":(ow-iw)/2:(oh-ih)/2"@
}

/// The picture filters of one clip: retiming if the clip is retimed, fitting
/// if the export names a picture size.
pub open spec fn picture_chain_of(clip: ClipView, resolution: Resolution) -> Seq<Seq<char>> {
    let retime = if is_retimed(clip.speed) {
        seq![retime_filter_text(clip.speed)]
    } else {
        Seq::empty()
    };
    let fit = match resolution.spec_dimensions() {
        Some(size) => seq![fit_filter_text(size.0, size.1)],
        None => Seq::empty(),
    };
    retime + fit
}

/// A chain of filters between its input pad and its output pad; a chain
/// without filters passes its input on through `idle`.
pub open spec fn labelled_chain(
    index: nat,
    stream: Seq<char>,
    filters: Seq<Seq<char>>,
    idle: Seq<char>,
) -> Seq<char> {
    let body = if filters.len() == 0 {
        idle
    } else {
        joined(filters, ","@)
    };
    "["@ + decimal(index) + ":"@ + stream + "]"@ + body + "["@ + stream + decimal(index) + "]"@
}

/// The parts of the filter graph that belong to the clip at `index`.
pub open spec fn clip_parts_of(
    index: nat,
    clip: ClipView,
    resolution: Resolution,
    include_audio: bool,
) -> Seq<Seq<char>> {
    let picture = seq![
        labelled_chain(index, "v"@, picture_chain_of(clip, resolution), "null"@),
    ];
    let sound = if include_audio {
        seq![
            labelled_chain(
                index,
                "a"@,
                tempo_filter_texts(tempo_steps(clip.speed), 3),
                "anull"@,
            ),
        ]
    } else {
        Seq::empty()
    };
    picture + sound
}

/// The parts of the filter graph that belong to the first `count` clips.
pub open spec fn graph_parts_of(
    clips: Seq<ClipView>,
    resolution: Resolution,
    include_audio: bool,
    count: nat,
) -> Seq<Seq<char>>
    decreases count,
{
    if count == 0 {
        Seq::empty()
    } else {
        let index = (count - 1) as nat;
        graph_parts_of(clips, resolution, include_audio, index) + clip_parts_of(
            index,
            clips[index as int],
            resolution,
            include_audio,
        )
    }
}

/// The output pads `[s0][s1]…` of the first `count` clips' chains for the
/// stream `stream`.
pub open spec fn pads_of(stream: Seq<char>, count: nat) -> Seq<char>
    decreases count,
{
    if count == 0 {
        Seq::empty()
    } else {
        pads_of(stream, (count - 1) as nat) + "["@ + stream + decimal((count - 1) as nat) + "]"@
    }
}

/// The part of the filter graph that joins the clips' chains.
pub open spec fn join_part_of(count: nat, include_audio: bool) -> Seq<char> {
    let sound_pads = if include_audio {
        pads_of("a"@, count)
    } else {
        Seq::empty()
    };
    let sound_out = if include_audio {
        "1[outa]"@
    } else {
        "0"@
    };
    sound_pads + pads_of("v"@, count) + "concat=n="@ + decimal(count) + ":v=1:a="@ + sound_out
        + "[outv]"@
}

/// The whole filter graph.
pub open spec fn filter_graph_of(
    clips: Seq<ClipView>,
    resolution: Resolution,
    include_audio: bool,
) -> Seq<char> {
    joined(
        graph_parts_of(clips, resolution, include_audio, clips.len()).push(
            join_part_of(clips.len(), include_audio),
        ),
        ";"@,
    )
}

/// The arguments that open the first `count` clips as inputs, each with its
/// trim window.
pub open spec fn inputs_of(clips: Seq<ClipView>, count: nat) -> Seq<Seq<char>>
    decreases count,
{
    if count == 0 {
        Seq::empty()
    } else {
        let clip = clips[count - 1];
        inputs_of(clips, (count - 1) as nat) + seq![
            "-ss"@,
            seconds_text(clip.trim_start),
            "-t"@,
            pico_seconds_text(clip.source_duration()),
            "-i"@,
            clip.file_path,
        ]
    }
}

/// The arguments after the inputs: the filter graph, which of its outputs
/// to keep, and how to encode them into `output`.
pub open spec fn output_args_of(
    graph: Seq<char>,
    codec: Codec,
    quality: Quality,
    include_audio: bool,
    output: Seq<char>,
) -> Seq<Seq<char>> {
    let keep_sound = if include_audio {
        seq!["-map"@, "[outa]"@]
    } else {
        Seq::empty()
    };
    let encode_sound = if include_audio {
        seq!["-c:a"@, "aac"@]
    } else {
        Seq::empty()
    };
    seq!["-filter_complex"@, graph, "-map"@, "[outv]"@] + keep_sound + seq![
        "-c:v"@,
        codec.spec_encoder(),
        "-crf"@,
        decimal(quality.spec_crf() as nat),
    ] + encode_sound + seq!["-y"@, output]
}

/// The argument list of the single run that renders `clips`, which are in
/// timeline order, as `config` asks.
pub open spec fn single_pass_args_of(clips: Seq<ClipView>, config: ExportConfig) -> Seq<
    Seq<char>,
> {
    inputs_of(clips, clips.len()) + output_args_of(
        filter_graph_of(clips, resolution_named(config.resolution@), config.include_audio),
        codec_named(config.codec@),
        quality_named(config.quality@),
        config.include_audio,
        config.output_path@,
    )
}

/// Whether the clip at `i` is the first without a positive speed.
pub open spec fn is_first_bad_speed(clips: Seq<ClipView>, i: int) -> bool {
    &&& 0 <= i < clips.len()
    &&& clips[i].speed <= 0
    &&& forall|j: int| 0 <= j < i ==> (#[trigger] clips[j]).speed > 0
}

fn fit_filter(width: u32, height: u32) -> (s: String)
    ensures
        s@ == fit_filter_text(width, height),
{
    let mut s = String::from_str("scale=");
    push_decimal(&mut s, width as u128);
    s.append(":");
    push_decimal(&mut s, height as u128);
    s.append(":force_original_aspect_ratio=decrease,pad=");
    push_decimal(&mut s, width as u128);
    s.append(":");
    push_decimal(&mut s, height as u128);
    s.append(":(ow-iw)/2:(oh-ih)/2");
    s
}

fn picture_chain(clip: &Clip, resolution: Resolution) -> (filters: Vec<String>)
    requires
        clip.speed > 0,
    ensures
        texts(filters@) == picture_chain_of(clip@, resolution),
{
    let mut filters: Vec<String> = Vec::new();
    if speed_is_retimed(clip.speed) {
        push_owned(&mut filters, retime_filter(clip.speed));
    }
    match resolution.dimensions() {
        Some(size) => {
            push_owned(&mut filters, fit_filter(size.0, size.1));
        },
        None => {},
    }
    assert(texts(filters@) =~= picture_chain_of(clip@, resolution));
    filters
}

/// A chain of filters between its input pad and its output pad.
pub fn label_chain(index: usize, stream: &str, filters: &Vec<String>, idle: &str) -> (s: String)
    ensures
        s@ == labelled_chain(index as nat, stream@, texts(filters@), idle@),
{
    let mut s = String::from_str("[");
    push_decimal(&mut s, index as u128);
    s.append(":");
    s.append(stream);
    s.append("]");
    if filters.len() == 0 {
        s.append(idle);
    } else {
        let body = join(filters, ",");
        s.append(body.as_str());
    }
    s.append("[");
    s.append(stream);
    push_decimal(&mut s, index as u128);
    s.append("]");
    s
}

fn clip_parts(index: usize, clip: &Clip, resolution: Resolution, include_audio: bool) -> (parts:
    Vec<String>)
    requires
        clip.speed > 0,
    ensures
        texts(parts@) == clip_parts_of(index as nat, clip@, resolution, include_audio),
{
    let mut parts: Vec<String> = Vec::new();
    let picture = picture_chain(clip, resolution);
    push_owned(&mut parts, label_chain(index, "v", &picture, "null"));
    if include_audio {
        let steps = audio_tempo_steps(clip.speed);
        let sound = tempo_filters(&steps, 3);
        push_owned(&mut parts, label_chain(index, "a", &sound, "anull"));
    }
    assert(texts(parts@) =~= clip_parts_of(index as nat, clip@, resolution, include_audio));
    parts
}

/// Appends the output pads of the first `count` clips' chains for `stream`.
pub fn push_pads(out: &mut String, stream: &str, count: usize)
    ensures
        final(out)@ == old(out)@ + pads_of(stream@, count as nat),
{
    let ghost start = out@;
    let mut i: usize = 0;
    assert(out@ =~= start + pads_of(stream@, 0));
    while i < count
        invariant
            i <= count,
            out@ == start + pads_of(stream@, i as nat),
        decreases count - i,
    {
        out.append("[");
        out.append(stream);
        push_decimal(out, i as u128);
        out.append("]");
        assert(out@ =~= start + pads_of(stream@, (i + 1) as nat));
        i += 1;
    }
}

fn join_part(count: usize, include_audio: bool) -> (s: String)
    ensures
        s@ == join_part_of(count as nat, include_audio),
{
    let mut s = String::new();
    if include_audio {
        push_pads(&mut s, "a", count);
    }
    push_pads(&mut s, "v", count);
    s.append("concat=n=");
    push_decimal(&mut s, count as u128);
    s.append(":v=1:a=");
    if include_audio {
        s.append("1[outa]");
    } else {
        s.append("0");
    }
    s.append("[outv]");
    assert(s@ =~= join_part_of(count as nat, include_audio));
    s
}

fn input_args(clip: &Clip) -> (args: Vec<String>)
    ensures
        texts(args@) == seq![
            "-ss"@,
            seconds_text(clip@.trim_start),
            "-t"@,
            pico_seconds_text(clip@.source_duration()),
            "-i"@,
            clip@.file_path,
        ],
{
    let mut seek = String::new();
    push_seconds(&mut seek, clip.trim_start as i128);
    let mut length = String::new();
    push_pico_seconds(&mut length, clip.source_duration());
    assert(seek@ =~= seconds_text(clip@.trim_start));
    assert(length@ =~= pico_seconds_text(clip@.source_duration()));
    let mut args: Vec<String> = Vec::new();
    push_text(&mut args, "-ss");
    push_owned(&mut args, seek);
    push_text(&mut args, "-t");
    push_owned(&mut args, length);
    push_text(&mut args, "-i");
    push_text(&mut args, clip.file_path.as_str());
    assert(texts(args@) =~= seq![
        "-ss"@,
        seconds_text(clip@.trim_start),
        "-t"@,
        pico_seconds_text(clip@.source_duration()),
        "-i"@,
        clip@.file_path,
    ]);
    args
}

fn output_args(graph: String, codec: Codec, quality: Quality, include_audio: bool, output: &str) -> (args:
    Vec<String>)
    ensures
        texts(args@) == output_args_of(graph@, codec, quality, include_audio, output@),
{
    let ghost graph_text = graph@;
    let mut crf = String::new();
    push_decimal(&mut crf, quality.crf() as u128);
    assert(crf@ =~= decimal(quality.spec_crf() as nat));
    let mut args: Vec<String> = Vec::new();
    push_text(&mut args, "-filter_complex");
    push_owned(&mut args, graph);
    push_text(&mut args, "-map");
    push_text(&mut args, "[outv]");
    if include_audio {
        push_text(&mut args, "-map");
        push_text(&mut args, "[outa]");
    }
    push_text(&mut args, "-c:v");
    push_text(&mut args, codec.encoder());
    push_text(&mut args, "-crf");
    push_owned(&mut args, crf);
    if include_audio {
        push_text(&mut args, "-c:a");
        push_text(&mut args, "aac");
    }
    push_text(&mut args, "-y");
    push_text(&mut args, output);
    assert(texts(args@) =~= output_args_of(graph_text, codec, quality, include_audio, output@));
    args
}

/// The arguments and the gap warning of the single run over `clips`, which
/// are in timeline order and all have a positive speed.
fn plan_arranged(clips: &Vec<Clip>, config: &ExportConfig) -> (r: (Vec<String>, bool))
    requires
        forall|i: int| 0 <= i < clips.len() ==> (#[trigger] clips[i]).speed > 0,
    ensures
        texts(r.0@) == single_pass_args_of(clip_views(clips@), *config),
        r.1 == exists|i: int|
            0 <= i < clips.len() && is_significant(#[trigger] gap_before(clip_views(clips@), i)),
{
    let ghost views = clip_views(clips@);
    let resolution = Resolution::from_name(&config.resolution);
    let mut args: Vec<String> = Vec::new();
    let mut parts: Vec<String> = Vec::new();
    let mut i: usize = 0;
    while i < clips.len()
        invariant
            i <= clips.len(),
            views == clip_views(clips@),
            resolution == resolution_named(config.resolution@),
            forall|j: int| 0 <= j < clips.len() ==> (#[trigger] clips[j]).speed > 0,
            texts(args@) == inputs_of(views, i as nat),
            texts(parts@) == graph_parts_of(views, resolution, config.include_audio, i as nat),
        decreases clips.len() - i,
    {
        assert(views[i as int] == clips[i as int]@);
        push_all(&mut args, input_args(&clips[i]));
        push_all(&mut parts, clip_parts(i, &clips[i], resolution, config.include_audio));
        i += 1;
    }
    push_owned(&mut parts, join_part(clips.len(), config.include_audio));
    let graph = join(&parts, ";");
    push_all(
        &mut args,
        output_args(
            graph,
            Codec::from_name(&config.codec),
            Quality::from_name(&config.quality),
            config.include_audio,
            config.output_path.as_str(),
        ),
    );
    (args, check_for_gaps(clips))
}

/// Plans the single run that renders `clips` as `config` asks. The clips
/// may be given in any order; the run takes them in timeline order. There
/// is no plan for an empty timeline, nor for one with a clip whose speed is
/// not positive; the number of the first such clip counts the clips as they
/// were given.
pub fn plan_single_pass(clips: &Vec<Clip>, config: &ExportConfig) -> (r: Result<
    SinglePassPlan,
    PlanError,
>)
    ensures
        match r {
            Ok(plan) => {
                &&& clips.len() > 0
                &&& forall|i: int| 0 <= i < clips.len() ==> (#[trigger] clips[i]).speed > 0
                &&& is_single_pass_plan(plan, clip_views(clips@), *config)
            },
            Err(PlanError::EmptyTimeline) => clips.len() == 0,
            Err(PlanError::InvalidSpeed { number }) => clips.len() > 0 && number >= 1
                && is_first_bad_speed(clip_views(clips@), number - 1),
        },
{
    if clips.len() == 0 {
        return Err(PlanError::EmptyTimeline);
    }
    let ghost views = clip_views(clips@);
    let mut i: usize = 0;
    while i < clips.len()
        invariant
            i <= clips.len(),
            views == clip_views(clips@),
            forall|j: int| 0 <= j < i ==> (#[trigger] views[j]).speed > 0,
        decreases clips.len() - i,
    {
        assert(views[i as int] == clips[i as int]@);
        if clips[i].speed <= 0 {
            return Err(PlanError::InvalidSpeed { number: i + 1 });
        }
        i += 1;
    }
    let timeline = normalize(clips);
    let ghost arranged = clip_views(timeline.clips@);
    proof {
        assert(arranged =~= arranged_views(views, timeline.order@));
        assert forall|k: int| 0 <= k < timeline.clips.len() implies (
        #[trigger] timeline.clips[k]).speed > 0 by {
            assert(arranged[k] == views[timeline.order[k] as int]);
            assert(views[timeline.order[k] as int].speed > 0);
        }
        assert forall|j: int| 0 <= j < clips.len() implies (#[trigger] clips[j]).speed > 0 by {
            assert(views[j].speed > 0);
        }
    }
    let planned = plan_arranged(&timeline.clips, config);
    let plan = SinglePassPlan { args: planned.0, drops_gaps: planned.1, order: timeline.order };
    proof {
        let given = arranged_views(views, plan.order@);
        assert(given == arranged);
        assert(given.len() == timeline.clips.len());
        assert(texts(plan.args@) == single_pass_args_of(given, *config));
        assert(plan.drops_gaps == exists|i: int|
            0 <= i < given.len() && is_significant(#[trigger] gap_before(given, i)));
        assert(is_single_pass_plan(plan, views, *config));
    }
    Ok(plan)
}

/// What the host is to do next in a single-pass export.
pub enum SinglePassStep {
    /// Find the transcoding program.
    FindTool,
    /// Nothing but to report how far the export has come, and go on.
    Continue,
    /// Run the transcoding program with the arguments of the plan.
    Encode,
    /// The export has ended, with the path of the output or with the
    /// reason of its failure.
    Finished(Result<String, String>),
}

/// A single-pass export under way.
pub struct SinglePassRun {
    pub progress: ExportProgress,
    pub output_path: String,
    /// The one run of the transcoding program, where there is one to make.
    pub plan: Option<SinglePassPlan>,
    /// What the caller is told if the export failed.
    pub failure: Option<String>,
}

/// What the caller is told about a clip without a positive speed.
pub open spec fn invalid_speed_text(number: nat) -> Seq<char> {
    "Clip "@ + decimal(number) + " has invalid speed"@
}

impl SinglePassRun {
    /// Whether the run is in a state that a run can reach.
    pub open spec fn wf(&self) -> bool {
        let p = self.progress;
        match p.status {
            Phase::Error => p.error is Some && self.failure is Some && p.current_clip is None,
            Phase::Preparing
            | Phase::BuildingFilterGraph
            | Phase::ProcessingClips
            | Phase::EncodingVideo
            | Phase::Complete => {
                &&& self.plan is Some
                &&& single_pass_share(p.status) == Some(p.percentage)
                &&& p.error is None
                &&& p.current_clip is None
                &&& self.failure is None
            },
            _ => false,
        }
    }

    /// Whether `step` is the step the run waits for.
    pub open spec fn is_pending(&self, step: SinglePassStep) -> bool {
        match self.progress.status {
            Phase::Preparing => step is FindTool,
            Phase::BuildingFilterGraph => step is Continue,
            Phase::ProcessingClips => step is Continue,
            Phase::EncodingVideo => step is Encode,
            Phase::Complete => step matches SinglePassStep::Finished(Ok(path)) && path@
                == self.output_path@,
            Phase::Error => step matches SinglePassStep::Finished(Err(reason)) && Some(reason@)
                == opt_text(self.failure),
            _ => false,
        }
    }

    /// Whether the run has failed: it is in the error phase, its progress
    /// records `error`, the caller is told `failure`, and it has come as
    /// far as `percentage`.
    pub open spec fn has_failed(&self, error: Seq<char>, failure: Seq<char>, percentage: u32) -> bool {
        &&& self.progress.status == Phase::Error
        &&& self.progress.percentage == percentage
        &&& opt_text(self.progress.error) == Some(error)
        &&& opt_text(self.failure) == Some(failure)
    }

    /// Whether `after` is the run that `before` becomes when the pending
    /// step went as `outcome` says. Not finding the program and a failed
    /// run of it end the export in the error phase; the steps in between
    /// cannot fail.
    pub open spec fn follows(before: SinglePassRun, outcome: Outcome, after: SinglePassRun) -> bool {
        &&& after.output_path@ == before.output_path@
        &&& after.plan == before.plan
        &&& match before.progress.status {
            Phase::Preparing => match outcome {
                Outcome::Done => after.progress.status == Phase::BuildingFilterGraph,
                Outcome::Failed(reason) => after.has_failed(
                    "FFmpeg not found: "@ + reason@,
                    "FFmpeg not found: "@ + reason@,
                    before.progress.percentage,
                ),
            },
            Phase::BuildingFilterGraph => after.progress.status == Phase::ProcessingClips,
            Phase::ProcessingClips => after.progress.status == Phase::EncodingVideo,
            Phase::EncodingVideo => match outcome {
                Outcome::Done => after.progress.status == Phase::Complete,
                Outcome::Failed(diagnostics) => after.has_failed(
                    diagnostics@,
                    "Export failed: "@ + diagnostics@,
                    before.progress.percentage,
                ),
            },
            _ => {
                &&& after.progress.status == before.progress.status
                &&& after.progress.percentage == before.progress.percentage
                &&& opt_text(after.progress.error) == opt_text(before.progress.error)
                &&& opt_text(after.failure) == opt_text(before.failure)
            },
        }
    }

    fn failed(output_path: &str, message: &str) -> (run: SinglePassRun)
        ensures
            run.wf(),
            run.has_failed(message@, message@, 0),
            run.plan is None,
            run.output_path@ == output_path@,
    {
        SinglePassRun {
            progress: ExportProgress {
                percentage: 0,
                status: Phase::Error,
                error: Some(String::from_str(message)),
                current_clip: None,
            },
            output_path: String::from_str(output_path),
            plan: None,
            failure: Some(String::from_str(message)),
        }
    }

    /// Starts the single-pass export of `clips`, which may be given in any
    /// order. An export of no clips, or of a clip without a positive speed,
    /// has failed before it starts: it is in the error phase with the
    /// reason. Any other export is planned and waits for the transcoding
    /// program to be found.
    pub fn start(clips: &Vec<Clip>, config: &ExportConfig) -> (run: SinglePassRun)
        ensures
            run.wf(),
            run.output_path@ == config.output_path@,
            clips.len() == 0 ==> run.has_failed(
                "No clips to export"@,
                "No clips to export"@,
                0,
            ),
            forall|i: int|
                clips.len() > 0 && #[trigger] is_first_bad_speed(clip_views(clips@), i)
                    ==> run.has_failed(
                    invalid_speed_text((i + 1) as nat),
                    invalid_speed_text((i + 1) as nat),
                    0,
                ),
            clips.len() > 0 && (forall|i: int|
                0 <= i < clips.len() ==> (#[trigger] clips[i]).speed > 0) ==> {
                &&& run.progress.status == Phase::Preparing
                &&& run.plan is Some
                &&& is_single_pass_plan(run.plan->0, clip_views(clips@), *config)
            },
            run.progress.status == Phase::Preparing || run.progress.status == Phase::Error,
    {
        match plan_single_pass(clips, config) {
            Ok(plan) => {
                proof {
                    assert forall|i: int|
                        clips.len() > 0 && #[trigger] is_first_bad_speed(
                            clip_views(clips@),
                            i,
                        ) implies false by {
                        assert(clip_views(clips@)[i] == clips[i]@);
                    }
                }
                SinglePassRun {
                    progress: ExportProgress {
                        percentage: 0,
                        status: Phase::Preparing,
                        error: None,
                        current_clip: None,
                    },
                    output_path: config.output_path.clone(),
                    plan: Some(plan),
                    failure: None,
                }
            },
            Err(PlanError::EmptyTimeline) => SinglePassRun::failed(
                config.output_path.as_str(),
                "No clips to export",
            ),
            Err(PlanError::InvalidSpeed { number }) => {
                let mut message = String::from_str("Clip ");
                push_decimal(&mut message, number as u128);
                message.append(" has invalid speed");
                proof {
                    let views = clip_views(clips@);
                    assert(views[number - 1] == clips[number - 1]@);
                    assert forall|i: int|
                        clips.len() > 0 && #[trigger] is_first_bad_speed(views, i) implies i
                        == number - 1 by {
                        if i < number - 1 {
                            assert(views[i].speed > 0);
                        } else if i > number - 1 {
                            assert(views[number - 1].speed > 0);
                        }
                    }
                }
                SinglePassRun::failed(config.output_path.as_str(), message.as_str())
            },
        }
    }

    /// The step the run waits for.
    pub fn pending(&self) -> (step: SinglePassStep)
        requires
            self.wf(),
        ensures
            self.is_pending(step),
    {
        match self.progress.status {
            Phase::Preparing => SinglePassStep::FindTool,
            Phase::BuildingFilterGraph => SinglePassStep::Continue,
            Phase::ProcessingClips => SinglePassStep::Continue,
            Phase::EncodingVideo => SinglePassStep::Encode,
            Phase::Complete => SinglePassStep::Finished(Ok(self.output_path.clone())),
            _ => match &self.failure {
                Some(reason) => SinglePassStep::Finished(Err(reason.clone())),
                None => SinglePassStep::Continue,
            },
        }
    }

    fn enter(&mut self, phase: Phase)
        requires
            single_pass_share(phase) is Some,
            old(self).progress.error is None,
            old(self).progress.current_clip is None,
        ensures
            final(self).progress.status == phase,
            single_pass_share(phase) == Some(final(self).progress.percentage),
            final(self).progress.error is None,
            final(self).progress.current_clip is None,
            final(self).plan == old(self).plan,
            final(self).output_path == old(self).output_path,
            final(self).failure == old(self).failure,
    {
        match ExportProgress::single_pass(phase) {
            Some(progress) => {
                self.progress = progress;
            },
            None => {},
        }
    }

    fn fail(&mut self, error: String, failure: String)
        ensures
            final(self).has_failed(error@, failure@, old(self).progress.percentage),
            final(self).progress.current_clip == old(self).progress.current_clip,
            final(self).plan == old(self).plan,
            final(self).output_path == old(self).output_path,
    {
        self.progress.fail(error);
        self.failure = Some(failure);
    }

    /// Takes note of how the pending step went and says what to do next.
    /// Every failure ends the export in the error phase with its reason. A
    /// run that has ended stays as it is.
    pub fn advance(&mut self, outcome: Outcome) -> (step: SinglePassStep)
        requires
            old(self).wf(),
        ensures
            final(self).wf(),
            final(self).is_pending(step),
            SinglePassRun::follows(*old(self), outcome, *final(self)),
            final(self).progress.percentage >= old(self).progress.percentage,
    {
        match self.progress.status {
            Phase::Preparing => match outcome {
                Outcome::Done => {
                    self.enter(Phase::BuildingFilterGraph);
                },
                Outcome::Failed(reason) => {
                    self.fail(
                        tool_missing_message(reason.as_str()),
                        tool_missing_message(reason.as_str()),
                    );
                },
            },
            Phase::BuildingFilterGraph => {
                self.enter(Phase::ProcessingClips);
            },
            Phase::ProcessingClips => {
                self.enter(Phase::EncodingVideo);
            },
            Phase::EncodingVideo => match outcome {
                Outcome::Done => {
                    self.enter(Phase::Complete);
                },
                Outcome::Failed(diagnostics) => {
                    let failure = single_pass_failure(diagnostics.as_str());
                    self.fail(diagnostics, failure);
                },
            },
            _ => {},
        }
        self.pending()
    }

    /// A copy of the run's progress.
    pub fn progress(&self) -> (p: ExportProgress)
        ensures
            p.percentage == self.progress.percentage,
            p.status == self.progress.status,
            opt_text(p.error) == opt_text(self.progress.error),
            opt_text(p.current_clip) == opt_text(self.progress.current_clip),
    {
        self.progress.snapshot()
    }
}

} // verus!
