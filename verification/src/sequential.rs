//! The sequential strategy: every clip and every gap becomes a file of its
//! own, all in the same format, and the files are joined without encoding
//! them again.

use vstd::prelude::*;
use vstd::string::*;
use crate::model::{
    Clip, Codec, ExportConfig, Resolution, Target, codec_named, resolution_named,
};
use crate::planner::{clip_args, clip_args_of, directive_of, plan_clip};
use crate::timeline::{Gap, Timeline};
use crate::text::{
    decimal, padded, plain_text, push_decimal, push_owned, push_padded,
    push_plain, push_seconds, push_text, seconds_text, texts,
};
use crate::validate::ClipValidation;

verus! {

/// The name of the list of files to join.
pub const MANIFEST_NAME: &'static str = "concat_list.txt";

/// The number of pixels of a picture size.
pub open spec fn area(size: (u32, u32)) -> int {
    size.0 * size.1
}

/// Whether the clip at `i` has the largest picture, and is the last of those
/// that have.
pub open spec fn is_largest_picture(list: Seq<ClipValidation>, i: int) -> bool {
    &&& 0 <= i < list.len()
    &&& forall|j: int| 0 <= j < list.len() ==> area(#[trigger] list[j].resolution) <= area(list[i].resolution)
    &&& forall|j: int| i < j < list.len() ==> area(#[trigger] list[j].resolution) < area(list[i].resolution)
}

/// Whether `size` is the picture size of an export: the size that the
/// configuration names, or for `source` that of the largest picture among
/// the clips, 1920 by 1080 where there is no clip.
pub open spec fn is_target_size(
    resolution: Resolution,
    list: Seq<ClipValidation>,
    size: (u32, u32),
) -> bool {
    match resolution.spec_dimensions() {
        Some(fixed) => size == fixed,
        None => if list.len() == 0 {
            size == (1920u32, 1080u32)
        } else {
            exists|i: int| #[trigger] is_largest_picture(list, i) && size == list[i].resolution
        },
    }
}

/// The position of the last of the largest pictures among the first `count`
/// clips; 0 where `count` is 0.
pub open spec fn largest_picture(list: Seq<ClipValidation>, count: nat) -> int
    decreases count,
{
    if count <= 1 {
        0
    } else {
        let before = largest_picture(list, (count - 1) as nat);
        if area(list[count - 1].resolution) >= area(list[before].resolution) {
            count - 1
        } else {
            before
        }
    }
}

/// The picture size of an export: the size that the configuration names, or
/// for `source` that of the largest picture among the clips, the last of
/// them where several are as large; 1920 by 1080 where there is no clip.
pub open spec fn target_size_of(resolution: Resolution, list: Seq<ClipValidation>) -> (u32, u32) {
    match resolution.spec_dimensions() {
        Some(fixed) => fixed,
        None => if list.len() == 0 {
            (1920u32, 1080u32)
        } else {
            list[largest_picture(list, list.len())].resolution
        },
    }
}

/// Picture size and frame rate of an export.
pub open spec fn target_of(config: ExportConfig, list: Seq<ClipValidation>) -> Target {
    let size = target_size_of(resolution_named(config.resolution@), list);
    Target { width: size.0, height: size.1, fps: config.spec_target_fps() }
}

/// The position that `largest_picture` names holds the largest picture, and
/// no later one is as large.
pub proof fn lemma_largest_picture(list: Seq<ClipValidation>, count: nat)
    requires
        0 < count <= list.len(),
    ensures
        is_largest_picture(list.take(count as int), largest_picture(list, count)),
    decreases count,
{
    let part = list.take(count as int);
    let best = largest_picture(list, count);
    if count > 1 {
        lemma_largest_picture(list, (count - 1) as nat);
        let shorter = list.take(count - 1);
        let before = largest_picture(list, (count - 1) as nat);
        assert forall|j: int| 0 <= j < part.len() implies area(#[trigger] part[j].resolution)
            <= area(part[best].resolution) by {
            if j < count - 1 {
                assert(part[j] == shorter[j]);
                assert(part[before] == shorter[before]);
            }
        }
        assert forall|j: int| best < j < part.len() implies area(#[trigger] part[j].resolution)
            < area(part[best].resolution) by {
            if j < count - 1 {
                assert(part[j] == shorter[j]);
                assert(part[before] == shorter[before]);
            }
        }
    }
}

/// The picture size every segment of the export is brought to.
pub fn target_resolution(config: &ExportConfig, validations: &Vec<ClipValidation>) -> (size: (
    u32,
    u32,
))
    ensures
        size == target_size_of(resolution_named(config.resolution@), validations@),
        is_target_size(resolution_named(config.resolution@), validations@, size),
{
    match Resolution::from_name(&config.resolution).dimensions() {
        Some(fixed) => fixed,
        None => {
            if validations.len() == 0 {
                return (1920, 1080);
            }
            let mut best: usize = 0;
            let mut i: usize = 1;
            while i < validations.len()
                invariant
                    1 <= i <= validations.len(),
                    best == largest_picture(validations@, i as nat),
                    best < i,
                decreases validations.len() - i,
            {
                let here = validations[i].resolution;
                let top = validations[best].resolution;
                assert(here.0 * here.1 <= 0xffff_ffff * 0xffff_ffff) by (nonlinear_arith)
                    requires
                        0 <= here.0 <= 0xffff_ffff,
                        0 <= here.1 <= 0xffff_ffff,
                ;
                assert(top.0 * top.1 <= 0xffff_ffff * 0xffff_ffff) by (nonlinear_arith)
                    requires
                        0 <= top.0 <= 0xffff_ffff,
                        0 <= top.1 <= 0xffff_ffff,
                ;
                if (here.0 as u64) * (here.1 as u64) >= (top.0 as u64) * (top.1 as u64) {
                    best = i;
                }
                i += 1;
            }
            proof {
                lemma_largest_picture(validations@, validations.len() as nat);
                assert(validations@.take(validations.len() as int) =~= validations@);
            }
            validations[best].resolution
        },
    }
}

/// Picture size and frame rate of the export.
pub fn export_target(config: &ExportConfig, validations: &Vec<ClipValidation>) -> (target: Target)
    ensures
        target == target_of(*config, validations@),
        is_target_size(
            resolution_named(config.resolution@),
            validations@,
            (target.width, target.height),
        ),
{
    let size = target_resolution(config, validations);
    Target { width: size.0, height: size.1, fps: config.target_fps() }
}

/// A number written with at least three digits.
pub open spec fn serial_text(n: nat) -> Seq<char> {
    if n < 1000 {
        padded(n, 3)
    } else {
        decimal(n)
    }
}

/// The name of the file that holds the clip at `index`.
pub open spec fn clip_file_name_of(index: nat) -> Seq<char> {
    "clip_"@ + serial_text(index) + ".mp4"@
}

/// The name of the file that fills the gap before the clip at `index`.
pub open spec fn filler_file_name_of(index: nat) -> Seq<char> {
    "black_gap_"@ + serial_text(index) + ".mp4"@
}

fn push_serial(out: &mut String, n: usize)
    ensures
        final(out)@ == old(out)@ + serial_text(n as nat),
{
    if n < 1000 {
        push_padded(out, n as u128, 3);
    } else {
        push_decimal(out, n as u128);
    }
}

/// The name of the file that holds the clip at `index`.
pub fn clip_file_name(index: usize) -> (name: String)
    ensures
        name@ == clip_file_name_of(index as nat),
{
    let mut name = String::from_str("clip_");
    push_serial(&mut name, index);
    name.append(".mp4");
    name
}

/// The name of the file that fills the gap before the clip at `index`.
pub fn filler_file_name(index: usize) -> (name: String)
    ensures
        name@ == filler_file_name_of(index as nat),
{
    let mut name = String::from_str("black_gap_");
    push_serial(&mut name, index);
    name.append(".mp4");
    name
}

/// How the gap before a clip is filled: black picture, and silence if the
/// segments carry sound.
#[derive(Clone, Copy, Debug, PartialEq, Eq, Structural)]
pub struct FillerDirective {
    /// Length in microseconds.
    pub duration: i128,
    pub target: Target,
    pub codec: Codec,
    pub with_audio: bool,
}

/// The directive that fills a gap of `duration` microseconds.
pub fn synthesize_gap(duration: i128, target: Target, codec: Codec, include_audio: bool) -> (d:
    FillerDirective)
    ensures
        d == (FillerDirective { duration, target, codec, with_audio: include_audio }),
{
    FillerDirective { duration, target, codec, with_audio: include_audio }
}

/// The source of black picture for a filler.
pub open spec fn black_source_text(d: FillerDirective) -> Seq<char> {
    "color=c=black:s="@ + decimal(d.target.width as nat) + "x"@ + decimal(d.target.height as nat)
        + ":d="@ + seconds_text(d.duration as int) + ":r="@ + plain_text(d.target.fps as nat)
}

/// The source of silence for a filler.
pub open spec fn filler_silence_text(d: FillerDirective) -> Seq<char> {
    "anullsrc=channel_layout=stereo:sample_rate=48000:d="@ + seconds_text(d.duration as int)
}

/// The argument list that renders a filler to `output`.
pub open spec fn filler_args_of(d: FillerDirective, output: Seq<char>) -> Seq<Seq<char>> {
    let picture = seq!["-f"@, "lavfi"@, "-i"@, black_source_text(d)];
    let silence = if d.with_audio {
        seq!["-f"@, "lavfi"@, "-i"@, filler_silence_text(d)]
    } else {
        Seq::empty()
    };
    let video_codec = seq!["-c:v"@, d.codec.spec_encoder()];
    let audio_codec = if d.with_audio {
        seq!["-c:a"@, "aac"@, "-b:a"@, "192k"@]
    } else {
        Seq::empty()
    };
    let rest = seq!["-preset"@, "ultrafast"@, "-pix_fmt"@, "yuv420p"@, "-y"@, output];
    picture + silence + video_codec + audio_codec + rest
}

/// The argument list that renders a filler to `output`.
pub fn filler_args(d: &FillerDirective, output: &str) -> (args: Vec<String>)
    ensures
        texts(args@) == filler_args_of(*d, output@),
{
    let mut black = String::from_str("color=c=black:s=");
    push_decimal(&mut black, d.target.width as u128);
    black.append("x");
    push_decimal(&mut black, d.target.height as u128);
    black.append(":d=");
    push_seconds(&mut black, d.duration);
    black.append(":r=");
    push_plain(&mut black, d.target.fps);
    let mut args: Vec<String> = Vec::new();
    push_text(&mut args, "-f");
    push_text(&mut args, "lavfi");
    push_text(&mut args, "-i");
    push_owned(&mut args, black);
    if d.with_audio {
        let mut silence = String::from_str("anullsrc=channel_layout=stereo:sample_rate=48000:d=");
        push_seconds(&mut silence, d.duration);
        push_text(&mut args, "-f");
        push_text(&mut args, "lavfi");
        push_text(&mut args, "-i");
        push_owned(&mut args, silence);
    }
    push_text(&mut args, "-c:v");
    push_text(&mut args, d.codec.encoder());
    if d.with_audio {
        push_text(&mut args, "-c:a");
        push_text(&mut args, "aac");
        push_text(&mut args, "-b:a");
        push_text(&mut args, "192k");
    }
    push_text(&mut args, "-preset");
    push_text(&mut args, "ultrafast");
    push_text(&mut args, "-pix_fmt");
    push_text(&mut args, "yuv420p");
    push_text(&mut args, "-y");
    push_text(&mut args, output);
    assert(texts(args@) =~= filler_args_of(*d, output@));
    args
}

/// The argument list that renders the clip at `index` of the timeline to
/// `output`: the clip is planned with what the probe found about its own
/// source, which `order` finds among `validations`, and for the target of
/// the export.
pub open spec fn clip_request_of(
    clips: Seq<Clip>,
    order: Seq<usize>,
    validations: Seq<ClipValidation>,
    config: ExportConfig,
    index: int,
    output: Seq<char>,
) -> Seq<Seq<char>> {
    clip_args_of(
        clips[index]@.file_path,
        directive_of(
            clips[index]@,
            validations[order[index] as int].has_audio,
            config,
            target_of(config, validations),
        ),
        output,
    )
}

/// The argument list that renders the clip at `index` of `timeline` to
/// `output`. `validations` holds what was found about each clip's source in
/// the order in which the clips were given, as `validate_all_clips` returns
/// it. There is no request for a clip that has no validation or no positive
/// speed.
pub fn render_clip_args(
    timeline: &Timeline,
    validations: &Vec<ClipValidation>,
    config: &ExportConfig,
    index: usize,
    output: &str,
) -> (r: Option<Vec<String>>)
    requires
        index < timeline.clips.len(),
        timeline.order.len() == timeline.clips.len(),
    ensures
        match r {
            Some(args) => {
                &&& timeline.order[index as int] < validations.len()
                &&& timeline.clips[index as int].speed > 0
                &&& texts(args@) == clip_request_of(
                    timeline.clips@,
                    timeline.order@,
                    validations@,
                    *config,
                    index as int,
                    output@,
                )
            },
            None => timeline.order[index as int] >= validations.len()
                || timeline.clips[index as int].speed <= 0,
        },
{
    let clip = &timeline.clips[index];
    let place = timeline.order[index];
    if place >= validations.len() || clip.speed <= 0 {
        return None;
    }
    let target = export_target(config, validations);
    let directive = plan_clip(clip, validations[place].has_audio, config, target);
    Some(clip_args(clip.file_path.as_str(), &directive, output))
}

/// The argument list that fills `gap` with black picture and silence and
/// writes the result to `output`, in the codec and for the target of the
/// export. Every segment carries sound, so the filler does.
pub open spec fn filler_request_of(
    gap: Gap,
    validations: Seq<ClipValidation>,
    config: ExportConfig,
    output: Seq<char>,
) -> Seq<Seq<char>> {
    filler_args_of(
        FillerDirective {
            duration: gap.duration,
            target: target_of(config, validations),
            codec: codec_named(config.codec@),
            with_audio: true,
        },
        output,
    )
}

/// The argument list that fills `gap` and writes the result to `output`.
pub fn render_filler_args(
    gap: Gap,
    validations: &Vec<ClipValidation>,
    config: &ExportConfig,
    output: &str,
) -> (args: Vec<String>)
    ensures
        texts(args@) == filler_request_of(gap, validations@, *config, output@),
{
    let directive = synthesize_gap(
        gap.duration,
        export_target(config, validations),
        Codec::from_name(&config.codec),
        true,
    );
    filler_args(&directive, output)
}

/// One line of the list of files to join.
pub open spec fn manifest_line(path: Seq<char>) -> Seq<char> {
    "file '"@ + path + "'\n"@
}

/// The list of files to join: one line for each path, in order.
pub open spec fn manifest_text(paths: Seq<Seq<char>>) -> Seq<char>
    decreases paths.len(),
{
    if paths.len() == 0 {
        Seq::empty()
    } else {
        manifest_text(paths.drop_last()) + manifest_line(paths.last())
    }
}

/// The list of files to join, for the segment files `paths` in timeline
/// order.
pub fn concat_manifest(paths: &Vec<String>) -> (text: String)
    ensures
        text@ == manifest_text(texts(paths@)),
{
    let mut text = String::new();
    let mut i: usize = 0;
    while i < paths.len()
        invariant
            i <= paths.len(),
            text@ == manifest_text(texts(paths@).take(i as int)),
        decreases paths.len() - i,
    {
        let ghost before = text@;
        proof {
            let now = texts(paths@).take(i + 1);
            assert(now.drop_last() =~= texts(paths@).take(i as int));
            assert(now.last() == paths@[i as int]@);
        }
        text.append("file '");
        text.append(paths[i].as_str());
        text.append("'\n");
        assert(text@ =~= before + manifest_line(paths@[i as int]@));
        i += 1;
    }
    assert(texts(paths@).take(paths.len() as int) =~= texts(paths@));
    text
}

/// The argument list that joins the files listed in `manifest` into
/// `output` without encoding them again.
pub open spec fn concat_args_of(manifest: Seq<char>, output: Seq<char>) -> Seq<Seq<char>> {
    seq![
        "-f"@,
        "concat"@,
        "-safe"@,
        "0"@,
        "-i"@,
        manifest,
        "-c"@,
        "copy"@,
        "-movflags"@,
        "+faststart"@,
        "-y"@,
        output,
    ]
}

/// The argument list that joins the files listed in `manifest` into
/// `output`.
pub fn concat_args(manifest: &str, output: &str) -> (args: Vec<String>)
    ensures
        texts(args@) == concat_args_of(manifest@, output@),
{
    let mut args: Vec<String> = Vec::new();
    push_text(&mut args, "-f");
    push_text(&mut args, "concat");
    push_text(&mut args, "-safe");
    push_text(&mut args, "0");
    push_text(&mut args, "-i");
    push_text(&mut args, manifest);
    push_text(&mut args, "-c");
    push_text(&mut args, "copy");
    push_text(&mut args, "-movflags");
    push_text(&mut args, "+faststart");
    push_text(&mut args, "-y");
    push_text(&mut args, output);
    assert(texts(args@) =~= concat_args_of(manifest@, output@));
    args
}

} // verus!
