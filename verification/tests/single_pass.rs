use zapcut::model::{Clip, ExportConfig};
use zapcut::export::{Outcome, Phase, FULL};
use zapcut::single_pass::{
    label_chain, plan_single_pass, PlanError, SinglePassRun, SinglePassStep,
};

fn clip(id: &str, start_s: f64, duration_s: f64, speed: f64) -> Clip {
    Clip {
        id: id.to_string(),
        file_path: format!("/media/{id}.mp4"),
        start_time: (start_s * 1e6).round() as i64,
        trim_start: 500_000,
        trim_end: 0,
        duration: (duration_s * 1e6).round() as i64,
        speed: (speed * 1e6).round() as i64,
        track_index: None,
    }
}

fn config(resolution: &str, codec: &str, include_audio: bool) -> ExportConfig {
    ExportConfig {
        output_path: "/out/final.mp4".to_string(),
        resolution: resolution.to_string(),
        format: "mp4".to_string(),
        codec: codec.to_string(),
        quality: "high".to_string(),
        fps: None,
        include_audio,
    }
}

#[test]
fn two_clips_with_sound() {
    let clips = vec![clip("a", 0.0, 2.0, 1.0), clip("b", 2.0, 3.0, 5.0)];
    let plan = plan_single_pass(&clips, &config("720p", "h265", true)).ok().unwrap();
    assert!(!plan.drops_gaps);
    let fit = "scale=1280:720:force_original_aspect_ratio=decrease,pad=1280:720:(ow-iw)/2:(oh-ih)/2";
    let graph = format!(
        "[0:v]{fit}[v0];[0:a]anull[a0];[1:v]setpts=0.200000*PTS,{fit}[v1];\
         [1:a]atempo=2.0,atempo=2.0,atempo=1.250[a1];\
         [a0][a1][v0][v1]concat=n=2:v=1:a=1[outa][outv]"
    );
    let expected: Vec<&str> = vec![
        "-ss",
        "0.500",
        "-t",
        "2.000",
        "-i",
        "/media/a.mp4",
        "-ss",
        "0.500",
        "-t",
        "15.000",
        "-i",
        "/media/b.mp4",
        "-filter_complex",
        &graph,
        "-map",
        "[outv]",
        "-map",
        "[outa]",
        "-c:v",
        "libx265",
        "-crf",
        "18",
        "-c:a",
        "aac",
        "-y",
        "/out/final.mp4",
    ];
    assert_eq!(plan.args, expected);
}

#[test]
fn one_clip_without_sound_at_source_size() {
    let clips = vec![clip("a", 0.0, 2.0, 1.0)];
    let plan = plan_single_pass(&clips, &config("source", "h264", false)).ok().unwrap();
    let expected: Vec<&str> = vec![
        "-ss",
        "0.500",
        "-t",
        "2.000",
        "-i",
        "/media/a.mp4",
        "-filter_complex",
        "[0:v]null[v0];[v0]concat=n=1:v=1:a=0[outv]",
        "-map",
        "[outv]",
        "-c:v",
        "libx264",
        "-crf",
        "18",
        "-y",
        "/out/final.mp4",
    ];
    assert_eq!(plan.args, expected);
}

#[test]
fn gaps_are_noticed_but_not_filled() {
    let clips = vec![clip("a", 0.0, 5.0, 1.0), clip("b", 5.0, 5.0, 1.0), clip("c", 12.0, 5.0, 1.0)];
    let plan = plan_single_pass(&clips, &config("source", "h264", false)).ok().unwrap();
    assert!(plan.drops_gaps);
    assert_eq!(plan.args.iter().filter(|a| a.as_str() == "-i").count(), 3);
    assert!(!plan.args.iter().any(|a| a.contains("color=")));
}

#[test]
fn no_plan_without_clips_or_with_a_bad_speed() {
    assert_eq!(
        plan_single_pass(&Vec::new(), &config("720p", "h264", true)).err(),
        Some(PlanError::EmptyTimeline)
    );
    let clips = vec![clip("a", 0.0, 1.0, 1.0), clip("b", 1.0, 1.0, 0.0), clip("c", 2.0, 1.0, -1.0)];
    assert_eq!(
        plan_single_pass(&clips, &config("720p", "h264", true)).err(),
        Some(PlanError::InvalidSpeed { number: 2 })
    );
}

#[test]
fn labelled_chains() {
    let none: Vec<String> = Vec::new();
    assert_eq!(label_chain(0, "v", &none, "null"), "[0:v]null[v0]");
    assert_eq!(label_chain(12, "a", &none, "anull"), "[12:a]anull[a12]");
    let two = vec!["x=1".to_string(), "y=2".to_string()];
    assert_eq!(label_chain(3, "v", &two, "null"), "[3:v]x=1,y=2[v3]");
}

#[test]
fn clips_are_taken_in_timeline_order() {
    let clips = vec![clip("late", 5.0, 1.0, 1.0), clip("early", 0.0, 5.0, 1.0)];
    let plan = plan_single_pass(&clips, &config("source", "h264", false)).ok().unwrap();
    assert_eq!(plan.order, vec![1, 0]);
    assert_eq!(plan.args[5], "/media/early.mp4");
    assert_eq!(plan.args[11], "/media/late.mp4");
    assert!(!plan.drops_gaps);
    let sorted = vec![clip("early", 0.0, 5.0, 1.0), clip("late", 5.0, 1.0, 1.0)];
    let same = plan_single_pass(&sorted, &config("source", "h264", false)).ok().unwrap();
    assert_eq!(plan.args, same.args);
}

#[test]
fn a_bad_speed_is_numbered_as_the_clips_were_given() {
    let clips = vec![clip("late", 5.0, 1.0, 0.0), clip("early", 0.0, 5.0, 1.0)];
    assert_eq!(
        plan_single_pass(&clips, &config("720p", "h264", true)).err(),
        Some(PlanError::InvalidSpeed { number: 1 })
    );
}

#[test]
fn a_single_pass_run_goes_through_its_phases() {
    let clips = vec![clip("b", 2.0, 3.0, 1.0), clip("a", 0.0, 2.0, 1.0)];
    let mut run = SinglePassRun::start(&clips, &config("720p", "h264", true));
    assert_eq!(run.progress.status, Phase::Preparing);
    assert_eq!(run.progress.percentage, 0);
    assert!(matches!(run.pending(), SinglePassStep::FindTool));
    assert!(matches!(run.advance(Outcome::Done), SinglePassStep::Continue));
    assert_eq!((run.progress.status, run.progress.percentage), (Phase::BuildingFilterGraph, 20_000_000));
    assert!(matches!(run.advance(Outcome::Done), SinglePassStep::Continue));
    assert_eq!((run.progress.status, run.progress.percentage), (Phase::ProcessingClips, 40_000_000));
    assert!(matches!(run.advance(Outcome::Done), SinglePassStep::Encode));
    assert_eq!((run.progress.status, run.progress.percentage), (Phase::EncodingVideo, 60_000_000));
    assert_eq!(run.plan.as_ref().unwrap().args[5], "/media/a.mp4");
    match run.advance(Outcome::Done) {
        SinglePassStep::Finished(Ok(path)) => assert_eq!(path, "/out/final.mp4"),
        _ => panic!("the export should have completed"),
    }
    assert_eq!((run.progress.status, run.progress.percentage), (Phase::Complete, FULL));
    assert!(run.progress.error.is_none());
    assert!(matches!(run.advance(Outcome::Done), SinglePassStep::Finished(Ok(_))));
}

#[test]
fn a_single_pass_export_of_no_clips_fails_before_it_starts() {
    let mut run = SinglePassRun::start(&Vec::new(), &config("720p", "h264", true));
    assert_eq!(run.progress.status, Phase::Error);
    assert_eq!(run.progress.percentage, 0);
    assert_eq!(run.progress.error.as_deref(), Some("No clips to export"));
    assert!(run.plan.is_none());
    match run.pending() {
        SinglePassStep::Finished(Err(reason)) => assert_eq!(reason, "No clips to export"),
        _ => panic!("the export should have failed"),
    }
    assert!(matches!(run.advance(Outcome::Done), SinglePassStep::Finished(Err(_))));
    assert_eq!(run.progress.status, Phase::Error);
}

#[test]
fn a_single_pass_export_with_a_bad_speed_fails_before_it_starts() {
    let clips = vec![clip("a", 0.0, 1.0, 1.0), clip("b", 1.0, 1.0, -1.0)];
    let run = SinglePassRun::start(&clips, &config("720p", "h264", true));
    assert_eq!(run.progress.status, Phase::Error);
    assert_eq!(run.progress.error.as_deref(), Some("Clip 2 has invalid speed"));
    match run.pending() {
        SinglePassStep::Finished(Err(reason)) => assert_eq!(reason, "Clip 2 has invalid speed"),
        _ => panic!("the export should have failed"),
    }
}

#[test]
fn a_missing_program_ends_a_single_pass_export() {
    let clips = vec![clip("a", 0.0, 1.0, 1.0)];
    let mut run = SinglePassRun::start(&clips, &config("720p", "h264", true));
    match run.advance(Outcome::Failed("not bundled".to_string())) {
        SinglePassStep::Finished(Err(reason)) => assert_eq!(reason, "FFmpeg not found: not bundled"),
        _ => panic!("the export should have failed"),
    }
    assert_eq!(run.progress.status, Phase::Error);
    assert_eq!(run.progress.error.as_deref(), Some("FFmpeg not found: not bundled"));
    assert_eq!(run.progress.percentage, 0);
}

#[test]
fn a_failed_run_ends_a_single_pass_export() {
    let clips = vec![clip("a", 0.0, 1.0, 1.0)];
    let mut run = SinglePassRun::start(&clips, &config("720p", "h264", true));
    run.advance(Outcome::Done);
    run.advance(Outcome::Done);
    run.advance(Outcome::Done);
    match run.advance(Outcome::Failed("Conversion failed!".to_string())) {
        SinglePassStep::Finished(Err(reason)) => {
            assert_eq!(reason, "Export failed: Conversion failed!")
        }
        _ => panic!("the export should have failed"),
    }
    assert_eq!(run.progress.status, Phase::Error);
    assert_eq!(run.progress.error.as_deref(), Some("Conversion failed!"));
    assert_eq!(run.progress.percentage, 60_000_000);
}
