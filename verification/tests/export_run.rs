use zapcut::export::{ExportProgress, ExportRun, Outcome, Phase, Step, FULL};
use zapcut::timeline::Gap;

fn ids(n: usize) -> Vec<String> {
    (0..n).map(|i| format!("clip-{i}")).collect()
}

fn failed(text: &str) -> Outcome {
    Outcome::Failed(text.to_string())
}

#[test]
fn idle_progress() {
    let p = ExportProgress::idle();
    assert_eq!(p.percentage, 0);
    assert_eq!(p.status, Phase::Idle);
    assert!(p.error.is_none() && p.current_clip.is_none());
}

#[test]
fn phase_labels() {
    assert_eq!(Phase::Idle.label(), "idle");
    assert_eq!(Phase::Preparing.label(), "preparing");
    assert_eq!(Phase::Validating.label(), "validating");
    assert_eq!(Phase::BuildingFilterGraph.label(), "building filter graph");
    assert_eq!(Phase::ProcessingClips.label(), "processing clips");
    assert_eq!(Phase::EncodingVideo.label(), "encoding video");
    assert_eq!(Phase::Concatenating.label(), "concatenating");
    assert_eq!(Phase::Finalizing.label(), "finalizing");
    assert_eq!(Phase::ValidatingOutput.label(), "validating output");
    assert_eq!(Phase::Complete.label(), "complete");
    assert_eq!(Phase::Error.label(), "error");
    assert!(Phase::Complete.is_terminal() && Phase::Error.is_terminal());
    assert!(!Phase::Finalizing.is_terminal());
}

#[test]
fn a_run_without_gaps_goes_through_every_phase() {
    let mut run = ExportRun::start(&ids(3), &Vec::new(), "/out/final.mp4");
    assert_eq!(run.progress.status, Phase::Validating);
    assert_eq!(run.progress.percentage, 0);
    assert!(matches!(run.pending(), Step::ValidateSources));

    assert!(matches!(run.advance(Outcome::Done), Step::RenderClip(0)));
    assert_eq!(run.progress.status, Phase::ProcessingClips);
    assert_eq!(run.progress.percentage, 10_000_000);
    assert_eq!(run.progress.current_clip.as_deref(), Some("1/3"));

    assert!(matches!(run.advance(Outcome::Done), Step::RenderClip(1)));
    assert_eq!(run.progress.percentage, 30_000_000);
    assert_eq!(run.progress.current_clip.as_deref(), Some("2/3"));

    assert!(matches!(run.advance(Outcome::Done), Step::RenderClip(2)));
    assert_eq!(run.progress.percentage, 50_000_000);
    assert_eq!(run.progress.current_clip.as_deref(), Some("3/3"));

    assert!(matches!(run.advance(Outcome::Done), Step::WriteManifest));
    assert_eq!(run.progress.status, Phase::Concatenating);
    assert_eq!(run.progress.percentage, 70_000_000);
    assert!(run.progress.current_clip.is_none());
    assert_eq!(run.segment_files(), vec!["clip_000.mp4", "clip_001.mp4", "clip_002.mp4"]);

    assert!(matches!(run.advance(Outcome::Done), Step::Concatenate));
    assert_eq!(run.progress.status, Phase::Finalizing);
    assert_eq!(run.progress.percentage, 75_000_000);

    assert!(matches!(run.advance(Outcome::Done), Step::ValidateOutput));
    assert_eq!(run.progress.status, Phase::ValidatingOutput);
    assert_eq!(run.progress.percentage, 90_000_000);

    match run.advance(Outcome::Done) {
        Step::Finished(Ok(path)) => assert_eq!(path, "/out/final.mp4"),
        _ => panic!("the export should have completed"),
    }
    assert_eq!(run.progress.status, Phase::Complete);
    assert_eq!(run.progress.percentage, FULL);
    assert!(run.progress.error.is_none());
    assert_eq!(
        run.intermediate_files(),
        vec!["clip_000.mp4", "clip_001.mp4", "clip_002.mp4", "concat_list.txt"]
    );

    match run.advance(failed("late")) {
        Step::Finished(Ok(path)) => assert_eq!(path, "/out/final.mp4"),
        _ => panic!("a completed export stays completed"),
    }
    assert_eq!(run.progress.status, Phase::Complete);
}

#[test]
fn clip_progress_is_proportional_and_rounds_down() {
    let mut run = ExportRun::start(&ids(7), &Vec::new(), "out.mp4");
    run.advance(Outcome::Done);
    let mut seen = vec![run.progress.percentage];
    for _ in 0..7 {
        run.advance(Outcome::Done);
        seen.push(run.progress.percentage);
    }
    assert_eq!(
        seen,
        vec![
            10_000_000, 18_571_428, 27_142_857, 35_714_285, 44_285_714, 52_857_142, 61_428_571,
            70_000_000
        ]
    );
}

#[test]
fn gaps_are_filled_after_the_clips_and_failures_passed_over() {
    let gaps = vec![
        Gap { before: 0, duration: 1_000_000 },
        Gap { before: 2, duration: 2_000_000 },
    ];
    let mut run = ExportRun::start(&ids(3), &gaps, "out.mp4");
    run.advance(Outcome::Done);
    run.advance(Outcome::Done);
    run.advance(Outcome::Done);
    match run.advance(Outcome::Done) {
        Step::RenderFiller(g) => assert_eq!(g, gaps[0]),
        _ => panic!("the first gap should be filled next"),
    }
    match run.advance(failed("Conversion failed!")) {
        Step::RenderFiller(g) => assert_eq!(g, gaps[1]),
        _ => panic!("the second gap should be filled next"),
    }
    assert_eq!(run.progress.status, Phase::Concatenating);
    assert!(matches!(run.advance(Outcome::Done), Step::WriteManifest));
    assert_eq!(run.filled, vec![false, true]);
    assert_eq!(
        run.segment_files(),
        vec!["clip_000.mp4", "clip_001.mp4", "black_gap_002.mp4", "clip_002.mp4"]
    );
    assert_eq!(
        run.intermediate_files(),
        vec!["clip_000.mp4", "clip_001.mp4", "clip_002.mp4", "black_gap_002.mp4"]
    );
    assert!(matches!(run.advance(Outcome::Done), Step::Concatenate));
    assert_eq!(
        run.intermediate_files(),
        vec![
            "clip_000.mp4",
            "clip_001.mp4",
            "clip_002.mp4",
            "black_gap_002.mp4",
            "concat_list.txt"
        ]
    );
}

#[test]
fn failed_validation_ends_the_export() {
    let mut run = ExportRun::start(&ids(2), &Vec::new(), "out.mp4");
    match run.advance(failed("Validation failed for clip 1 (clip-0): bad")) {
        Step::Finished(Err(reason)) => {
            assert_eq!(reason, "Validation failed for clip 1 (clip-0): bad")
        }
        _ => panic!("the export should have failed"),
    }
    assert_eq!(run.progress.status, Phase::Error);
    assert_eq!(run.progress.percentage, 0);
    assert_eq!(
        run.progress.error.as_deref(),
        Some("Validation failed for clip 1 (clip-0): bad")
    );
    assert!(run.intermediate_files().is_empty());
    assert!(matches!(run.advance(Outcome::Done), Step::Finished(Err(_))));
    assert_eq!(run.progress.status, Phase::Error);
}

#[test]
fn an_empty_timeline_cannot_pass_validation() {
    let mut run = ExportRun::start(&Vec::new(), &Vec::new(), "out.mp4");
    match run.advance(Outcome::Done) {
        Step::Finished(Err(reason)) => assert_eq!(reason, "No clips to export"),
        _ => panic!("the export should have failed"),
    }
    assert_eq!(run.progress.error.as_deref(), Some("No clips to export"));
}

#[test]
fn a_failed_clip_ends_the_export_with_its_identity() {
    let mut run = ExportRun::start(&ids(3), &Vec::new(), "out.mp4");
    run.advance(Outcome::Done);
    run.advance(Outcome::Done);
    match run.advance(failed("in.mov: No such file or directory\n")) {
        Step::Finished(Err(reason)) => {
            assert_eq!(reason, "Failed to process clip 2 (clip-1): File not found")
        }
        _ => panic!("the export should have failed"),
    }
    assert_eq!(run.progress.status, Phase::Error);
    assert_eq!(run.progress.error.as_deref(), Some("Clip 2 (clip-1): File not found"));
    assert_eq!(run.progress.percentage, 30_000_000);
    assert_eq!(run.progress.current_clip.as_deref(), Some("2/3"));
    assert_eq!(run.intermediate_files(), vec!["clip_000.mp4"]);
}

#[test]
fn a_failed_manifest_ends_the_export() {
    let mut run = ExportRun::start(&ids(1), &Vec::new(), "out.mp4");
    run.advance(Outcome::Done);
    assert!(matches!(run.advance(Outcome::Done), Step::WriteManifest));
    match run.advance(failed("disk full")) {
        Step::Finished(Err(reason)) => assert_eq!(reason, "disk full"),
        _ => panic!("the export should have failed"),
    }
    assert_eq!(run.progress.error.as_deref(), Some("disk full"));
    assert_eq!(run.progress.percentage, 70_000_000);
    assert_eq!(run.intermediate_files(), vec!["clip_000.mp4"]);
}

#[test]
fn a_failed_concatenation_ends_the_export() {
    let mut run = ExportRun::start(&ids(1), &Vec::new(), "out.mp4");
    run.advance(Outcome::Done);
    run.advance(Outcome::Done);
    assert!(matches!(run.advance(Outcome::Done), Step::Concatenate));
    match run.advance(failed("warning\nout.mp4: Permission denied\n")) {
        Step::Finished(Err(reason)) => assert_eq!(
            reason,
            "Export failed during concatenation: Permission denied accessing file"
        ),
        _ => panic!("the export should have failed"),
    }
    assert_eq!(
        run.progress.error.as_deref(),
        Some("Concatenation failed: Permission denied accessing file")
    );
    assert_eq!(run.progress.percentage, 75_000_000);
    assert_eq!(run.intermediate_files(), vec!["clip_000.mp4", "concat_list.txt"]);
}

#[test]
fn a_bad_output_does_not_fail_the_export() {
    let mut run = ExportRun::start(&ids(1), &Vec::new(), "/out/final.mp4");
    run.advance(Outcome::Done);
    run.advance(Outcome::Done);
    run.advance(Outcome::Done);
    assert!(matches!(run.advance(Outcome::Done), Step::ValidateOutput));
    match run.advance(failed("Output file has no valid video stream")) {
        Step::Finished(Ok(path)) => assert_eq!(path, "/out/final.mp4"),
        _ => panic!("the export should have completed"),
    }
    assert_eq!(run.progress.status, Phase::Complete);
    assert_eq!(run.progress.percentage, FULL);
    assert!(run.progress.error.is_none());
}

#[test]
fn progress_never_goes_back() {
    for fail_at in 0..12 {
        let gaps = vec![Gap { before: 1, duration: 50_000 }];
        let mut run = ExportRun::start(&ids(4), &gaps, "out.mp4");
        let mut last = run.progress.percentage;
        for step in 0..12 {
            let outcome = if step == fail_at { failed("x") } else { Outcome::Done };
            run.advance(outcome);
            assert!(run.progress.percentage >= last);
            assert!(run.progress.percentage <= FULL);
            last = run.progress.percentage;
        }
        assert!(run.progress.status.is_terminal());
    }
}

#[test]
fn a_snapshot_is_a_copy() {
    let mut run = ExportRun::start(&ids(2), &Vec::new(), "out.mp4");
    run.advance(Outcome::Done);
    let p = run.progress();
    run.advance(Outcome::Done);
    assert_eq!(p.percentage, 10_000_000);
    assert_eq!(p.status, Phase::ProcessingClips);
    assert_eq!(p.current_clip.as_deref(), Some("1/2"));
    assert_eq!(run.progress.current_clip.as_deref(), Some("2/2"));
}

#[test]
fn single_pass_progress() {
    let at = |phase: Phase| ExportProgress::single_pass(phase).map(|p| (p.percentage, p.status));
    assert_eq!(at(Phase::Preparing), Some((0, Phase::Preparing)));
    assert_eq!(at(Phase::BuildingFilterGraph), Some((20_000_000, Phase::BuildingFilterGraph)));
    assert_eq!(at(Phase::ProcessingClips), Some((40_000_000, Phase::ProcessingClips)));
    assert_eq!(at(Phase::EncodingVideo), Some((60_000_000, Phase::EncodingVideo)));
    assert_eq!(at(Phase::Complete), Some((FULL, Phase::Complete)));
    assert_eq!(at(Phase::Concatenating), None);
    assert_eq!(at(Phase::Error), None);
    assert_eq!(at(Phase::Idle), None);
}

#[test]
fn a_failed_single_pass() {
    let mut p = ExportProgress::single_pass(Phase::EncodingVideo).unwrap();
    p.fail("boom".to_string());
    assert_eq!(p.status, Phase::Error);
    assert_eq!(p.error.as_deref(), Some("boom"));
    assert_eq!(p.percentage, 60_000_000);
    assert_eq!(zapcut::export::single_pass_failure("boom"), "Export failed: boom");
    assert_eq!(zapcut::export::tool_missing_message("gone"), "FFmpeg not found: gone");
}
