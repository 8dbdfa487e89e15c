use zapcut::model::{Clip, VideoInfo};
use zapcut::validate::{
    describe_fault, validate_all_clips, validate_clip, FileProblem, SourceProbe, SpeedProblem, TimelineError,
    TrimProblem, ValidationError,
};

fn clip(id: &str, trim_start_s: f64, trim_end_s: f64, speed: f64) -> Clip {
    Clip {
        id: id.to_string(),
        file_path: format!("/media/{id}.mp4"),
        start_time: 0,
        trim_start: (trim_start_s * 1e6).round() as i64,
        trim_end: (trim_end_s * 1e6).round() as i64,
        duration: 5_000_000,
        speed: (speed * 1e6).round() as i64,
        track_index: None,
    }
}

fn probed(duration_s: f64, audio: bool) -> SourceProbe {
    SourceProbe::Probed(VideoInfo {
        duration: (duration_s * 1e6).round() as i64,
        width: 1280,
        height: 720,
        fps: 25_000_000,
        codec: "h264".to_string(),
        bitrate: 4_000_000,
        audio_codec: if audio { Some("aac".to_string()) } else { None },
        file_size: 123_456,
    })
}

#[test]
fn a_sound_clip_is_accepted() {
    let v = validate_clip(&clip("a", 1.0, 2.0, 1.5), &probed(40.0, true)).ok().unwrap();
    assert!(v.exists && v.is_readable && v.has_video && v.has_audio);
    assert_eq!(v.codec, "h264");
    assert_eq!(v.resolution, (1280, 720));
    assert_eq!(v.fps, 25_000_000);
    assert_eq!(v.actual_duration, 40_000_000);
    let v = validate_clip(&clip("a", 0.0, 0.0, 100.0), &probed(0.000001, false)).ok().unwrap();
    assert!(!v.has_audio);
}

#[test]
fn trim_beyond_the_source_is_rejected() {
    assert_eq!(
        validate_clip(&clip("a", 50.0, 0.0, 1.0), &probed(40.0, true)).err(),
        Some(ValidationError::InvalidTrim(TrimProblem::NothingLeft))
    );
    assert_eq!(
        validate_clip(&clip("a", 20.0, 20.0, 1.0), &probed(40.0, true)).err(),
        Some(ValidationError::InvalidTrim(TrimProblem::NothingLeft))
    );
    assert!(validate_clip(&clip("a", 20.0, 19.999999, 1.0), &probed(40.0, true)).is_ok());
}

#[test]
fn negative_trims_are_rejected() {
    assert_eq!(
        validate_clip(&clip("a", -0.5, 0.0, 1.0), &probed(40.0, true)).err(),
        Some(ValidationError::InvalidTrim(TrimProblem::NegativeStart))
    );
    assert_eq!(
        validate_clip(&clip("a", 0.0, -0.000001, 1.0), &probed(40.0, true)).err(),
        Some(ValidationError::InvalidTrim(TrimProblem::NegativeEnd))
    );
    assert_eq!(
        validate_clip(&clip("a", -1.0, -1.0, 0.0), &probed(40.0, true)).err(),
        Some(ValidationError::InvalidTrim(TrimProblem::NegativeStart))
    );
}

#[test]
fn speeds_out_of_range_are_rejected() {
    assert_eq!(
        validate_clip(&clip("a", 0.0, 0.0, 0.0), &probed(40.0, true)).err(),
        Some(ValidationError::InvalidSpeed(SpeedProblem::NotPositive))
    );
    assert_eq!(
        validate_clip(&clip("a", 0.0, 0.0, -2.0), &probed(40.0, true)).err(),
        Some(ValidationError::InvalidSpeed(SpeedProblem::NotPositive))
    );
    assert_eq!(
        validate_clip(&clip("a", 0.0, 0.0, 100.000001), &probed(40.0, true)).err(),
        Some(ValidationError::InvalidSpeed(SpeedProblem::TooHigh))
    );
    assert!(validate_clip(&clip("a", 0.0, 0.0, 100.0), &probed(40.0, true)).is_ok());
    assert!(validate_clip(&clip("a", 0.0, 0.0, 0.000001), &probed(40.0, true)).is_ok());
}

#[test]
fn trim_faults_come_before_speed_faults() {
    assert_eq!(
        validate_clip(&clip("a", 50.0, 0.0, 0.0), &probed(40.0, true)).err(),
        Some(ValidationError::InvalidTrim(TrimProblem::NothingLeft))
    );
}

#[test]
fn file_and_probe_faults() {
    let c = clip("a", -1.0, 0.0, 0.0);
    assert_eq!(
        validate_clip(&c, &SourceProbe::Missing).err(),
        Some(ValidationError::FileNotFound(FileProblem::Missing))
    );
    assert_eq!(
        validate_clip(&c, &SourceProbe::NotAFile).err(),
        Some(ValidationError::FileNotFound(FileProblem::NotAFile))
    );
    assert_eq!(
        validate_clip(&c, &SourceProbe::Unreadable("denied".to_string())).err(),
        Some(ValidationError::FileNotFound(FileProblem::Unreadable))
    );
    assert_eq!(
        validate_clip(&c, &SourceProbe::ProbeFailed("bad".to_string())).err(),
        Some(ValidationError::ProbeFailure)
    );
}

#[test]
fn extreme_values_do_not_overflow() {
    let mut c = clip("a", 0.0, 0.0, 1.0);
    c.trim_start = i64::MAX;
    c.trim_end = i64::MAX;
    assert_eq!(
        validate_clip(&c, &probed(1.0, true)).err(),
        Some(ValidationError::InvalidTrim(TrimProblem::NothingLeft))
    );
}

#[test]
fn an_empty_timeline_is_rejected() {
    assert!(matches!(
        validate_all_clips(&Vec::new(), &Vec::new()),
        Err(TimelineError::EmptyTimeline)
    ));
    assert!(matches!(
        validate_all_clips(&Vec::new(), &vec![SourceProbe::Missing]),
        Err(TimelineError::EmptyTimeline)
    ));
}

#[test]
fn the_first_unfit_clip_is_reported() {
    let clips = vec![
        clip("one", 0.0, 0.0, 1.0),
        clip("two", 50.0, 0.0, 1.0),
        clip("three", 0.0, 0.0, 0.0),
    ];
    let probes = vec![probed(40.0, true), probed(40.0, true), SourceProbe::Missing];
    match validate_all_clips(&clips, &probes) {
        Err(TimelineError::InvalidClip { number, id, error, reason }) => {
            assert_eq!(number, 2);
            assert_eq!(id, "two");
            assert_eq!(error, ValidationError::InvalidTrim(TrimProblem::NothingLeft));
            assert_eq!(
                reason,
                "Clip two trim values (start: 50, end: 0) exceed video duration (40)"
            );
        }
        _ => panic!("the second clip should have been rejected"),
    }
}

#[test]
fn all_fit_clips_are_recorded_in_order() {
    let clips = vec![clip("one", 0.0, 0.0, 1.0), clip("two", 5.0, 5.0, 2.0)];
    let probes = vec![probed(40.0, true), probed(30.0, false)];
    let list = validate_all_clips(&clips, &probes).ok().unwrap();
    assert_eq!(list.len(), 2);
    assert_eq!(list[0].actual_duration, 40_000_000);
    assert!(list[0].has_audio);
    assert_eq!(list[1].actual_duration, 30_000_000);
    assert!(!list[1].has_audio);
}

#[test]
fn a_clip_without_a_probe_counts_as_not_probed() {
    let clips = vec![clip("one", 0.0, 0.0, 1.0), clip("two", 0.0, 0.0, 1.0)];
    let probes = vec![probed(40.0, true)];
    match validate_all_clips(&clips, &probes) {
        Err(TimelineError::InvalidClip { number, id, error, reason }) => {
            assert_eq!(number, 2);
            assert_eq!(id, "two");
            assert_eq!(error, ValidationError::ProbeFailure);
            assert_eq!(reason, "Failed to probe clip /media/two.mp4: not probed");
        }
        _ => panic!("the second clip should have been rejected"),
    }
}

fn said(c: &Clip, probe: &SourceProbe) -> String {
    describe_fault(c, probe).unwrap_or_default()
}

#[test]
fn faults_in_words() {
    let c = clip("a", 0.0, 0.0, 1.0);
    assert_eq!(said(&c, &SourceProbe::Missing), "Clip file not found: /media/a.mp4");
    assert_eq!(said(&c, &SourceProbe::NotAFile), "Path is not a file: /media/a.mp4");
    assert_eq!(
        said(&c, &SourceProbe::Unreadable("permission denied".to_string())),
        "Cannot read file /media/a.mp4: permission denied"
    );
    assert_eq!(
        said(&c, &SourceProbe::ProbeFailed("No video stream found".to_string())),
        "Failed to probe clip /media/a.mp4: No video stream found"
    );
    assert_eq!(
        said(&clip("a", -1.5, 0.0, 1.0), &probed(40.0, true)),
        "Clip a has negative trim_start: -1.5"
    );
    assert_eq!(
        said(&clip("a", 0.0, -0.25, 1.0), &probed(40.0, true)),
        "Clip a has negative trim_end: -0.25"
    );
    assert_eq!(
        said(&clip("a", 30.5, 10.0, 1.0), &probed(40.0, true)),
        "Clip a trim values (start: 30.5, end: 10) exceed video duration (40)"
    );
    assert_eq!(
        said(&clip("a", 0.0, 0.0, 0.0), &probed(40.0, true)),
        "Clip a has invalid speed: 0"
    );
    assert_eq!(
        said(&clip("a", 0.0, 0.0, -2.0), &probed(40.0, true)),
        "Clip a has invalid speed: -2"
    );
    assert_eq!(
        said(&clip("a", 0.0, 0.0, 150.0), &probed(40.0, true)),
        "Clip a speed too high (max 100x): 150"
    );
    assert!(describe_fault(&c, &probed(40.0, true)).is_none());
}

#[test]
fn timeline_errors_in_words() {
    assert_eq!(TimelineError::EmptyTimeline.message(), "No clips to export");
    let clips = vec![clip("one", 0.0, 0.0, 1.0), clip("two", 0.0, 0.0, 0.0)];
    let probes = vec![probed(40.0, true), probed(40.0, true)];
    let e = validate_all_clips(&clips, &probes).err().unwrap();
    assert_eq!(
        e.message(),
        "Validation failed for clip 2 (two): Clip two has invalid speed: 0"
    );
}
