use std::path::PathBuf;
use zapcut::locations::Location;
use zapcut::recording::{
    check_recording, generate_recording_thumbnail, import_recording_to_gallery, recording_files,
    recording_files_for, recording_thumbnail_name_for, reencode_args,
    GalleryError, RecordingError, RecordingSettings, RecordingState,
};

fn at(root: &str, parts: &[&str]) -> Location {
    Location { root: root.to_string(), parts: parts.iter().map(|p| p.to_string()).collect() }
}

#[test]
fn default_settings_select_nothing() {
    let s = RecordingSettings::default();
    assert!(s.microphone.is_none());
    assert!(!s.microphone_enabled);
    assert!(!s.webcam_enabled);
    assert!(s.webcam_device.is_none());
    assert!(s.output_path.is_none());
}

#[test]
fn new_state_is_idle() {
    let s = RecordingState::new();
    assert!(!s.is_recording);
    assert!(s.output_file.is_none());
    assert!(s.current_settings.microphone.is_none());
}

#[test]
fn update_replaces_settings_and_clears_output_when_stopped() {
    let mut s = RecordingState::new();
    s.finish("/tmp/a.mp4".to_string());
    assert_eq!(s.output_file.as_deref(), Some("/tmp/a.mp4"));
    assert!(!s.is_recording);

    let settings = RecordingSettings {
        microphone: Some("mic".to_string()),
        microphone_enabled: true,
        webcam_enabled: false,
        webcam_device: None,
        output_path: Some(PathBuf::from("/tmp/out")),
    };
    s.update(true, Some(settings));
    assert!(s.is_recording);
    assert_eq!(s.current_settings.microphone.as_deref(), Some("mic"));
    assert_eq!(s.output_file.as_deref(), Some("/tmp/a.mp4"));

    s.update(false, None);
    assert!(!s.is_recording);
    assert_eq!(s.current_settings.microphone.as_deref(), Some("mic"));
    assert!(s.current_settings.microphone_enabled);
    assert!(s.output_file.is_none());
}

#[test]
fn recording_files_are_named_after_the_time() {
    let f = recording_files_for("20240102_030405".to_string());
    assert_eq!(f.stamp, "20240102_030405");
    assert_eq!(f.webm, "recording_20240102_030405.webm");
    assert_eq!(f.mp4, "recording_20240102_030405.mp4");
}

#[test]
fn recording_files_made_now() {
    let f = recording_files();
    assert_eq!(f.webm, format!("recording_{}.webm", f.stamp));
    assert_eq!(f.mp4, format!("recording_{}.mp4", f.stamp));
    assert!(chrono::NaiveDateTime::parse_from_str(&f.stamp, "%Y%m%d_%H%M%S").is_ok());
}

#[test]
fn recording_thumbnail_names() {
    assert_eq!(recording_thumbnail_name_for("t"), "recording_preview_t.jpg");
    assert_eq!(
        recording_thumbnail_name_for("20240102_030405_000000001"),
        "recording_preview_20240102_030405_000000001.jpg"
    );
}

#[test]
fn reencoding_arguments() {
    let args = reencode_args("/r/a.webm", "/r/a.mp4");
    let expected: Vec<&str> = vec![
        "-i", "/r/a.webm", "-c:v", "libx264", "-preset", "fast", "-crf", "23", "-c:a", "aac",
        "-b:a", "192k", "-movflags", "+faststart", "-y", "/r/a.mp4",
    ];
    assert_eq!(args, expected);
}

#[test]
fn recording_thumbnail_arguments() {
    let args = generate_recording_thumbnail("/r/a.mp4", "/tmp/p.jpg");
    let expected: Vec<&str> =
        vec!["-ss", "1", "-i", "/r/a.mp4", "-vframes", "1", "-q:v", "2", "-y", "/tmp/p.jpg"];
    assert_eq!(args, expected);
}

#[test]
fn a_converted_recording_must_hold_something() {
    assert_eq!(check_recording(Some(1)), Ok(()));
    assert_eq!(check_recording(Some(0)), Err(RecordingError::OutputEmpty));
    assert_eq!(check_recording(None), Err(RecordingError::OutputMissing));
}

#[test]
fn recordings_go_to_the_exports_beside_their_directory() {
    let file = at("/", &["home", "ann", "Documents", "Zapcut", "recordings", "r1.mp4"]);
    let d = import_recording_to_gallery(&file).ok().unwrap();
    assert_eq!(d.root, "/");
    assert_eq!(d.parts, vec!["home", "ann", "Documents", "Zapcut", "exports", "r1.mp4"]);
    let d = import_recording_to_gallery(&at("", &["recordings", "r1.mp4"])).ok().unwrap();
    assert_eq!(d.parts, vec!["exports", "r1.mp4"]);
}

#[test]
fn recordings_without_directories_cannot_go_to_the_gallery() {
    assert_eq!(
        import_recording_to_gallery(&at("/", &[])).err(),
        Some(GalleryError::InvalidPath)
    );
    assert_eq!(
        import_recording_to_gallery(&at("", &["r1.mp4"])).err(),
        Some(GalleryError::InvalidStructure)
    );
}
