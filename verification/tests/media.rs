use base64::Engine;
use zapcut::media::{
    create_proxy, generate_thumbnail, get_thumbnail_base64, import_plan_for, import_video,
    import_videos, is_known_extension, is_supported_extension, media_item_at, plan_import,
    validate_video_file, MediaError, MediaItem,
};
use zapcut::model::VideoInfo;

fn info(duration_s: f64, fps: f64) -> VideoInfo {
    VideoInfo {
        duration: (duration_s * 1e6).round() as i64,
        width: 1280,
        height: 720,
        fps: (fps * 1e6).round() as u64,
        codec: "h264".to_string(),
        bitrate: 5_000_000,
        audio_codec: Some("aac".to_string()),
        file_size: 7_654_321,
    }
}

fn item(id: &str) -> MediaItem {
    media_item_at(
        "/v/a.mp4",
        Some("a.mp4"),
        id.to_string(),
        &info(1.0, 30.0),
        None,
        None,
        "2024-01-01T00:00:00+00:00".to_string(),
    )
}

#[test]
fn plan_names_files_after_the_id() {
    let plan = import_plan_for("abc".to_string(), &info(25.0, 30.0));
    assert_eq!(plan.id, "abc");
    assert_eq!(plan.thumbnail_name, "abc.jpg");
    assert_eq!(plan.proxy_name, "abc_proxy.mp4");
}

#[test]
fn thumbnail_is_taken_after_a_tenth_but_no_later_than_a_second() {
    assert_eq!(import_plan_for("x".to_string(), &info(5.0, 30.0)).thumbnail_at, 5_000_000);
    assert_eq!(import_plan_for("x".to_string(), &info(10.0, 30.0)).thumbnail_at, 10_000_000);
    assert_eq!(import_plan_for("x".to_string(), &info(600.0, 30.0)).thumbnail_at, 10_000_000);
    assert_eq!(import_plan_for("x".to_string(), &info(0.0, 30.0)).thumbnail_at, 0);
    assert_eq!(import_plan_for("x".to_string(), &info(3.333333, 30.0)).thumbnail_at, 3_333_333);
}

#[test]
fn fast_sources_get_a_slower_preview() {
    assert_eq!(import_plan_for("x".to_string(), &info(5.0, 30.0)).proxy_fps, None);
    assert_eq!(import_plan_for("x".to_string(), &info(5.0, 60.0)).proxy_fps, None);
    assert_eq!(
        import_plan_for("x".to_string(), &info(5.0, 60.000001)).proxy_fps,
        Some(30_000_000)
    );
    assert_eq!(import_plan_for("x".to_string(), &info(5.0, 120.0)).proxy_fps, Some(30_000_000));
}

#[test]
fn fresh_ids_are_uuids() {
    let a = plan_import(&info(5.0, 30.0));
    let b = plan_import(&info(5.0, 30.0));
    assert_eq!(a.id.len(), 36);
    assert!(uuid::Uuid::parse_str(&a.id).is_ok());
    assert_ne!(a.id, b.id);
    assert_eq!(a.thumbnail_name, format!("{}.jpg", a.id));
    assert_eq!(a.proxy_name, format!("{}_proxy.mp4", a.id));
}

#[test]
fn the_record_takes_over_what_the_probe_found() {
    let m = media_item_at(
        "/videos/holiday.mov",
        Some("holiday.mov"),
        "id-1".to_string(),
        &info(12.5, 25.0),
        Some("/tmp/t.jpg".to_string()),
        None,
        "2024-05-06T07:08:09+00:00".to_string(),
    );
    assert_eq!(m.id, "id-1");
    assert_eq!(m.name, "holiday.mov");
    assert_eq!(m.file_path, "/videos/holiday.mov");
    assert_eq!(m.proxy_path, None);
    assert_eq!(m.duration, 12_500_000);
    assert_eq!((m.width, m.height), (1280, 720));
    assert_eq!(m.fps, 25_000_000);
    assert_eq!(m.thumbnail_path.as_deref(), Some("/tmp/t.jpg"));
    assert_eq!(m.file_size, 7_654_321);
    assert_eq!(m.codec, "h264");
    assert_eq!(m.imported_at, "2024-05-06T07:08:09+00:00");
    let m = media_item_at("x", None, "i".to_string(), &info(1.0, 1.0), None, None, String::new());
    assert_eq!(m.name, "Unknown");
}

#[test]
fn an_import_is_stamped_with_the_time() {
    let m = import_video(
        "/videos/a.mp4",
        Some("a.mp4"),
        "id-2".to_string(),
        &info(1.0, 30.0),
        None,
        Some("/tmp/p.mp4".to_string()),
    );
    assert_eq!(m.id, "id-2");
    assert_eq!(m.proxy_path.as_deref(), Some("/tmp/p.mp4"));
    assert!(chrono::DateTime::parse_from_rfc3339(&m.imported_at).is_ok());
}

#[test]
fn successful_imports_are_kept_in_order() {
    let results = vec![None, Some(item("a")), None, Some(item("b")), Some(item("c")), None];
    let items = import_videos(results).ok().unwrap();
    let ids: Vec<&str> = items.iter().map(|m| m.id.as_str()).collect();
    assert_eq!(ids, vec!["a", "b", "c"]);
}

#[test]
fn importing_nothing_is_an_error() {
    assert_eq!(import_videos(Vec::new()).err(), Some(MediaError::NothingImported));
    assert_eq!(import_videos(vec![None, None]).err(), Some(MediaError::NothingImported));
}

#[test]
fn thumbnail_arguments() {
    let args = generate_thumbnail("/v/a.mp4", "/tmp/a.jpg", 5_000_000);
    let expected: Vec<&str> =
        vec!["-ss", "0.5", "-i", "/v/a.mp4", "-vframes", "1", "-q:v", "2", "-y", "/tmp/a.jpg"];
    assert_eq!(args, expected);
    assert_eq!(generate_thumbnail("a", "b", 10_000_000)[1], "1");
    assert_eq!(generate_thumbnail("a", "b", 3_333_333)[1], "0.3333333");
    assert_eq!(generate_thumbnail("a", "b", 0)[1], "0");
    assert_eq!(generate_thumbnail("a", "b", -25_000_000)[1], "-2.5");
    assert_eq!(generate_thumbnail("a", "b", i64::MIN)[1], "-922337203685.4775808");
}

#[test]
fn preview_copy_arguments() {
    let args = create_proxy("/v/a.mp4", "/tmp/a_proxy.mp4", None);
    let expected: Vec<&str> = vec![
        "-i", "/v/a.mp4", "-vf", "scale=-2:720", "-c:v", "libx264", "-preset", "ultrafast", "-crf",
        "28", "-maxrate", "3M", "-bufsize", "6M", "-c:a", "aac", "-b:a", "128k", "-ac", "2",
        "-movflags", "+faststart", "-y", "/tmp/a_proxy.mp4",
    ];
    assert_eq!(args, expected);
    let args = create_proxy("/v/a.mp4", "/tmp/a_proxy.mp4", Some(30_000_000));
    let expected: Vec<&str> = vec![
        "-i", "/v/a.mp4", "-vf", "scale=-2:720", "-c:v", "libx264", "-preset", "ultrafast", "-crf",
        "28", "-maxrate", "3M", "-bufsize", "6M", "-r", "30", "-c:a", "aac", "-b:a", "128k", "-ac",
        "2", "-movflags", "+faststart", "-y", "/tmp/a_proxy.mp4",
    ];
    assert_eq!(args, expected);
}

#[test]
fn video_extensions() {
    for ext in ["mp4", "mov", "webm", "avi", "mkv", "MP4", "Mov", "WebM", "AVI", "mKv"] {
        assert!(is_supported_extension(&Some(ext.to_string())), "for {ext}");
    }
    for ext in ["", "mp3", "mp44", "jpg", "m4v", " mp4", "mp4 "] {
        assert!(!is_supported_extension(&Some(ext.to_string())), "for {ext:?}");
    }
    assert!(!is_supported_extension(&None));
    assert!(is_known_extension(&"mkv".to_string()));
    assert!(!is_known_extension(&"MKV".to_string()));
    // the Kelvin sign is a capital letter whose small form is the letter k
    assert!(is_supported_extension(&Some("m\u{212a}v".to_string())));
}

#[test]
fn validating_a_video_file() {
    let mp4 = Some("mp4".to_string());
    assert_eq!(validate_video_file(&mp4, true), Ok(true));
    assert_eq!(validate_video_file(&mp4, false), Err(MediaError::InvalidVideo));
    assert_eq!(validate_video_file(&Some("txt".to_string()), true), Err(MediaError::UnsupportedFormat));
    assert_eq!(validate_video_file(&None, false), Err(MediaError::UnsupportedFormat));
}

#[test]
fn thumbnails_become_data_urls() {
    assert_eq!(get_thumbnail_base64(&Vec::new()), "data:image/jpeg;base64,");
    assert_eq!(get_thumbnail_base64(&b"hello world~".to_vec()), "data:image/jpeg;base64,aGVsbG8gd29ybGR+");
    assert_eq!(get_thumbnail_base64(&vec![0xff, 0xd8, 0xff]), "data:image/jpeg;base64,/9j/");
    assert_eq!(get_thumbnail_base64(&vec![0xff, 0xd8]), "data:image/jpeg;base64,/9g=");
    let bytes: Vec<u8> = (0..=255).collect();
    assert_eq!(
        get_thumbnail_base64(&bytes),
        format!("data:image/jpeg;base64,{}", base64::engine::general_purpose::STANDARD.encode(&bytes))
    );
}
