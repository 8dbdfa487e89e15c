use zapcut::model::{Codec, ExportConfig, Target};
use zapcut::sequential::{
    clip_file_name, concat_args, concat_manifest, export_target, filler_args, filler_file_name,
    synthesize_gap, target_resolution, MANIFEST_NAME,
};
use zapcut::validate::ClipValidation;

fn config(resolution: &str, fps: Option<u64>) -> ExportConfig {
    ExportConfig {
        output_path: "/out/final.mp4".to_string(),
        resolution: resolution.to_string(),
        format: "mp4".to_string(),
        codec: "h264".to_string(),
        quality: "medium".to_string(),
        fps,
        include_audio: true,
    }
}

fn native(width: u32, height: u32) -> ClipValidation {
    ClipValidation {
        exists: true,
        is_readable: true,
        has_video: true,
        has_audio: true,
        codec: "h264".to_string(),
        resolution: (width, height),
        fps: 30_000_000,
        actual_duration: 10_000_000,
    }
}

#[test]
fn named_resolutions() {
    let none = Vec::new();
    assert_eq!(target_resolution(&config("720p", None), &none), (1280, 720));
    assert_eq!(target_resolution(&config("1080p", None), &none), (1920, 1080));
    assert_eq!(target_resolution(&config("1440p", None), &none), (2560, 1440));
    assert_eq!(target_resolution(&config("4K", None), &none), (3840, 2160));
    assert_eq!(target_resolution(&config("custom", None), &none), (1920, 1080));
    assert_eq!(target_resolution(&config("4k", None), &none), (1920, 1080));
    assert_eq!(target_resolution(&config("source", None), &none), (1920, 1080));
}

#[test]
fn source_resolution_is_the_largest_picture() {
    let list = vec![native(1280, 720), native(3840, 2160), native(1920, 1080)];
    assert_eq!(target_resolution(&config("source", None), &list), (3840, 2160));
    assert_eq!(target_resolution(&config("720p", None), &list), (1280, 720));
}

#[test]
fn of_equally_large_pictures_the_last_wins() {
    let list = vec![native(200, 100), native(100, 200), native(50, 400), native(10, 10)];
    assert_eq!(target_resolution(&config("source", None), &list), (50, 400));
}

#[test]
fn huge_pictures_do_not_overflow() {
    let list = vec![native(u32::MAX, u32::MAX), native(u32::MAX, 1)];
    assert_eq!(target_resolution(&config("source", None), &list), (u32::MAX, u32::MAX));
}

#[test]
fn target_takes_the_frame_rate_of_the_configuration() {
    let t = export_target(&config("720p", None), &Vec::new());
    assert_eq!(t, Target { width: 1280, height: 720, fps: 30_000_000 });
    let t = export_target(&config("720p", Some(23_976_000)), &Vec::new());
    assert_eq!(t.fps, 23_976_000);
}

#[test]
fn segment_file_names() {
    assert_eq!(clip_file_name(0), "clip_000.mp4");
    assert_eq!(clip_file_name(7), "clip_007.mp4");
    assert_eq!(clip_file_name(42), "clip_042.mp4");
    assert_eq!(clip_file_name(999), "clip_999.mp4");
    assert_eq!(clip_file_name(1000), "clip_1000.mp4");
    assert_eq!(filler_file_name(3), "black_gap_003.mp4");
    assert_eq!(filler_file_name(12345), "black_gap_12345.mp4");
    assert_eq!(MANIFEST_NAME, "concat_list.txt");
}

#[test]
fn filler_with_sound() {
    let target = Target { width: 1920, height: 1080, fps: 30_000_000 };
    let d = synthesize_gap(2_000_000, target, Codec::H264, true);
    assert_eq!(d.duration, 2_000_000);
    assert!(d.with_audio);
    let args = filler_args(&d, "/tmp/zapcut/black_gap_002.mp4");
    let expected: Vec<&str> = vec![
        "-f",
        "lavfi",
        "-i",
        "color=c=black:s=1920x1080:d=2.000:r=30",
        "-f",
        "lavfi",
        "-i",
        "anullsrc=channel_layout=stereo:sample_rate=48000:d=2.000",
        "-c:v",
        "libx264",
        "-c:a",
        "aac",
        "-b:a",
        "192k",
        "-preset",
        "ultrafast",
        "-pix_fmt",
        "yuv420p",
        "-y",
        "/tmp/zapcut/black_gap_002.mp4",
    ];
    assert_eq!(args, expected);
}

#[test]
fn filler_without_sound() {
    let target = Target { width: 1280, height: 720, fps: 29_970_000 };
    let d = synthesize_gap(10_100, target, Codec::H265, false);
    let args = filler_args(&d, "gap.mp4");
    let expected: Vec<&str> = vec![
        "-f",
        "lavfi",
        "-i",
        "color=c=black:s=1280x720:d=0.010:r=29.97",
        "-c:v",
        "libx265",
        "-preset",
        "ultrafast",
        "-pix_fmt",
        "yuv420p",
        "-y",
        "gap.mp4",
    ];
    assert_eq!(args, expected);
}

#[test]
fn manifest_lists_one_file_per_line() {
    let paths = vec!["/tmp/a.mp4".to_string(), "/tmp/gap.mp4".to_string(), "/tmp/b.mp4".to_string()];
    assert_eq!(
        concat_manifest(&paths),
        "file '/tmp/a.mp4'\nfile '/tmp/gap.mp4'\nfile '/tmp/b.mp4'\n"
    );
    assert_eq!(concat_manifest(&Vec::new()), "");
}

#[test]
fn concatenation_copies_streams() {
    let args = concat_args("/tmp/zapcut/concat_list.txt", "/out/final.mp4");
    let expected: Vec<&str> = vec![
        "-f",
        "concat",
        "-safe",
        "0",
        "-i",
        "/tmp/zapcut/concat_list.txt",
        "-c",
        "copy",
        "-movflags",
        "+faststart",
        "-y",
        "/out/final.mp4",
    ];
    assert_eq!(args, expected);
}
