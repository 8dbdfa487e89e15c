use zapcut::diagnostics::{chars_of, contains_text, is_white_space_char, parse_ffmpeg_error};

fn with_standard_search(stderr: &str) -> String {
    if stderr.contains("Invalid data found when processing input") {
        return "Invalid or corrupted video file".to_string();
    }
    if stderr.contains("No such file or directory") {
        return "File not found".to_string();
    }
    if stderr.contains("Permission denied") {
        return "Permission denied accessing file".to_string();
    }
    if stderr.contains("Codec") && stderr.contains("not found") {
        return "Required codec not available".to_string();
    }
    if stderr.contains("Invalid argument") {
        return "Invalid FFmpeg arguments".to_string();
    }
    if stderr.contains("Conversion failed") {
        return "Video conversion failed".to_string();
    }
    if stderr.contains("Invalid duration") {
        return "Invalid duration specification".to_string();
    }
    let mut last: Option<&str> = None;
    for line in stderr.lines() {
        if !line.trim().is_empty() {
            last = Some(line);
        }
    }
    match last {
        Some(l) => l.to_string(),
        None => "Unknown FFmpeg error".to_string(),
    }
}

#[test]
fn known_faults_are_recognised() {
    assert_eq!(
        parse_ffmpeg_error("x.mp4: Invalid data found when processing input\n"),
        "Invalid or corrupted video file"
    );
    assert_eq!(parse_ffmpeg_error("in.mov: No such file or directory"), "File not found");
    assert_eq!(parse_ffmpeg_error("out.mp4: Permission denied"), "Permission denied accessing file");
    assert_eq!(
        parse_ffmpeg_error("Codec 'libx265' not found\n"),
        "Required codec not available"
    );
    assert_eq!(parse_ffmpeg_error("Error: Invalid argument"), "Invalid FFmpeg arguments");
    assert_eq!(parse_ffmpeg_error("Conversion failed!\n"), "Video conversion failed");
    assert_eq!(parse_ffmpeg_error("Invalid duration '-1'"), "Invalid duration specification");
}

#[test]
fn earlier_faults_win() {
    assert_eq!(
        parse_ffmpeg_error("Permission denied\nNo such file or directory\nConversion failed!"),
        "File not found"
    );
    assert_eq!(
        parse_ffmpeg_error("Conversion failed!\nInvalid data found when processing input"),
        "Invalid or corrupted video file"
    );
}

#[test]
fn codec_needs_both_marks() {
    assert_eq!(parse_ffmpeg_error("Codec mismatch"), "Codec mismatch");
    assert_eq!(parse_ffmpeg_error("option not found"), "option not found");
    assert_eq!(parse_ffmpeg_error("option not found\nCodec"), "Required codec not available");
}

#[test]
fn falls_back_to_the_last_line_that_says_anything() {
    assert_eq!(parse_ffmpeg_error("first\nsecond\n\n  \n"), "second");
    assert_eq!(parse_ffmpeg_error("first\r\n  second  \r\n\r\n"), "  second  ");
    assert_eq!(parse_ffmpeg_error("only"), "only");
    assert_eq!(parse_ffmpeg_error("a\nb\r"), "b\r");
    assert_eq!(parse_ffmpeg_error("a\n\u{a0}\u{2003}\n"), "a");
}

#[test]
fn nothing_to_go_by() {
    assert_eq!(parse_ffmpeg_error(""), "Unknown FFmpeg error");
    assert_eq!(parse_ffmpeg_error("\n\n"), "Unknown FFmpeg error");
    assert_eq!(parse_ffmpeg_error(" \t\r\n \r\n"), "Unknown FFmpeg error");
}

#[test]
fn agrees_with_the_standard_library_on_many_texts() {
    let pieces = [
        "", " ", "\n", "\r", "\r\n", "x", "Codec", "not found", "é", "\u{3000}", "line two",
        "Invalid", " argument", "\t", "Conversion failed", "\u{85}", "z\r",
    ];
    let mut count = 0;
    for a in pieces {
        for b in pieces {
            for c in pieces {
                for d in ["", "\n", "\r\n", "tail"] {
                    let text = format!("{a}{b}{c}{d}");
                    assert_eq!(parse_ffmpeg_error(&text), with_standard_search(&text), "for {text:?}");
                    count += 1;
                }
            }
        }
    }
    assert!(count > 10_000);
}

#[test]
fn white_space_is_what_the_standard_library_says() {
    for n in 0..=0x10ffffu32 {
        if let Some(c) = char::from_u32(n) {
            assert_eq!(is_white_space_char(c), c.is_whitespace(), "for U+{n:04X}");
        }
    }
}

#[test]
fn substring_search() {
    let text = chars_of("héllo wörld");
    assert_eq!(text.len(), 11);
    assert!(contains_text(&text, "llo w"));
    assert!(contains_text(&text, "héllo wörld"));
    assert!(contains_text(&text, ""));
    assert!(contains_text(&text, "d"));
    assert!(!contains_text(&text, "héllo wörld!"));
    assert!(!contains_text(&text, "world"));
    assert!(contains_text(&chars_of(""), ""));
    assert!(!contains_text(&chars_of(""), "a"));
}

#[test]
fn long_diagnostics_are_handled() {
    let mut text = String::new();
    for i in 0..20_000 {
        text.push_str(&format!("frame={i} fps=30 q=28.0 size=1024kB\n"));
    }
    text.push_str("Something odd happened\n");
    assert_eq!(parse_ffmpeg_error(&text), "Something odd happened");
}
