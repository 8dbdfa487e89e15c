use zapcut::model::Clip;
use zapcut::timeline::{
    check_for_gaps, clip_precedes, expected_duration, find_gaps, gap_before_clip,
    is_significant_gap, normalize, sort_clips, Gap,
};

fn clip(id: &str, start_s: f64, duration_s: f64, track: Option<u32>) -> Clip {
    Clip {
        id: id.to_string(),
        file_path: format!("/media/{id}.mp4"),
        start_time: (start_s * 1e6).round() as i64,
        trim_start: 0,
        trim_end: 0,
        duration: (duration_s * 1e6).round() as i64,
        speed: 1_000_000,
        track_index: track,
    }
}

fn ids(clips: &[Clip]) -> Vec<&str> {
    clips.iter().map(|c| c.id.as_str()).collect()
}

#[test]
fn clips_are_ordered_by_start_time() {
    let clips = vec![clip("c", 12.0, 5.0, None), clip("a", 0.0, 5.0, None), clip("b", 5.0, 5.0, None)];
    assert_eq!(sort_clips(&clips), vec![1, 2, 0]);
    let t = normalize(&clips);
    assert_eq!(ids(&t.clips), vec!["a", "b", "c"]);
    assert_eq!(t.order, vec![1, 2, 0]);
}

#[test]
fn same_start_is_ordered_by_track_then_id() {
    let clips = vec![
        clip("z", 1.0, 1.0, Some(1)),
        clip("b", 1.0, 1.0, None),
        clip("a", 1.0, 1.0, Some(0)),
        clip("y", 1.0, 1.0, Some(1)),
        clip("m", 0.5, 1.0, Some(9)),
    ];
    let t = normalize(&clips);
    assert_eq!(ids(&t.clips), vec!["m", "a", "b", "y", "z"]);
}

#[test]
fn order_does_not_depend_on_input_order() {
    let a = vec![
        clip("x", 3.0, 1.0, Some(2)),
        clip("w", 3.0, 1.0, Some(2)),
        clip("v", 3.0, 1.0, Some(1)),
        clip("u", 0.0, 1.0, None),
    ];
    let mut b: Vec<Clip> = a.iter().map(|c| c.duplicate()).collect();
    b.reverse();
    assert_eq!(ids(&normalize(&a).clips), vec!["u", "v", "w", "x"]);
    assert_eq!(ids(&normalize(&b).clips), vec!["u", "v", "w", "x"]);
}

#[test]
fn equal_keys_keep_their_given_order() {
    let mut first = clip("same", 2.0, 1.0, None);
    first.file_path = "first".to_string();
    let mut second = clip("same", 2.0, 1.0, Some(0));
    second.file_path = "second".to_string();
    let clips = vec![clip("late", 9.0, 1.0, None), first, second];
    let t = normalize(&clips);
    let paths: Vec<&str> = t.clips.iter().map(|c| c.file_path.as_str()).collect();
    assert_eq!(paths, vec!["first", "second", "/media/late.mp4"]);
    assert_eq!(t.order, vec![1, 2, 0]);
}

#[test]
fn ids_compare_byte_wise() {
    let a = clip("Z", 0.0, 1.0, None);
    let b = clip("a", 0.0, 1.0, None);
    let c = clip("ab", 0.0, 1.0, None);
    let d = clip("é", 0.0, 1.0, None);
    assert!(clip_precedes(&a, &b));
    assert!(!clip_precedes(&b, &a));
    assert!(clip_precedes(&b, &c));
    assert!(clip_precedes(&c, &d));
    assert!(!clip_precedes(&a, &a));
    assert_eq!("Z".cmp("a"), std::cmp::Ordering::Less);
    assert_eq!("ab".cmp("é"), std::cmp::Ordering::Less);
}

#[test]
fn sorting_agrees_with_the_standard_sort() {
    let mut clips = Vec::new();
    let mut seed: u64 = 12345;
    for n in 0..60 {
        seed = seed.wrapping_mul(6364136223846793005).wrapping_add(1442695040888963407);
        let start = ((seed >> 33) % 5) as f64;
        let track = match (seed >> 20) % 4 {
            0 => None,
            t => Some((t - 1) as u32),
        };
        let id = format!("id{}", (seed >> 10) % 7);
        let mut c = clip(&id, start, 1.0, track);
        c.file_path = format!("{n}");
        clips.push(c);
    }
    let mut expected: Vec<&Clip> = clips.iter().collect();
    expected.sort_by(|a, b| {
        a.start_time
            .cmp(&b.start_time)
            .then_with(|| a.track_index.unwrap_or(0).cmp(&b.track_index.unwrap_or(0)))
            .then_with(|| a.id.cmp(&b.id))
    });
    let t = normalize(&clips);
    let got: Vec<&str> = t.clips.iter().map(|c| c.file_path.as_str()).collect();
    let want: Vec<&str> = expected.iter().map(|c| c.file_path.as_str()).collect();
    assert_eq!(got, want);
}

#[test]
fn expected_duration_is_the_latest_end() {
    let clips = vec![clip("b", 5.0, 5.0, None), clip("c", 12.0, 5.0, None), clip("a", 0.0, 5.0, None)];
    assert_eq!(expected_duration(&clips), 17_000_000);
    let clips = vec![clip("long", 0.0, 30.0, None), clip("short", 10.0, 2.0, None)];
    assert_eq!(expected_duration(&clips), 30_000_000);
    assert_eq!(expected_duration(&Vec::new()), 0);
    let clips = vec![clip("early", -10.0, 4.0, None)];
    assert_eq!(expected_duration(&clips), -6_000_000);
}

#[test]
fn expected_duration_survives_extreme_values() {
    let mut c = clip("x", 0.0, 0.0, None);
    c.start_time = i64::MAX;
    c.duration = i64::MAX;
    assert_eq!(expected_duration(&vec![c]), 2 * (i64::MAX as i128));
}

#[test]
fn gap_threshold_is_exclusive() {
    assert!(!is_significant_gap(10_000));
    assert!(is_significant_gap(10_100));
    assert!(is_significant_gap(10_001));
    assert!(!is_significant_gap(0));
    assert!(!is_significant_gap(-5_000_000));
}

#[test]
fn three_clips_with_one_gap() {
    let clips = vec![clip("a", 0.0, 5.0, None), clip("b", 5.0, 5.0, None), clip("c", 12.0, 5.0, None)];
    let t = normalize(&clips);
    assert_eq!(find_gaps(&t.clips), vec![Gap { before: 2, duration: 2_000_000 }]);
    assert!(check_for_gaps(&t.clips));
    assert_eq!(t.expected_duration, 17_000_000);
    assert_eq!(gap_before_clip(&t.clips, 0), 0);
    assert_eq!(gap_before_clip(&t.clips, 1), 0);
    assert_eq!(gap_before_clip(&t.clips, 2), 2_000_000);
}

#[test]
fn first_clip_is_measured_against_the_origin() {
    let clips = vec![clip("a", 3.0, 5.0, None), clip("b", 8.005, 1.0, None)];
    assert_eq!(
        find_gaps(&clips),
        vec![Gap { before: 0, duration: 3_000_000 }]
    );
    assert!(check_for_gaps(&clips));
    assert_eq!(gap_before_clip(&clips, 1), 5_000);
}

#[test]
fn overlapping_clips_have_no_gaps() {
    let clips = vec![clip("a", 0.0, 5.0, None), clip("b", 2.0, 5.0, Some(1))];
    assert!(find_gaps(&clips).is_empty());
    assert!(!check_for_gaps(&clips));
    assert_eq!(gap_before_clip(&clips, 1), -3_000_000);
    assert!(!check_for_gaps(&Vec::new()));
}
