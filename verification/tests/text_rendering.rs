use zapcut::text::{decimal_string, join, push_fixed, push_pico_seconds, push_plain, push_seconds};

fn seconds(micros: i128) -> String {
    let mut out = String::new();
    push_seconds(&mut out, micros);
    out
}

fn plain(millionths: u64) -> String {
    let mut out = String::new();
    push_plain(&mut out, millionths);
    out
}

#[test]
fn decimal_numerals() {
    assert_eq!(decimal_string(0), "0");
    assert_eq!(decimal_string(7), "7");
    assert_eq!(decimal_string(10), "10");
    assert_eq!(decimal_string(1920), "1920");
    assert_eq!(decimal_string(u128::MAX), u128::MAX.to_string());
}

#[test]
fn seconds_have_three_decimals() {
    assert_eq!(seconds(0), "0.000");
    assert_eq!(seconds(1_500_000), "1.500");
    assert_eq!(seconds(12_345_678), "12.346");
    assert_eq!(seconds(999), "0.001");
    assert_eq!(seconds(499), "0.000");
    assert_eq!(seconds(500), "0.001");
    assert_eq!(seconds(999_500), "1.000");
    assert_eq!(seconds(-2_250_000), "-2.250");
}

#[test]
fn picoseconds_round_to_milliseconds() {
    let mut out = String::new();
    push_pico_seconds(&mut out, 40_000_000_000_000);
    assert_eq!(out, "40.000");
    let mut out = String::new();
    push_pico_seconds(&mut out, 1_234_567_890_123);
    assert_eq!(out, "1.235");
}

#[test]
fn fixed_text_carries_into_the_whole_part() {
    let mut out = String::new();
    push_fixed(&mut out, false, 2, 3, 6);
    assert_eq!(out, "0.666667");
    let mut out = String::new();
    push_fixed(&mut out, false, 1_999_999, 1_000_000, 3);
    assert_eq!(out, "2.000");
    let mut out = String::new();
    push_fixed(&mut out, false, 5, 2, 0);
    assert_eq!(out, "3");
    let mut out = String::new();
    push_fixed(&mut out, false, u128::MAX, 1, 9);
    assert_eq!(out, format!("{}.000000000", u128::MAX));
}

#[test]
fn plain_text_drops_trailing_zeros() {
    assert_eq!(plain(30_000_000), "30");
    assert_eq!(plain(29_970_000), "29.97");
    assert_eq!(plain(23_976_024), "23.976024");
    assert_eq!(plain(500_000), "0.5");
    assert_eq!(plain(1), "0.000001");
    assert_eq!(plain(0), "0");
}

#[test]
fn join_puts_separator_between_parts() {
    let parts = vec!["a".to_string(), "b".to_string(), "c".to_string()];
    assert_eq!(join(&parts, ","), "a,b,c");
    assert_eq!(join(&parts, ""), "abc");
    assert_eq!(join(&Vec::new(), ","), "");
    assert_eq!(join(&vec!["solo".to_string()], ";"), "solo");
}
