use tui::text::{can_slice, fmt_timestamp, safe_slice, text_contains};
use tui::tone::{alert_color, bz_color, kp_color, Tone};

#[test]
fn safe_slice_takes_the_whole_window_when_the_text_reaches_its_end() {
    assert_eq!(safe_slice("2026-03-05T12:34:56Z", 11, 16), "12:34");
    assert_eq!(safe_slice("2026-03-05T12:34:56Z", 0, 19), "2026-03-05T12:34:56");
    assert_eq!(safe_slice("abcdef", 2, 6), "cdef");
}

#[test]
fn safe_slice_shortens_the_window_where_the_text_ends_inside_it() {
    assert_eq!(safe_slice("2026-03-05T12", 11, 16), "12");
    assert_eq!(safe_slice("abc", 1, 10), "bc");
}

#[test]
fn safe_slice_gives_nothing_where_the_text_ends_before_the_window() {
    assert_eq!(safe_slice("2026-03", 11, 16), "");
    assert_eq!(safe_slice("abc", 3, 10), "");
    assert_eq!(safe_slice("", 0, 5), "");
}

#[test]
fn safe_slice_counts_bytes_of_multibyte_text() {
    // "é" takes two bytes.
    assert_eq!(safe_slice("héllo", 1, 3), "é");
    assert_eq!(safe_slice("héllo", 3, 10), "llo");
}

#[test]
fn can_slice_accepts_windows_on_character_boundaries_only() {
    assert!(can_slice("2026-03-05T12:34:56Z", 11, 16));
    assert!(can_slice("abc", 7, 9));
    assert!(can_slice("héllo", 1, 3));
    assert!(!can_slice("héllo", 2, 4));
    assert!(!can_slice("héllo", 0, 2));
    assert!(!can_slice("héllo", 2, 10));
    assert!(!can_slice("abcdef", 4, 2));
}

#[test]
fn fmt_timestamp_shortens_an_rfc3339_time() {
    assert_eq!(fmt_timestamp("2026-03-05T12:34:56Z"), "03-05 12:34");
    assert_eq!(fmt_timestamp("2024-10-10T23:59:00+00:00"), "10-10 23:59");
}

#[test]
fn fmt_timestamp_of_short_text() {
    assert_eq!(fmt_timestamp("2026-03"), "03 ");
    assert_eq!(fmt_timestamp("2026-03-05T1"), "03-05 1");
    assert_eq!(fmt_timestamp(""), " ");
}

#[test]
fn text_contains_finds_runs_of_characters() {
    assert!(text_contains("Aurora Watch", "Aurora"));
    assert!(text_contains("Kp Aurora", "Aurora"));
    assert!(!text_contains("aurora", "Aurora"));
    assert!(!text_contains("Auror", "Aurora"));
    assert!(text_contains("anything", ""));
    assert!(!text_contains("", "x"));
}

#[test]
fn kp_color_bands() {
    assert_eq!(kp_color(0), Tone::Green);
    assert_eq!(kp_color(299), Tone::Green);
    assert_eq!(kp_color(300), Tone::Yellow);
    assert_eq!(kp_color(499), Tone::Yellow);
    assert_eq!(kp_color(500), Tone::LightRed);
    assert_eq!(kp_color(699), Tone::LightRed);
    assert_eq!(kp_color(700), Tone::Red);
    assert_eq!(kp_color(900), Tone::Red);
    assert_eq!(kp_color(-5), Tone::Green);
}

fn rank(t: Tone) -> u8 {
    match t {
        Tone::Red => 3,
        Tone::LightRed => 2,
        Tone::Yellow => 1,
        _ => 0,
    }
}

#[test]
fn kp_color_never_calms_as_kp_rises() {
    let mut last = 0;
    for kp in -100..1000 {
        let r = rank(kp_color(kp));
        assert!(r >= last);
        last = r;
    }
}

#[test]
fn kp_color_of_floats_in_hundredths() {
    let to_hundredths = |kp: f64| (kp * 100.0).floor() as i64;
    assert_eq!(kp_color(to_hundredths(6.99)), Tone::LightRed);
    assert_eq!(kp_color(to_hundredths(7.0)), Tone::Red);
    assert_eq!(kp_color(to_hundredths(2.67)), Tone::Green);
    assert_eq!(kp_color(to_hundredths(3.33)), Tone::Yellow);
}

#[test]
fn bz_color_is_red_when_southward() {
    assert_eq!(bz_color(-1), Tone::Red);
    assert_eq!(bz_color(-540), Tone::Red);
    assert_eq!(bz_color(0), Tone::Magenta);
    assert_eq!(bz_color(310), Tone::Magenta);
}

#[test]
fn alert_color_is_green_for_aurora_alerts() {
    assert_eq!(alert_color("Aurora"), Tone::Green);
    assert_eq!(alert_color("Aurora Probability"), Tone::Green);
    assert_eq!(alert_color("Kp Threshold"), Tone::Yellow);
    assert_eq!(alert_color(""), Tone::Yellow);
}
