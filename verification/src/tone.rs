//! The colours readings are drawn in.

use vstd::prelude::*;
use crate::text::{contains_text, text_contains};

verus! {

/// A colour of the dashboard's palette.
#[derive(Clone, Copy, Debug, PartialEq, Eq, Structural)]
pub enum Tone {
    Red,
    LightRed,
    Yellow,
    Green,
    DarkGray,
    Cyan,
    LightYellow,
    Magenta,
    White,
}

/// The tone of a planetary K-index given in hundredths (rounded down):
/// red from Kp 7, light red from Kp 5, yellow from Kp 3, green below.
pub open spec fn kp_band(kp_hundredths: int) -> Tone {
    if kp_hundredths >= 700 {
        Tone::Red
    } else if kp_hundredths >= 500 {
        Tone::LightRed
    } else if kp_hundredths >= 300 {
        Tone::Yellow
    } else {
        Tone::Green
    }
}

/// How strong the geomagnetic activity is that a Kp tone signals.
pub open spec fn activity_rank(t: Tone) -> int {
    match t {
        Tone::Red => 3,
        Tone::LightRed => 2,
        Tone::Yellow => 1,
        _ => 0,
    }
}

/// The tone of a Kp reading, given in hundredths of a Kp unit and rounded
/// down.
pub fn kp_color(kp_hundredths: i64) -> (t: Tone)
    ensures
        t == kp_band(kp_hundredths as int),
        kp_hundredths < 300 ==> t == Tone::Green,
        300 <= kp_hundredths < 500 ==> t == Tone::Yellow,
        500 <= kp_hundredths < 700 ==> t == Tone::LightRed,
        kp_hundredths >= 700 ==> t == Tone::Red,
{
    if kp_hundredths >= 700 {
        Tone::Red
    } else if kp_hundredths >= 500 {
        Tone::LightRed
    } else if kp_hundredths >= 300 {
        Tone::Yellow
    } else {
        Tone::Green
    }
}

/// The Kp bands: every Kp below 3 is green, from 3 to below 5 yellow, from 5
/// to below 7 light red, and from 7 on red; no other tone is ever given.
pub proof fn lemma_kp_band_thresholds(kp_hundredths: int)
    ensures
        kp_hundredths < 300 ==> kp_band(kp_hundredths) == Tone::Green,
        300 <= kp_hundredths < 500 ==> kp_band(kp_hundredths) == Tone::Yellow,
        500 <= kp_hundredths < 700 ==> kp_band(kp_hundredths) == Tone::LightRed,
        kp_hundredths >= 700 ==> kp_band(kp_hundredths) == Tone::Red,
        activity_rank(kp_band(kp_hundredths)) == (if kp_hundredths >= 700 { 3int } else if kp_hundredths
            >= 500 { 2int } else if kp_hundredths >= 300 { 1int } else { 0int }),
{
}

/// A higher Kp never gets a tone that signals calmer conditions.
pub proof fn lemma_kp_color_monotone(low: int, high: int)
    requires
        low <= high,
    ensures
        activity_rank(kp_band(low)) <= activity_rank(kp_band(high)),
{
}

/// The tone of the north-south field component Bz, in hundredths of a
/// nanotesla rounded down: red when it points south (below zero).
pub fn bz_color(bz_hundredths: i64) -> (t: Tone)
    ensures
        t == (if bz_hundredths < 0 { Tone::Red } else { Tone::Magenta }),
{
    if bz_hundredths < 0 {
        Tone::Red
    } else {
        Tone::Magenta
    }
}

/// The tone of an alert: green for aurora alerts, whose type names
/// "Aurora", yellow for the rest.
pub fn alert_color(alert_type: &str) -> (t: Tone)
    ensures
        t == (if contains_text(alert_type@, "Aurora"@) { Tone::Green } else { Tone::Yellow }),
        t == Tone::Green <==> exists|i: int|
            0 <= i && i + 6 <= alert_type@.len() && #[trigger] alert_type@.subrange(i, i + 6) == "Aurora"@,
        t == Tone::Green || t == Tone::Yellow,
{
    proof {
        reveal_strlit("Aurora");
        let n = "Aurora"@;
        assert(n.len() == 6);
        if contains_text(alert_type@, n) {
            let i = choose|i: int| 0 <= i && i + n.len() <= alert_type@.len()
                && #[trigger] alert_type@.subrange(i, i + n.len()) == n;
            assert(alert_type@.subrange(i, i + 6) == n);
        }
        if exists|i: int| 0 <= i && i + 6 <= alert_type@.len() && #[trigger] alert_type@.subrange(i, i + 6) == n {
            let i = choose|i: int| 0 <= i && i + 6 <= alert_type@.len()
                && #[trigger] alert_type@.subrange(i, i + 6) == n;
            assert(alert_type@.subrange(i, i + n.len()) == n);
        }
    }
    if text_contains(alert_type, "Aurora") {
        Tone::Green
    } else {
        Tone::Yellow
    }
}

} // verus!
