//! Which entries of a series the dashboard shows, and chart scales.

use vstd::prelude::*;

verus! {

/// The largest number of forecast bars drawn.
pub const FORECAST_BARS: usize = 20;

/// The largest number of alerts listed.
pub const ALERT_ROWS: usize = 10;

/// The top of the Kp charts' scale, in tenths of a Kp unit.
pub const KP_SCALE_TOP: u64 = 90;

/// The smaller of two numbers.
pub open spec fn min_of(a: int, b: int) -> int {
    if a <= b { a } else { b }
}

/// The top of a sparkline's scale: the largest value of `data`, and at
/// least 1.
pub fn sparkline_ceiling(data: &Vec<u64>) -> (top: u64)
    ensures
        top >= 1,
        forall|i: int| 0 <= i < data.len() ==> data[i] <= top,
        top == 1 || exists|i: int| 0 <= i < data.len() && data[i] == top,
{
    let mut top: u64 = 1;
    let mut k: usize = 0;
    while k < data.len()
        invariant
            k <= data.len(),
            top >= 1,
            forall|i: int| 0 <= i < k ==> data[i] <= top,
            top == 1 || exists|i: int| 0 <= i < k && data[i] == top,
        decreases data.len() - k,
    {
        if data[k] > top {
            top = data[k];
        }
        k = k + 1;
    }
    top
}

/// The forecast entries drawn as bars: every other entry from the first
/// on, at most `FORECAST_BARS` of them.
pub fn forecast_picks(len: usize) -> (picks: Vec<usize>)
    ensures
        picks.len() == min_of((len as int + 1) / 2, FORECAST_BARS as int),
        picks.len() == (if (len + 1) / 2 <= 20 { (len + 1) / 2 } else { 20 }),
        forall|i: int| 0 <= i < picks.len() ==> picks[i] == 2 * i,
{
    let mut picks: Vec<usize> = Vec::new();
    let mut at: usize = 0;
    while at < len && picks.len() < FORECAST_BARS
        invariant
            at == 2 * picks.len(),
            picks.len() <= FORECAST_BARS,
            at <= len + 1,
            forall|i: int| 0 <= i < picks.len() ==> picks[i] == 2 * i,
        decreases FORECAST_BARS - picks.len(),
    {
        picks.push(at);
        at = at + 2;
    }
    picks
}

/// The alerts listed: the last `ALERT_ROWS` entries, newest first.
pub fn recent_picks(len: usize) -> (picks: Vec<usize>)
    ensures
        picks.len() == min_of(len as int, ALERT_ROWS as int),
        picks.len() == (if len <= 10 { len as int } else { 10 }),
        forall|i: int| 0 <= i < picks.len() ==> picks[i] == len - 1 - i,
{
    let mut picks: Vec<usize> = Vec::new();
    let mut left: usize = len;
    while left > 0 && picks.len() < ALERT_ROWS
        invariant
            left + picks.len() == len,
            picks.len() <= ALERT_ROWS,
            forall|i: int| 0 <= i < picks.len() ==> picks[i] == len - 1 - i,
        decreases left,
    {
        left = left - 1;
        picks.push(left);
    }
    picks
}

} // verus!
