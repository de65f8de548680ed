//! The text of the dashboard's panels, as runs of styled text.

use vstd::prelude::*;
use vstd::string::*;
use crate::text::{safe_slice, window_fits, window_text};
use crate::tone::{Tone, kp_band, kp_color, bz_color, alert_color};
use crate::text::{contains_text, fmt_timestamp, timestamp_text};
use crate::series::{forecast_picks, recent_picks, min_of, FORECAST_BARS, ALERT_ROWS};

verus! {

/// A run of text drawn in one style: in a tone, or in the terminal's own
/// colour where there is none, and bold or not.
pub struct Segment {
    pub text: String,
    pub tone: Option<Tone>,
    pub bold: bool,
}

impl View for Segment {
    type V = (Seq<char>, Option<Tone>, bool);

    open spec fn view(&self) -> (Seq<char>, Option<Tone>, bool) {
        (self.text@, self.tone, self.bold)
    }
}

/// What a sequence of segments shows.
pub open spec fn shown(segs: Seq<Segment>) -> Seq<(Seq<char>, Option<Tone>, bool)> {
    segs.map_values(|s: Segment| s@)
}

/// Whether the dashboard is linked to the backend, as its header shows it.
#[derive(Clone, Copy, Debug, PartialEq, Eq, Structural)]
pub enum Link {
    Error,
    Loading,
    Connected,
    Disconnected,
}

/// The link state: an error outranks loading, loading outranks a healthy
/// backend, and anything else is shown as disconnected.
pub open spec fn link_spec(has_error: bool, loading: bool, healthy: Option<bool>) -> Link {
    if has_error {
        Link::Error
    } else if loading {
        Link::Loading
    } else if healthy == Some(true) {
        Link::Connected
    } else {
        Link::Disconnected
    }
}

/// The link state shown in the header, from whether the last refresh
/// failed, whether one is under way, and the backend's health if known.
pub fn link_state(has_error: bool, loading: bool, healthy: Option<bool>) -> (link: Link)
    ensures
        link == link_spec(has_error, loading, healthy),
        has_error ==> link == Link::Error,
        !has_error && loading ==> link == Link::Loading,
        !has_error && !loading && healthy == Some(true) ==> link == Link::Connected,
        !has_error && !loading && healthy != Some(true) ==> link == Link::Disconnected,
{
    if has_error {
        Link::Error
    } else if loading {
        Link::Loading
    } else {
        match healthy {
            Some(true) => Link::Connected,
            _ => Link::Disconnected,
        }
    }
}

/// The link state's priorities: an error is shown whatever else holds;
/// without one, loading is shown; without either, a healthy backend shows
/// as connected, and one that is unhealthy or unknown as disconnected.
pub proof fn lemma_link_priorities(has_error: bool, loading: bool, healthy: Option<bool>)
    ensures
        has_error ==> link_spec(has_error, loading, healthy) == Link::Error,
        !has_error && loading ==> link_spec(has_error, loading, healthy) == Link::Loading,
        !has_error && !loading && healthy == Some(true) ==> link_spec(has_error, loading, healthy)
            == Link::Connected,
        !has_error && !loading && healthy != Some(true) ==> link_spec(has_error, loading, healthy)
            == Link::Disconnected,
{
}

/// The tone of a link state.
pub open spec fn link_tone(link: Link) -> Tone {
    match link {
        Link::Error => Tone::Red,
        Link::Loading => Tone::Yellow,
        Link::Connected => Tone::Green,
        Link::Disconnected => Tone::DarkGray,
    }
}

/// The word for a link state.
pub open spec fn link_word(link: Link) -> Seq<char> {
    match link {
        Link::Error => "Error"@,
        Link::Loading => "Loading"@,
        Link::Connected => "Connected"@,
        Link::Disconnected => "Disconnected"@,
    }
}

/// A segment with the given text and style.
fn styled(text: &str, tone: Option<Tone>, bold: bool) -> (seg: Segment)
    ensures
        seg@ == (text@, tone, bold),
{
    Segment { text: String::from_str(text), tone, bold }
}

/// The text `a` followed by `b`.
fn joined(a: &str, b: &str) -> (s: String)
    ensures
        s@ == a@ + b@,
{
    let mut s = String::from_str(a);
    s.append(b);
    s
}

/// The backend's report on itself, as the header shows it: its health,
/// the observer's location with the latitude already written out to one
/// decimal, the time of the last Kp poll, and whether an aurora alert is on.
pub struct Station {
    pub healthy: bool,
    pub name: String,
    pub latitude_text: String,
    pub last_kp_poll: Option<String>,
    pub alert_active: bool,
}

/// What the header shows of the station report.
pub open spec fn station_shown(st: &Station) -> Seq<(Seq<char>, Option<Tone>, bool)> {
    seq![("   "@ + st.name@ + "  ("@ + st.latitude_text@ + "°N)"@, None::<Tone>, false)]
        + match st.last_kp_poll {
        Some(t) => seq![("   Last: "@ + window_text(t@, 0, 19), Some(Tone::DarkGray), false)],
        None => Seq::empty(),
    } + if st.alert_active {
        seq![("   ⚡ AURORA ALERT ACTIVE ⚡"@, Some(Tone::Red), true)]
    } else {
        Seq::empty()
    }
}

/// What the header line shows: the link state as a dot and a word, the
/// station report if there is one, the error if there is one, and the key
/// help.
pub open spec fn header_shown(error: Option<&str>, loading: bool, station: Option<&Station>)
    -> Seq<(Seq<char>, Option<Tone>, bool)> {
    let link = link_spec(error is Some, loading, match station {
        Some(st) => Some(st.healthy),
        None => None,
    });
    seq![("● "@, Some(link_tone(link)), false), (link_word(link), Some(link_tone(link)), false)]
        + match station {
        Some(st) => station_shown(st),
        None => Seq::empty(),
    } + match error {
        Some(e) => seq![("   "@ + e@, Some(Tone::Red), false)],
        None => Seq::empty(),
    } + seq![("   [r] Refresh  [q] Quit"@, Some(Tone::DarkGray), false)]
}

/// The header always opens with the link state as a dot and a word in the
/// same tone, red "Error" whenever there is an error, and always ends with
/// the key help; an error is shown, in red, just before the help.
pub proof fn lemma_header_layout(error: Option<&str>, loading: bool, station: Option<&Station>)
    ensures
        header_shown(error, loading, station).len() >= 3,
        header_shown(error, loading, station)[0].0 == "● "@,
        header_shown(error, loading, station)[0].1 == header_shown(error, loading, station)[1].1,
        error is Some ==> header_shown(error, loading, station)[1] == ("Error"@, Some(Tone::Red), false),
        error is Some ==> header_shown(error, loading, station)[0].1 == Some(Tone::Red),
        header_shown(error, loading, station).last() == ("   [r] Refresh  [q] Quit"@, Some(Tone::DarkGray),
            false),
        error matches Some(e) ==> header_shown(error, loading, station)[header_shown(error, loading, station).len()
            - 2] == ("   "@ + e@, Some(Tone::Red), false),
{
}

/// A station report shows, after the link state, the place and latitude,
/// then the time of the last Kp poll cut to its first nineteen bytes if
/// there is one, then the alert notice in bold red if an alert is on.
pub proof fn lemma_header_station(error: Option<&str>, loading: bool, st: &Station)
    ensures
        header_shown(error, loading, Some(st)).subrange(2, 2 + station_shown(st).len() as int) == station_shown(st),
        station_shown(st)[0] == ("   "@ + st.name@ + "  ("@ + st.latitude_text@ + "°N)"@, None::<Tone>, false),
        station_shown(st).len() == 1 + (if st.last_kp_poll is Some { 1int } else { 0 }) + (if st.alert_active {
            1int
        } else {
            0
        }),
        st.last_kp_poll matches Some(t) ==> station_shown(st)[1] == ("   Last: "@ + window_text(t@, 0, 19), Some(
            Tone::DarkGray,
        ), false),
        st.alert_active ==> station_shown(st).last() == ("   ⚡ AURORA ALERT ACTIVE ⚡"@, Some(Tone::Red), true),
        header_shown(error, loading, Some(st))[1].0 == (if error is Some {
            "Error"@
        } else if loading {
            "Loading"@
        } else if st.healthy {
            "Connected"@
        } else {
            "Disconnected"@
        }),
{
    assert(header_shown(error, loading, Some(st)).subrange(2, 2 + station_shown(st).len() as int) =~= station_shown(st));
}

/// The segments of the header line.
pub fn header_segments(error: Option<&str>, loading: bool, station: Option<&Station>) -> (segs: Vec<
    Segment,
>)
    requires
        station matches Some(st) ==> (st.last_kp_poll matches Some(t) ==> window_fits(t@, 0, 19)),
    ensures
        shown(segs@) == header_shown(error, loading, station),
{
    let healthy = match station {
        Some(st) => Some(st.healthy),
        None => None,
    };
    let link = link_state(error.is_some(), loading, healthy);
    let (tone, word) = match link {
        Link::Error => (Tone::Red, "Error"),
        Link::Loading => (Tone::Yellow, "Loading"),
        Link::Connected => (Tone::Green, "Connected"),
        Link::Disconnected => (Tone::DarkGray, "Disconnected"),
    };
    let mut segs: Vec<Segment> = Vec::new();
    segs.push(styled("● ", Some(tone), false));
    segs.push(styled(word, Some(tone), false));
    let ghost head = segs@;
    if let Some(st) = station {
        let mut place = String::from_str("   ");
        place.append(st.name.as_str());
        place.append("  (");
        place.append(st.latitude_text.as_str());
        place.append("°N)");
        segs.push(Segment { text: place, tone: None, bold: false });
        if let Some(t) = &st.last_kp_poll {
            let poll = joined("   Last: ", safe_slice(t.as_str(), 0, 19));
            segs.push(Segment { text: poll, tone: Some(Tone::DarkGray), bold: false });
        }
        if st.alert_active {
            segs.push(styled("   ⚡ AURORA ALERT ACTIVE ⚡", Some(Tone::Red), true));
        }
        assert(shown(segs@) =~= shown(head) + station_shown(st));
    }
    if let Some(e) = error {
        segs.push(Segment { text: joined("   ", e), tone: Some(Tone::Red), bold: false });
    }
    segs.push(styled("   [r] Refresh  [q] Quit", Some(Tone::DarkGray), false));
    assert(shown(segs@) =~= header_shown(error, loading, station));
    segs
}

/// A timed Kp value: its RFC 3339 time, the value written out to one
/// decimal, the value in hundredths rounded down, and the value in tenths
/// rounded to the nearest.
pub struct Reading {
    pub time_tag: String,
    pub value_text: String,
    pub hundredths: i64,
    pub tenths: u64,
}

/// What the Kp headline shows of the latest reading: the value in its tone,
/// in bold, or "--" in the tone of Kp 0 when there is none; then the time of
/// day of the reading, or nothing.
pub open spec fn kp_headline_shown(latest: Option<&Reading>) -> Seq<(Seq<char>, Option<Tone>, bool)> {
    match latest {
        Some(r) => seq![
            ("  Kp "@ + r.value_text@, Some(kp_band(r.hundredths as int)), true),
            ("   at "@ + window_text(r.time_tag@, 11, 16) + " UTC"@, Some(Tone::DarkGray), false),
        ],
        None => seq![
            ("  Kp --"@, Some(kp_band(0)), true),
            (Seq::<char>::empty(), Some(Tone::DarkGray), false),
        ],
    }
}

/// The segments of the Kp headline.
pub fn kp_headline(latest: Option<&Reading>) -> (segs: Vec<Segment>)
    requires
        latest matches Some(r) ==> window_fits(r.time_tag@, 11, 16),
    ensures
        shown(segs@) == kp_headline_shown(latest),
{
    let mut segs: Vec<Segment> = Vec::new();
    match latest {
        Some(r) => {
            let value = joined("  Kp ", r.value_text.as_str());
            segs.push(Segment { text: value, tone: Some(kp_color(r.hundredths)), bold: true });
            let mut at = joined("   at ", safe_slice(r.time_tag.as_str(), 11, 16));
            at.append(" UTC");
            segs.push(Segment { text: at, tone: Some(Tone::DarkGray), bold: false });
        },
        None => {
            segs.push(styled("  Kp --", Some(kp_color(0)), true));
            segs.push(Segment { text: String::new(), tone: Some(Tone::DarkGray), bold: false });
        },
    }
    assert(shown(segs@) =~= kp_headline_shown(latest));
    segs
}

/// A bar of the forecast chart: its label, its height, and its tone.
pub struct Bar {
    pub label: String,
    pub value: u64,
    pub tone: Tone,
}

/// What a forecast bar shows of a reading: the hour of its time, its value
/// in tenths, in the reading's tone.
pub open spec fn bar_shown(r: Reading) -> (Seq<char>, u64, Tone) {
    (window_text(r.time_tag@, 11, 13), r.tenths, kp_band(r.hundredths as int))
}

/// The number of bars the forecast chart has for `len` readings.
pub open spec fn bar_count(len: int) -> int {
    min_of((len + 1) / 2, FORECAST_BARS as int)
}

/// The reading that the `k`th forecast bar is drawn from has a time whose
/// hour can be cut out.
pub open spec fn bar_fits(forecast: Seq<Reading>, k: int) -> bool {
    window_fits(forecast[2 * k].time_tag@, 11, 13)
}

/// Every reading a forecast bar is drawn from has a time whose hour can be
/// cut out.
pub open spec fn bars_fit(forecast: Seq<Reading>) -> bool {
    forall|k: int| 0 <= k < bar_count(forecast.len() as int) ==> #[trigger] bar_fits(forecast, k)
}

/// What the forecast chart shows: a bar for every other reading from the
/// first on, at most `FORECAST_BARS` of them.
pub open spec fn forecast_shown(forecast: Seq<Reading>) -> Seq<(Seq<char>, u64, Tone)> {
    Seq::new(bar_count(forecast.len() as int) as nat, |i: int| bar_shown(forecast[2 * i]))
}

/// What a list of bars shows.
pub open spec fn bars_shown(bars: Seq<Bar>) -> Seq<(Seq<char>, u64, Tone)> {
    bars.map_values(|b: Bar| (b.label@, b.value, b.tone))
}

/// Two forecasts with as many bars that agree on the readings the bars are
/// drawn from give the same chart: readings at odd positions and past the
/// last bar never change it, nor whether it can be drawn.
pub proof fn lemma_unpicked_forecast_unseen(f1: Seq<Reading>, f2: Seq<Reading>)
    requires
        bar_count(f1.len() as int) == bar_count(f2.len() as int),
        forall|k: int| 0 <= k < bar_count(f1.len() as int) ==> #[trigger] f1[2 * k] == f2[2 * k],
    ensures
        forecast_shown(f1) == forecast_shown(f2),
        bars_fit(f1) == bars_fit(f2),
{
    assert(forecast_shown(f1) =~= forecast_shown(f2));
    if bars_fit(f1) {
        assert forall|k: int| 0 <= k < bar_count(f2.len() as int) implies #[trigger] bar_fits(f2, k) by {
            assert(f1[2 * k] == f2[2 * k]);
            assert(bar_fits(f1, k));
        }
    }
    if bars_fit(f2) {
        assert forall|k: int| 0 <= k < bar_count(f1.len() as int) implies #[trigger] bar_fits(f1, k) by {
            assert(f1[2 * k] == f2[2 * k]);
            assert(bar_fits(f2, k));
        }
    }
}

/// The bars of the forecast chart: one for every other forecast reading
/// from the first on, at most `FORECAST_BARS` of them.
pub fn forecast_bars(forecast: &Vec<Reading>) -> (bars: Vec<Bar>)
    requires
        bars_fit(forecast@),
    ensures
        bars_shown(bars@) == forecast_shown(forecast@),
        bars.len() == bar_count(forecast.len() as int),
        forall|i: int| 0 <= i < bars.len() ==>
            (#[trigger] bars[i].label@, bars[i].value, bars[i].tone) == bar_shown(forecast[2 * i]),
{
    let picks = forecast_picks(forecast.len());
    let mut bars: Vec<Bar> = Vec::new();
    let mut k: usize = 0;
    while k < picks.len()
        invariant
            k <= picks.len(),
            bars.len() == k,
            picks.len() == min_of((forecast.len() + 1) / 2, FORECAST_BARS as int),
            forall|i: int| 0 <= i < picks.len() ==> picks[i] == 2 * i,
            forall|j: int| 0 <= j < bar_count(forecast.len() as int) ==> #[trigger] bar_fits(forecast@, j),
            forall|i: int| 0 <= i < k ==>
                (#[trigger] bars[i].label@, bars[i].value, bars[i].tone) == bar_shown(forecast[2 * i]),
        decreases picks.len() - k,
    {
        assert(bar_fits(forecast@, k as int));
        let r = &forecast[picks[k]];
        let label = String::from_str(safe_slice(r.time_tag.as_str(), 11, 13));
        bars.push(Bar { label, value: r.tenths, tone: kp_color(r.hundredths) });
        k = k + 1;
    }
    assert(bars_shown(bars@) =~= forecast_shown(forecast@));
    bars
}

/// The latest solar wind reading, written out: speed, density, the field
/// components Bz and Bt, and Bz in hundredths of a nanotesla rounded down.
pub struct Wind {
    pub speed_text: String,
    pub density_text: String,
    pub bz_text: String,
    pub bt_text: String,
    pub bz_hundredths: i64,
}

/// The lines of the solar wind panel: the four readings, each in its tone,
/// or a note that there is no data.
pub open spec fn wind_shown(latest: Option<&Wind>) -> Seq<(Seq<char>, Option<Tone>, bool)> {
    match latest {
        Some(w) => seq![
            ("  Speed:   "@ + w.speed_text@ + " km/s"@, Some(Tone::Cyan), false),
            ("  Density: "@ + w.density_text@ + " p/cm³"@, Some(Tone::LightYellow), false),
            ("  Bz:      "@ + w.bz_text@ + " nT"@, Some(if w.bz_hundredths < 0 { Tone::Red } else { Tone::Magenta }), false),
            ("  Bt:      "@ + w.bt_text@ + " nT"@, Some(Tone::DarkGray), false),
        ],
        None => seq![("  No data"@, Some(Tone::DarkGray), false)],
    }
}

/// The text `a`, then `b`, then `c`.
fn joined3(a: &str, b: &str, c: &str) -> (s: String)
    ensures
        s@ == a@ + b@ + c@,
{
    let mut s = joined(a, b);
    s.append(c);
    s
}

/// The lines of the solar wind panel, one segment each.
pub fn wind_lines(latest: Option<&Wind>) -> (lines: Vec<Segment>)
    ensures
        shown(lines@) == wind_shown(latest),
{
    let mut lines: Vec<Segment> = Vec::new();
    match latest {
        Some(w) => {
            lines.push(Segment { text: joined3("  Speed:   ", w.speed_text.as_str(), " km/s"), tone: Some(Tone::Cyan), bold: false });
            lines.push(Segment { text: joined3("  Density: ", w.density_text.as_str(), " p/cm³"), tone: Some(Tone::LightYellow), bold: false });
            lines.push(Segment { text: joined3("  Bz:      ", w.bz_text.as_str(), " nT"), tone: Some(bz_color(w.bz_hundredths)), bold: false });
            lines.push(Segment { text: joined3("  Bt:      ", w.bt_text.as_str(), " nT"), tone: Some(Tone::DarkGray), bold: false });
        },
        None => {
            lines.push(styled("  No data", Some(Tone::DarkGray), false));
        },
    }
    assert(shown(lines@) =~= wind_shown(latest));
    lines
}

/// Tonight's viewline forecast: the highest Kp expected, written out and in
/// hundredths rounded down, and the RFC 3339 times the viewing window opens
/// and closes.
pub struct Viewline {
    pub max_kp_text: String,
    pub max_kp_hundredths: i64,
    pub window_start: String,
    pub window_end: String,
}

/// The lines of the viewline panel: the highest Kp in its tone and the
/// window's times of day, or a note that there is no viewline tonight.
pub open spec fn viewline_shown(tonight: Option<&Viewline>) -> Seq<(Seq<char>, Option<Tone>, bool)> {
    match tonight {
        Some(v) => seq![
            ("  Max Kp:  "@ + v.max_kp_text@, Some(kp_band(v.max_kp_hundredths as int)), false),
            ("  Window:  "@ + window_text(v.window_start@, 11, 16) + " → "@ + window_text(v.window_end@, 11, 16) + " UTC"@, None::<Tone>, false),
        ],
        None => seq![("  No viewline tonight"@, Some(Tone::DarkGray), false)],
    }
}

/// The lines of the viewline panel, one segment each.
pub fn viewline_lines(tonight: Option<&Viewline>) -> (lines: Vec<Segment>)
    requires
        tonight matches Some(v) ==> window_fits(v.window_start@, 11, 16) && window_fits(v.window_end@, 11, 16),
    ensures
        shown(lines@) == viewline_shown(tonight),
{
    let mut lines: Vec<Segment> = Vec::new();
    match tonight {
        Some(v) => {
            lines.push(Segment { text: joined("  Max Kp:  ", v.max_kp_text.as_str()), tone: Some(kp_color(v.max_kp_hundredths)), bold: false });
            let mut window = joined3("  Window:  ", safe_slice(v.window_start.as_str(), 11, 16), " → ");
            window.append(safe_slice(v.window_end.as_str(), 11, 16));
            window.append(" UTC");
            lines.push(Segment { text: window, tone: None, bold: false });
        },
        None => {
            lines.push(styled("  No viewline tonight", Some(Tone::DarkGray), false));
        },
    }
    assert(shown(lines@) =~= viewline_shown(tonight));
    lines
}

/// A notification the backend sent: its RFC 3339 time, its type, and its
/// Kp written out to one decimal.
pub struct AlertEntry {
    pub timestamp: String,
    pub alert_type: String,
    pub kp_text: String,
}

/// What a row of the alert list shows of an alert: its short timestamp,
/// its type in the alert's tone, and its Kp.
pub open spec fn alert_row_shown(a: AlertEntry) -> Seq<(Seq<char>, Option<Tone>, bool)> {
    seq![
        (timestamp_text(a.timestamp@), Some(Tone::DarkGray), false),
        ("  "@, None::<Tone>, false),
        (a.alert_type@, Some(if contains_text(a.alert_type@, "Aurora"@) { Tone::Green } else { Tone::Yellow }), false),
        ("  Kp "@ + a.kp_text@, Some(Tone::White), false),
    ]
}

/// The alert can be listed: its timestamp can be cut where the short form
/// takes its parts from.
pub open spec fn alert_listable(a: AlertEntry) -> bool {
    window_fits(a.timestamp@, 5, 10) && window_fits(a.timestamp@, 11, 16)
}

/// The segments of the alert list's row for `a`.
fn alert_row(a: &AlertEntry) -> (row: Vec<Segment>)
    requires
        alert_listable(*a),
    ensures
        shown(row@) == alert_row_shown(*a),
{
    let mut row: Vec<Segment> = Vec::new();
    row.push(Segment { text: fmt_timestamp(a.timestamp.as_str()), tone: Some(Tone::DarkGray), bold: false });
    row.push(styled("  ", None, false));
    row.push(Segment { text: a.alert_type.clone(), tone: Some(alert_color(a.alert_type.as_str())), bold: false });
    row.push(Segment { text: joined("  Kp ", a.kp_text.as_str()), tone: Some(Tone::White), bold: false });
    assert(shown(row@) =~= alert_row_shown(*a));
    row
}

/// Every alert among the last `ALERT_ROWS` can be listed.
pub open spec fn recent_listable(alerts: Seq<AlertEntry>) -> bool {
    forall|i: int|
        0 <= i < alerts.len() && alerts.len() - ALERT_ROWS <= i ==> alert_listable(#[trigger] alerts[i])
}

/// What the alert list shows: the rows of the last `ALERT_ROWS` alerts,
/// newest first, or a single row noting that there are none.
pub open spec fn alert_rows_shown(alerts: Seq<AlertEntry>) -> Seq<Seq<(Seq<char>, Option<Tone>, bool)>> {
    if alerts.len() == 0 {
        seq![seq![("  No recent alerts"@, Some(Tone::DarkGray), false)]]
    } else {
        Seq::new(
            min_of(alerts.len() as int, ALERT_ROWS as int) as nat,
            |i: int| alert_row_shown(alerts[alerts.len() - 1 - i]),
        )
    }
}

/// What a list of rows shows.
pub open spec fn rows_shown(rows: Seq<Vec<Segment>>) -> Seq<Seq<(Seq<char>, Option<Tone>, bool)>> {
    rows.map_values(|r: Vec<Segment>| shown(r@))
}

/// Alerts older than the last `ALERT_ROWS` never change the alert list, nor
/// whether it can be drawn.
pub proof fn lemma_older_alerts_unseen(older: Seq<AlertEntry>, recent: Seq<AlertEntry>)
    requires
        recent.len() >= ALERT_ROWS,
    ensures
        alert_rows_shown(older + recent) == alert_rows_shown(recent),
        recent_listable(older + recent) == recent_listable(recent),
{
    let all = older + recent;
    assert(alert_rows_shown(all) =~= alert_rows_shown(recent));
    if recent_listable(recent) {
        assert forall|i: int| 0 <= i < all.len() && all.len() - ALERT_ROWS <= i implies alert_listable(#[trigger] all[i]) by {
            assert(all[i] == recent[i - older.len()]);
        }
    }
    if recent_listable(all) {
        assert forall|j: int| 0 <= j < recent.len() && recent.len() - ALERT_ROWS <= j implies alert_listable(#[trigger] recent[j]) by {
            assert(all[j + older.len()] == recent[j]);
        }
    }
}

/// The rows of the alert list: the last `ALERT_ROWS` alerts, newest first,
/// or a single row noting that there are none.
pub fn alert_rows(alerts: &Vec<AlertEntry>) -> (rows: Vec<Vec<Segment>>)
    requires
        recent_listable(alerts@),
    ensures
        rows_shown(rows@) == alert_rows_shown(alerts@),
        alerts.len() == 0 ==> rows.len() == 1
            && shown(rows[0]@) == seq![("  No recent alerts"@, Some(Tone::DarkGray), false)],
        alerts.len() > 0 ==> rows.len() == min_of(alerts.len() as int, ALERT_ROWS as int),
        alerts.len() > 0 ==> forall|i: int| 0 <= i < rows.len() ==>
            shown(#[trigger] rows[i]@) == alert_row_shown(alerts[alerts.len() - 1 - i]),
{
    let mut rows: Vec<Vec<Segment>> = Vec::new();
    if alerts.len() == 0 {
        let mut row: Vec<Segment> = Vec::new();
        row.push(styled("  No recent alerts", Some(Tone::DarkGray), false));
        assert(shown(row@) =~= seq![("  No recent alerts"@, Some(Tone::DarkGray), false)]);
        rows.push(row);
        assert(rows_shown(rows@) =~= alert_rows_shown(alerts@));
        return rows;
    }
    let picks = recent_picks(alerts.len());
    let mut k: usize = 0;
    while k < picks.len()
        invariant
            k <= picks.len(),
            rows.len() == k,
            alerts.len() > 0,
            picks.len() == min_of(alerts.len() as int, ALERT_ROWS as int),
            forall|i: int| 0 <= i < picks.len() ==> picks[i] == alerts.len() - 1 - i,
            recent_listable(alerts@),
            forall|i: int| 0 <= i < k ==>
                shown(#[trigger] rows[i]@) == alert_row_shown(alerts[alerts.len() - 1 - i]),
        decreases picks.len() - k,
    {
        let at = picks[k];
        assert(alert_listable(alerts@[at as int]));
        let row = alert_row(&alerts[at]);
        rows.push(row);
        k = k + 1;
    }
    assert(rows_shown(rows@) =~= alert_rows_shown(alerts@));
    rows
}

/// Each panel without data shows its note: "--" for Kp in the tone of Kp 0
/// (green) with no time, "No data" for the solar wind, "No viewline
/// tonight", and a single "No recent alerts" row, each note in dark grey.
pub proof fn lemma_panels_without_data()
    ensures
        kp_headline_shown(None) == seq![
            ("  Kp --"@, Some(Tone::Green), true),
            (Seq::<char>::empty(), Some(Tone::DarkGray), false),
        ],
        wind_shown(None) == seq![("  No data"@, Some(Tone::DarkGray), false)],
        viewline_shown(None) == seq![("  No viewline tonight"@, Some(Tone::DarkGray), false)],
        alert_rows_shown(Seq::empty()) == seq![seq![("  No recent alerts"@, Some(Tone::DarkGray), false)]],
{
}

/// The panels of a reading: the Kp headline shows the value in bold in the
/// same tone as a forecast bar of that reading, then the time of day;
/// tonight's highest Kp takes the tone of a reading of the same value; the
/// solar wind panel has four lines, the Bz line red exactly when Bz points
/// south, the others in fixed tones.
pub proof fn lemma_reading_panels(r: Reading, w: Wind, v: Viewline)
    ensures
        kp_headline_shown(Some(&r)).len() == 2,
        kp_headline_shown(Some(&r))[0] == ("  Kp "@ + r.value_text@, Some(bar_shown(r).2), true),
        kp_headline_shown(Some(&r))[1] == ("   at "@ + window_text(r.time_tag@, 11, 16) + " UTC"@, Some(
            Tone::DarkGray,
        ), false),
        r.hundredths == v.max_kp_hundredths ==> viewline_shown(Some(&v))[0].1 == Some(bar_shown(r).2),
        viewline_shown(Some(&v)).len() == 2,
        viewline_shown(Some(&v))[0].0 == "  Max Kp:  "@ + v.max_kp_text@,
        viewline_shown(Some(&v))[1].1 is None,
        viewline_shown(Some(&v))[1].0 == "  Window:  "@ + window_text(v.window_start@, 11, 16) + " → "@
            + window_text(v.window_end@, 11, 16) + " UTC"@,
        wind_shown(Some(&w)).len() == 4,
        wind_shown(Some(&w))[2].1 == Some(Tone::Red) <==> w.bz_hundredths < 0,
        w.bz_hundredths >= 0 ==> wind_shown(Some(&w))[2].1 == Some(Tone::Magenta),
        wind_shown(Some(&w))[0].1 == Some(Tone::Cyan),
        wind_shown(Some(&w))[1].1 == Some(Tone::LightYellow),
        wind_shown(Some(&w))[3].1 == Some(Tone::DarkGray),
{
}

/// The forecast chart has a bar for each even position up to the twentieth
/// bar; bar `i` is drawn from reading `2 i`, labelled with its hour, as
/// high as its value in tenths, in its Kp tone.
pub proof fn lemma_forecast_chart(forecast: Seq<Reading>)
    ensures
        forecast_shown(forecast).len() == (if (forecast.len() + 1) / 2 <= 20 {
            (forecast.len() + 1) / 2
        } else {
            20
        }),
        forall|i: int| 0 <= i < forecast_shown(forecast).len() ==> #[trigger] forecast_shown(forecast)[i] == (
            window_text(forecast[2 * i].time_tag@, 11, 13),
            forecast[2 * i].tenths,
            kp_band(forecast[2 * i].hundredths as int),
        ),
{
}

/// The alert list has a row for each of the last ten alerts, newest first;
/// a row shows the short timestamp, the type in green exactly when it names
/// "Aurora" and in yellow otherwise, and the Kp in white.
pub proof fn lemma_alert_list(alerts: Seq<AlertEntry>)
    requires
        alerts.len() > 0,
    ensures
        alert_rows_shown(alerts).len() == (if alerts.len() <= 10 { alerts.len() as int } else { 10 }),
        forall|i: int| 0 <= i < alert_rows_shown(alerts).len() ==> #[trigger] alert_rows_shown(alerts)[i]
            == alert_row_shown(alerts[alerts.len() - 1 - i]),
        forall|i: int| #![trigger alerts[i]] 0 <= i < alerts.len() ==> {
            let row = alert_row_shown(alerts[i]);
            &&& row.len() == 4
            &&& row[0] == (window_text(alerts[i].timestamp@, 5, 10) + seq![' '] + window_text(
                alerts[i].timestamp@,
                11,
                16,
            ), Some(Tone::DarkGray), false)
            &&& row[2].0 == alerts[i].alert_type@
            &&& (row[2].1 == Some(Tone::Green) <==> exists|j: int|
                0 <= j && j + 6 <= alerts[i].alert_type@.len() && #[trigger] alerts[i].alert_type@.subrange(
                    j,
                    j + 6,
                ) == "Aurora"@)
            &&& (row[2].1 == Some(Tone::Green) || row[2].1 == Some(Tone::Yellow))
            &&& row[3] == ("  Kp "@ + alerts[i].kp_text@, Some(Tone::White), false)
        },
{
    assert forall|i: int| #![trigger alerts[i]] 0 <= i < alerts.len() implies {
        let t = alerts[i].alert_type@;
        (contains_text(t, "Aurora"@) <==> exists|j: int|
            0 <= j && j + 6 <= t.len() && #[trigger] t.subrange(j, j + 6) == "Aurora"@)
    } by {
        reveal_strlit("Aurora");
        let t = alerts[i].alert_type@;
        let n = "Aurora"@;
        assert(n.len() == 6);
        if contains_text(t, n) {
            let j = choose|j: int| 0 <= j && j + n.len() <= t.len() && #[trigger] t.subrange(j, j + n.len()) == n;
            assert(t.subrange(j, j + 6) == n);
        }
        if exists|j: int| 0 <= j && j + 6 <= t.len() && #[trigger] t.subrange(j, j + 6) == n {
            let j = choose|j: int| 0 <= j && j + 6 <= t.len() && #[trigger] t.subrange(j, j + 6) == n;
            assert(t.subrange(j, j + n.len()) == n);
        }
    }
}

} // verus!
