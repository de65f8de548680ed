use tui::tone::Tone;
use tui::view::{
    alert_rows, forecast_bars, header_segments, kp_headline, link_state, viewline_lines, wind_lines,
    AlertEntry, Link, Reading, Segment, Station, Viewline, Wind,
};

fn parts(segs: &[Segment]) -> Vec<(String, Option<Tone>, bool)> {
    segs.iter().map(|s| (s.text.clone(), s.tone, s.bold)).collect()
}

fn seg(text: &str, tone: Option<Tone>, bold: bool) -> (String, Option<Tone>, bool) {
    (text.to_string(), tone, bold)
}

fn station(healthy: bool, poll: Option<&str>, alert: bool) -> Station {
    Station {
        healthy,
        name: "Fairbanks".to_string(),
        latitude_text: "64.8".to_string(),
        last_kp_poll: poll.map(|p| p.to_string()),
        alert_active: alert,
    }
}

#[test]
fn link_state_priorities() {
    assert_eq!(link_state(true, true, Some(true)), Link::Error);
    assert_eq!(link_state(false, true, Some(true)), Link::Loading);
    assert_eq!(link_state(false, false, Some(true)), Link::Connected);
    assert_eq!(link_state(false, false, Some(false)), Link::Disconnected);
    assert_eq!(link_state(false, false, None), Link::Disconnected);
}

#[test]
fn header_while_loading_without_station() {
    let segs = header_segments(None, true, None);
    assert_eq!(
        parts(&segs),
        vec![
            seg("● ", Some(Tone::Yellow), false),
            seg("Loading", Some(Tone::Yellow), false),
            seg("   [r] Refresh  [q] Quit", Some(Tone::DarkGray), false),
        ]
    );
}

#[test]
fn header_of_a_healthy_station_with_an_alert() {
    let st = station(true, Some("2026-03-05T12:34:56.789Z"), true);
    let segs = header_segments(None, false, Some(&st));
    assert_eq!(
        parts(&segs),
        vec![
            seg("● ", Some(Tone::Green), false),
            seg("Connected", Some(Tone::Green), false),
            seg("   Fairbanks  (64.8°N)", None, false),
            seg("   Last: 2026-03-05T12:34:56", Some(Tone::DarkGray), false),
            seg("   ⚡ AURORA ALERT ACTIVE ⚡", Some(Tone::Red), true),
            seg("   [r] Refresh  [q] Quit", Some(Tone::DarkGray), false),
        ]
    );
}

#[test]
fn header_with_an_error_shows_it_last_before_the_help() {
    let st = station(true, None, false);
    let segs = header_segments(Some("Cannot reach API"), false, Some(&st));
    assert_eq!(
        parts(&segs),
        vec![
            seg("● ", Some(Tone::Red), false),
            seg("Error", Some(Tone::Red), false),
            seg("   Fairbanks  (64.8°N)", None, false),
            seg("   Cannot reach API", Some(Tone::Red), false),
            seg("   [r] Refresh  [q] Quit", Some(Tone::DarkGray), false),
        ]
    );
}

#[test]
fn header_of_an_unhealthy_station() {
    let st = station(false, None, false);
    let segs = header_segments(None, false, Some(&st));
    assert_eq!(segs[0].tone, Some(Tone::DarkGray));
    assert_eq!(segs[1].text, "Disconnected");
}

fn reading(time: &str, text: &str, hundredths: i64, tenths: u64) -> Reading {
    Reading { time_tag: time.to_string(), value_text: text.to_string(), hundredths, tenths }
}

#[test]
fn kp_headline_of_a_reading() {
    let r = reading("2026-03-05T21:00:00Z", "5.3", 533, 53);
    let segs = kp_headline(Some(&r));
    assert_eq!(
        parts(&segs),
        vec![seg("  Kp 5.3", Some(Tone::LightRed), true), seg("   at 21:00 UTC", Some(Tone::DarkGray), false)]
    );
}

#[test]
fn kp_headline_without_readings() {
    let segs = kp_headline(None);
    assert_eq!(parts(&segs), vec![seg("  Kp --", Some(Tone::Green), true), seg("", Some(Tone::DarkGray), false)]);
}

#[test]
fn forecast_bars_take_every_other_reading() {
    let forecast = vec![
        reading("2026-03-05T00:00:00", "2.0", 200, 20),
        reading("2026-03-05T03:00:00", "3.0", 300, 30),
        reading("2026-03-05T06:00:00", "5.7", 567, 57),
        reading("2026-03-05T09:00:00", "7.0", 700, 70),
        reading("2026-03-05T12:00:00", "7.3", 733, 73),
    ];
    let bars = forecast_bars(&forecast);
    let got: Vec<(String, u64, Tone)> = bars.iter().map(|b| (b.label.clone(), b.value, b.tone)).collect();
    assert_eq!(
        got,
        vec![
            ("00".to_string(), 20, Tone::Green),
            ("06".to_string(), 57, Tone::LightRed),
            ("12".to_string(), 73, Tone::Red),
        ]
    );
}

#[test]
fn forecast_bars_stop_at_twenty() {
    let forecast: Vec<Reading> = (0..60).map(|i| reading("2026-03-05T09:00:00", "1.0", i, 10)).collect();
    let bars = forecast_bars(&forecast);
    assert_eq!(bars.len(), 20);
    assert_eq!(bars[19].label, "09");
}

#[test]
fn wind_lines_of_a_reading() {
    let w = Wind {
        speed_text: "512".to_string(),
        density_text: "4.2".to_string(),
        bz_text: "-6.1".to_string(),
        bt_text: "8.0".to_string(),
        bz_hundredths: -610,
    };
    let lines = wind_lines(Some(&w));
    assert_eq!(
        parts(&lines),
        vec![
            seg("  Speed:   512 km/s", Some(Tone::Cyan), false),
            seg("  Density: 4.2 p/cm³", Some(Tone::LightYellow), false),
            seg("  Bz:      -6.1 nT", Some(Tone::Red), false),
            seg("  Bt:      8.0 nT", Some(Tone::DarkGray), false),
        ]
    );
}

#[test]
fn wind_lines_without_data() {
    assert_eq!(parts(&wind_lines(None)), vec![seg("  No data", Some(Tone::DarkGray), false)]);
}

#[test]
fn viewline_lines_of_tonight() {
    let v = Viewline {
        max_kp_text: "6.7".to_string(),
        max_kp_hundredths: 667,
        window_start: "2026-03-05T22:00:00Z".to_string(),
        window_end: "2026-03-06T04:30:00Z".to_string(),
    };
    assert_eq!(
        parts(&viewline_lines(Some(&v))),
        vec![seg("  Max Kp:  6.7", Some(Tone::LightRed), false), seg("  Window:  22:00 → 04:30 UTC", None, false)]
    );
    assert_eq!(parts(&viewline_lines(None)), vec![seg("  No viewline tonight", Some(Tone::DarkGray), false)]);
}

fn alert(ts: &str, kind: &str, kp: &str) -> AlertEntry {
    AlertEntry { timestamp: ts.to_string(), alert_type: kind.to_string(), kp_text: kp.to_string() }
}

#[test]
fn alert_rows_without_alerts() {
    let rows = alert_rows(&vec![]);
    assert_eq!(rows.len(), 1);
    assert_eq!(parts(&rows[0]), vec![seg("  No recent alerts", Some(Tone::DarkGray), false)]);
}

#[test]
fn alert_rows_newest_first() {
    let alerts = vec![
        alert("2026-03-05T12:34:56Z", "Aurora", "5.0"),
        alert("2026-03-05T18:00:00Z", "Kp Threshold", "6.3"),
    ];
    let rows = alert_rows(&alerts);
    assert_eq!(rows.len(), 2);
    assert_eq!(
        parts(&rows[0]),
        vec![
            seg("03-05 18:00", Some(Tone::DarkGray), false),
            seg("  ", None, false),
            seg("Kp Threshold", Some(Tone::Yellow), false),
            seg("  Kp 6.3", Some(Tone::White), false),
        ]
    );
    assert_eq!(
        parts(&rows[1]),
        vec![
            seg("03-05 12:34", Some(Tone::DarkGray), false),
            seg("  ", None, false),
            seg("Aurora", Some(Tone::Green), false),
            seg("  Kp 5.0", Some(Tone::White), false),
        ]
    );
}

#[test]
fn alert_rows_keep_the_last_ten() {
    let alerts: Vec<AlertEntry> =
        (0..14).map(|i| alert(&format!("2026-03-{:02}T10:00:00Z", i + 1), "Aurora", "4.0")).collect();
    let rows = alert_rows(&alerts);
    assert_eq!(rows.len(), 10);
    assert_eq!(rows[0][0].text, "03-14 10:00");
    assert_eq!(rows[9][0].text, "03-05 10:00");
}

#[test]
fn alert_rows_of_a_single_alert() {
    let rows = alert_rows(&vec![alert("2026-03-05T01:02:03Z", "Aurora", "3.3")]);
    assert_eq!(rows.len(), 1);
    assert_eq!(rows[0][0].text, "03-05 01:02");
}

#[test]
fn older_alerts_never_change_the_list() {
    let recent: Vec<AlertEntry> =
        (0..10).map(|i| alert(&format!("2026-03-{:02}T10:00:00Z", i + 10), "Kp Threshold", "5.0")).collect();
    let mut all: Vec<AlertEntry> = vec![alert("not a time é", "Aurora", "9.0"), alert("2026-01-01T00:00:00Z", "Aurora", "8.0")];
    all.extend(recent.iter().map(|a| alert(&a.timestamp, &a.alert_type, &a.kp_text)));
    let with_older: Vec<Vec<(String, Option<Tone>, bool)>> = alert_rows(&all).iter().map(|r| parts(r)).collect();
    let without: Vec<Vec<(String, Option<Tone>, bool)>> = alert_rows(&recent).iter().map(|r| parts(r)).collect();
    assert_eq!(with_older, without);
}

#[test]
fn odd_and_late_forecast_readings_never_change_the_bars() {
    let a: Vec<Reading> = (0..45).map(|i| reading("2026-03-05T06:00:00", "2.0", 200, 20 + (i % 2) as u64)).collect();
    let b: Vec<Reading> = (0..41)
        .map(|i| if i % 2 == 0 { reading("2026-03-05T06:00:00", "2.0", 200, 20) } else { reading("é", "9.0", 900, 90) })
        .collect();
    let shown = |f: &Vec<Reading>| -> Vec<(String, u64, Tone)> {
        forecast_bars(f).iter().map(|x| (x.label.clone(), x.value, x.tone)).collect()
    };
    assert_eq!(shown(&a), shown(&b));
}
