//! Texts of the dashboard that do not depend on measurements: weather icons,
//! compass points, the precipitation bar, field labels and alert summaries.
use vstd::prelude::*;

use crate::calendar::{clock_text, local_dt, local_reading, shift_fits, time_hm, utc_calendar_date, LocalDateTime};
use crate::model::Alert;
use crate::text::{
    decimal, decimal_string, first_filled_line, first_filled_line_of, pad_right, padded_right,
    repeat_str, repeated, str_eq,
};

verus! {

/// The emoji shown for an OpenWeatherMap icon code (e.g. `01d`, `10n`); a
/// thermometer for an unknown code.
pub open spec fn icon_emoji(icon: Seq<char>) -> Seq<char> {
    if icon == "01d"@ {
        "☀️"@
    } else if icon == "01n"@ {
        "🌙"@
    } else if icon == "02d"@ {
        "🌤️"@
    } else if icon == "02n"@ {
        "☁️"@
    } else if icon == "03d"@ || icon == "03n"@ {
        "⛅"@
    } else if icon == "04d"@ || icon == "04n"@ {
        "☁️"@
    } else if icon == "09d"@ || icon == "09n"@ {
        "🌧️"@
    } else if icon == "10d"@ {
        "🌦️"@
    } else if icon == "10n"@ {
        "🌧️"@
    } else if icon == "11d"@ || icon == "11n"@ {
        "⛈️"@
    } else if icon == "13d"@ || icon == "13n"@ {
        "❄️"@
    } else if icon == "50d"@ || icon == "50n"@ {
        "🌫️"@
    } else {
        "🌡️"@
    }
}

/// Maps an OpenWeatherMap icon code (e.g. `01d`, `10n`) to an emoji.
pub fn icon_to_emoji(icon: &str) -> (r: &'static str)
    ensures
        r@ == icon_emoji(icon@),
{
    if str_eq(icon, "01d") {
        "☀️"
    } else if str_eq(icon, "01n") {
        "🌙"
    } else if str_eq(icon, "02d") {
        "🌤️"
    } else if str_eq(icon, "02n") {
        "☁️"
    } else if str_eq(icon, "03d") || str_eq(icon, "03n") {
        "⛅"
    } else if str_eq(icon, "04d") || str_eq(icon, "04n") {
        "☁️"
    } else if str_eq(icon, "09d") || str_eq(icon, "09n") {
        "🌧️"
    } else if str_eq(icon, "10d") {
        "🌦️"
    } else if str_eq(icon, "10n") {
        "🌧️"
    } else if str_eq(icon, "11d") || str_eq(icon, "11n") {
        "⛈️"
    } else if str_eq(icon, "13d") || str_eq(icon, "13n") {
        "❄️"
    } else if str_eq(icon, "50d") || str_eq(icon, "50n") {
        "🌫️"
    } else {
        "🌡️"
    }
}

/// The sixteen compass points, clockwise from north.
pub open spec fn compass_points() -> Seq<Seq<char>> {
    seq![
        "N"@, "NNE"@, "NE"@, "ENE"@, "E"@, "ESE"@, "SE"@, "SSE"@,
        "S"@, "SSW"@, "SW"@, "WSW"@, "W"@, "WNW"@, "NW"@, "NNW"@,
    ]
}

/// The compass point of a 22.5-degree sector, counted clockwise from north
/// (sector 0 is "N", sector 4 is "E").
pub fn cardinal_point(sector: usize) -> (r: &'static str)
    requires
        sector < 16,
    ensures
        r@ == compass_points()[sector as int],
{
    let directions: [&'static str; 16] = [
        "N", "NNE", "NE", "ENE", "E", "ESE", "SE", "SSE",
        "S", "SSW", "SW", "WSW", "W", "WNW", "NW", "NNW",
    ];
    directions[sector]
}

/// Whether two readings fall in the same hour of the same day.
pub open spec fn same_hour(a: LocalDateTime, b: LocalDateTime) -> bool {
    a.date_spec() == b.date_spec() && a.hour == b.hour
}

/// Whether the hour starting at `ts` is the current hour at `now_ts`, in the
/// location's wall-clock time: the row the hourly table highlights.
pub fn is_current_hour(ts: i64, now_ts: i64, tz_offset: i64) -> (r: bool)
    requires
        shift_fits(ts, tz_offset),
        shift_fits(now_ts, tz_offset),
    ensures
        r == same_hour(local_reading(ts, tz_offset), local_reading(now_ts, tz_offset)),
{
    let t = local_dt(ts, tz_offset);
    let now = local_dt(now_ts, tz_offset);
    t.date() == now.date() && t.hour == now.hour
}

/// The width of the precipitation bar, in cells.
pub const PRECIP_BAR_WIDTH: usize = 8;

/// The three texts of a precipitation bar: the filled cells, the empty cells,
/// and the percentage label.
pub struct PrecipBar {
    pub filled: String,
    pub empty: String,
    pub label: String,
}

/// How many of the eight cells a probability of `pct` percent fills.
pub open spec fn filled_cells(pct: u16) -> nat {
    (pct as nat * 8) / 100
}

/// The precipitation bar for a probability in percent: one filled block per
/// full eighth, spaces for the rest, and " {pct}%".
pub fn precip_bar(pct: u16) -> (r: PrecipBar)
    requires
        filled_cells(pct) <= 8,
    ensures
        r.filled@ == repeated("█"@, filled_cells(pct)),
        r.empty@ == repeated(" "@, (8 - filled_cells(pct)) as nat),
        r.label@ == " "@ + decimal(pct as nat) + "%"@,
{
    let width = PRECIP_BAR_WIDTH;
    let filled = (pct as usize * width) / 100;
    let empty_len = width - filled;
    let mut label = String::from_str(" ");
    let digits = decimal_string(pct as u64);
    label.append(digits.as_str());
    label.append("%");
    PrecipBar { filled: repeat_str("█", filled), empty: repeat_str(" ", empty_len), label }
}

/// The width of a field label in the day details.
pub const FIELD_LABEL_WIDTH: usize = 11;

/// A field label of the day details, padded with spaces to eleven characters.
pub fn field_label(key: &str) -> (r: String)
    ensures
        r@ == padded_right(key@, 11),
{
    pad_right(key, FIELD_LABEL_WIDTH)
}

/// The heading of an alert: a warning sign and the event.
pub open spec fn alert_heading(event: Seq<char>) -> Seq<char> {
    "⚠ "@ + event
}

/// The heading of an alert.
pub fn alert_title(alert: &Alert) -> (r: String)
    ensures
        r@ == alert_heading(alert.event@),
{
    let mut s = String::from_str("⚠ ");
    s.append(alert.event.as_str());
    s
}

/// What the day details show of an alert.
pub struct AlertSummary {
    /// A warning sign and the event.
    pub title: String,
    /// The sender, where the alert names one.
    pub source: Option<String>,
    /// The local start and end times, "HH:MM → HH:MM".
    pub window: String,
    /// The first line of the description that holds more than white space, trimmed.
    pub detail: Option<String>,
}

/// Whether the alert's times can be shown at a location `tz_offset` seconds
/// ahead of UTC without overflow.
pub open spec fn alert_times_fit(alert: Alert, tz_offset: i64) -> bool {
    &&& (alert.start == 0 || shift_fits(alert.start, tz_offset))
    &&& (alert.end == 0 || shift_fits(alert.end, tz_offset))
}

/// Summarises an alert for the day details.
pub fn alert_summary(alert: &Alert, tz_offset: i64) -> (r: AlertSummary)
    requires
        alert_times_fit(*alert, tz_offset),
    ensures
        r.title@ == alert_heading(alert.event@),
        alert.sender_name@.len() == 0 <==> r.source is None,
        r.source matches Some(s) ==> s@ == alert.sender_name@,
        r.window@ == clock_text(alert.start, tz_offset) + " → "@ + clock_text(alert.end, tz_offset),
        match r.detail {
            Some(d) => first_filled_line(alert.description@) == Some(d@),
            None => first_filled_line(alert.description@) is None,
        },
{
    let title = alert_title(alert);
    let source = if alert.sender_name.as_str().unicode_len() > 0 {
        Some(alert.sender_name.clone())
    } else {
        None
    };
    let mut window = time_hm(alert.start, tz_offset);
    window.append(" → ");
    let end = time_hm(alert.end, tz_offset);
    window.append(end.as_str());
    let detail = first_filled_line_of(alert.description.as_str());
    AlertSummary { title, source, window, detail }
}

/// The precipitation bar is always eight cells wide: its filled and empty
/// parts together hold eight characters.
pub proof fn lemma_precip_bar_width(pct: u16)
    requires
        filled_cells(pct) <= 8,
    ensures
        repeated("█"@, filled_cells(pct)).len() + repeated(" "@, (8 - filled_cells(pct)) as nat).len() == 8,
{
    reveal_strlit("█");
    reveal_strlit(" ");
    crate::text::lemma_repeated_len("█"@, filled_cells(pct));
    crate::text::lemma_repeated_len(" "@, (8 - filled_cells(pct)) as nat);
}

/// Each OpenWeatherMap icon code shows its emoji: clear sky a sun by day and
/// a moon by night; few clouds a sun behind a cloud by day and a cloud by
/// night; scattered and broken clouds, showers, thunderstorm, snow and mist
/// alike by day and night; rain a sun behind a rain cloud by day and a rain
/// cloud by night; any other code a thermometer.
pub proof fn lemma_icon_table(icon: Seq<char>)
    ensures
        icon == "01d"@ ==> icon_emoji(icon) == "☀️"@,
        icon == "01n"@ ==> icon_emoji(icon) == "🌙"@,
        icon == "02d"@ ==> icon_emoji(icon) == "🌤️"@,
        icon == "02n"@ ==> icon_emoji(icon) == "☁️"@,
        icon == "03d"@ || icon == "03n"@ ==> icon_emoji(icon) == "⛅"@,
        icon == "04d"@ || icon == "04n"@ ==> icon_emoji(icon) == "☁️"@,
        icon == "09d"@ || icon == "09n"@ ==> icon_emoji(icon) == "🌧️"@,
        icon == "10d"@ ==> icon_emoji(icon) == "🌦️"@,
        icon == "10n"@ ==> icon_emoji(icon) == "🌧️"@,
        icon == "11d"@ || icon == "11n"@ ==> icon_emoji(icon) == "⛈️"@,
        icon == "13d"@ || icon == "13n"@ ==> icon_emoji(icon) == "❄️"@,
        icon == "50d"@ || icon == "50n"@ ==> icon_emoji(icon) == "🌫️"@,
        !(icon == "01d"@ || icon == "01n"@ || icon == "02d"@ || icon == "02n"@ || icon == "03d"@
            || icon == "03n"@ || icon == "04d"@ || icon == "04n"@ || icon == "09d"@ || icon == "09n"@
            || icon == "10d"@ || icon == "10n"@ || icon == "11d"@ || icon == "11n"@ || icon == "13d"@
            || icon == "13n"@ || icon == "50d"@ || icon == "50n"@) ==> icon_emoji(icon) == "🌡️"@,
{
    reveal_strlit("01d");
    reveal_strlit("01n");
    reveal_strlit("02d");
    reveal_strlit("02n");
    reveal_strlit("03d");
    reveal_strlit("03n");
    reveal_strlit("04d");
    reveal_strlit("04n");
    reveal_strlit("09d");
    reveal_strlit("09n");
    reveal_strlit("10d");
    reveal_strlit("10n");
    reveal_strlit("11d");
    reveal_strlit("11n");
    reveal_strlit("13d");
    reveal_strlit("13n");
    reveal_strlit("50d");
    reveal_strlit("50n");
    assert("01d"@ =~= seq!['0', '1', 'd']);
    assert("01n"@ =~= seq!['0', '1', 'n']);
    assert("02d"@ =~= seq!['0', '2', 'd']);
    assert("02n"@ =~= seq!['0', '2', 'n']);
    assert("03d"@ =~= seq!['0', '3', 'd']);
    assert("03n"@ =~= seq!['0', '3', 'n']);
    assert("04d"@ =~= seq!['0', '4', 'd']);
    assert("04n"@ =~= seq!['0', '4', 'n']);
    assert("09d"@ =~= seq!['0', '9', 'd']);
    assert("09n"@ =~= seq!['0', '9', 'n']);
    assert("10d"@ =~= seq!['1', '0', 'd']);
    assert("10n"@ =~= seq!['1', '0', 'n']);
    assert("11d"@ =~= seq!['1', '1', 'd']);
    assert("11n"@ =~= seq!['1', '1', 'n']);
    assert("13d"@ =~= seq!['1', '3', 'd']);
    assert("13n"@ =~= seq!['1', '3', 'n']);
    assert("50d"@ =~= seq!['5', '0', 'd']);
    assert("50n"@ =~= seq!['5', '0', 'n']);
}

/// The bar fills one cell per full eighth of the probability: the filled
/// cells are the largest count whose eighths do not exceed it.
pub proof fn lemma_filled_cells_per_eighth(pct: u16)
    ensures
        filled_cells(pct) * 100 <= pct as nat * 8,
        pct as nat * 8 < (filled_cells(pct) + 1) * 100,
        pct <= 100 ==> filled_cells(pct) <= 8,
{
    let f = filled_cells(pct) as int;
    let p = pct as int;
    assert(f == (p * 8) / 100);
    assert(f * 100 <= p * 8 && p * 8 < (f + 1) * 100) by (nonlinear_arith)
        requires f == (p * 8) / 100, p >= 0;
    assert(p <= 100 ==> f <= 8) by (nonlinear_arith)
        requires f == (p * 8) / 100, p >= 0;
}

/// A row is the current hour exactly when its local date and hour of the day
/// are those of the present moment: a timestamp is in its own hour, and two
/// timestamps whose shifted times of day fall in different hours are not in
/// the same hour.
pub proof fn lemma_current_hour(ts: i64, now_ts: i64, tz_offset: i64)
    requires
        shift_fits(ts, tz_offset),
        shift_fits(now_ts, tz_offset),
    ensures
        same_hour(local_reading(ts, tz_offset), local_reading(ts, tz_offset)),
        utc_calendar_date((ts + tz_offset) as i64) is Some && utc_calendar_date((now_ts + tz_offset) as i64) is Some
            && ((ts + tz_offset) % 86400) / 3600 != ((now_ts + tz_offset) % 86400) / 3600
            ==> !same_hour(local_reading(ts, tz_offset), local_reading(now_ts, tz_offset)),
        local_reading(ts, tz_offset).date_spec() != local_reading(now_ts, tz_offset).date_spec()
            ==> !same_hour(local_reading(ts, tz_offset), local_reading(now_ts, tz_offset)),
{
    crate::calendar::lemma_local_reading_time_of_day(ts, tz_offset);
    crate::calendar::lemma_local_reading_time_of_day(now_ts, tz_offset);
    let a = ((ts + tz_offset) % 86400) / 3600;
    let b = ((now_ts + tz_offset) % 86400) / 3600;
    assert(0 <= a < 24 && 0 <= b < 24);
}

} // verus!
