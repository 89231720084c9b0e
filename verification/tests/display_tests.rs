use weather::display::{alert_summary, alert_title, cardinal_point, field_label, icon_to_emoji, is_current_hour, precip_bar};
use weather::model::Alert;

#[test]
fn icons_map_to_emoji() {
    let cases = [
        ("01d", "☀️"), ("01n", "🌙"), ("02d", "🌤️"), ("02n", "☁️"), ("03d", "⛅"), ("03n", "⛅"),
        ("04d", "☁️"), ("04n", "☁️"), ("09d", "🌧️"), ("09n", "🌧️"), ("10d", "🌦️"), ("10n", "🌧️"),
        ("11d", "⛈️"), ("11n", "⛈️"), ("13d", "❄️"), ("13n", "❄️"), ("50d", "🌫️"), ("50n", "🌫️"),
    ];
    for (icon, emoji) in cases {
        assert_eq!(icon_to_emoji(icon), emoji, "icon {}", icon);
    }
}

#[test]
fn unknown_icons_show_a_thermometer() {
    for icon in ["", "01", "01x", "99d", "01dd", " 01d"] {
        assert_eq!(icon_to_emoji(icon), "🌡️", "icon {:?}", icon);
    }
}

#[test]
fn compass_points_clockwise() {
    let names: Vec<&str> = (0..16).map(cardinal_point).collect();
    assert_eq!(
        names,
        ["N", "NNE", "NE", "ENE", "E", "ESE", "SE", "SSE", "S", "SSW", "SW", "WSW", "W", "WNW", "NW", "NNW"]
    );
}

#[test]
fn precip_bar_cells() {
    let b = precip_bar(0);
    assert_eq!((b.filled.as_str(), b.empty.as_str(), b.label.as_str()), ("", "        ", " 0%"));
    let b = precip_bar(12);
    assert_eq!((b.filled.as_str(), b.empty.as_str()), ("", "        "));
    let b = precip_bar(13);
    assert_eq!((b.filled.as_str(), b.empty.as_str()), ("█", "       "));
    let b = precip_bar(50);
    assert_eq!((b.filled.as_str(), b.empty.as_str(), b.label.as_str()), ("████", "    ", " 50%"));
    let b = precip_bar(100);
    assert_eq!((b.filled.as_str(), b.empty.as_str(), b.label.as_str()), ("████████", "", " 100%"));
    let b = precip_bar(112);
    assert_eq!((b.filled.as_str(), b.empty.as_str()), ("████████", ""));
}

#[test]
fn precip_bar_is_always_eight_cells() {
    for pct in 0..=112u16 {
        let b = precip_bar(pct);
        assert_eq!(b.filled.chars().count() + b.empty.chars().count(), 8, "pct {}", pct);
    }
}

#[test]
fn field_labels_are_eleven_wide() {
    assert_eq!(field_label("Sky"), "Sky        ");
    assert_eq!(field_label("Min / Max"), "Min / Max  ");
    assert_eq!(field_label("Visibility"), "Visibility ");
}

fn alert(sender: &str, start: i64, end: i64, description: &str) -> Alert {
    Alert {
        event: "Wind warning".to_string(),
        sender_name: sender.to_string(),
        start,
        end,
        description: description.to_string(),
    }
}

#[test]
fn alert_titles() {
    assert_eq!(alert_title(&alert("", 0, 0, "")), "⚠ Wind warning");
}

#[test]
fn alert_summary_with_everything() {
    let s = alert_summary(&alert("Met Office", 1_700_000_000, 1_700_007_200, "\n  Gusts up to 90 km/h \nStay indoors"), 3600);
    assert_eq!(s.title, "⚠ Wind warning");
    assert_eq!(s.source.as_deref(), Some("Met Office"));
    assert_eq!(s.window, "23:13 → 01:13");
    assert_eq!(s.detail.as_deref(), Some("Gusts up to 90 km/h"));
}

#[test]
fn alert_summary_without_sender_or_times() {
    let s = alert_summary(&alert("", 0, 0, "   "), 0);
    assert_eq!(s.source, None);
    assert_eq!(s.window, "— → —");
    assert_eq!(s.detail, None);
}

#[test]
fn current_hour_compares_day_and_hour() {
    // 2023-11-14 22:00 UTC and 22:13:20 UTC
    assert!(is_current_hour(1_699_999_200, 1_700_000_000, 0));
    assert!(!is_current_hour(1_699_999_200 + 3600, 1_700_000_000, 0));
    // same hour one day apart
    assert!(!is_current_hour(1_699_999_200 - 86400, 1_700_000_000, 0));
    // the offset shifts both alike
    assert!(is_current_hour(1_699_999_200, 1_700_000_000, 1800 * 3));
}
