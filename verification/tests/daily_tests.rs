use weather::daily::DailyWeather;
use weather::model::DailyEntry;

fn day(dt: i64) -> DailyEntry<f32> {
    DailyEntry {
        dt,
        sunrise: 0,
        sunset: 0,
        moonrise: 0,
        moonset: 0,
        moon_phase: 0.0,
        temp_min: 0.0,
        temp_max: 0.0,
        temp_morn: 0.0,
        temp_day: 0.0,
        temp_eve: 0.0,
        temp_night: 0.0,
        feels_morn: 0.0,
        feels_day: 0.0,
        feels_eve: 0.0,
        feels_night: 0.0,
        pressure: 1000,
        humidity: 50,
        wind_speed: 0.0,
        wind_deg: 0.0,
        wind_gust: None,
        clouds: 0,
        uvi: 0.0,
        rain: None,
        snow: None,
        description: String::new(),
        icon: String::new(),
    }
}

/// Seven days from 2023-11-13 12:00 UTC (a Monday).
fn week() -> Vec<DailyEntry<f32>> {
    (0..7).map(|i| day(1_699_876_800 + 86400 * i)).collect()
}

#[test]
fn selection_moves_and_wraps() {
    let mut d = DailyWeather::new();
    d.data(week(), 0);
    assert_eq!(d.selected_index(), 0);
    d.select_next();
    assert_eq!(d.selected_index(), 1);
    d.select_previous();
    d.select_previous();
    assert_eq!(d.selected_index(), 6);
    d.select_next();
    assert_eq!(d.selected_index(), 0);
}

#[test]
fn next_then_previous_is_the_same_day() {
    let mut d = DailyWeather::new();
    d.data(week(), 0);
    for start in 0..7 {
        while d.selected_index() != start {
            d.select_next();
        }
        d.select_next();
        d.select_previous();
        assert_eq!(d.selected_index(), start);
        d.select_previous();
        d.select_next();
        assert_eq!(d.selected_index(), start);
    }
}

#[test]
fn a_full_cycle_returns() {
    let mut d = DailyWeather::new();
    d.data(week(), 0);
    d.select_next();
    d.select_next();
    for _ in 0..7 {
        d.select_next();
    }
    assert_eq!(d.selected_index(), 2);
}

#[test]
fn no_days_no_movement() {
    let mut d: DailyWeather<f32> = DailyWeather::new();
    d.select_next();
    d.select_previous();
    assert_eq!(d.selected_index(), 0);
}

#[test]
fn new_data_keeps_or_resets_selection() {
    let mut d = DailyWeather::new();
    d.data(week(), 0);
    for _ in 0..5 {
        d.select_next();
    }
    d.data(week(), 3600);
    assert_eq!(d.selected_index(), 5);
    assert_eq!(d.tz_offset(), 3600);
    d.data(week()[..3].to_vec(), 0);
    assert_eq!(d.selected_index(), 0);
    assert_eq!(d.entries().len(), 3);
}

#[test]
fn day_labels() {
    let mut d = DailyWeather::new();
    d.data(week(), 0);
    let labels: Vec<String> = (0..7).map(|i| d.day_label(i)).collect();
    assert_eq!(labels, ["Today 13", "Tue 14th", "Wed 15th", "Thu 16th", "Fri 17th", "Sat 18th", "Sun 19th"]);
}

#[test]
fn day_labels_suffixes_at_month_start() {
    // 2023-11-30 12:00 UTC onwards
    let days: Vec<DailyEntry<f32>> = (0..5).map(|i| day(1_701_345_600 + 86400 * i)).collect();
    let mut d = DailyWeather::new();
    d.data(days, 0);
    let labels: Vec<String> = (0..5).map(|i| d.day_label(i)).collect();
    assert_eq!(labels, ["Today 30", "Fri 1st", "Sat 2nd", "Sun 3rd", "Mon 4th"]);
}

#[test]
fn day_labels_use_the_location_offset() {
    let mut d = DailyWeather::new();
    // 2023-11-13 23:00 UTC is the 14th at UTC+2
    d.data(vec![day(1_699_916_400), day(1_699_916_400 + 86400)], 7200);
    assert_eq!(d.day_label(0), "Today 14");
    assert_eq!(d.day_label(1), "Wed 15th");
}
