use weather::calendar::local_dt;
use weather::model::{hourly_weather_for, DailyEntry, HourlyEntry, WeatherResponse};

fn hour(dt: i64) -> HourlyEntry<f32> {
    HourlyEntry {
        dt,
        temp: 15.0,
        feels_like: 14.0,
        pop: 10,
        wind_speed: 3.0,
        wind_deg: 45.0,
        description: "Clear sky".to_string(),
        icon: "01d".to_string(),
    }
}

fn day(dt: i64) -> DailyEntry<f32> {
    DailyEntry {
        dt,
        sunrise: 0,
        sunset: 0,
        moonrise: 0,
        moonset: 0,
        moon_phase: 0.0,
        temp_min: 0.0,
        temp_max: 0.0,
        temp_morn: 0.0,
        temp_day: 0.0,
        temp_eve: 0.0,
        temp_night: 0.0,
        feels_morn: 0.0,
        feels_day: 0.0,
        feels_eve: 0.0,
        feels_night: 0.0,
        pressure: 1000,
        humidity: 50,
        wind_speed: 0.0,
        wind_deg: 0.0,
        wind_gust: None,
        clouds: 0,
        uvi: 0.0,
        rain: None,
        snow: None,
        description: String::new(),
        icon: String::new(),
    }
}

#[test]
fn empty_response_holds_nothing() {
    let w = WeatherResponse::empty(0.0f32);
    assert!(w.hourly.is_empty() && w.daily.is_empty() && w.alerts.is_empty());
    assert_eq!(w.timezone_offset, 0);
    assert_eq!(w.current.dt, 0);
    assert_eq!(w.current.description, "");
}

#[test]
fn local_uses_the_forecast_offset() {
    let mut w = WeatherResponse::empty(0.0f32);
    w.timezone_offset = 3600;
    assert_eq!(w.local(1_700_000_000), local_dt(1_700_000_000, 3600));
    assert_eq!(w.local(1_700_000_000).hour, 23);
}

#[test]
fn daily_date_in_local_time() {
    // 2023-11-14 22:13:20 UTC is already 2023-11-15 in UTC+2
    let d = day(1_700_000_000).date(7200);
    assert_eq!((d.year, d.month, d.day), (2023, 11, 15));
    let d = day(1_700_000_000).date(0);
    assert_eq!((d.year, d.month, d.day), (2023, 11, 14));
}

#[test]
fn hourly_for_date_keeps_hours_of_that_day_in_order() {
    let mut w = WeatherResponse::empty(0.0f32);
    w.timezone_offset = 3600;
    // local times: 14th 23:13, 15th 00:13, 15th 01:13, 15th 02:13
    w.hourly = (0..4).map(|i| hour(1_700_000_000 + 3600 * i)).collect();
    let fourteenth = day(1_700_000_000).date(3600);
    let fifteenth = day(1_700_000_000 + 7200).date(3600);

    let on_14: Vec<i64> = hourly_weather_for(&w, fourteenth).iter().map(|h| h.dt).collect();
    let on_15: Vec<i64> = hourly_weather_for(&w, fifteenth).iter().map(|h| h.dt).collect();
    assert_eq!(on_14, [1_700_000_000]);
    assert_eq!(on_15, [1_700_003_600, 1_700_007_200, 1_700_010_800]);
}

#[test]
fn hourly_for_date_beyond_horizon_is_empty() {
    let mut w = WeatherResponse::empty(0.0f32);
    w.hourly = vec![hour(1_700_000_000)];
    let later = day(1_700_000_000 + 5 * 86400).date(0);
    assert!(hourly_weather_for(&w, later).is_empty());
}

#[test]
fn hourly_entries_keep_measurements() {
    let mut w = WeatherResponse::empty(0.0f32);
    w.hourly = vec![hour(1_700_000_000)];
    let got = hourly_weather_for(&w, day(1_700_000_000).date(0));
    assert_eq!(got.len(), 1);
    assert_eq!(got[0].temp, 15.0);
    assert_eq!(got[0].wind_deg, 45.0);
    assert_eq!(got[0].description, "Clear sky");
}

#[test]
fn visible_hours_skip_scrolled_rows() {
    let hours: Vec<HourlyEntry<f32>> = (0..4).map(|i| hour(1_700_000_000 + 3600 * i)).collect();
    let dts = |v: Vec<HourlyEntry<f32>>| v.iter().map(|h| h.dt).collect::<Vec<i64>>();
    assert_eq!(dts(weather::model::visible_hours(&hours, 0)).len(), 4);
    assert_eq!(dts(weather::model::visible_hours(&hours, 3)), [1_700_010_800]);
    assert!(weather::model::visible_hours(&hours, 4).is_empty());
    assert!(weather::model::visible_hours(&hours, 100).is_empty());
}

#[test]
fn day_detail_plan_for_today_and_later_days() {
    let mut w = WeatherResponse::empty(0.0f32);
    w.daily = vec![day(1_700_000_000), day(1_700_000_000 + 86400)];
    w.hourly = vec![hour(1_700_000_000), hour(1_700_000_000 + 86400)];
    let today = weather::model::day_detail_plan(&w, 0).unwrap();
    assert!(today.show_current);
    assert_eq!(today.hours.iter().map(|h| h.dt).collect::<Vec<_>>(), [1_700_000_000]);
    let tomorrow = weather::model::day_detail_plan(&w, 1).unwrap();
    assert!(!tomorrow.show_current);
    assert_eq!(tomorrow.hours.iter().map(|h| h.dt).collect::<Vec<_>>(), [1_700_086_400]);
    assert!(weather::model::day_detail_plan(&w, 2).is_none());
}
