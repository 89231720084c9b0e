use weather::controller::{status_hints, App, Command, Focus, Key, KeyPress, MainPanel};
use weather::model::{Alert, DailyEntry, WeatherResponse};
use weather::service::WeatherData;

fn key(code: Key) -> KeyPress {
    KeyPress { code, control_only: false }
}

fn ch(c: char) -> KeyPress {
    key(Key::Char(c))
}

fn ctrl(c: char) -> KeyPress {
    KeyPress { code: Key::Char(c), control_only: true }
}

fn day(dt: i64) -> DailyEntry<f32> {
    DailyEntry {
        dt,
        sunrise: 0,
        sunset: 0,
        moonrise: 0,
        moonset: 0,
        moon_phase: 0.0,
        temp_min: 0.0,
        temp_max: 0.0,
        temp_morn: 0.0,
        temp_day: 0.0,
        temp_eve: 0.0,
        temp_night: 0.0,
        feels_morn: 0.0,
        feels_day: 0.0,
        feels_eve: 0.0,
        feels_night: 0.0,
        pressure: 1000,
        humidity: 50,
        wind_speed: 0.0,
        wind_deg: 0.0,
        wind_gust: None,
        clouds: 0,
        uvi: 0.0,
        rain: None,
        snow: None,
        description: String::new(),
        icon: String::new(),
    }
}

fn forecast(days: usize, alerts: &[&str]) -> WeatherData<f32> {
    let mut weather = WeatherResponse::empty(0.0f32);
    weather.daily = (0..days as i64).map(|i| day(1_699_876_800 + 86400 * i)).collect();
    weather.timezone_offset = 3600;
    weather.alerts = alerts
        .iter()
        .map(|e| Alert {
            event: e.to_string(),
            sender_name: String::new(),
            start: 0,
            end: 0,
            description: String::new(),
        })
        .collect();
    WeatherData { weather, location_name: "Paris".to_string() }
}

fn loaded(days: usize) -> App<f32> {
    let mut app = App::new(0.0f32);
    app.update_state(Ok(forecast(days, &[])));
    app
}

#[test]
fn starts_browsing_with_nothing() {
    let app = App::new(0.0f32);
    assert_eq!(app.focus(), Focus::Browse);
    assert_eq!(app.hourly_offset(), 0);
    assert!(!app.should_exit());
    assert!(!app.is_loading());
    assert_eq!(app.error(), &None);
    assert_eq!(app.location_name(), &None);
    assert!(app.weather().daily.is_empty());
    assert_eq!(app.daily().selected_index(), 0);
}

#[test]
fn initial_fetch_sets_loading() {
    let mut app = App::new(0.0f32);
    app.request_initial_fetch();
    assert!(app.is_loading());
}

#[test]
fn ctrl_c_quits_from_browse_and_search() {
    let mut app = loaded(3);
    assert_eq!(app.handle_key_event(ctrl('c')), Command::Nothing);
    assert!(app.should_exit());

    let mut app = loaded(3);
    app.handle_key_event(ch('/'));
    assert_eq!(app.focus(), Focus::Search);
    assert_eq!(app.handle_key_event(ctrl('c')), Command::Nothing);
    assert!(app.should_exit());
}

#[test]
fn plain_c_does_not_quit() {
    let mut app = loaded(3);
    assert_eq!(app.handle_key_event(ch('c')), Command::Nothing);
    assert!(!app.should_exit());
    app.handle_key_event(ch('i'));
    assert_eq!(app.handle_key_event(ch('c')), Command::EditSearch);
    assert!(!app.should_exit());
}

#[test]
fn q_and_esc_quit_while_browsing() {
    let mut app = loaded(3);
    app.handle_key_event(ch('q'));
    assert!(app.should_exit());
    let mut app = loaded(3);
    app.handle_key_event(key(Key::Esc));
    assert!(app.should_exit());
}

#[test]
fn day_keys_move_selection_and_reset_scroll() {
    let mut app = loaded(3);
    for k in [ch('l'), key(Key::Right), key(Key::Tab)] {
        app.handle_key_event(ch('j'));
        let before = app.daily().selected_index();
        app.handle_key_event(k);
        assert_eq!(app.daily().selected_index(), (before + 1) % 3);
        assert_eq!(app.hourly_offset(), 0);
    }
    for k in [ch('h'), key(Key::Left), key(Key::BackTab)] {
        app.handle_key_event(ch('j'));
        let before = app.daily().selected_index();
        app.handle_key_event(k);
        assert_eq!(app.daily().selected_index(), (before + 2) % 3);
        assert_eq!(app.hourly_offset(), 0);
    }
}

#[test]
fn scroll_keys_move_the_hours() {
    let mut app = loaded(3);
    app.handle_key_event(ch('j'));
    app.handle_key_event(key(Key::Down));
    assert_eq!(app.hourly_offset(), 2);
    app.handle_key_event(ch('k'));
    assert_eq!(app.hourly_offset(), 1);
    app.handle_key_event(key(Key::Up));
    app.handle_key_event(key(Key::Up));
    assert_eq!(app.hourly_offset(), 0);
}

#[test]
fn scroll_down_then_up_restores() {
    let mut app = loaded(3);
    app.handle_key_event(ch('l'));
    app.handle_key_event(ch('j'));
    app.handle_key_event(ch('k'));
    assert_eq!(app.hourly_offset(), 0);
    assert_eq!(app.daily().selected_index(), 1);
}

#[test]
fn refresh_key_starts_a_fetch() {
    let mut app = loaded(3);
    assert_eq!(app.handle_key_event(ch('r')), Command::Refresh);
    assert!(app.is_loading());
}

#[test]
fn search_focus_edit_cancel_submit() {
    let mut app = loaded(3);
    assert_eq!(app.handle_key_event(ch('/')), Command::Nothing);
    assert_eq!(app.focus(), Focus::Search);
    for k in [ch('q'), ch('h'), ch('r'), key(Key::Left), key(Key::Other)] {
        assert_eq!(app.handle_key_event(k), Command::EditSearch);
        assert_eq!(app.focus(), Focus::Search);
        assert!(!app.should_exit());
    }
    assert_eq!(app.handle_key_event(key(Key::Esc)), Command::Nothing);
    assert_eq!(app.focus(), Focus::Browse);
    assert!(!app.is_loading());
    assert!(!app.should_exit());

    app.handle_key_event(ch('i'));
    assert_eq!(app.handle_key_event(key(Key::Enter)), Command::Refresh);
    assert_eq!(app.focus(), Focus::Browse);
    assert!(app.is_loading());
}

#[test]
fn unknown_browse_keys_do_nothing() {
    let mut app = loaded(3);
    app.handle_key_event(ch('l'));
    for k in [ch('x'), key(Key::Enter), key(Key::Other), ctrl('q')] {
        let quits = k == ctrl('q');
        assert_eq!(app.handle_key_event(k), Command::Nothing);
        assert_eq!(app.should_exit(), quits);
    }
    assert_eq!(app.daily().selected_index(), 1);
}

#[test]
fn fetched_forecast_replaces_and_clears_error() {
    let mut app = App::new(0.0f32);
    app.request_initial_fetch();
    app.update_state(Err("OpenWeatherMap 401: bad key".to_string()));
    assert!(!app.is_loading());
    assert_eq!(app.error().as_deref(), Some("OpenWeatherMap 401: bad key"));
    app.handle_key_event(ch('j'));
    app.update_state(Ok(forecast(5, &[])));
    assert_eq!(app.error(), &None);
    assert_eq!(app.location_name().as_deref(), Some("Paris"));
    assert_eq!(app.weather().daily.len(), 5);
    assert_eq!(app.daily().entries().len(), 5);
    assert_eq!(app.daily().tz_offset(), 3600);
    assert_eq!(app.hourly_offset(), 0);
}

#[test]
fn failed_fetch_keeps_the_forecast() {
    let mut app = loaded(4);
    app.handle_key_event(ch('l'));
    app.handle_key_event(ch('l'));
    app.update_state(Err("timeout".to_string()));
    assert_eq!(app.weather().daily.len(), 4);
    assert_eq!(app.daily().selected_index(), 2);
    assert_eq!(app.location_name().as_deref(), Some("Paris"));
    assert_eq!(app.error().as_deref(), Some("timeout"));
}

#[test]
fn selection_kept_or_reset_on_new_forecast() {
    let mut app = loaded(7);
    for _ in 0..5 {
        app.handle_key_event(ch('l'));
    }
    app.update_state(Ok(forecast(7, &[])));
    assert_eq!(app.daily().selected_index(), 5);
    app.update_state(Ok(forecast(3, &[])));
    assert_eq!(app.daily().selected_index(), 0);
}

#[test]
fn screen_plan_follows_state() {
    let app = App::new(0.0f32);
    let plan = app.screen_plan();
    assert!(!plan.show_loader && !plan.show_week && !plan.show_current);
    assert_eq!(plan.main, MainPanel::Blank);
    assert_eq!(plan.alert_banner, None);

    let mut app = App::new(0.0f32);
    app.update_state(Ok(forecast(2, &["Storm", "Flood"])));
    app.handle_key_event(ch('r'));
    let plan = app.screen_plan();
    assert!(plan.show_loader && plan.show_week && plan.show_current);
    assert_eq!(plan.main, MainPanel::Detail);
    assert_eq!(plan.alert_banner.as_deref(), Some("⚠ Storm"));

    app.update_state(Err("offline".to_string()));
    let plan = app.screen_plan();
    assert!(!plan.show_loader && plan.show_week);
    assert_eq!(plan.main, MainPanel::Error);
}

#[test]
fn status_line_hints() {
    assert_eq!(status_hints(Focus::Browse), " h/l day · j/k hours · / search · r refresh · q quit ");
    assert_eq!(status_hints(Focus::Search), " type a city · Enter search · Esc cancel ");
}
