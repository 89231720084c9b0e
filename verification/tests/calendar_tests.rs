use weather::calendar::{day_suffix, format_hour, local_dt, time_hm, weekday_name, LocalDateTime};

fn reading(year: i32, month: u32, day: u32, hour: u32, minute: u32, second: u32, weekday: u32) -> LocalDateTime {
    LocalDateTime { year, month, day, hour, minute, second, weekday }
}

#[test]
fn local_dt_reads_timestamps() {
    assert_eq!(local_dt(0, 0), reading(1970, 1, 1, 0, 0, 0, 4));
    assert_eq!(local_dt(1_700_000_000, 0), reading(2023, 11, 14, 22, 13, 20, 2));
    assert_eq!(local_dt(1_700_000_000, 3600), reading(2023, 11, 14, 23, 13, 20, 2));
    assert_eq!(local_dt(1_700_000_000, 7200), reading(2023, 11, 15, 0, 13, 20, 3));
    assert_eq!(local_dt(-1, 0), reading(1969, 12, 31, 23, 59, 59, 3));
    assert_eq!(local_dt(951_782_400, 0), reading(2000, 2, 29, 0, 0, 0, 2));
    assert_eq!(local_dt(1_709_164_800, 0), reading(2024, 2, 29, 0, 0, 0, 4));
}

#[test]
fn local_dt_out_of_range_gives_epoch() {
    assert_eq!(local_dt(i64::MAX, 0), reading(1970, 1, 1, 0, 0, 0, 4));
    assert_eq!(local_dt(i64::MIN, 0), reading(1970, 1, 1, 0, 0, 0, 4));
}

#[test]
fn local_dt_date_part() {
    let d = local_dt(1_700_000_000, 0).date();
    assert_eq!((d.year, d.month, d.day), (2023, 11, 14));
}

#[test]
fn format_hour_twelve_hour_clock() {
    assert_eq!(format_hour(0), "12AM");
    assert_eq!(format_hour(1), "1AM");
    assert_eq!(format_hour(11), "11AM");
    assert_eq!(format_hour(12), "12PM");
    assert_eq!(format_hour(13), "1PM");
    assert_eq!(format_hour(15), "3PM");
    assert_eq!(format_hour(23), "11PM");
}

#[test]
fn time_hm_formats_local_time() {
    assert_eq!(time_hm(0, 3600), "\u{2014}");
    assert_eq!(time_hm(1_700_000_000, 0), "22:13");
    assert_eq!(time_hm(1_700_000_000, 3600), "23:13");
    assert_eq!(time_hm(1_700_000_000, -22 * 3600), "00:13");
    assert_eq!(time_hm(60, 0), "00:01");
    assert_eq!(time_hm(i64::MAX, 0), "\u{2014}");
}

#[test]
fn day_suffixes() {
    let cases = [
        (1, "st"), (2, "nd"), (3, "rd"), (4, "th"), (10, "th"), (11, "th"), (12, "th"), (13, "th"),
        (14, "th"), (21, "st"), (22, "nd"), (23, "rd"), (24, "th"), (30, "th"), (31, "st"),
    ];
    for (day, suffix) in cases {
        assert_eq!(day_suffix(day), suffix, "day {}", day);
    }
}

#[test]
fn weekday_names_from_sunday() {
    let names: Vec<&str> = (0..7).map(weekday_name).collect();
    assert_eq!(names, ["Sun", "Mon", "Tue", "Wed", "Thu", "Fri", "Sat"]);
}

#[test]
fn time_hm_with_half_hour_offset() {
    assert_eq!(time_hm(3600, 1800), "01:30");
}
