//! The forecast model the dashboard shows, and the choice of the hours that
//! fall on a local date.
//!
//! Measurements (temperatures, speeds, angles, amounts) are carried as values
//! of the type parameter `F`; the application uses `f32`. Nothing in this
//! library inspects a measurement: every rule here decides on timestamps,
//! percentages, codes and texts, and passes measurements through unchanged.
use vstd::prelude::*;

use crate::calendar::{local_dt, local_reading, shift_fits, LocalDate, LocalDateTime};

verus! {

/// Conditions right now.
#[derive(Clone, Debug)]
pub struct CurrentWeather<F> {
    pub dt: i64,
    pub temp: F,
    pub feels_like: F,
    /// hPa, whole.
    pub pressure: u32,
    pub humidity: u32,
    pub dew_point: F,
    pub uvi: F,
    pub clouds: u32,
    pub visibility: u32,
    pub wind_speed: F,
    pub wind_deg: F,
    pub wind_gust: Option<F>,
    pub description: String,
    pub icon: String,
}

/// One hour of the near-term forecast.
#[derive(Clone, Debug)]
pub struct HourlyEntry<F> {
    pub dt: i64,
    pub temp: F,
    pub feels_like: F,
    /// Probability of precipitation, 0..=100 (percent).
    pub pop: u16,
    pub wind_speed: F,
    pub wind_deg: F,
    pub description: String,
    pub icon: String,
}

/// One day of the week overview.
#[derive(Clone, Debug)]
pub struct DailyEntry<F> {
    pub dt: i64,
    pub sunrise: i64,
    pub sunset: i64,
    pub moonrise: i64,
    pub moonset: i64,
    pub moon_phase: F,
    pub temp_min: F,
    pub temp_max: F,
    pub temp_morn: F,
    pub temp_day: F,
    pub temp_eve: F,
    pub temp_night: F,
    pub feels_morn: F,
    pub feels_day: F,
    pub feels_eve: F,
    pub feels_night: F,
    /// hPa, whole.
    pub pressure: u32,
    pub humidity: u32,
    pub wind_speed: F,
    pub wind_deg: F,
    pub wind_gust: Option<F>,
    pub clouds: u32,
    pub uvi: F,
    pub rain: Option<F>,
    pub snow: Option<F>,
    /// Synthesized from clouds and precipitation: the daily timeline carries no condition.
    pub description: String,
    pub icon: String,
}

/// A weather alert issued for the location.
#[derive(Clone, Debug)]
pub struct Alert {
    pub event: String,
    pub sender_name: String,
    pub start: i64,
    pub end: i64,
    pub description: String,
}

/// Everything the dashboard shows about a location.
#[derive(Clone, Debug)]
pub struct WeatherResponse<F> {
    pub current: CurrentWeather<F>,
    pub hourly: Vec<HourlyEntry<F>>,
    pub daily: Vec<DailyEntry<F>>,
    pub alerts: Vec<Alert>,
    /// Seconds to add to a UTC timestamp to get local wall-clock time.
    pub timezone_offset: i64,
}

impl Alert {
    /// A field-by-field copy.
    pub fn duplicate(&self) -> (r: Alert)
        ensures
            r == *self,
    {
        Alert {
            event: self.event.clone(),
            sender_name: self.sender_name.clone(),
            start: self.start,
            end: self.end,
            description: self.description.clone(),
        }
    }
}

impl<F: Copy> HourlyEntry<F> {
    /// A field-by-field copy.
    pub fn duplicate(&self) -> (r: HourlyEntry<F>)
        ensures
            r == *self,
    {
        HourlyEntry {
            dt: self.dt,
            temp: self.temp,
            feels_like: self.feels_like,
            pop: self.pop,
            wind_speed: self.wind_speed,
            wind_deg: self.wind_deg,
            description: self.description.clone(),
            icon: self.icon.clone(),
        }
    }
}

impl<F: Copy> DailyEntry<F> {
    /// A field-by-field copy.
    pub fn duplicate(&self) -> (r: DailyEntry<F>)
        ensures
            r == *self,
    {
        DailyEntry {
            dt: self.dt,
            sunrise: self.sunrise,
            sunset: self.sunset,
            moonrise: self.moonrise,
            moonset: self.moonset,
            moon_phase: self.moon_phase,
            temp_min: self.temp_min,
            temp_max: self.temp_max,
            temp_morn: self.temp_morn,
            temp_day: self.temp_day,
            temp_eve: self.temp_eve,
            temp_night: self.temp_night,
            feels_morn: self.feels_morn,
            feels_day: self.feels_day,
            feels_eve: self.feels_eve,
            feels_night: self.feels_night,
            pressure: self.pressure,
            humidity: self.humidity,
            wind_speed: self.wind_speed,
            wind_deg: self.wind_deg,
            wind_gust: self.wind_gust,
            clouds: self.clouds,
            uvi: self.uvi,
            rain: self.rain,
            snow: self.snow,
            description: self.description.clone(),
            icon: self.icon.clone(),
        }
    }

    /// The local calendar date of this day's timestamp.
    pub open spec fn date_spec(self, tz_offset: i64) -> LocalDate {
        local_reading(self.dt, tz_offset).date_spec()
    }

    /// The local calendar date of this day at a location `tz_offset` seconds
    /// ahead of UTC.
    pub fn date(&self, tz_offset: i64) -> (r: LocalDate)
        requires
            shift_fits(self.dt, tz_offset),
        ensures
            r == self.date_spec(tz_offset),
            crate::calendar::has_date_within_range(self.dt, tz_offset),
    {
        local_dt(self.dt, tz_offset).date()
    }
}

/// Copies a list of days.
pub fn duplicate_days<F: Copy>(days: &Vec<DailyEntry<F>>) -> (r: Vec<DailyEntry<F>>)
    ensures
        r@ == days@,
{
    let mut r: Vec<DailyEntry<F>> = Vec::new();
    let mut i: usize = 0;
    while i < days.len()
        invariant
            i <= days.len(),
            r@ == days@.take(i as int),
        decreases days.len() - i,
    {
        r.push(days[i].duplicate());
        assert(days@.take(i + 1) =~= days@.take(i as int).push(days@[i as int]));
        i = i + 1;
    }
    assert(days@.take(days.len() as int) =~= days@);
    r
}

impl<F: Copy> WeatherResponse<F> {
    /// Whether this response holds nothing: no forecast entries, no alerts,
    /// empty texts, and zero numbers.
    pub open spec fn is_empty_response(self, zero: F) -> bool {
        &&& self.hourly@.len() == 0
        &&& self.daily@.len() == 0
        &&& self.alerts@.len() == 0
        &&& self.timezone_offset == 0
        &&& self.current.dt == 0
        &&& self.current.pressure == 0
        &&& self.current.humidity == 0
        &&& self.current.clouds == 0
        &&& self.current.visibility == 0
        &&& self.current.temp == zero
        &&& self.current.feels_like == zero
        &&& self.current.dew_point == zero
        &&& self.current.uvi == zero
        &&& self.current.wind_speed == zero
        &&& self.current.wind_deg == zero
        &&& self.current.wind_gust is None
        &&& self.current.description@.len() == 0
        &&& self.current.icon@.len() == 0
    }

    /// The empty response shown before the first forecast arrives.
    pub fn empty(zero: F) -> (r: WeatherResponse<F>)
        ensures
            r.is_empty_response(zero),
    {
        WeatherResponse {
            current: CurrentWeather {
                dt: 0,
                temp: zero,
                feels_like: zero,
                pressure: 0,
                humidity: 0,
                dew_point: zero,
                uvi: zero,
                clouds: 0,
                visibility: 0,
                wind_speed: zero,
                wind_deg: zero,
                wind_gust: None,
                description: String::new(),
                icon: String::new(),
            },
            hourly: Vec::new(),
            daily: Vec::new(),
            alerts: Vec::new(),
            timezone_offset: 0,
        }
    }

    /// Whether every hourly timestamp can be shifted to local time without overflow.
    pub open spec fn hourly_shifts_fit(self) -> bool {
        forall|i: int| 0 <= i < self.hourly@.len() ==> shift_fits(#[trigger] self.hourly@[i].dt, self.timezone_offset)
    }

    /// Whether an hourly entry falls on the given local date.
    pub open spec fn falls_on(self, h: HourlyEntry<F>, date: LocalDate) -> bool {
        local_reading(h.dt, self.timezone_offset).date_spec() == date
    }

    /// The hourly entries that fall on the given local date, in order.
    pub open spec fn hours_on(self, date: LocalDate) -> Seq<HourlyEntry<F>> {
        self.hourly@.filter(|h: HourlyEntry<F>| self.falls_on(h, date))
    }

    /// Converts a UTC unix timestamp into local wall-clock time for the
    /// forecast location (not the machine running the app).
    pub fn local(&self, ts: i64) -> (r: LocalDateTime)
        requires
            shift_fits(ts, self.timezone_offset),
        ensures
            r == local_reading(ts, self.timezone_offset),
            crate::calendar::has_date_within_range(ts, self.timezone_offset),
    {
        local_dt(ts, self.timezone_offset)
    }
}

/// The hourly entries that fall on the given local date, in their order. May
/// be empty for days beyond the near-term hourly horizon (One Call 4.0 returns
/// about one day of hours).
pub fn hourly_weather_for<F: Copy>(data: &WeatherResponse<F>, date: LocalDate) -> (r: Vec<HourlyEntry<F>>)
    requires
        data.hourly_shifts_fit(),
    ensures
        r@ == data.hours_on(date),
        forall|i: int| 0 <= i < r@.len() ==> local_reading((#[trigger] r@[i]).dt, data.timezone_offset).date_spec() == date,
        forall|i: int| 0 <= i < data.hourly@.len()
            && local_reading(data.hourly@[i].dt, data.timezone_offset).date_spec() == date
            ==> r@.contains(#[trigger] data.hourly@[i]),
        r@.len() <= data.hourly@.len(),
{
    let mut r: Vec<HourlyEntry<F>> = Vec::new();
    let mut i: usize = 0;
    let ghost pred = |h: HourlyEntry<F>| data.falls_on(h, date);
    assert(data.hourly@.take(0) =~= Seq::<HourlyEntry<F>>::empty());
    assert(Seq::<HourlyEntry<F>>::empty().filter(pred) =~= Seq::<HourlyEntry<F>>::empty()) by {
        reveal(Seq::filter);
    }
    while i < data.hourly.len()
        invariant
            i <= data.hourly.len(),
            data.hourly_shifts_fit(),
            pred == (|h: HourlyEntry<F>| data.falls_on(h, date)),
            r@ == data.hourly@.take(i as int).filter(pred),
        decreases data.hourly.len() - i,
    {
        let h = &data.hourly[i];
        assert(shift_fits(data.hourly@[i as int].dt, data.timezone_offset));
        let day = data.local(h.dt).date();
        assert(data.hourly@.take(i + 1) =~= data.hourly@.take(i as int).push(data.hourly@[i as int]));
        proof {
            data.hourly@.take(i as int).lemma_filter_push(data.hourly@[i as int], pred);
        }
        if day == date {
            r.push(h.duplicate());
        }
        i = i + 1;
    }
    assert(data.hourly@.take(data.hourly.len() as int) =~= data.hourly@);
    proof {
        lemma_hours_on_date(*data, date);
    }
    r
}

/// The hours shown in the hourly table scrolled down by `offset` rows: those
/// after the first `offset`, none when it is scrolled past the end.
pub open spec fn visible_rows<F>(hours: Seq<HourlyEntry<F>>, offset: nat) -> Seq<HourlyEntry<F>> {
    if offset >= hours.len() {
        Seq::empty()
    } else {
        hours.skip(offset as int)
    }
}

/// The hours the hourly table shows when scrolled down by `offset` rows.
pub fn visible_hours<F: Copy>(hours: &Vec<HourlyEntry<F>>, offset: usize) -> (r: Vec<HourlyEntry<F>>)
    ensures
        r@ == visible_rows(hours@, offset as nat),
{
    let mut r: Vec<HourlyEntry<F>> = Vec::new();
    let mut i: usize = offset;
    if offset >= hours.len() {
        assert(r@ =~= visible_rows(hours@, offset as nat));
        return r;
    }
    while i < hours.len()
        invariant
            offset <= i <= hours.len(),
            r@ == hours@.subrange(offset as int, i as int),
        decreases hours.len() - i,
    {
        r.push(hours[i].duplicate());
        assert(hours@.subrange(offset as int, i + 1) =~= hours@.subrange(offset as int, i as int).push(hours@[i as int]));
        i = i + 1;
    }
    assert(hours@.subrange(offset as int, hours.len() as int) =~= hours@.skip(offset as int));
    r
}

/// What the details of the selected day show besides its own readings.
pub struct DayDetailPlan<F> {
    /// Whether the current conditions and the alerts follow the day's
    /// readings: only for the first day, which is today.
    pub show_current: bool,
    /// The hours that fall on the day, in order.
    pub hours: Vec<HourlyEntry<F>>,
}

/// Decides what the details of the day at `selected` show, or `None` when no
/// such day exists.
pub fn day_detail_plan<F: Copy>(weather: &WeatherResponse<F>, selected: usize) -> (r: Option<DayDetailPlan<F>>)
    requires
        weather.hourly_shifts_fit(),
        selected < weather.daily@.len() ==> shift_fits(weather.daily@[selected as int].dt, weather.timezone_offset),
    ensures
        r is Some <==> selected < weather.daily@.len(),
        r matches Some(p) ==> {
            &&& p.show_current == (selected == 0)
            &&& p.hours@ == weather.hours_on(weather.daily@[selected as int].date_spec(weather.timezone_offset))
        },
{
    if selected >= weather.daily.len() {
        return None;
    }
    let date = weather.daily[selected].date(weather.timezone_offset);
    Some(DayDetailPlan { show_current: selected == 0, hours: hourly_weather_for(weather, date) })
}

/// The hours chosen for a date all fall on that date, keep their order, and
/// include every hour of the forecast that falls on it.
pub proof fn lemma_hours_on_date<F: Copy>(data: WeatherResponse<F>, date: LocalDate)
    ensures
        data.hours_on(date).len() <= data.hourly@.len(),
        forall|i: int| 0 <= i < data.hours_on(date).len() ==> data.falls_on(#[trigger] data.hours_on(date)[i], date),
        forall|i: int| 0 <= i < data.hourly@.len() && data.falls_on(data.hourly@[i], date)
            ==> data.hours_on(date).contains(#[trigger] data.hourly@[i]),
{
    let pred = |h: HourlyEntry<F>| data.falls_on(h, date);
    data.hourly@.lemma_filter_len(pred);
    assert forall|i: int| 0 <= i < data.hours_on(date).len() implies data.falls_on(#[trigger] data.hours_on(date)[i], date) by {
        data.hourly@.lemma_filter_pred(pred, i);
    }
    assert forall|i: int| 0 <= i < data.hourly@.len() && data.falls_on(data.hourly@[i], date)
        implies data.hours_on(date).contains(#[trigger] data.hourly@[i]) by {
        data.hourly@.lemma_filter_contains(pred, i);
    }
}

/// Scrolled down by `offset` rows, the table shows the hours from the
/// `offset`-th on, in order, and none once scrolled past the end.
pub proof fn lemma_visible_rows<F>(hours: Seq<HourlyEntry<F>>, offset: nat)
    ensures
        visible_rows(hours, offset).len() == if offset >= hours.len() { 0 } else { (hours.len() - offset) as nat },
        forall|i: int| 0 <= i < visible_rows(hours, offset).len() ==> #[trigger] visible_rows(hours, offset)[i] == hours[offset + i],
{
}

} // verus!
