//! The OpenWeatherMap One Call 4.0 replies, and how the forecast model is
//! assembled from the three of them.
//!
//! The application decodes the JSON; where a reply carries a number that the
//! model keeps in another unit (pressure rounded to whole hPa, precipitation
//! probability as a rounded percentage, the precipitation class of a day), it
//! converts it while decoding. Everything else is assembled here.
use vstd::prelude::*;

use crate::model::{Alert, CurrentWeather, DailyEntry, HourlyEntry, WeatherResponse};
use crate::text::{capitalize, capitalized};

verus! {

/// One entry of a reply's `weather` list.
#[derive(Clone, Debug)]
pub struct RawCondition {
    pub description: String,
    pub icon: String,
}

/// The `/current` reading.
#[derive(Clone, Debug)]
pub struct RawCurrent<F> {
    pub dt: i64,
    pub temp: F,
    pub feels_like: F,
    /// hPa, rounded to whole.
    pub pressure: u32,
    pub humidity: u32,
    pub dew_point: F,
    pub uvi: F,
    pub clouds: u32,
    pub visibility: u32,
    pub wind_speed: F,
    pub wind_deg: F,
    pub wind_gust: Option<F>,
    pub weather: Vec<RawCondition>,
}

/// One hour of the `/timeline/1h` reply.
#[derive(Clone, Debug)]
pub struct RawHourly<F> {
    pub dt: i64,
    pub temp: F,
    pub feels_like: F,
    pub wind_speed: F,
    pub wind_deg: F,
    /// Probability of precipitation as a rounded percentage.
    pub pop: u16,
    pub weather: Vec<RawCondition>,
}

/// The day's temperatures.
#[derive(Clone, Copy, Debug)]
pub struct RawTemp<F> {
    pub min: F,
    pub max: F,
    pub morn: F,
    pub day: F,
    pub eve: F,
    pub night: F,
}

/// The day's felt temperatures.
#[derive(Clone, Copy, Debug)]
pub struct RawFeels<F> {
    pub morn: F,
    pub day: F,
    pub eve: F,
    pub night: F,
}

/// How much falls on a day, in the classes that decide its condition.
#[derive(Clone, Copy, Debug, PartialEq, Eq, Structural)]
pub enum Precipitation {
    /// Some snow.
    Snow,
    /// No snow, and at least 2 mm of rain.
    Rain,
    /// No snow, and some rain below 2 mm.
    LightRain,
    /// Neither snow nor rain.
    Dry,
}

/// One day of the `/timeline/1day` reply.
#[derive(Clone, Debug)]
pub struct RawDaily<F> {
    pub dt: i64,
    pub sunrise: i64,
    pub sunset: i64,
    pub moonrise: i64,
    pub moonset: i64,
    pub moon_phase: F,
    pub temp: RawTemp<F>,
    pub feels_like: RawFeels<F>,
    /// hPa, rounded to whole.
    pub pressure: u32,
    pub humidity: u32,
    pub wind_speed: F,
    pub wind_deg: F,
    pub wind_gust: Option<F>,
    pub clouds: u32,
    pub uvi: F,
    pub rain: Option<F>,
    pub snow: Option<F>,
    /// The class of `rain` and `snow` (a missing amount counts as none).
    pub precipitation: Precipitation,
}

/// A One Call 4.0 reply: the location's time zone offset, the readings, and
/// the alerts.
#[derive(Clone, Debug)]
pub struct Envelope<T> {
    pub timezone_offset: i64,
    pub data: Vec<T>,
    pub alerts: Vec<Alert>,
}

/// The `(description, icon)` of a list of conditions: the first one, its
/// description capitalised, or two empty texts for an empty list.
pub open spec fn condition_of(conds: Seq<RawCondition>) -> (Seq<char>, Seq<char>) {
    if conds.len() == 0 {
        (Seq::empty(), Seq::empty())
    } else {
        (capitalized(conds[0].description@), conds[0].icon@)
    }
}

/// The `(description, icon)` shown for a list of conditions.
pub fn first_condition(conds: &[RawCondition]) -> (r: (String, String))
    ensures
        (r.0@, r.1@) == condition_of(conds@),
{
    if conds.len() == 0 {
        (String::new(), String::new())
    } else {
        (capitalize(conds[0].description.as_str()), conds[0].icon.clone())
    }
}

/// The `(description, icon)` of a day, inferred from its cloud cover (percent)
/// and precipitation: snow first, then rain, then the cloud cover.
pub open spec fn synthesized(clouds: u32, precipitation: Precipitation) -> (Seq<char>, Seq<char>) {
    match precipitation {
        Precipitation::Snow => ("Snow"@, "13d"@),
        Precipitation::Rain => ("Rain"@, "10d"@),
        Precipitation::LightRain => ("Light rain"@, "10d"@),
        Precipitation::Dry => if clouds >= 85 {
            ("Overcast"@, "04d"@)
        } else if clouds >= 50 {
            ("Partly cloudy"@, "03d"@)
        } else if clouds >= 25 {
            ("Few clouds"@, "02d"@)
        } else {
            ("Clear sky"@, "01d"@)
        },
    }
}

/// Derives a `(description, icon)` for a day from cloud cover and
/// precipitation. One Call 4.0's daily timeline omits the `weather`
/// condition, so it is inferred.
pub fn synthesize_condition(clouds: u32, precipitation: Precipitation) -> (r: (String, String))
    ensures
        (r.0@, r.1@) == synthesized(clouds, precipitation),
        precipitation == Precipitation::Snow ==> (r.0@, r.1@) == ("Snow"@, "13d"@),
        precipitation == Precipitation::Rain ==> (r.0@, r.1@) == ("Rain"@, "10d"@),
        precipitation == Precipitation::LightRain ==> (r.0@, r.1@) == ("Light rain"@, "10d"@),
{
    let (desc, icon): (&str, &str) = match precipitation {
        Precipitation::Snow => ("Snow", "13d"),
        Precipitation::Rain => ("Rain", "10d"),
        Precipitation::LightRain => ("Light rain", "10d"),
        Precipitation::Dry => if clouds >= 85 {
            ("Overcast", "04d")
        } else if clouds >= 50 {
            ("Partly cloudy", "03d")
        } else if clouds >= 25 {
            ("Few clouds", "02d")
        } else {
            ("Clear sky", "01d")
        },
    };
    (String::from_str(desc), String::from_str(icon))
}

/// Whether `c` is the current conditions shown when `/current` holds no
/// reading: every number zero, every measurement `zero`, no gust, and empty
/// description and icon.
pub open spec fn missing_current<F>(c: CurrentWeather<F>, zero: F) -> bool {
    &&& c.dt == 0
    &&& c.temp == zero
    &&& c.feels_like == zero
    &&& c.pressure == 0
    &&& c.humidity == 0
    &&& c.dew_point == zero
    &&& c.uvi == zero
    &&& c.clouds == 0
    &&& c.visibility == 0
    &&& c.wind_speed == zero
    &&& c.wind_deg == zero
    &&& c.wind_gust is None
    &&& c.description@.len() == 0
    &&& c.icon@.len() == 0
}

/// Whether `c` is the current conditions shown for the reading `raw`.
pub open spec fn current_from<F>(c: CurrentWeather<F>, raw: RawCurrent<F>) -> bool {
    &&& c.dt == raw.dt
    &&& c.temp == raw.temp
    &&& c.feels_like == raw.feels_like
    &&& c.pressure == raw.pressure
    &&& c.humidity == raw.humidity
    &&& c.dew_point == raw.dew_point
    &&& c.uvi == raw.uvi
    &&& c.clouds == raw.clouds
    &&& c.visibility == raw.visibility
    &&& c.wind_speed == raw.wind_speed
    &&& c.wind_deg == raw.wind_deg
    &&& c.wind_gust == raw.wind_gust
    &&& (c.description@, c.icon@) == condition_of(raw.weather@)
}

/// Whether `h` is the hour shown for the reading `raw`.
pub open spec fn hourly_from<F>(h: HourlyEntry<F>, raw: RawHourly<F>) -> bool {
    &&& h.dt == raw.dt
    &&& h.temp == raw.temp
    &&& h.feels_like == raw.feels_like
    &&& h.pop == raw.pop
    &&& h.wind_speed == raw.wind_speed
    &&& h.wind_deg == raw.wind_deg
    &&& (h.description@, h.icon@) == condition_of(raw.weather@)
}

/// Whether `d` is the day shown for the reading `raw`.
pub open spec fn daily_from<F>(d: DailyEntry<F>, raw: RawDaily<F>) -> bool {
    &&& d.dt == raw.dt
    &&& d.sunrise == raw.sunrise
    &&& d.sunset == raw.sunset
    &&& d.moonrise == raw.moonrise
    &&& d.moonset == raw.moonset
    &&& d.moon_phase == raw.moon_phase
    &&& d.temp_min == raw.temp.min
    &&& d.temp_max == raw.temp.max
    &&& d.temp_morn == raw.temp.morn
    &&& d.temp_day == raw.temp.day
    &&& d.temp_eve == raw.temp.eve
    &&& d.temp_night == raw.temp.night
    &&& d.feels_morn == raw.feels_like.morn
    &&& d.feels_day == raw.feels_like.day
    &&& d.feels_eve == raw.feels_like.eve
    &&& d.feels_night == raw.feels_like.night
    &&& d.pressure == raw.pressure
    &&& d.humidity == raw.humidity
    &&& d.wind_speed == raw.wind_speed
    &&& d.wind_deg == raw.wind_deg
    &&& d.wind_gust == raw.wind_gust
    &&& d.clouds == raw.clouds
    &&& d.uvi == raw.uvi
    &&& d.rain == raw.rain
    &&& d.snow == raw.snow
    &&& (d.description@, d.icon@) == synthesized(raw.clouds, raw.precipitation)
}

/// The current conditions for a reading.
fn current_weather<F: Copy>(raw: &RawCurrent<F>) -> (r: CurrentWeather<F>)
    ensures
        current_from(r, *raw),
{
    let (description, icon) = first_condition(raw.weather.as_slice());
    CurrentWeather {
        dt: raw.dt,
        temp: raw.temp,
        feels_like: raw.feels_like,
        pressure: raw.pressure,
        humidity: raw.humidity,
        dew_point: raw.dew_point,
        uvi: raw.uvi,
        clouds: raw.clouds,
        visibility: raw.visibility,
        wind_speed: raw.wind_speed,
        wind_deg: raw.wind_deg,
        wind_gust: raw.wind_gust,
        description,
        icon,
    }
}

/// The hour shown for a reading.
fn hourly_entry<F: Copy>(raw: &RawHourly<F>) -> (r: HourlyEntry<F>)
    ensures
        hourly_from(r, *raw),
{
    let (description, icon) = first_condition(raw.weather.as_slice());
    HourlyEntry {
        dt: raw.dt,
        temp: raw.temp,
        feels_like: raw.feels_like,
        pop: raw.pop,
        wind_speed: raw.wind_speed,
        wind_deg: raw.wind_deg,
        description,
        icon,
    }
}

/// The day shown for a reading; its condition is synthesized.
fn daily_entry<F: Copy>(raw: &RawDaily<F>) -> (r: DailyEntry<F>)
    ensures
        daily_from(r, *raw),
{
    let (description, icon) = synthesize_condition(raw.clouds, raw.precipitation);
    DailyEntry {
        dt: raw.dt,
        sunrise: raw.sunrise,
        sunset: raw.sunset,
        moonrise: raw.moonrise,
        moonset: raw.moonset,
        moon_phase: raw.moon_phase,
        temp_min: raw.temp.min,
        temp_max: raw.temp.max,
        temp_morn: raw.temp.morn,
        temp_day: raw.temp.day,
        temp_eve: raw.temp.eve,
        temp_night: raw.temp.night,
        feels_morn: raw.feels_like.morn,
        feels_day: raw.feels_like.day,
        feels_eve: raw.feels_like.eve,
        feels_night: raw.feels_like.night,
        pressure: raw.pressure,
        humidity: raw.humidity,
        wind_speed: raw.wind_speed,
        wind_deg: raw.wind_deg,
        wind_gust: raw.wind_gust,
        clouds: raw.clouds,
        uvi: raw.uvi,
        rain: raw.rain,
        snow: raw.snow,
        description,
        icon,
    }
}

/// Appends copies of `alerts` to `out`.
fn append_alerts(out: &mut Vec<Alert>, alerts: &Vec<Alert>)
    ensures
        final(out)@ == old(out)@ + alerts@,
{
    let ghost start = out@;
    let mut i: usize = 0;
    while i < alerts.len()
        invariant
            i <= alerts.len(),
            out@ == start + alerts@.take(i as int),
        decreases alerts.len() - i,
    {
        out.push(alerts[i].duplicate());
        assert(alerts@.take(i + 1) =~= alerts@.take(i as int).push(alerts@[i as int]));
        i = i + 1;
    }
    assert(alerts@.take(alerts.len() as int) =~= alerts@);
}

/// Assembles the forecast from the three replies: the time zone offset of
/// `/current`, its first reading (or a missing one, whose measurements are
/// `zero`), every hour and every day in reply order, and the alerts of the
/// daily, hourly and current replies, in that order.
pub fn assemble_weather<F: Copy>(
    current: Envelope<RawCurrent<F>>,
    daily: Envelope<RawDaily<F>>,
    hourly: Envelope<RawHourly<F>>,
    zero: F,
) -> (r: WeatherResponse<F>)
    ensures
        r.timezone_offset == current.timezone_offset,
        current.data@.len() > 0 ==> current_from(r.current, current.data@[0]),
        current.data@.len() == 0 ==> missing_current(r.current, zero),
        r.hourly@.len() == hourly.data@.len(),
        forall|i: int| 0 <= i < r.hourly@.len() ==> hourly_from(#[trigger] r.hourly@[i], hourly.data@[i]),
        r.daily@.len() == daily.data@.len(),
        forall|i: int| 0 <= i < r.daily@.len() ==> daily_from(#[trigger] r.daily@[i], daily.data@[i]),
        forall|i: int| 0 <= i < r.daily@.len() ==> {
            &&& (#[trigger] r.daily@[i]).dt == daily.data@[i].dt
            &&& r.daily@[i].sunrise == daily.data@[i].sunrise
            &&& r.daily@[i].sunset == daily.data@[i].sunset
            &&& r.daily@[i].moonrise == daily.data@[i].moonrise
            &&& r.daily@[i].moonset == daily.data@[i].moonset
        },
        forall|i: int| 0 <= i < r.hourly@.len() ==> {
            &&& (#[trigger] r.hourly@[i]).dt == hourly.data@[i].dt
            &&& r.hourly@[i].pop == hourly.data@[i].pop
        },
        r.alerts@ == daily.alerts@ + hourly.alerts@ + current.alerts@,
{
    let cur = if current.data.len() > 0 {
        current_weather(&current.data[0])
    } else {
        let missing = RawCurrent {
            dt: 0,
            temp: zero,
            feels_like: zero,
            pressure: 0,
            humidity: 0,
            dew_point: zero,
            uvi: zero,
            clouds: 0,
            visibility: 0,
            wind_speed: zero,
            wind_deg: zero,
            wind_gust: None,
            weather: Vec::new(),
        };
        current_weather(&missing)
    };

    let mut hours: Vec<HourlyEntry<F>> = Vec::new();
    let mut i: usize = 0;
    while i < hourly.data.len()
        invariant
            i <= hourly.data.len(),
            hours@.len() == i,
            forall|k: int| 0 <= k < i ==> hourly_from(#[trigger] hours@[k], hourly.data@[k]),
        decreases hourly.data.len() - i,
    {
        hours.push(hourly_entry(&hourly.data[i]));
        i = i + 1;
    }

    let mut days: Vec<DailyEntry<F>> = Vec::new();
    let mut j: usize = 0;
    while j < daily.data.len()
        invariant
            j <= daily.data.len(),
            days@.len() == j,
            forall|k: int| 0 <= k < j ==> daily_from(#[trigger] days@[k], daily.data@[k]),
        decreases daily.data.len() - j,
    {
        days.push(daily_entry(&daily.data[j]));
        j = j + 1;
    }

    let mut alerts: Vec<Alert> = Vec::new();
    append_alerts(&mut alerts, &daily.alerts);
    append_alerts(&mut alerts, &hourly.alerts);
    append_alerts(&mut alerts, &current.alerts);
    assert(alerts@ =~= daily.alerts@ + hourly.alerts@ + current.alerts@);

    WeatherResponse {
        current: cur,
        hourly: hours,
        daily: days,
        alerts,
        timezone_offset: current.timezone_offset,
    }
}

/// A day of the week overview carries every reading of its `/timeline/1day`
/// entry unchanged: each time, temperature, felt temperature, pressure,
/// humidity, wind, cloud cover, UV index and amount is the reply's own.
pub proof fn lemma_day_keeps_readings<F>(d: DailyEntry<F>, raw: RawDaily<F>)
    requires
        daily_from(d, raw),
    ensures
        d.dt == raw.dt,
        d.sunrise == raw.sunrise,
        d.sunset == raw.sunset,
        d.moonrise == raw.moonrise,
        d.moonset == raw.moonset,
        d.moon_phase == raw.moon_phase,
        d.temp_min == raw.temp.min,
        d.temp_max == raw.temp.max,
        d.temp_morn == raw.temp.morn,
        d.temp_day == raw.temp.day,
        d.temp_eve == raw.temp.eve,
        d.temp_night == raw.temp.night,
        d.feels_morn == raw.feels_like.morn,
        d.feels_day == raw.feels_like.day,
        d.feels_eve == raw.feels_like.eve,
        d.feels_night == raw.feels_like.night,
        d.pressure == raw.pressure,
        d.humidity == raw.humidity,
        d.wind_speed == raw.wind_speed,
        d.wind_deg == raw.wind_deg,
        d.wind_gust == raw.wind_gust,
        d.clouds == raw.clouds,
        d.uvi == raw.uvi,
        d.rain == raw.rain,
        d.snow == raw.snow,
{
}

/// An hour of the hourly table carries every reading of its `/timeline/1h`
/// entry unchanged.
pub proof fn lemma_hour_keeps_readings<F>(h: HourlyEntry<F>, raw: RawHourly<F>)
    requires
        hourly_from(h, raw),
    ensures
        h.dt == raw.dt,
        h.temp == raw.temp,
        h.feels_like == raw.feels_like,
        h.pop == raw.pop,
        h.wind_speed == raw.wind_speed,
        h.wind_deg == raw.wind_deg,
{
}

/// The current conditions carry every reading of the `/current` entry unchanged.
pub proof fn lemma_current_keeps_readings<F>(c: CurrentWeather<F>, raw: RawCurrent<F>)
    requires
        current_from(c, raw),
    ensures
        c.dt == raw.dt,
        c.temp == raw.temp,
        c.feels_like == raw.feels_like,
        c.pressure == raw.pressure,
        c.humidity == raw.humidity,
        c.dew_point == raw.dew_point,
        c.uvi == raw.uvi,
        c.clouds == raw.clouds,
        c.visibility == raw.visibility,
        c.wind_speed == raw.wind_speed,
        c.wind_deg == raw.wind_deg,
        c.wind_gust == raw.wind_gust,
{
}

/// The condition shown for a list is taken from its first entry alone (its
/// icon as given), and an empty list shows an empty description and icon.
pub proof fn lemma_condition_from_first(conds: Seq<RawCondition>)
    ensures
        conds.len() == 0 ==> condition_of(conds).0.len() == 0 && condition_of(conds).1.len() == 0,
        conds.len() > 0 ==> condition_of(conds).1 == conds[0].icon@,
        conds.len() > 0 ==> condition_of(conds).0 == crate::text::capitalized(conds[0].description@),
        conds.len() > 0 ==> condition_of(conds) == condition_of(seq![conds[0]]),
{
}

/// Precipitation outranks cloud cover: whatever the cloud cover, snow gives
/// ("Snow", "13d"), at least 2 mm of rain ("Rain", "10d"), and light rain
/// ("Light rain", "10d"). Only a dry day is described by its cloud cover.
pub proof fn lemma_precipitation_outranks_clouds(clouds: u32, other_clouds: u32)
    ensures
        synthesized(clouds, Precipitation::Snow) == ("Snow"@, "13d"@),
        synthesized(clouds, Precipitation::Rain) == ("Rain"@, "10d"@),
        synthesized(clouds, Precipitation::LightRain) == ("Light rain"@, "10d"@),
        synthesized(clouds, Precipitation::Snow) == synthesized(other_clouds, Precipitation::Snow),
        synthesized(clouds, Precipitation::Rain) == synthesized(other_clouds, Precipitation::Rain),
        synthesized(clouds, Precipitation::LightRain) == synthesized(other_clouds, Precipitation::LightRain),
{
}

/// A dry day is "Overcast" from 85 % cloud cover, "Partly cloudy" from 50 %,
/// "Few clouds" from 25 %, and "Clear sky" below, with the matching day icons.
pub proof fn lemma_dry_day_by_cloud_cover(clouds: u32)
    ensures
        85 <= clouds ==> synthesized(clouds, Precipitation::Dry) == ("Overcast"@, "04d"@),
        50 <= clouds < 85 ==> synthesized(clouds, Precipitation::Dry) == ("Partly cloudy"@, "03d"@),
        25 <= clouds < 50 ==> synthesized(clouds, Precipitation::Dry) == ("Few clouds"@, "02d"@),
        clouds < 25 ==> synthesized(clouds, Precipitation::Dry) == ("Clear sky"@, "01d"@),
{
}

} // verus!
