# weather

A terminal weather dashboard for OpenWeatherMap One Call 4.0 forecasts, with
its core written in Verus and proved against its contracts.

- `src/` is the verified library:
  - `model.rs`: the forecast model (current conditions, hours, days, alerts)
    and the choice of the hours that fall on a local date;
  - `feed.rs`: the three One Call replies and how the model is assembled from
    them, including the condition synthesized for each day;
  - `calendar.rs`: wall-clock readings of Unix timestamps (through chrono) and
    the date and time texts;
  - `daily.rs`: the week overview and its day selection;
  - `controller.rs`: the application state, the key bindings and the effect
    of finished fetches, as a state machine;
  - `service.rs`: API key choice, reply status check, location choice;
  - `display.rs`: icons, compass points, precipitation bar, alert summaries;
  - `text.rs`: decimal rendering, padding, trimming, capitalisation.
- `app/` is the terminal program around it: HTTP requests, JSON decoding,
  environment and file access, drawing with ratatui, and the rules that read
  floating-point measurements.
- `tests/` runs the library on concrete values.

Measurements (temperatures, speeds, angles) are a type parameter of the
model; the program uses `f32`.
