//! The dashboard's state and how keys and finished fetches change it.
//!
//! The application runs the loop: it draws the state, reads a key and hands
//! it to [`App::handle_key_event`], carries out the [`Command`] that comes
//! back (start a fetch, or pass the key to the search box), and hands every
//! finished fetch to [`App::update_state`].
use vstd::prelude::*;

use crate::daily::{kept_selection, next_selection, previous_selection, DailyWeather};
use crate::model::{duplicate_days, DailyEntry, WeatherResponse};
use crate::service::{FetchResult, WeatherData};

verus! {

/// Which part of the screen takes keys.
#[derive(Clone, Copy, Debug, PartialEq, Eq, Structural)]
pub enum Focus {
    /// Keys move between days and hours.
    Browse,
    /// Keys go to the search box.
    Search,
}

/// The key of a key press, as far as the dashboard tells keys apart.
#[derive(Clone, Copy, Debug, PartialEq, Eq, Structural)]
pub enum Key {
    Char(char),
    Left,
    Right,
    Up,
    Down,
    Tab,
    BackTab,
    Enter,
    Esc,
    /// Any other key.
    Other,
}

/// A key press: the key, and whether Control is the only modifier held.
#[derive(Clone, Copy, Debug, PartialEq, Eq, Structural)]
pub struct KeyPress {
    pub code: Key,
    pub control_only: bool,
}

/// What the application must do after a key.
#[derive(Clone, Copy, Debug, PartialEq, Eq, Structural)]
pub enum Command {
    /// Nothing beyond drawing the new state.
    Nothing,
    /// Cancel the running fetch and start a new one for the search text
    /// (a blank text asks for the IP-based location).
    Refresh,
    /// Pass the key to the search box.
    EditSearch,
}

/// What a key does while browsing.
#[derive(Clone, Copy, Debug, PartialEq, Eq, Structural)]
pub enum BrowseAction {
    Quit,
    PreviousDay,
    NextDay,
    ScrollDown,
    ScrollUp,
    Refresh,
    FocusSearch,
    Ignore,
}

/// What a key does in the search box.
#[derive(Clone, Copy, Debug, PartialEq, Eq, Structural)]
pub enum SearchAction {
    Cancel,
    Submit,
    Edit,
}

/// Ctrl+C, which quits from anywhere.
pub open spec fn is_quit_chord(k: KeyPress) -> bool {
    k.control_only && k.code == Key::Char('c')
}

/// The browse keys: `q`/Esc quit; `h`/Left/Shift+Tab previous day;
/// `l`/Right/Tab next day; `j`/Down scroll the hours down; `k`/Up scroll them
/// up; `r` refresh; `/` or `i` focus the search box.
pub open spec fn browse_action(code: Key) -> BrowseAction {
    if code == Key::Char('q') || code == Key::Esc {
        BrowseAction::Quit
    } else if code == Key::Char('h') || code == Key::Left || code == Key::BackTab {
        BrowseAction::PreviousDay
    } else if code == Key::Char('l') || code == Key::Right || code == Key::Tab {
        BrowseAction::NextDay
    } else if code == Key::Char('j') || code == Key::Down {
        BrowseAction::ScrollDown
    } else if code == Key::Char('k') || code == Key::Up {
        BrowseAction::ScrollUp
    } else if code == Key::Char('r') {
        BrowseAction::Refresh
    } else if code == Key::Char('/') || code == Key::Char('i') {
        BrowseAction::FocusSearch
    } else {
        BrowseAction::Ignore
    }
}

/// The search keys: Esc cancels, Enter searches, every other key edits the text.
pub open spec fn search_action(code: Key) -> SearchAction {
    if code == Key::Esc {
        SearchAction::Cancel
    } else if code == Key::Enter {
        SearchAction::Submit
    } else {
        SearchAction::Edit
    }
}

/// The state of the dashboard as the contracts see it.
pub struct AppView<F> {
    pub focus: Focus,
    /// How many hours the hourly table is scrolled down.
    pub hourly_offset: nat,
    pub exit: bool,
    /// Whether a fetch is under way.
    pub loading: bool,
    pub error: Option<Seq<char>>,
    pub location_name: Option<Seq<char>>,
    pub weather: WeatherResponse<F>,
    /// The days of the week overview, their time zone offset, and the selected day.
    pub days: Seq<DailyEntry<F>>,
    pub days_offset: i64,
    pub selected: nat,
}

/// The state after a key, and the command for the application.
pub open spec fn after_key<F>(v: AppView<F>, k: KeyPress) -> (AppView<F>, Command) {
    if is_quit_chord(k) {
        (AppView { exit: true, ..v }, Command::Nothing)
    } else {
        match v.focus {
            Focus::Browse => match browse_action(k.code) {
                BrowseAction::Quit => (AppView { exit: true, ..v }, Command::Nothing),
                BrowseAction::PreviousDay => (
                    AppView { selected: previous_selection(v.selected, v.days.len()), hourly_offset: 0, ..v },
                    Command::Nothing,
                ),
                BrowseAction::NextDay => (
                    AppView { selected: next_selection(v.selected, v.days.len()), hourly_offset: 0, ..v },
                    Command::Nothing,
                ),
                BrowseAction::ScrollDown => (AppView { hourly_offset: v.hourly_offset + 1, ..v }, Command::Nothing),
                BrowseAction::ScrollUp => (
                    AppView { hourly_offset: if v.hourly_offset == 0 { 0 } else { (v.hourly_offset - 1) as nat }, ..v },
                    Command::Nothing,
                ),
                BrowseAction::Refresh => (AppView { loading: true, ..v }, Command::Refresh),
                BrowseAction::FocusSearch => (AppView { focus: Focus::Search, ..v }, Command::Nothing),
                BrowseAction::Ignore => (v, Command::Nothing),
            },
            Focus::Search => match search_action(k.code) {
                SearchAction::Cancel => (AppView { focus: Focus::Browse, ..v }, Command::Nothing),
                SearchAction::Submit => (AppView { focus: Focus::Browse, loading: true, ..v }, Command::Refresh),
                SearchAction::Edit => (v, Command::EditSearch),
            },
        }
    }
}

/// Whether a key would scroll the hourly table down.
pub open spec fn scrolls_down<F>(v: AppView<F>, k: KeyPress) -> bool {
    !is_quit_chord(k) && v.focus == Focus::Browse && browse_action(k.code) == BrowseAction::ScrollDown
}

/// The state after a fetch finished: a forecast replaces the shown one, clears
/// the error, names the place, keeps the selected day where it still exists
/// and scrolls the hours back to the top; an error is shown and the forecast
/// kept. Either way loading ends.
pub open spec fn after_fetch<F>(v: AppView<F>, result: FetchResult<F>) -> AppView<F> {
    match result {
        Ok(data) => AppView {
            loading: false,
            error: None,
            days: data.weather.daily@,
            days_offset: data.weather.timezone_offset,
            selected: kept_selection(v.selected, data.weather.daily@.len()),
            hourly_offset: 0,
            weather: data.weather,
            location_name: Some(data.location_name@),
            ..v
        },
        Err(message) => AppView { loading: false, error: Some(message@), ..v },
    }
}

/// The state is consistent: the selected day is shown (or there is none and
/// the selection is zero), and the week overview shows the days of the
/// forecast in its time zone.
pub open spec fn consistent<F>(v: AppView<F>) -> bool {
    &&& (v.selected < v.days.len() || v.selected == 0)
    &&& v.days == v.weather.daily@
    &&& v.days_offset == v.weather.timezone_offset
}

/// The dashboard's state.
pub struct App<F> {
    focus: Focus,
    hourly_offset: usize,
    exit: bool,
    loading: bool,
    error: Option<String>,
    location_name: Option<String>,
    weather: WeatherResponse<F>,
    daily: DailyWeather<F>,
}

/// The characters of an optional text.
pub open spec fn text_of(t: Option<String>) -> Option<Seq<char>> {
    match t {
        Some(s) => Some(s@),
        None => None,
    }
}

impl<F: Copy> View for App<F> {
    type V = AppView<F>;

    closed spec fn view(&self) -> AppView<F> {
        AppView {
            focus: self.focus,
            hourly_offset: self.hourly_offset as nat,
            exit: self.exit,
            loading: self.loading,
            error: text_of(self.error),
            location_name: text_of(self.location_name),
            weather: self.weather,
            days: self.daily.days(),
            days_offset: self.daily.offset(),
            selected: self.daily.selection(),
        }
    }
}

impl<F: Copy> App<F> {
    /// The state is consistent.
    pub open spec fn wf(&self) -> bool {
        consistent(self@)
    }

    /// The state before the first forecast: browsing, nothing loaded or
    /// loading, no error, no place; `zero` fills the empty forecast's measurements.
    pub fn new(zero: F) -> (r: App<F>)
        ensures
            r.wf(),
            r@.focus == Focus::Browse,
            r@.hourly_offset == 0,
            !r@.exit,
            !r@.loading,
            r@.error is None,
            r@.location_name is None,
            r@.weather.is_empty_response(zero),
            r@.selected == 0,
    {
        let weather = WeatherResponse::empty(zero);
        let daily = DailyWeather::new();
        assert(daily.days() =~= weather.daily@);
        App {
            focus: Focus::Browse,
            hourly_offset: 0,
            exit: false,
            loading: false,
            error: None,
            location_name: None,
            weather,
            daily,
        }
    }

    /// Marks the first fetch as under way (its query is empty: the IP-based location).
    pub fn request_initial_fetch(&mut self)
        requires
            old(self).wf(),
        ensures
            final(self).wf(),
            final(self)@ == (AppView { loading: true, ..old(self)@ }),
    {
        self.loading = true;
    }

    /// Marks a new fetch as under way.
    fn refresh(&mut self) -> (r: Command)
        ensures
            final(self)@ == (AppView { loading: true, ..old(self)@ }),
            r == Command::Refresh,
    {
        self.loading = true;
        Command::Refresh
    }

    /// Applies a key press and says what the application must do next.
    pub fn handle_key_event(&mut self, key: KeyPress) -> (r: Command)
        requires
            old(self).wf(),
            scrolls_down(old(self)@, key) ==> old(self)@.hourly_offset < usize::MAX,
        ensures
            final(self).wf(),
            (final(self)@, r) == after_key(old(self)@, key),
    {
        if key.control_only && key.code == Key::Char('c') {
            self.exit = true;
            return Command::Nothing;
        }
        match self.focus {
            Focus::Browse => self.handle_browse_key(key.code),
            Focus::Search => self.handle_search_key(key.code),
        }
    }

    fn handle_browse_key(&mut self, code: Key) -> (r: Command)
        requires
            old(self).wf(),
            old(self)@.focus == Focus::Browse,
            browse_action(code) == BrowseAction::ScrollDown ==> old(self)@.hourly_offset < usize::MAX,
        ensures
            final(self).wf(),
            (final(self)@, r) == after_key(old(self)@, KeyPress { code, control_only: false }),
    {
        match code {
            Key::Char('q') | Key::Esc => {
                self.exit = true;
                Command::Nothing
            },
            Key::Char('h') | Key::Left | Key::BackTab => {
                self.daily.select_previous();
                self.hourly_offset = 0;
                Command::Nothing
            },
            Key::Char('l') | Key::Right | Key::Tab => {
                self.daily.select_next();
                self.hourly_offset = 0;
                Command::Nothing
            },
            Key::Char('j') | Key::Down => {
                self.hourly_offset = self.hourly_offset + 1;
                Command::Nothing
            },
            Key::Char('k') | Key::Up => {
                self.hourly_offset = if self.hourly_offset == 0 { 0 } else { self.hourly_offset - 1 };
                Command::Nothing
            },
            Key::Char('r') => self.refresh(),
            Key::Char('/') | Key::Char('i') => {
                self.focus = Focus::Search;
                Command::Nothing
            },
            _ => Command::Nothing,
        }
    }

    fn handle_search_key(&mut self, code: Key) -> (r: Command)
        requires
            old(self).wf(),
            old(self)@.focus == Focus::Search,
        ensures
            final(self).wf(),
            (final(self)@, r) == after_key(old(self)@, KeyPress { code, control_only: false }),
    {
        match code {
            Key::Esc => {
                self.focus = Focus::Browse;
                Command::Nothing
            },
            Key::Enter => {
                self.focus = Focus::Browse;
                self.refresh()
            },
            _ => Command::EditSearch,
        }
    }

    /// Takes in the result of a finished fetch.
    pub fn update_state(&mut self, result: FetchResult<F>)
        requires
            old(self).wf(),
        ensures
            final(self).wf(),
            final(self)@ == after_fetch(old(self)@, result),
    {
        self.loading = false;
        match result {
            Ok(data) => {
                self.error = None;
                let days = duplicate_days(&data.weather.daily);
                self.daily.data(days, data.weather.timezone_offset);
                self.hourly_offset = 0;
                self.weather = data.weather;
                self.location_name = Some(data.location_name);
            },
            Err(message) => self.error = Some(message),
        }
    }

    /// Which part of the screen takes keys.
    pub fn focus(&self) -> (r: Focus)
        ensures
            r == self@.focus,
    {
        self.focus
    }

    /// How many hours the hourly table is scrolled down.
    pub fn hourly_offset(&self) -> (r: usize)
        ensures
            r == self@.hourly_offset,
    {
        self.hourly_offset
    }

    /// Whether the application should quit.
    pub fn should_exit(&self) -> (r: bool)
        ensures
            r == self@.exit,
    {
        self.exit
    }

    /// Whether a fetch is under way.
    pub fn is_loading(&self) -> (r: bool)
        ensures
            r == self@.loading,
    {
        self.loading
    }

    /// The message of the last failed fetch, until a forecast arrives.
    pub fn error(&self) -> (r: &Option<String>)
        ensures
            text_of(*r) == self@.error,
    {
        &self.error
    }

    /// The name of the place shown.
    pub fn location_name(&self) -> (r: &Option<String>)
        ensures
            text_of(*r) == self@.location_name,
    {
        &self.location_name
    }

    /// The forecast shown.
    pub fn weather(&self) -> (r: &WeatherResponse<F>)
        ensures
            *r == self@.weather,
    {
        &self.weather
    }

    /// The week overview.
    pub fn daily(&self) -> (r: &DailyWeather<F>)
        ensures
            r.days() == self@.days,
            r.offset() == self@.days_offset,
            r.selection() == self@.selected,
    {
        &self.daily
    }
}

/// What fills the main panel below the week overview.
#[derive(Clone, Copy, Debug, PartialEq, Eq, Structural)]
pub enum MainPanel {
    /// The message of the last failed fetch.
    Error,
    /// The details and hours of the selected day.
    Detail,
    /// Nothing yet.
    Blank,
}

/// What the screen shows, apart from the measurements themselves.
pub struct ScreenPlan {
    /// The spinner beside the search box, while a fetch is under way.
    pub show_loader: bool,
    /// The week overview, once there are days.
    pub show_week: bool,
    /// The current conditions in the header, once there are days.
    pub show_current: bool,
    pub main: MainPanel,
    /// The heading of the first alert, shown under the header.
    pub alert_banner: Option<String>,
}

/// The main panel for a state: an error takes precedence over the details.
pub open spec fn main_panel<F>(v: AppView<F>) -> MainPanel {
    if v.error is Some {
        MainPanel::Error
    } else if v.days.len() > 0 {
        MainPanel::Detail
    } else {
        MainPanel::Blank
    }
}

impl<F: Copy> App<F> {
    /// Decides what the screen shows for this state.
    pub fn screen_plan(&self) -> (r: ScreenPlan)
        requires
            self.wf(),
        ensures
            r.show_loader == self@.loading,
            r.show_week == (self@.days.len() > 0),
            r.show_current == (self@.days.len() > 0),
            r.main == main_panel(self@),
            self@.error is Some ==> r.main == MainPanel::Error,
            self@.error is None && self@.days.len() > 0 ==> r.main == MainPanel::Detail,
            self@.error is None && self@.days.len() == 0 ==> r.main == MainPanel::Blank,
            r.alert_banner is Some <==> self@.weather.alerts@.len() > 0,
            r.alert_banner matches Some(b) ==> b@ == crate::display::alert_heading(self@.weather.alerts@[0].event@),
    {
        let has_days = self.weather.daily.len() > 0;
        let main = if self.error.is_some() {
            MainPanel::Error
        } else if has_days {
            MainPanel::Detail
        } else {
            MainPanel::Blank
        };
        let alert_banner = if self.weather.alerts.len() > 0 {
            Some(crate::display::alert_title(&self.weather.alerts[0]))
        } else {
            None
        };
        ScreenPlan { show_loader: self.loading, show_week: has_days, show_current: has_days, main, alert_banner }
    }
}

/// The key hints of the status line.
pub open spec fn hints_for(focus: Focus) -> Seq<char> {
    match focus {
        Focus::Browse => " h/l day · j/k hours · / search · r refresh · q quit "@,
        Focus::Search => " type a city · Enter search · Esc cancel "@,
    }
}

/// The key hints shown in the status line for the focused part.
pub fn status_hints(focus: Focus) -> (r: &'static str)
    ensures
        r@ == hints_for(focus),
{
    match focus {
        Focus::Browse => " h/l day · j/k hours · / search · r refresh · q quit ",
        Focus::Search => " type a city · Enter search · Esc cancel ",
    }
}

/// Ctrl+C quits, whatever has the focus and whatever the state.
pub proof fn lemma_quit_chord_exits<F>(v: AppView<F>, k: KeyPress)
    requires
        is_quit_chord(k),
    ensures
        after_key(v, k).0.exit,
        after_key(v, k).1 == Command::Nothing,
        after_key(v, k).0 == (AppView { exit: true, ..v }),
{
}

/// No key and no finished fetch makes the state inconsistent.
pub proof fn lemma_consistency_kept<F>(v: AppView<F>, k: KeyPress, result: FetchResult<F>)
    requires
        consistent(v),
    ensures
        consistent(after_key(v, k).0),
        consistent(after_fetch(v, result)),
{
    let n = v.days.len();
    if n > 0 {
        assert((v.selected + 1) % n < n);
        assert(((v.selected + n - 1) as nat) % n < n);
    }
}

/// Moving to another day scrolls the hourly table back to the top.
pub proof fn lemma_day_change_resets_scroll<F>(v: AppView<F>, k: KeyPress)
    requires
        !is_quit_chord(k),
        v.focus == Focus::Browse,
        browse_action(k.code) == BrowseAction::PreviousDay || browse_action(k.code) == BrowseAction::NextDay,
    ensures
        after_key(v, k).0.hourly_offset == 0,
{
}

/// While browsing, `j` and Down scroll the hours one step down and `k` and Up
/// one step up (staying at the top), changing nothing else; so any scroll-down
/// key followed by any scroll-up key gives back the same state.
pub proof fn lemma_scroll_keys<F>(v: AppView<F>, down: KeyPress, up: KeyPress)
    requires
        v.focus == Focus::Browse,
        down.code == Key::Char('j') || down.code == Key::Down,
        up.code == Key::Char('k') || up.code == Key::Up,
    ensures
        after_key(v, down) == (AppView { hourly_offset: v.hourly_offset + 1, ..v }, Command::Nothing),
        after_key(v, up) == (
            AppView { hourly_offset: if v.hourly_offset == 0 { 0 } else { (v.hourly_offset - 1) as nat }, ..v },
            Command::Nothing,
        ),
        after_key(after_key(v, down).0, up) == (v, Command::Nothing),
{
    assert(!is_quit_chord(down));
    assert(!is_quit_chord(up));
    let d = after_key(v, down).0;
    assert(d == AppView { hourly_offset: v.hourly_offset + 1, ..v });
    assert(((v.hourly_offset + 1) - 1) as nat == v.hourly_offset);
}

/// Scrolling up at the top of the hourly table stays at the top.
pub proof fn lemma_scroll_up_at_top<F>(v: AppView<F>)
    requires
        v.focus == Focus::Browse,
        v.hourly_offset == 0,
    ensures
        after_key(v, KeyPress { code: Key::Char('k'), control_only: false }) == (v, Command::Nothing),
{
}

/// The browse keys of the README, over every state with days: `l`, Right and
/// Tab select the following day (after the last, the first); `h`, Left and
/// Shift+Tab the preceding one (before the first, the last); both scroll the
/// hours to the top. `q` and Esc quit, `r` refreshes, `/` and `i` open the
/// search box; none of them changes anything else.
pub proof fn lemma_browse_keys<F>(v: AppView<F>, k: KeyPress)
    requires
        v.focus == Focus::Browse,
        !is_quit_chord(k),
        v.selected < v.days.len(),
    ensures
        (k.code == Key::Char('l') || k.code == Key::Right || k.code == Key::Tab) ==> after_key(v, k) == (
            AppView {
                selected: if v.selected + 1 == v.days.len() { 0 } else { v.selected + 1 },
                hourly_offset: 0,
                ..v
            },
            Command::Nothing,
        ),
        (k.code == Key::Char('h') || k.code == Key::Left || k.code == Key::BackTab) ==> after_key(v, k) == (
            AppView {
                selected: if v.selected == 0 { (v.days.len() - 1) as nat } else { (v.selected - 1) as nat },
                hourly_offset: 0,
                ..v
            },
            Command::Nothing,
        ),
        (k.code == Key::Char('q') || k.code == Key::Esc) ==> after_key(v, k) == (AppView { exit: true, ..v }, Command::Nothing),
        k.code == Key::Char('r') ==> after_key(v, k) == (AppView { loading: true, ..v }, Command::Refresh),
        (k.code == Key::Char('/') || k.code == Key::Char('i')) ==> after_key(v, k) == (
            AppView { focus: Focus::Search, ..v },
            Command::Nothing,
        ),
{
    let s = v.selected as int;
    let n = v.days.len() as int;
    if s + 1 == n {
        assert((s + 1) % n == 0) by (nonlinear_arith)
            requires s + 1 == n, n > 0;
    } else {
        assert((s + 1) % n == s + 1) by (nonlinear_arith)
            requires 0 <= s, s + 1 < n;
    }
    if s == 0 {
        assert((s + n - 1) % n == n - 1) by (nonlinear_arith)
            requires s == 0, n > 0;
    } else {
        assert((s + n - 1) % n == s - 1) by (nonlinear_arith)
            requires 0 < s < n;
    }
}

/// Moving to the next day and back to the previous one selects the same day
/// again, with the hours scrolled to the top.
pub proof fn lemma_next_then_previous_day<F>(v: AppView<F>)
    requires
        consistent(v),
        v.focus == Focus::Browse,
    ensures
        after_key(
            after_key(v, KeyPress { code: Key::Char('l'), control_only: false }).0,
            KeyPress { code: Key::Char('h'), control_only: false },
        ) == (AppView { hourly_offset: 0, ..v }, Command::Nothing),
{
    if v.days.len() > 0 {
        crate::daily::lemma_next_then_previous(v.selected, v.days.len());
    }
}

/// Opening the search box and cancelling it gives back the same state, and
/// starts no fetch.
pub proof fn lemma_search_cancel_restores<F>(v: AppView<F>)
    requires
        v.focus == Focus::Browse,
    ensures
        after_key(
            after_key(v, KeyPress { code: Key::Char('/'), control_only: false }).0,
            KeyPress { code: Key::Esc, control_only: false },
        ) == (v, Command::Nothing),
{
}

/// Submitting a search returns to browsing and starts a fetch.
pub proof fn lemma_search_submit_fetches<F>(v: AppView<F>)
    requires
        v.focus == Focus::Search,
    ensures
        after_key(v, KeyPress { code: Key::Enter, control_only: false })
            == (AppView { focus: Focus::Browse, loading: true, ..v }, Command::Refresh),
{
}

/// While the search box has the focus, every key but Ctrl+C, Esc and Enter
/// goes to the search box and changes nothing else.
pub proof fn lemma_search_keys_edit<F>(v: AppView<F>, k: KeyPress)
    requires
        v.focus == Focus::Search,
        !is_quit_chord(k),
        k.code != Key::Esc,
        k.code != Key::Enter,
    ensures
        after_key(v, k) == (v, Command::EditSearch),
{
}

/// A failed fetch keeps the forecast, the place and the selected day on
/// screen, and shows the message.
pub proof fn lemma_failed_fetch_keeps_forecast<F>(v: AppView<F>, message: String)
    ensures
        after_fetch(v, Err(message)).weather == v.weather,
        after_fetch(v, Err(message)).days == v.days,
        after_fetch(v, Err(message)).selected == v.selected,
        after_fetch(v, Err(message)).location_name == v.location_name,
        after_fetch(v, Err(message)).error == Some(message@),
        !after_fetch(v, Err(message)).loading,
{
}

/// A forecast that arrives clears the error and is what the week overview shows.
pub proof fn lemma_fetched_forecast_shown<F>(v: AppView<F>, data: WeatherData<F>)
    ensures
        after_fetch(v, Ok(data)).weather == data.weather,
        after_fetch(v, Ok(data)).days == data.weather.daily@,
        after_fetch(v, Ok(data)).error is None,
        after_fetch(v, Ok(data)).location_name == Some(data.location_name@),
        after_fetch(v, Ok(data)).hourly_offset == 0,
        !after_fetch(v, Ok(data)).loading,
{
}

/// An error is always shown when there is one, whether or not days are
/// loaded; otherwise the details show once there are days, and nothing before.
pub proof fn lemma_error_panel_first<F>(v: AppView<F>)
    ensures
        v.error is Some ==> main_panel(v) == MainPanel::Error,
        v.error is None && v.days.len() > 0 ==> main_panel(v) == MainPanel::Detail,
        v.error is None && v.days.len() == 0 ==> main_panel(v) == MainPanel::Blank,
{
}

/// A forecast that arrives keeps the selected day where the new forecast
/// still has it, and selects the first day otherwise.
pub proof fn lemma_fetch_keeps_selected_day<F>(v: AppView<F>, data: WeatherData<F>)
    ensures
        v.selected < data.weather.daily@.len() ==> after_fetch(v, Ok(data)).selected == v.selected,
        v.selected >= data.weather.daily@.len() ==> after_fetch(v, Ok(data)).selected == 0,
{
}

} // verus!
