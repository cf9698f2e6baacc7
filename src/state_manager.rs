//! The session state of the dashboard and its narrow, infallible operations,
//! with the decisions of the fetch pipeline and of the auto-refresh loop.
//!
//! Callers hold the state behind one lock; every operation here is a short
//! in-memory update. Times are seconds since 1970 (UTC) handed in by the
//! caller, so each operation is a function of its inputs.
use vstd::prelude::*;
use vstd::string::*;
use crate::bookmarks::{holds_label, is_automatic, LocationList, AUTOMATIC};
use crate::location::{normalized_label, LocationData};
use crate::text::{comma_count_up_to_two, count_from, text_eq};
use crate::context::Context;
use crate::settings::{toggled, Settings, Units};

verus! {

/// How old, in seconds, weather data may get before it is fetched again.
pub const WEATHER_CACHE_DURATION: u64 = 600;

/// How often, in seconds, the auto-refresh loop wakes.
pub const AUTO_REFRESH_INTERVAL: u64 = 30;

/// Which forecast the dashboard shows.
#[derive(Debug, Clone, Copy, PartialEq, Eq, Structural)]
pub enum ForecastMode {
    Daily,
    Hourly,
}

/// The other forecast mode.
pub open spec fn other_mode(m: ForecastMode) -> ForecastMode {
    match m {
        ForecastMode::Daily => ForecastMode::Hourly,
        ForecastMode::Hourly => ForecastMode::Daily,
    }
}

/// Seconds from `since` to `now`; zero when `since` lies ahead.
pub open spec fn elapsed(now: u64, since: u64) -> u64 {
    if now >= since { (now - since) as u64 } else { 0 }
}

/// Whether data fetched at `last_fetch_time` is stale at `now`.
pub open spec fn is_stale(now: u64, last_fetch_time: u64) -> bool {
    elapsed(now, last_fetch_time) > WEATHER_CACHE_DURATION
}

/// The fields of the session.
#[derive(Debug)]
pub struct TuiState {
    pub context: Context,
    pub settings: Settings,
    pub loading: bool,
    pub last_fetch_time: u64,
    pub weather_created_at: u64,
    pub currently_selected_location: String,
    pub forecast_mode: ForecastMode,
    /// The id of the most recently started fetch; 0 before the first.
    pub latest_request: u64,
}

/// A fetch the session has started: its id and the location label it is for.
#[derive(Debug, Clone)]
pub struct FetchRequest {
    pub id: u64,
    pub label: String,
}

/// What the auto-refresh loop does on waking.
#[derive(Debug, Clone)]
pub enum RefreshAction {
    /// Fetch the weather of this location label again.
    Fetch(String),
    /// Recompute the data age and redraw.
    UpdateAge,
}

/// The session state of one dashboard.
#[derive(Debug)]
pub struct TuiStateManager {
    pub state: TuiState,
}

/// The label of the location a session starts on: the automatic label when
/// the settings give no location, else "City, CC" of the context.
pub open spec fn initial_label(settings_location: Seq<char>, city: Seq<char>, country: Seq<char>) -> Seq<char> {
    if settings_location.len() == 0 {
        "Automatic"@
    } else {
        city + ", "@ + country
    }
}

impl TuiStateManager {
    /// Starts a session on a context and settings at time `now`: not loading,
    /// daily forecast, the data's creation time taken from its age.
    pub fn new(context: Context, settings: Settings, now: u64) -> (r: Self)
        ensures
            r.state.context == context,
            r.state.settings == settings,
            !r.state.loading,
            r.state.weather_created_at == elapsed(now, context.cache_age),
            r.state.last_fetch_time == r.state.weather_created_at,
            r.state.currently_selected_location@ == initial_label(
                settings.location@,
                context.city@,
                context.country@,
            ),
            r.state.forecast_mode == ForecastMode::Daily,
            r.state.latest_request == 0,
    {
        let created: u64 = if now >= context.cache_age { now - context.cache_age } else { 0 };
        let label = if settings.location.unicode_len() == 0 {
            String::from_str(AUTOMATIC)
        } else {
            let mut l = context.city.clone();
            l.append(", ");
            l.append(context.country.as_str());
            l
        };
        proof {
            reveal_strlit("Automatic");
        }
        TuiStateManager {
            state: TuiState {
                context,
                settings,
                loading: false,
                last_fetch_time: created,
                weather_created_at: created,
                currently_selected_location: label,
                forecast_mode: ForecastMode::Daily,
                latest_request: 0,
            },
        }
    }

    /// The session's fields.
    pub fn get_state(&self) -> (r: &TuiState)
        ensures
            *r == self.state,
    {
        &self.state
    }

    /// Marks a fetch as running or not.
    pub fn set_loading(&mut self, loading: bool)
        ensures
            final(self).state == (TuiState { loading, ..old(self).state }),
    {
        self.state.loading = loading;
    }

    /// Replaces the context after a fetch at time `now`: loading ends, the
    /// fetch time is `now`, and the data's creation time is `now` less the
    /// context's age.
    pub fn update_context(&mut self, context: Context, now: u64)
        ensures
            final(self).state == (TuiState {
                context,
                loading: false,
                last_fetch_time: now,
                weather_created_at: elapsed(now, context.cache_age),
                ..old(self).state
            }),
    {
        let created: u64 = if now >= context.cache_age { now - context.cache_age } else { 0 };
        self.state.context = context;
        self.state.loading = false;
        self.state.last_fetch_time = now;
        self.state.weather_created_at = created;
    }

    /// As `update_context`, and the selected location becomes `location`.
    pub fn update_context_with_location(&mut self, context: Context, location: String, now: u64)
        ensures
            final(self).state == (TuiState {
                context,
                loading: false,
                last_fetch_time: now,
                weather_created_at: elapsed(now, context.cache_age),
                currently_selected_location: location,
                ..old(self).state
            }),
    {
        self.update_context(context, now);
        self.state.currently_selected_location = location;
    }

    /// The selected location label.
    pub fn get_current_location(&self) -> (r: &String)
        ensures
            *r == self.state.currently_selected_location,
    {
        &self.state.currently_selected_location
    }

    /// Switches the session's copy of the settings to the other system of
    /// measurement, and returns it.
    pub fn toggle_units(&mut self) -> (r: Units)
        ensures
            r == toggled(old(self).state.settings.units),
            final(self).state == (TuiState {
                settings: Settings { units: r, ..old(self).state.settings },
                ..old(self).state
            }),
    {
        let u = crate::settings::toggle_units(self.state.settings.units);
        self.state.settings.units = u;
        u
    }

    /// The session's copy of the settings.
    pub fn get_settings(&self) -> (r: &Settings)
        ensures
            *r == self.state.settings,
    {
        &self.state.settings
    }

    /// Whether the data is stale at `now`: more than ten minutes since the
    /// last fetch.
    pub fn needs_refresh(&self, now: u64) -> (r: bool)
        ensures
            r == is_stale(now, self.state.last_fetch_time),
    {
        now >= self.state.last_fetch_time && now - self.state.last_fetch_time
            > WEATHER_CACHE_DURATION
    }

    /// Whether a fetch is running.
    pub fn is_loading(&self) -> (r: bool)
        ensures
            r == self.state.loading,
    {
        self.state.loading
    }

    /// The current context.
    pub fn get_context(&self) -> (r: &Context)
        ensures
            *r == self.state.context,
    {
        &self.state.context
    }

    /// Recomputes the displayed data age at `now` without fetching.
    pub fn update_cache_age(&mut self, now: u64)
        ensures
            final(self).state == (TuiState {
                context: Context {
                    cache_age: elapsed(now, old(self).state.weather_created_at),
                    ..old(self).state.context
                },
                ..old(self).state
            }),
    {
        let age: u64 = if now >= self.state.weather_created_at {
            now - self.state.weather_created_at
        } else {
            0
        };
        self.state.context.cache_age = age;
    }

    /// Switches between the daily and the hourly forecast, and returns the
    /// new mode.
    pub fn toggle_forecast_mode(&mut self) -> (r: ForecastMode)
        ensures
            r == other_mode(old(self).state.forecast_mode),
            final(self).state == (TuiState { forecast_mode: r, ..old(self).state }),
    {
        let m = match self.state.forecast_mode {
            ForecastMode::Daily => ForecastMode::Hourly,
            ForecastMode::Hourly => ForecastMode::Daily,
        };
        self.state.forecast_mode = m;
        m
    }

    /// The forecast mode shown.
    pub fn get_forecast_mode(&self) -> (r: ForecastMode)
        ensures
            r == self.state.forecast_mode,
    {
        self.state.forecast_mode
    }
}

/// Why a fetch could not be made.
#[derive(Debug, Clone, Copy, PartialEq, Eq, Structural)]
pub enum FetchError {
    /// The label is neither the automatic label nor of the form "City, CC".
    InvalidLocation,
    /// Resolving the location or the weather failed.
    Unavailable,
}

/// The location query of a label: empty for the automatic label (detect the
/// location from the network address), the label itself when it holds
/// exactly one comma.
pub open spec fn query_of(label: Seq<char>) -> Option<Seq<char>> {
    if is_automatic(label) {
        Some(Seq::empty())
    } else if count_from(label, ',', 0) == 1 {
        Some(label)
    } else {
        None
    }
}

/// Turns a location label into the query the location resolver takes; a
/// label neither automatic nor "City, CC" is refused before any fetch.
pub fn location_query(label: &str) -> (r: Result<String, FetchError>)
    ensures
        r is Ok == query_of(label@) is Some,
        r is Ok ==> r->Ok_0@ == query_of(label@)->0,
        r is Err ==> r->Err_0 == FetchError::InvalidLocation,
{
    proof {
        reveal_strlit("Automatic");
    }
    if text_eq(label, AUTOMATIC) {
        Ok(String::new())
    } else if comma_count_up_to_two(label) == 1 {
        Ok(String::from_str(label))
    } else {
        Err(FetchError::InvalidLocation)
    }
}

/// The message shown when a fetch for a label fails.
pub fn failure_message(label: &str) -> (r: String)
    ensures
        r@ == "Failed to fetch location data for: "@ + label@,
{
    let mut m = String::from_str("Failed to fetch location data for: ");
    m.append(label);
    m
}

/// The data-age bar's fill, in percent of the refresh period, at most 100.
pub open spec fn age_percent(cache_age: u64) -> int {
    let p = cache_age * 100 / (WEATHER_CACHE_DURATION as int);
    if p > 100 { 100 } else { p }
}

/// How full the data-age bar is, in percent.
pub fn data_age_percent(cache_age: u64) -> (r: usize)
    ensures
        r == age_percent(cache_age),
{
    let p: u64 = cache_age / 6;
    assert(cache_age * 100 / 600 == cache_age / 6) by (nonlinear_arith);
    if p > 100 { 100 } else { p as usize }
}

/// What to do with text entered as a new bookmark.
#[derive(Debug, Clone)]
pub enum AddPlan {
    /// Nothing was entered.
    Ignore,
    /// The list already holds this label (in normal form).
    AlreadyPresent(String),
    /// Fetch the weather of this label (in normal form) and bookmark it if the
    /// fetch succeeds.
    Fetch(String),
}

/// The normal form of text entered as a bookmark: the automatic label as it
/// is, any other label normalized.
pub open spec fn entered_label(input: Seq<char>) -> Seq<char> {
    if is_automatic(input) { input } else { normalized_label(input) }
}

/// Decides what to do with text entered as a new bookmark.
pub fn plan_add_bookmark(input: &str, list: &LocationList) -> (r: AddPlan)
    ensures
        input@.len() == 0 ==> r is Ignore,
        input@.len() > 0 && holds_label(list.locations@, entered_label(input@)) ==> r is AlreadyPresent
            && r->AlreadyPresent_0@ == entered_label(input@),
        input@.len() > 0 && !holds_label(list.locations@, entered_label(input@)) ==> r is Fetch
            && r->Fetch_0@ == entered_label(input@),
{
    if input.unicode_len() == 0 {
        return AddPlan::Ignore;
    }
    proof {
        reveal_strlit("Automatic");
    }
    let label = if text_eq(input, AUTOMATIC) {
        String::from_str(input)
    } else {
        LocationData::normalize_location_string(input)
    };
    let mut i: usize = 0;
    while i < list.locations.len()
        invariant
            i <= list.locations@.len(),
            input@.len() > 0,
            label@ == entered_label(input@),
            forall|k: int| 0 <= k < i ==> #[trigger] list.locations@[k]@ != label@,
        decreases list.locations.len() - i,
    {
        if text_eq(list.locations[i].as_str(), label.as_str()) {
            return AddPlan::AlreadyPresent(label);
        }
        i = i + 1;
    }
    AddPlan::Fetch(label)
}

/// Right after `update_context` at `now`, no refresh is needed at `now`; at
/// any later time a refresh is needed exactly when more than the cache
/// duration has passed since `now`.
pub proof fn lemma_fresh_after_update(before: TuiState, after: TuiState, context: Context, now: u64, later: u64)
    requires
        after == (TuiState {
            context,
            loading: false,
            last_fetch_time: now,
            weather_created_at: elapsed(now, context.cache_age),
            ..before
        }),
        now <= later,
    ensures
        !is_stale(now, after.last_fetch_time),
        is_stale(later, after.last_fetch_time) <==> later - now > WEATHER_CACHE_DURATION,
{
}

/// Staleness is monotonic in time: once stale, data stays stale.
pub proof fn lemma_stale_monotonic(earlier: u64, later: u64, last_fetch_time: u64)
    requires
        earlier <= later,
        is_stale(earlier, last_fetch_time),
    ensures
        is_stale(later, last_fetch_time),
{
}

impl TuiStateManager {
    /// Starts a fetch for a location label: loading begins and the fetch gets
    /// the next id, which makes every earlier fetch stale.
    pub fn begin_fetch(&mut self, label: String) -> (r: FetchRequest)
        requires
            old(self).state.latest_request < u64::MAX,
        ensures
            r.id == old(self).state.latest_request + 1,
            r.label == label,
            final(self).state == (TuiState {
                loading: true,
                latest_request: r.id,
                ..old(self).state
            }),
    {
        let id = self.state.latest_request + 1;
        self.state.latest_request = id;
        self.state.loading = true;
        FetchRequest { id, label }
    }

    /// Applies the context a fetch produced, at time `now`, if the fetch is the
    /// most recent one: the context and the selected location are replaced and
    /// loading ends. The result of a stale fetch is dropped and nothing changes.
    pub fn complete_fetch(&mut self, request: FetchRequest, context: Context, now: u64) -> (applied: bool)
        ensures
            applied == (request.id == old(self).state.latest_request),
            applied ==> final(self).state == (TuiState {
                context,
                loading: false,
                last_fetch_time: now,
                weather_created_at: elapsed(now, context.cache_age),
                currently_selected_location: request.label,
                ..old(self).state
            }),
            !applied ==> final(self).state == old(self).state,
    {
        if request.id == self.state.latest_request {
            self.update_context_with_location(context, request.label, now);
            true
        } else {
            false
        }
    }

    /// Records that a fetch failed. If it is the most recent one, loading ends;
    /// the context, the last one that was good, is kept either way.
    pub fn fail_fetch(&mut self, request_id: u64) -> (applied: bool)
        ensures
            applied == (request_id == old(self).state.latest_request),
            applied ==> final(self).state == (TuiState { loading: false, ..old(self).state }),
            !applied ==> final(self).state == old(self).state,
    {
        if request_id == self.state.latest_request {
            self.state.loading = false;
            true
        } else {
            false
        }
    }

    /// What the auto-refresh loop does at `now`: fetch the selected location
    /// again when the data is stale, else update the data age.
    pub fn refresh_action(&self, now: u64) -> (r: RefreshAction)
        ensures
            is_stale(now, self.state.last_fetch_time) ==> r is Fetch && r->Fetch_0@
                == self.state.currently_selected_location@,
            !is_stale(now, self.state.last_fetch_time) ==> r is UpdateAge,
    {
        if self.needs_refresh(now) {
            RefreshAction::Fetch(self.state.currently_selected_location.clone())
        } else {
            RefreshAction::UpdateAge
        }
    }
}

} // verus!
