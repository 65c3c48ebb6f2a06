//! The text the client draws: tab selection, the dashboard's notices, the
//! settings form's titles and the masked API key.

use vstd::prelude::*;
use crate::app::{App, DashboardData, DashboardState, Screen, SettingsField};
use crate::commands::texts;
use crate::text::push_char;

verus! {

/// The tab highlighted for a view; the settings view highlights the first.
pub open spec fn spec_tab_index(s: Screen) -> usize {
    match s {
        Screen::Dashboard => 0,
        Screen::RecentTracks => 1,
        Screen::Search => 2,
        Screen::Settings => 0,
    }
}

/// The tab highlighted for a view.
pub fn tab_index(s: Screen) -> (i: usize)
    ensures
        i == spec_tab_index(s),
{
    match s {
        Screen::Dashboard => 0,
        Screen::RecentTracks => 1,
        Screen::Search => 2,
        Screen::Settings => 0,
    }
}

/// The loading notice for an animation frame: one to three dots.
pub open spec fn spec_loading_label(frame: usize) -> Seq<char> {
    "Loading"@ + if frame % 3 == 0 {
        "."@
    } else if frame % 3 == 1 {
        ".."@
    } else {
        "..."@
    }
}

/// The loading notice for an animation frame.
pub fn loading_label(frame: usize) -> (s: String)
    ensures
        s@ == spec_loading_label(frame),
{
    let dots = if frame % 3 == 0 {
        "."
    } else if frame % 3 == 1 {
        ".."
    } else {
        "..."
    };
    String::from_str("Loading").concat(dots)
}

/// What the dashboard panel says instead of the figures: the loading notice,
/// `No user stats`, or the error; nothing once the figures are loaded.
pub open spec fn spec_dashboard_notice(state: DashboardState, frame: usize) -> Option<Seq<char>> {
    match state {
        DashboardState::Loading => Some(spec_loading_label(frame)),
        DashboardState::Empty => Some("No user stats"@),
        DashboardState::Error(m) => Some("Error: "@ + m@),
        DashboardState::Loaded(_) => None,
    }
}

/// What the dashboard panel says instead of the figures.
pub fn dashboard_notice(app: &App) -> (r: Option<String>)
    ensures
        r is Some <==> spec_dashboard_notice(app.dashboard_state, app.loading_frame) is Some,
        r matches Some(s) ==> spec_dashboard_notice(app.dashboard_state, app.loading_frame)
            == Some(s@),
{
    match &app.dashboard_state {
        DashboardState::Loading => Some(loading_label(app.loading_frame)),
        DashboardState::Empty => Some(String::from_str("No user stats")),
        DashboardState::Error(m) => Some(String::from_str("Error: ").concat(m.as_str())),
        DashboardState::Loaded(_) => None,
    }
}

/// The lines of figures of a loaded dashboard.
pub fn dashboard_stats_line(data: &DashboardData) -> (lines: Vec<String>)
    ensures
        texts(lines@) == texts(data.stats@),
{
    let mut lines: Vec<String> = Vec::new();
    let mut i: usize = 0;
    while i < data.stats.len()
        invariant
            i <= data.stats@.len(),
            texts(lines@) == texts(data.stats@.take(i as int)),
        decreases data.stats.len() - i,
    {
        let line = data.stats[i].clone();
        let ghost before = lines@;
        lines.push(line);
        assert(texts(lines@) =~= texts(before).push(line@));
        assert(data.stats@.take(i + 1) =~= data.stats@.take(i as int).push(data.stats@[i as int]));
        i = i + 1;
        assert(texts(lines@) =~= texts(data.stats@.take(i as int)));
    }
    assert(data.stats@.take(data.stats.len() as int) =~= data.stats@);
    lines
}

/// The titles of the user-name and API-key fields: the field being edited is
/// marked with `*`.
pub open spec fn spec_settings_titles(f: SettingsField) -> (Seq<char>, Seq<char>) {
    match f {
        SettingsField::Username => ("Username *"@, "API Key"@),
        SettingsField::ApiKey => ("Username"@, "API Key *"@),
    }
}

/// The titles of the user-name and API-key fields.
pub fn settings_titles(f: SettingsField) -> (t: (&'static str, &'static str))
    ensures
        (t.0@, t.1@) == spec_settings_titles(f),
{
    match f {
        SettingsField::Username => ("Username *", "API Key"),
        SettingsField::ApiKey => ("Username", "API Key *"),
    }
}

/// The API key as shown: keys of at most four characters as they are, longer
/// ones with every character but the last four replaced by `*`.
pub open spec fn spec_masked_api_key(key: Seq<char>) -> Seq<char> {
    if key.len() <= 4 {
        key
    } else {
        Seq::new((key.len() - 4) as nat, |i: int| '*') + key.subrange(key.len() - 4, key.len() as int)
    }
}

/// The API key as shown, as `spec_masked_api_key` says.
pub fn masked_api_key(value: &str) -> (s: String)
    ensures
        s@ == spec_masked_api_key(value@),
{
    let n = value.unicode_len();
    if n <= 4 {
        return String::from_str(value);
    }
    let mut s = String::new();
    let mut i: usize = 0;
    while i < n
        invariant
            n == value@.len(),
            n > 4,
            i <= n,
            s@ == spec_masked_api_key(value@).take(i as int),
        decreases n - i,
    {
        let c = if i < n - 4 {
            '*'
        } else {
            value.get_char(i)
        };
        push_char(&mut s, c);
        i = i + 1;
        assert(s@ =~= spec_masked_api_key(value@).take(i as int));
    }
    assert(spec_masked_api_key(value@).take(n as int) =~= spec_masked_api_key(value@));
    s
}

} // verus!
