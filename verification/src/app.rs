//! The client's state and the decisions it takes on each key, tick and
//! finished request. Whatever needs the network, the disk or the clock is
//! handed back to the caller as an `Action` and reported back by one of the
//! `*_finished` / `*_received` methods.

use vstd::prelude::*;
use crate::config::{Config, ConfigView};
use crate::palette::{Command, matching_commands, filtered_commands};
use crate::text::{without_last, decimal, push_char, remove_last};
use crate::commands::texts;

verus! {

/// The view the client shows.
#[derive(Clone, Copy, PartialEq, Eq, Structural, Debug)]
pub enum Screen {
    Dashboard,
    RecentTracks,
    Search,
    Settings,
}

/// The settings field that typing edits.
#[derive(Clone, Copy, PartialEq, Eq, Structural, Debug)]
pub enum SettingsField {
    Username,
    ApiKey,
}

/// A key press, as far as the client tells keys apart.
#[derive(Clone, Copy, PartialEq, Eq, Structural, Debug)]
pub enum Key {
    Esc,
    Backspace,
    Up,
    Down,
    Enter,
    Tab,
    Char(char),
    Other,
}

/// What the caller must do after a key: nothing, save the settings being
/// edited, or run the search typed so far.
#[derive(Clone, Copy, PartialEq, Eq, Structural, Debug)]
pub enum Action {
    Nothing,
    SaveSettings,
    Search,
}

/// One character of the cover art, with its foreground and background
/// colours when it has any.
#[derive(Clone, Copy)]
pub struct ArtCell {
    pub symbol: char,
    pub colors: Option<([u8; 3], [u8; 3])>,
}

/// What the dashboard shows once loaded: the cover art, row by row, and the
/// lines of figures.
pub struct DashboardData {
    pub art: Vec<Vec<ArtCell>>,
    pub stats: Vec<String>,
}

/// Where the dashboard stands.
pub enum DashboardState {
    Loading,
    Loaded(DashboardData),
    Empty,
    Error(String),
}

/// How the background request for the dashboard ended.
pub enum DashboardMessage {
    Loaded(DashboardData),
    Empty,
    Error(String),
}

/// The client's state.
pub struct App {
    pub screen: Screen,
    pub config: Config,
    pub search_input: String,
    pub recent_tracks: Vec<String>,
    pub search_results: Vec<String>,
    pub dashboard_state: DashboardState,
    pub command_palette_open: bool,
    pub command_input: String,
    pub command_selected: usize,
    pub settings_username: String,
    pub settings_api_key: String,
    pub settings_field: SettingsField,
    pub loading_frame: usize,
    pub status: String,
    pub should_quit: bool,
}

/// The client's state with its text as character sequences.
#[verifier::ext_equal]
pub struct AppView {
    pub screen: Screen,
    pub config: ConfigView,
    pub search_input: Seq<char>,
    pub recent_tracks: Seq<Seq<char>>,
    pub search_results: Seq<Seq<char>>,
    pub dashboard_state: DashboardState,
    pub command_palette_open: bool,
    pub command_input: Seq<char>,
    pub command_selected: usize,
    pub settings_username: Seq<char>,
    pub settings_api_key: Seq<char>,
    pub settings_field: SettingsField,
    pub loading_frame: usize,
    pub status: Seq<char>,
    pub should_quit: bool,
}

impl View for App {
    type V = AppView;

    open spec fn view(&self) -> AppView {
        AppView {
            screen: self.screen,
            config: self.config@,
            search_input: self.search_input@,
            recent_tracks: texts(self.recent_tracks@),
            search_results: texts(self.search_results@),
            dashboard_state: self.dashboard_state,
            command_palette_open: self.command_palette_open,
            command_input: self.command_input@,
            command_selected: self.command_selected,
            settings_username: self.settings_username@,
            settings_api_key: self.settings_api_key@,
            settings_field: self.settings_field,
            loading_frame: self.loading_frame,
            status: self.status@,
            should_quit: self.should_quit,
        }
    }
}

/// What every reachable state keeps: the loading animation has three frames;
/// an open palette selects one of its matches (or the first place when there
/// is none); a closed palette holds no input and no selection.
pub open spec fn well_formed(s: AppView) -> bool {
    &&& s.loading_frame < 3
    &&& s.command_palette_open ==> (s.command_selected == 0 || s.command_selected
        < matching_commands(s.command_input).len())
    &&& !s.command_palette_open ==> (s.command_input.len() == 0 && s.command_selected == 0)
}

/// The status line the client starts with.
pub open spec fn start_status() -> Seq<char> {
    "q: quit, Tab: switch view, s: commands"@
}

/// The state the client starts in with the given settings.
pub open spec fn initial(cfg: ConfigView) -> AppView {
    AppView {
        screen: Screen::Dashboard,
        config: cfg,
        search_input: Seq::empty(),
        recent_tracks: Seq::empty(),
        search_results: Seq::empty(),
        dashboard_state: DashboardState::Loading,
        command_palette_open: false,
        command_input: Seq::empty(),
        command_selected: 0,
        settings_username: cfg.username,
        settings_api_key: cfg.api_key,
        settings_field: SettingsField::Username,
        loading_frame: 0,
        status: start_status(),
        should_quit: false,
    }
}

/// The view that Tab moves to.
pub open spec fn next_screen(s: Screen) -> Screen {
    match s {
        Screen::Dashboard => Screen::RecentTracks,
        Screen::RecentTracks => Screen::Search,
        Screen::Search => Screen::Dashboard,
        Screen::Settings => Screen::Dashboard,
    }
}

/// The other settings field.
pub open spec fn other_field(f: SettingsField) -> SettingsField {
    match f {
        SettingsField::Username => SettingsField::ApiKey,
        SettingsField::ApiKey => SettingsField::Username,
    }
}

/// The state with the palette closed, its input and selection cleared.
pub open spec fn close_palette(s: AppView) -> AppView {
    AppView { command_palette_open: false, command_input: Seq::empty(), command_selected: 0, ..s }
}

/// Running a command from the palette.
pub open spec fn run_command(s: AppView, c: Command) -> AppView {
    match c {
        Command::NowPlaying => AppView {
            screen: Screen::RecentTracks,
            status: "Opened recent tracks"@,
            ..s
        },
        Command::SearchSong => AppView {
            screen: Screen::Search,
            search_input: Seq::empty(),
            search_results: Seq::empty(),
            status: "Search for a song"@,
            ..s
        },
        Command::Settings => AppView {
            screen: Screen::Settings,
            settings_username: s.config.username,
            settings_api_key: s.config.api_key,
            settings_field: SettingsField::Username,
            status: "Editing settings"@,
            ..s
        },
    }
}

/// A key while the palette is open.
pub open spec fn palette_key(s: AppView, key: Key) -> AppView {
    match key {
        Key::Esc => close_palette(s),
        Key::Backspace => AppView {
            command_input: without_last(s.command_input),
            command_selected: 0,
            ..s
        },
        Key::Up => AppView {
            command_selected: if s.command_selected == 0 {
                0
            } else {
                (s.command_selected - 1) as usize
            },
            ..s
        },
        Key::Down => {
            let count = matching_commands(s.command_input).len();
            if count > 0 {
                AppView {
                    command_selected: if s.command_selected + 1 < count - 1 {
                        (s.command_selected + 1) as usize
                    } else {
                        (count - 1) as usize
                    },
                    ..s
                }
            } else {
                s
            }
        },
        Key::Enter => {
            let matches = matching_commands(s.command_input);
            let ran = if s.command_selected < matches.len() {
                run_command(s, matches[s.command_selected as int])
            } else {
                s
            };
            close_palette(ran)
        },
        Key::Char(c) => AppView { command_input: s.command_input.push(c), command_selected: 0, ..s },
        _ => s,
    }
}

/// A key on the settings view.
pub open spec fn settings_key(s: AppView, key: Key) -> (AppView, Action) {
    match key {
        Key::Esc => (
            AppView { screen: Screen::Dashboard, status: "Closed settings"@, ..s },
            Action::Nothing,
        ),
        Key::Tab | Key::Up | Key::Down => (
            AppView { settings_field: other_field(s.settings_field), ..s },
            Action::Nothing,
        ),
        Key::Enter => (s, Action::SaveSettings),
        Key::Backspace => (
            match s.settings_field {
                SettingsField::Username => AppView {
                    settings_username: without_last(s.settings_username),
                    ..s
                },
                SettingsField::ApiKey => AppView {
                    settings_api_key: without_last(s.settings_api_key),
                    ..s
                },
            },
            Action::Nothing,
        ),
        Key::Char(c) => (
            match s.settings_field {
                SettingsField::Username => AppView {
                    settings_username: s.settings_username.push(c),
                    ..s
                },
                SettingsField::ApiKey => AppView { settings_api_key: s.settings_api_key.push(c), ..s },
            },
            Action::Nothing,
        ),
        _ => (s, Action::Nothing),
    }
}

/// A key on the dashboard, recent tracks or search view.
pub open spec fn browse_key(s: AppView, key: Key) -> (AppView, Action) {
    match key {
        Key::Char(c) => if c == 'q' {
            (AppView { should_quit: true, ..s }, Action::Nothing)
        } else if c == 's' {
            (
                AppView {
                    command_palette_open: true,
                    command_input: Seq::empty(),
                    command_selected: 0,
                    ..s
                },
                Action::Nothing,
            )
        } else if s.screen == Screen::Search {
            (AppView { search_input: s.search_input.push(c), ..s }, Action::Nothing)
        } else {
            (s, Action::Nothing)
        },
        Key::Tab => (AppView { screen: next_screen(s.screen), ..s }, Action::Nothing),
        Key::Enter => if s.screen == Screen::Search {
            (s, Action::Search)
        } else {
            (s, Action::Nothing)
        },
        Key::Backspace => if s.screen == Screen::Search {
            (AppView { search_input: without_last(s.search_input), ..s }, Action::Nothing)
        } else {
            (s, Action::Nothing)
        },
        _ => (s, Action::Nothing),
    }
}

/// The state after a key, and what the caller must do.
pub open spec fn key_step(s: AppView, key: Key) -> (AppView, Action) {
    if s.command_palette_open {
        (palette_key(s, key), Action::Nothing)
    } else if s.screen == Screen::Settings {
        settings_key(s, key)
    } else {
        browse_key(s, key)
    }
}

/// The state once the edited settings are saved: they become the settings in
/// use and the dashboard shows again.
pub open spec fn saved_step(s: AppView) -> AppView {
    AppView {
        config: ConfigView {
            username: s.settings_username,
            api_key: s.settings_api_key,
            theme: s.config.theme,
        },
        status: "Settings saved"@,
        screen: Screen::Dashboard,
        ..s
    }
}

/// The status line after a search: the number of results and the query.
pub open spec fn search_status(count: nat, query: Seq<char>) -> Seq<char> {
    decimal(count) + " results for '"@ + query + "'"@
}

/// The state once a search answered with `results`.
pub open spec fn searched_step(s: AppView, results: Seq<Seq<char>>) -> AppView {
    AppView {
        search_results: results,
        status: search_status(results.len(), s.search_input),
        ..s
    }
}

/// The dashboard's state once the background request ended.
pub open spec fn dashboard_after(m: DashboardMessage) -> DashboardState {
    match m {
        DashboardMessage::Loaded(d) => DashboardState::Loaded(d),
        DashboardMessage::Empty => DashboardState::Empty,
        DashboardMessage::Error(e) => DashboardState::Error(e),
    }
}

/// The loading frame after a tick `elapsed_ms` after the last frame change:
/// it advances once 300 ms have passed.
pub open spec fn ticked(s: AppView, elapsed_ms: u64) -> AppView {
    if elapsed_ms >= 300 {
        AppView { loading_frame: ((s.loading_frame + 1) % 3) as usize, ..s }
    } else {
        s
    }
}

impl App {
    /// The state the client starts in with the given settings.
    pub fn new(cfg: Config) -> (app: App)
        ensures
            app@ == initial(cfg@),
            well_formed(app@),
    {
        let settings_username = cfg.username.clone();
        let settings_api_key = cfg.api_key.clone();
        let app = App {
            screen: Screen::Dashboard,
            settings_username,
            settings_api_key,
            config: cfg,
            search_input: String::new(),
            recent_tracks: Vec::new(),
            search_results: Vec::new(),
            dashboard_state: DashboardState::Loading,
            command_palette_open: false,
            command_input: String::new(),
            command_selected: 0,
            settings_field: SettingsField::Username,
            loading_frame: 0,
            status: String::from_str("q: quit, Tab: switch view, s: commands"),
            should_quit: false,
        };
        assert(texts(app.recent_tracks@) =~= Seq::empty());
        assert(texts(app.search_results@) =~= Seq::empty());
        assert(app@ =~= initial(cfg@));
        app
    }

    /// Advances the loading animation when 300 ms have passed since its last
    /// frame; tells whether it did, so that the caller restarts its timer.
    pub fn tick(&mut self, elapsed_ms: u64) -> (advanced: bool)
        ensures
            advanced == (elapsed_ms >= 300),
            final(self)@ == ticked(old(self)@, elapsed_ms),
            well_formed(old(self)@) ==> well_formed(final(self)@),
    {
        if elapsed_ms >= 300 {
            proof {
                vstd::arithmetic::div_mod::lemma_add_mod_noop(self.loading_frame as int, 1, 3);
                vstd::arithmetic::div_mod::lemma_small_mod(1, 3);
            }
            self.loading_frame = (self.loading_frame % 3 + 1) % 3;
            true
        } else {
            false
        }
    }

    /// Takes in the end of the background dashboard request.
    pub fn dashboard_received(&mut self, message: DashboardMessage)
        ensures
            final(self)@ == (AppView { dashboard_state: dashboard_after(message), ..old(self)@ }),
    {
        self.dashboard_state = match message {
            DashboardMessage::Loaded(data) => DashboardState::Loaded(data),
            DashboardMessage::Empty => DashboardState::Empty,
            DashboardMessage::Error(e) => DashboardState::Error(e),
        };
    }

    /// Takes in the recent tracks fetched at start.
    pub fn recent_tracks_received(&mut self, tracks: Vec<String>)
        ensures
            final(self)@ == (AppView { recent_tracks: texts(tracks@), ..old(self)@ }),
    {
        self.recent_tracks = tracks;
    }

    /// Takes in the answer to a search: its lines and a status line that
    /// counts them.
    pub fn search_finished(&mut self, results: Vec<String>)
        ensures
            final(self)@ == searched_step(old(self)@, texts(results@)),
    {
        let n = crate::text::decimal_string(results.len() as u64);
        let status = n.concat(" results for '");
        let status = status.concat(self.search_input.as_str());
        let status = status.concat("'");
        self.search_results = results;
        self.status = status;
        assert(final(self)@ =~= searched_step(old(self)@, texts(results@)));
    }

    /// Takes in that the edited settings were saved.
    pub fn settings_saved(&mut self)
        ensures
            final(self)@ == saved_step(old(self)@),
    {
        self.config.username = self.settings_username.clone();
        self.config.api_key = self.settings_api_key.clone();
        self.status = String::from_str("Settings saved");
        self.screen = Screen::Dashboard;
        assert(final(self)@ =~= saved_step(old(self)@));
    }

    /// Closes the palette, clearing its input and selection.
    fn close_palette(&mut self)
        ensures
            final(self)@ == close_palette(old(self)@),
    {
        self.command_palette_open = false;
        self.command_input = String::new();
        self.command_selected = 0;
        assert(final(self)@ =~= close_palette(old(self)@));
    }

    /// Runs a command chosen in the palette.
    fn run_command(&mut self, c: Command)
        ensures
            final(self)@ == run_command(old(self)@, c),
    {
        match c {
            Command::NowPlaying => {
                self.screen = Screen::RecentTracks;
                self.status = String::from_str("Opened recent tracks");
            },
            Command::SearchSong => {
                self.screen = Screen::Search;
                self.search_input = String::new();
                self.search_results = Vec::new();
                self.status = String::from_str("Search for a song");
                assert(texts(self.search_results@) =~= Seq::empty());
            },
            Command::Settings => {
                self.screen = Screen::Settings;
                self.settings_username = self.config.username.clone();
                self.settings_api_key = self.config.api_key.clone();
                self.settings_field = SettingsField::Username;
                self.status = String::from_str("Editing settings");
            },
        }
        assert(final(self)@ =~= run_command(old(self)@, c));
    }

    /// A key while the palette is open.
    fn palette_key(&mut self, key: Key)
        ensures
            final(self)@ == palette_key(old(self)@, key),
    {
        match key {
            Key::Esc => {
                self.close_palette();
            },
            Key::Backspace => {
                remove_last(&mut self.command_input);
                self.command_selected = 0;
            },
            Key::Up => {
                if self.command_selected > 0 {
                    self.command_selected = self.command_selected - 1;
                }
            },
            Key::Down => {
                let count = filtered_commands(self.command_input.as_str()).len();
                if count > 0 {
                    proof {
                        assert(count <= 3) by {
                            let p = |c: Command| crate::palette::fuzzy_match(self.command_input@, crate::palette::label(c));
                            crate::palette::all_commands().lemma_filter_len(p);
                        }
                    }
                    if count >= 2 && self.command_selected < count - 2 {
                        self.command_selected = self.command_selected + 1;
                    } else {
                        self.command_selected = count - 1;
                    }
                }
            },
            Key::Enter => {
                let matches = filtered_commands(self.command_input.as_str());
                if self.command_selected < matches.len() {
                    let c = matches[self.command_selected];
                    self.run_command(c);
                }
                self.close_palette();
            },
            Key::Char(c) => {
                push_char(&mut self.command_input, c);
                self.command_selected = 0;
            },
            _ => {},
        }
        assert(final(self)@ =~= palette_key(old(self)@, key));
    }

    /// A key on the settings view.
    fn settings_key(&mut self, key: Key) -> (a: Action)
        ensures
            (final(self)@, a) == settings_key(old(self)@, key),
    {
        let a = match key {
            Key::Esc => {
                self.screen = Screen::Dashboard;
                self.status = String::from_str("Closed settings");
                Action::Nothing
            },
            Key::Tab | Key::Up | Key::Down => {
                self.settings_field = match self.settings_field {
                    SettingsField::Username => SettingsField::ApiKey,
                    SettingsField::ApiKey => SettingsField::Username,
                };
                Action::Nothing
            },
            Key::Enter => Action::SaveSettings,
            Key::Backspace => {
                match self.settings_field {
                    SettingsField::Username => remove_last(&mut self.settings_username),
                    SettingsField::ApiKey => remove_last(&mut self.settings_api_key),
                }
                Action::Nothing
            },
            Key::Char(c) => {
                match self.settings_field {
                    SettingsField::Username => push_char(&mut self.settings_username, c),
                    SettingsField::ApiKey => push_char(&mut self.settings_api_key, c),
                }
                Action::Nothing
            },
            _ => Action::Nothing,
        };
        assert(final(self)@ =~= settings_key(old(self)@, key).0);
        a
    }

    /// A key on the dashboard, recent tracks or search view.
    fn browse_key(&mut self, key: Key) -> (a: Action)
        ensures
            (final(self)@, a) == browse_key(old(self)@, key),
    {
        let searching = self.screen == Screen::Search;
        let a = match key {
            Key::Char(c) => {
                if c == 'q' {
                    self.should_quit = true;
                } else if c == 's' {
                    self.command_palette_open = true;
                    self.command_input = String::new();
                    self.command_selected = 0;
                } else if searching {
                    push_char(&mut self.search_input, c);
                }
                Action::Nothing
            },
            Key::Tab => {
                self.screen = match self.screen {
                    Screen::Dashboard => Screen::RecentTracks,
                    Screen::RecentTracks => Screen::Search,
                    Screen::Search => Screen::Dashboard,
                    Screen::Settings => Screen::Dashboard,
                };
                Action::Nothing
            },
            Key::Enter => if searching {
                Action::Search
            } else {
                Action::Nothing
            },
            Key::Backspace => {
                if searching {
                    remove_last(&mut self.search_input);
                }
                Action::Nothing
            },
            _ => Action::Nothing,
        };
        assert(final(self)@ =~= browse_key(old(self)@, key).0);
        a
    }

    /// Handles a key press. The state changes as `key_step` says, and the
    /// returned action tells the caller what to do: after `SaveSettings` it
    /// saves the edited settings and on success calls `settings_saved`; after
    /// `Search` it runs the search typed so far and calls `search_finished`.
    pub fn on_key(&mut self, key: Key) -> (a: Action)
        ensures
            (final(self)@, a) == key_step(old(self)@, key),
            well_formed(old(self)@) ==> well_formed(final(self)@),
    {
        let a = if self.command_palette_open {
            self.palette_key(key);
            Action::Nothing
        } else if self.screen == Screen::Settings {
            self.settings_key(key)
        } else {
            self.browse_key(key)
        };
        proof {
            if well_formed(old(self)@) {
                lemma_key_step_well_formed(old(self)@, key);
            }
        }
        a
    }
}

/// Every key keeps the state well formed.
pub proof fn lemma_key_step_well_formed(s: AppView, key: Key)
    requires
        well_formed(s),
    ensures
        well_formed(key_step(s, key).0),
{
    let p = |c: Command| crate::palette::fuzzy_match(s.command_input, crate::palette::label(c));
    crate::palette::all_commands().lemma_filter_len(p);
}

} // verus!
