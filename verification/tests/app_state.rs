use lastui::app::{Action, App, DashboardData, DashboardMessage, DashboardState, Key, Screen, SettingsField};
use lastui::config::Config;
use lastui::palette::{command_items, filtered_commands, fuzzy_matches, palette_lines, Command};
use lastui::view::{dashboard_notice, dashboard_stats_line, loading_label, masked_api_key, settings_titles, tab_index};

fn new_app() -> App {
    App::new(Config {
        api_key: String::from("0123456789"),
        username: String::from("alice"),
        theme: String::from("catppuccin-mocha"),
    })
}

#[test]
fn starts_on_dashboard() {
    let app = new_app();
    assert_eq!(app.screen, Screen::Dashboard);
    assert!(matches!(app.dashboard_state, DashboardState::Loading));
    assert_eq!(app.status, "q: quit, Tab: switch view, s: commands");
    assert_eq!(app.settings_username, "alice");
    assert_eq!(app.settings_api_key, "0123456789");
    assert!(!app.command_palette_open);
    assert!(!app.should_quit);
}

#[test]
fn tab_cycles_through_three_views() {
    let mut app = new_app();
    assert_eq!(app.on_key(Key::Tab), Action::Nothing);
    assert_eq!(app.screen, Screen::RecentTracks);
    app.on_key(Key::Tab);
    assert_eq!(app.screen, Screen::Search);
    app.on_key(Key::Tab);
    assert_eq!(app.screen, Screen::Dashboard);
}

#[test]
fn q_quits() {
    let mut app = new_app();
    app.on_key(Key::Char('q'));
    assert!(app.should_quit);
}

#[test]
fn search_typing_and_request() {
    let mut app = new_app();
    app.on_key(Key::Tab);
    app.on_key(Key::Tab);
    for c in "Cherx".chars() {
        app.on_key(Key::Char(c));
    }
    app.on_key(Key::Backspace);
    assert_eq!(app.search_input, "Cher");
    assert_eq!(app.on_key(Key::Enter), Action::Search);
    app.search_finished(vec![String::from("Believe - Cher (1 listeners)"), String::from("b")]);
    assert_eq!(app.status, "2 results for 'Cher'");
    assert_eq!(app.search_results.len(), 2);
}

#[test]
fn typing_outside_search_does_nothing() {
    let mut app = new_app();
    app.on_key(Key::Char('x'));
    app.on_key(Key::Backspace);
    assert_eq!(app.search_input, "");
    assert_eq!(app.on_key(Key::Enter), Action::Nothing);
}

#[test]
fn palette_opens_filters_and_runs() {
    let mut app = new_app();
    app.on_key(Key::Char('s'));
    assert!(app.command_palette_open);
    assert_eq!(palette_lines(&app.command_input, app.command_selected), vec!["> now playing", " search song", " settings"]);
    app.on_key(Key::Down);
    app.on_key(Key::Down);
    app.on_key(Key::Down);
    assert_eq!(app.command_selected, 2);
    app.on_key(Key::Up);
    assert_eq!(app.command_selected, 1);
    app.on_key(Key::Enter);
    assert!(!app.command_palette_open);
    assert_eq!(app.screen, Screen::Search);
    assert_eq!(app.status, "Search for a song");
    assert_eq!(app.command_input, "");
}

#[test]
fn palette_query_and_escape() {
    let mut app = new_app();
    app.on_key(Key::Char('s'));
    app.on_key(Key::Char('S'));
    app.on_key(Key::Char('t'));
    assert_eq!(filtered_commands(&app.command_input), vec![Command::Settings]);
    app.on_key(Key::Up);
    assert_eq!(app.command_selected, 0);
    app.on_key(Key::Esc);
    assert!(!app.command_palette_open);
    assert_eq!(app.command_input, "");
    assert_eq!(app.screen, Screen::Dashboard);
}

#[test]
fn palette_enter_without_match_only_closes() {
    let mut app = new_app();
    app.on_key(Key::Char('s'));
    app.on_key(Key::Char('z'));
    app.on_key(Key::Down);
    assert_eq!(app.command_selected, 0);
    app.on_key(Key::Enter);
    assert!(!app.command_palette_open);
    assert_eq!(app.screen, Screen::Dashboard);
}

#[test]
fn settings_edit_and_save() {
    let mut app = new_app();
    app.on_key(Key::Char('s'));
    for c in "set".chars() {
        app.on_key(Key::Char(c));
    }
    app.on_key(Key::Enter);
    assert_eq!(app.screen, Screen::Settings);
    assert_eq!(app.status, "Editing settings");
    assert_eq!(app.settings_field, SettingsField::Username);
    app.on_key(Key::Char('2'));
    app.on_key(Key::Tab);
    assert_eq!(app.settings_field, SettingsField::ApiKey);
    app.on_key(Key::Backspace);
    app.on_key(Key::Char('X'));
    assert_eq!(app.settings_username, "alice2");
    assert_eq!(app.settings_api_key, "012345678X");
    assert_eq!(app.config.username, "alice");
    assert_eq!(app.on_key(Key::Enter), Action::SaveSettings);
    assert_eq!(app.screen, Screen::Settings);
    app.settings_saved();
    assert_eq!(app.config.username, "alice2");
    assert_eq!(app.config.api_key, "012345678X");
    assert_eq!(app.config.theme, "catppuccin-mocha");
    assert_eq!(app.status, "Settings saved");
    assert_eq!(app.screen, Screen::Dashboard);
}

#[test]
fn settings_escape_keeps_config() {
    let mut app = new_app();
    app.on_key(Key::Char('s'));
    app.on_key(Key::Char('e'));
    app.on_key(Key::Char('t'));
    app.on_key(Key::Enter);
    assert_eq!(app.screen, Screen::Settings);
    app.on_key(Key::Char('q'));
    assert!(!app.should_quit);
    app.on_key(Key::Esc);
    assert_eq!(app.screen, Screen::Dashboard);
    assert_eq!(app.status, "Closed settings");
    assert_eq!(app.config.username, "alice");
}

#[test]
fn now_playing_command() {
    let mut app = new_app();
    app.on_key(Key::Char('s'));
    app.on_key(Key::Char('n'));
    app.on_key(Key::Enter);
    assert_eq!(app.screen, Screen::RecentTracks);
    assert_eq!(app.status, "Opened recent tracks");
}

#[test]
fn tick_advances_every_300_ms() {
    let mut app = new_app();
    assert!(!app.tick(299));
    assert_eq!(app.loading_frame, 0);
    assert!(app.tick(300));
    assert_eq!(app.loading_frame, 1);
    app.tick(1000);
    app.tick(1000);
    assert_eq!(app.loading_frame, 0);
}

#[test]
fn dashboard_messages() {
    let mut app = new_app();
    assert_eq!(dashboard_notice(&app).as_deref(), Some("Loading."));
    app.tick(300);
    app.tick(300);
    assert_eq!(dashboard_notice(&app).as_deref(), Some("Loading..."));
    app.dashboard_received(DashboardMessage::Error(String::from("offline")));
    assert_eq!(dashboard_notice(&app).as_deref(), Some("Error: offline"));
    app.dashboard_received(DashboardMessage::Empty);
    assert_eq!(dashboard_notice(&app).as_deref(), Some("No user stats"));
    app.dashboard_received(DashboardMessage::Loaded(DashboardData {
        art: vec![],
        stats: vec![String::from("user: alice")],
    }));
    assert_eq!(dashboard_notice(&app), None);
    match &app.dashboard_state {
        DashboardState::Loaded(data) => assert_eq!(dashboard_stats_line(data), vec!["user: alice"]),
        _ => panic!("not loaded"),
    }
}

#[test]
fn recent_tracks_stored() {
    let mut app = new_app();
    app.recent_tracks_received(vec![String::from("> a - b (now playing)")]);
    assert_eq!(app.recent_tracks, vec!["> a - b (now playing)"]);
}

#[test]
fn loading_labels() {
    assert_eq!(loading_label(0), "Loading.");
    assert_eq!(loading_label(1), "Loading..");
    assert_eq!(loading_label(2), "Loading...");
    assert_eq!(loading_label(5), "Loading...");
}

#[test]
fn masked_keys() {
    assert_eq!(masked_api_key(""), "");
    assert_eq!(masked_api_key("abcd"), "abcd");
    assert_eq!(masked_api_key("abcdef"), "**cdef");
    assert_eq!(masked_api_key("0123456789"), "******6789");
    assert_eq!(masked_api_key("ééééé"), "*éééé");
}

#[test]
fn tabs_and_titles() {
    assert_eq!(tab_index(Screen::Dashboard), 0);
    assert_eq!(tab_index(Screen::RecentTracks), 1);
    assert_eq!(tab_index(Screen::Search), 2);
    assert_eq!(tab_index(Screen::Settings), 0);
    assert_eq!(settings_titles(SettingsField::Username), ("Username *", "API Key"));
    assert_eq!(settings_titles(SettingsField::ApiKey), ("Username", "API Key *"));
}

#[test]
fn fuzzy_matching() {
    assert!(fuzzy_matches("", "anything"));
    assert!(fuzzy_matches("np", "now playing"));
    assert!(fuzzy_matches("NoW", "now playing"));
    assert!(fuzzy_matches("sg", "search song"));
    assert!(fuzzy_matches("settings", "settings"));
    assert!(fuzzy_matches("gs", "settings"));
    assert!(!fuzzy_matches("gs", "song"));
    assert!(!fuzzy_matches("xyz", "now playing"));
    assert!(!fuzzy_matches("nowx", "now"));
    assert!(!fuzzy_matches("ab", ""));
}

#[test]
fn command_list() {
    assert_eq!(command_items(), vec![Command::NowPlaying, Command::SearchSong, Command::Settings]);
    assert_eq!(filtered_commands(""), command_items());
    assert_eq!(filtered_commands("s"), vec![Command::SearchSong, Command::Settings]);
    assert_eq!(filtered_commands("ng"), vec![Command::NowPlaying, Command::SearchSong, Command::Settings]);
    assert_eq!(filtered_commands("play"), vec![Command::NowPlaying]);
    assert_eq!(Command::SearchSong.label(), "search song");
    assert_eq!(palette_lines("s", 1), vec![" search song", "> settings"]);
}

#[test]
fn fuzzy_matching_laws_on_examples() {
    for (q, c) in [("np", "now playing"), ("xyz", "settings"), ("Set", "SETTINGS"), ("", "a")] {
        assert_eq!(
            fuzzy_matches(q, c),
            fuzzy_matches(&q.to_ascii_uppercase(), &c.to_ascii_lowercase())
        );
    }
    assert!(fuzzy_matches("nowp", "now playing"));
    assert!(fuzzy_matches("no", "now playing"));
    assert!(fuzzy_matches("np", "xx now playing"));
    assert!(fuzzy_matches("np", "now playing xx"));
}
