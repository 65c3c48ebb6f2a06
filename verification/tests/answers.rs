use lastui::commands::dashboard::{dashboard_stats, dashboard_urls, stats_text, DashboardResponses, DashboardStats};
use lastui::commands::recent_tracks::{recent_tracks_address, track_lines};
use lastui::commands::search::{search_address, search_lines};
use lastui::config::{default_theme, Config};
use lastui::json::{get_member, get_text, Json};
use serde_json::Value;

fn to_json(v: &Value) -> Json {
    match v {
        Value::Null => Json::Null,
        Value::Bool(b) => Json::Bool(*b),
        Value::Number(n) => Json::Number(n.to_string()),
        Value::String(s) => Json::Str(s.clone()),
        Value::Array(items) => Json::Array(items.iter().map(to_json).collect()),
        Value::Object(members) => {
            Json::Object(members.iter().map(|(k, v)| (k.clone(), to_json(v))).collect())
        }
    }
}

fn json(text: &str) -> Json {
    to_json(&serde_json::from_str::<Value>(text).unwrap())
}

fn cfg() -> Config {
    Config { api_key: String::from("KEY"), username: String::from("alice"), theme: default_theme() }
}

#[test]
fn default_theme_name() {
    assert_eq!(default_theme(), "catppuccin-mocha");
}

#[test]
fn member_lookup() {
    let v = json(r##"{"a": {"b": "x"}, "c": 3}"##);
    assert_eq!(get_text(get_member(get_member(Some(&v), "a"), "b")), Some("x"));
    assert_eq!(get_text(get_member(Some(&v), "c")), None);
    assert!(get_member(Some(&v), "zz").is_none());
    assert!(get_member(get_member(Some(&v), "c"), "b").is_none());
    let dup = Json::Object(vec![
        (String::from("k"), Json::Str(String::from("first"))),
        (String::from("k"), Json::Str(String::from("second"))),
    ]);
    assert_eq!(get_text(get_member(Some(&dup), "k")), Some("first"));
}

#[test]
fn recent_tracks_address_text() {
    assert_eq!(
        recent_tracks_address(&cfg(), 10),
        "https://ws.audioscrobbler.com/2.0/?method=user.getrecenttracks&user=alice&api_key=KEY&format=json&limit=10"
    );
}

#[test]
fn dashboard_addresses() {
    let u = dashboard_urls(&cfg());
    let base = "https://ws.audioscrobbler.com/2.0/?method=";
    assert_eq!(u.user_info, format!("{base}user.getinfo&user=alice&api_key=KEY&format=json"));
    assert_eq!(u.top_tracks, format!("{base}user.gettoptracks&user=alice&api_key=KEY&format=json&period=7day&limit=1"));
    assert_eq!(u.top_artists, format!("{base}user.gettopartists&user=alice&api_key=KEY&format=json&period=7day&limit=1"));
    assert_eq!(u.top_albums, format!("{base}user.gettopalbums&user=alice&api_key=KEY&format=json&period=7day&limit=1"));
    assert_eq!(u.recent, format!("{base}user.getrecenttracks&user=alice&api_key=KEY&format=json&limit=1"));
    assert_eq!(u.weekly, format!("{base}user.getweeklytrackchart&user=alice&api_key=KEY&format=json"));
}

#[test]
fn search_address_encodes_query() {
    assert_eq!(
        search_address(&cfg(), "hello world & co"),
        "https://ws.audioscrobbler.com/2.0/?method=track.search&track=hello%20world%20%26%20co&api_key=KEY&format=json&limit=10"
    );
    assert_eq!(
        search_address(&cfg(), "é~a-b_c.d"),
        "https://ws.audioscrobbler.com/2.0/?method=track.search&track=%C3%A9~a-b_c.d&api_key=KEY&format=json&limit=10"
    );
}

#[test]
fn recent_tracks_lines_like_readme() {
    let answer = json(
        r##"{"recenttracks": {"track": [
            {"name": "Allergy", "artist": {"#text": "i-dle"}, "@attr": {"nowplaying": "true"}},
            {"name": "Die with a Smile", "artist": {"#text": "Lady Gaga"}},
            {"name": "HOT", "artist": {"#text": "LE SSERAFIM"}, "@attr": {"nowplaying": "false"}},
            {"artist": {"name": "no text"}}
        ]}}"##,
    );
    assert_eq!(
        track_lines(&answer),
        vec![
            "> Allergy - i-dle (now playing)",
            "    Die with a Smile - Lady Gaga",
            "    HOT - LE SSERAFIM",
            "    ? - ?",
        ]
    );
}

#[test]
fn recent_tracks_without_list() {
    assert!(track_lines(&json(r##"{"error": 10}"##)).is_empty());
    assert!(track_lines(&json(r##"{"recenttracks": {"track": {"name": "one"}}}"##)).is_empty());
}

#[test]
fn search_result_lines() {
    let answer = json(
        r##"{"results": {"trackmatches": {"track": [
            {"name": "Believe", "artist": "Cher", "listeners": "12345"},
            {"name": "Believe", "artist": {"name": "odd"}}
        ]}}}"##,
    );
    assert_eq!(
        search_lines(&answer),
        vec!["Believe - Cher (12345 listeners)", "Believe - ? (? listeners)"]
    );
    assert!(search_lines(&json(r##"{"results": {}}"##)).is_empty());
}

fn responses(weekly: &str, top_tracks: &str, top_artists: &str, top_albums: &str) -> DashboardResponses {
    DashboardResponses {
        user_info: json(r##"{"user": {"name": "Alice", "playcount": "4321"}}"##),
        top_tracks: json(top_tracks),
        top_artists: json(top_artists),
        top_albums: json(top_albums),
        recent: json(
            r##"{"recenttracks": {"track": [{"name": "HOT", "artist": {"#text": "LE SSERAFIM"}, "@attr": {"nowplaying": "true"}}]}}"##,
        ),
        weekly: json(weekly),
    }
}

#[test]
fn dashboard_figures() {
    let r = responses(
        r##"{"weeklytrackchart": {"track": [{"playcount": "3"}, {"playcount": "x"}, {"playcount": "+4"}, {"name": "no count"}]}}"##,
        r##"{"toptracks": {"track": [{"name": "Allergy", "artist": {"name": "i-dle"}}]}}"##,
        r##"{"topartists": {"artist": [{"name": "TWICE"}, {"name": "later"}]}}"##,
        r##"{"topalbums": {"album": [{"name": "2", "artist": {"name": "i-dle"}, "image": [{"#text": "small"}, {"#text": "large"}, {"size": "x"}]}]}}"##,
    );
    let s: DashboardStats = dashboard_stats(&cfg(), &r).unwrap();
    assert_eq!(s.username, "Alice");
    assert_eq!(s.weekly_scrobbles, 7);
    assert_eq!(s.top_track, "Allergy - i-dle");
    assert_eq!(s.top_artist, "TWICE");
    assert_eq!(s.top_album, "2 - i-dle");
    assert_eq!(s.now_playing, "HOT - LE SSERAFIM");
    assert_eq!(s.total_scrobbles, "4321");
    assert_eq!(s.cover_image_url.as_deref(), Some("large"));
    assert_eq!(
        stats_text(&s),
        vec![
            "user: Alice",
            "scrobbles this week: 7",
            "top track: Allergy - i-dle",
            "top artist: TWICE",
            "top album: 2 - i-dle",
            "now playing: HOT - LE SSERAFIM",
            "total scrobbles: 4321",
        ]
    );
}

#[test]
fn dashboard_without_stats_is_none() {
    let r = responses(r##"{}"##, r##"{"toptracks": {"track": []}}"##, r##"{}"##, r##"{"topalbums": {"album": []}}"##);
    assert!(dashboard_stats(&cfg(), &r).is_none());
}

#[test]
fn dashboard_with_only_scrobbles_is_some() {
    let r = responses(
        r##"{"weeklytrackchart": {"track": [{"playcount": "1"}]}}"##,
        r##"{}"##,
        r##"{}"##,
        r##"{}"##,
    );
    let s = dashboard_stats(&cfg(), &r).unwrap();
    assert_eq!(s.weekly_scrobbles, 1);
    assert_eq!(s.top_track, "No user stats");
    assert_eq!(s.top_artist, "No user stats");
    assert_eq!(s.top_album, "No user stats");
    assert_eq!(s.cover_image_url, None);
}

#[test]
fn dashboard_fallbacks() {
    let mut r = responses(
        r##"{"weeklytrackchart": {"track": [{"playcount": "4294967295"}, {"playcount": "2"}]}}"##,
        r##"{"toptracks": {"track": [{}]}}"##,
        r##"{"topartists": {"artist": [{}]}}"##,
        r##"{"topalbums": {"album": [{"name": "A", "image": [{"#text": "big"}, {"#text": ""}]}]}}"##,
    );
    r.user_info = json(r##"{"user": {}}"##);
    r.recent = json(r##"{"recenttracks": {"track": [{"name": "old", "artist": {"#text": "x"}}]}}"##);
    let s = dashboard_stats(&cfg(), &r).unwrap();
    assert_eq!(s.username, "alice");
    assert_eq!(s.total_scrobbles, "?");
    assert_eq!(s.weekly_scrobbles, 1);
    assert_eq!(s.top_track, "? - ?");
    assert_eq!(s.top_artist, "?");
    assert_eq!(s.top_album, "A - ?");
    assert_eq!(s.now_playing, "Nothing playing");
    assert_eq!(s.cover_image_url, None);
}
