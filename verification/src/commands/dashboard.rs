//! The dashboard's figures for the configured user: six requests, read into
//! one summary, and the lines that show it.

use vstd::prelude::*;
use crate::config::{Config, ConfigView};
use crate::json::{Json, get, items, text, text_at, first_item, or_unknown};
use crate::text::{decimal, parsed_u32};
use super::{user_method_url, name_and_artist, texts};

verus! {

/// What the dashboard shows of a user.
pub struct DashboardStats {
    pub username: String,
    pub weekly_scrobbles: u32,
    pub top_track: String,
    pub top_artist: String,
    pub top_album: String,
    pub now_playing: String,
    pub total_scrobbles: String,
    pub cover_image_url: Option<String>,
}

/// The dashboard's figures as text.
pub struct DashboardStatsView {
    pub username: Seq<char>,
    pub weekly_scrobbles: u32,
    pub top_track: Seq<char>,
    pub top_artist: Seq<char>,
    pub top_album: Seq<char>,
    pub now_playing: Seq<char>,
    pub total_scrobbles: Seq<char>,
    pub cover_image_url: Option<Seq<char>>,
}

/// The text of an optional string.
pub open spec fn opt_text(s: Option<String>) -> Option<Seq<char>> {
    match s {
        Some(t) => Some(t@),
        None => None,
    }
}

impl View for DashboardStats {
    type V = DashboardStatsView;

    open spec fn view(&self) -> DashboardStatsView {
        DashboardStatsView {
            username: self.username@,
            weekly_scrobbles: self.weekly_scrobbles,
            top_track: self.top_track@,
            top_artist: self.top_artist@,
            top_album: self.top_album@,
            now_playing: self.now_playing@,
            total_scrobbles: self.total_scrobbles@,
            cover_image_url: opt_text(self.cover_image_url),
        }
    }
}

/// The addresses of the six requests behind the dashboard.
pub struct DashboardUrls {
    pub user_info: String,
    pub top_tracks: String,
    pub top_artists: String,
    pub top_albums: String,
    pub recent: String,
    pub weekly: String,
}

/// The answers to the six requests, in the order of `DashboardUrls`.
pub struct DashboardResponses {
    pub user_info: Json,
    pub top_tracks: Json,
    pub top_artists: Json,
    pub top_albums: Json,
    pub recent: Json,
    pub weekly: Json,
}

/// The query that limits a chart to the last week's first entry.
pub open spec fn weekly_top() -> Seq<char> {
    "&period=7day&limit=1"@
}

/// Builds the six addresses: the user's profile, last week's top track, top
/// artist and top album, the latest track and last week's track chart.
pub fn dashboard_urls(cfg: &Config) -> (u: DashboardUrls)
    ensures
        u.user_info@ == user_method_url("user.getinfo"@, cfg@, ""@),
        u.top_tracks@ == user_method_url("user.gettoptracks"@, cfg@, weekly_top()),
        u.top_artists@ == user_method_url("user.gettopartists"@, cfg@, weekly_top()),
        u.top_albums@ == user_method_url("user.gettopalbums"@, cfg@, weekly_top()),
        u.recent@ == user_method_url("user.getrecenttracks"@, cfg@, "&limit=1"@),
        u.weekly@ == user_method_url("user.getweeklytrackchart"@, cfg@, ""@),
{
    DashboardUrls {
        user_info: super::user_method_address("user.getinfo", cfg, ""),
        top_tracks: super::user_method_address("user.gettoptracks", cfg, "&period=7day&limit=1"),
        top_artists: super::user_method_address("user.gettopartists", cfg, "&period=7day&limit=1"),
        top_albums: super::user_method_address("user.gettopalbums", cfg, "&period=7day&limit=1"),
        recent: super::user_method_address("user.getrecenttracks", cfg, "&limit=1"),
        weekly: super::user_method_address("user.getweeklytrackchart", cfg, ""),
    }
}

/// What a figure reads when the user has no statistics for it.
pub open spec fn no_stats() -> Seq<char> {
    "No user stats"@
}

/// What the dashboard shows when no track is playing.
pub open spec fn nothing_playing() -> Seq<char> {
    "Nothing playing"@
}

/// The user's name: `user.name` of the profile, else the configured name.
pub open spec fn spec_username(cfg: ConfigView, user_info: Json) -> Seq<char> {
    match text_at(user_info, "user"@, "name"@) {
        Some(s) => s,
        None => cfg.username,
    }
}

/// The user's total scrobbles: `user.playcount` of the profile, else `?`.
pub open spec fn spec_total_scrobbles(user_info: Json) -> Seq<char> {
    or_unknown(text_at(user_info, "user"@, "playcount"@))
}

/// The first entry of the chart list `answer[list][entry]`.
pub open spec fn chart_top(answer: Json, list: Seq<char>, entry: Seq<char>) -> Option<Json> {
    first_item(get(get(Some(answer), list), entry))
}

/// Last week's top track as `name - artist`, else `No user stats`.
pub open spec fn spec_top_track(top_tracks: Json) -> Seq<char> {
    match chart_top(top_tracks, "toptracks"@, "track"@) {
        Some(t) => name_and_artist(t, "name"@),
        None => no_stats(),
    }
}

/// Last week's top artist, else `No user stats`.
pub open spec fn spec_top_artist(top_artists: Json) -> Seq<char> {
    match chart_top(top_artists, "topartists"@, "artist"@) {
        Some(a) => or_unknown(text(get(Some(a), "name"@))),
        None => no_stats(),
    }
}

/// Last week's top album as `name - artist`, else `No user stats`.
pub open spec fn spec_top_album(top_albums: Json) -> Seq<char> {
    match chart_top(top_albums, "topalbums"@, "album"@) {
        Some(a) => name_and_artist(a, "name"@),
        None => no_stats(),
    }
}

/// Scanning the images from the last one back, the `#text` of the first one
/// that has a string there.
pub open spec fn last_image_text(images: Seq<Json>) -> Option<Seq<char>>
    decreases images.len(),
{
    if images.len() == 0 {
        None
    } else {
        match text(get(Some(images.last()), "#text"@)) {
            Some(s) => Some(s),
            None => last_image_text(images.drop_last()),
        }
    }
}

/// The cover of last week's top album: the text `last_image_text` finds among
/// its images, when it is not empty.
pub open spec fn spec_cover_url(top_albums: Json) -> Option<Seq<char>> {
    match chart_top(top_albums, "topalbums"@, "album"@) {
        Some(a) => match items(get(Some(a), "image"@)) {
            Some(images) => match last_image_text(images) {
                Some(u) => if u.len() > 0 {
                    Some(u)
                } else {
                    None
                },
                None => None,
            },
            None => None,
        },
        None => None,
    }
}

/// The track playing now, as `name - artist`, else `Nothing playing`.
pub open spec fn spec_now_playing(recent: Json) -> Seq<char> {
    match chart_top(recent, "recenttracks"@, "track"@) {
        Some(t) => if crate::commands::recent_tracks::is_now_playing(t) {
            name_and_artist(t, "#text"@)
        } else {
            nothing_playing()
        },
        None => nothing_playing(),
    }
}

/// The play count a chart entry holds: its `playcount` parsed as a `u32`, else
/// nothing (zero).
pub open spec fn entry_plays(track: Json) -> nat {
    match text(get(Some(track), "playcount"@)) {
        Some(s) => match parsed_u32(s) {
            Some(n) => n as nat,
            None => 0,
        },
        None => 0,
    }
}

/// The sum of the play counts of the chart entries.
pub open spec fn total_plays(tracks: Seq<Json>) -> nat
    decreases tracks.len(),
{
    if tracks.len() == 0 {
        0
    } else {
        total_plays(tracks.drop_last()) + entry_plays(tracks.last())
    }
}

/// Last week's scrobbles: the sum of the play counts of
/// `weeklytrackchart.track`, kept to 32 bits as a release build's `u32`
/// addition does; zero when there is no chart.
pub open spec fn spec_weekly_scrobbles(weekly: Json) -> u32 {
    match items(get(get(Some(weekly), "weeklytrackchart"@), "track"@)) {
        Some(tracks) => (total_plays(tracks) % 0x1_0000_0000) as u32,
        None => 0,
    }
}

/// The dashboard's figures read from the six answers.
pub open spec fn spec_stats(cfg: ConfigView, r: DashboardResponses) -> DashboardStatsView {
    DashboardStatsView {
        username: spec_username(cfg, r.user_info),
        weekly_scrobbles: spec_weekly_scrobbles(r.weekly),
        top_track: spec_top_track(r.top_tracks),
        top_artist: spec_top_artist(r.top_artists),
        top_album: spec_top_album(r.top_albums),
        now_playing: spec_now_playing(r.recent),
        total_scrobbles: spec_total_scrobbles(r.user_info),
        cover_image_url: spec_cover_url(r.top_albums),
    }
}

/// Whether the answers show a user without statistics: no scrobbles last week
/// and no top track, artist or album.
pub open spec fn has_no_stats(r: DashboardResponses) -> bool {
    &&& spec_weekly_scrobbles(r.weekly) == 0
    &&& spec_top_track(r.top_tracks) == no_stats()
    &&& spec_top_artist(r.top_artists) == no_stats()
    &&& spec_top_album(r.top_albums) == no_stats()
}

/// The first entry of the chart list `answer[list][entry]`.
fn chart_first<'a>(answer: &'a Json, list: &str, entry: &str) -> (r: Option<&'a Json>)
    ensures
        crate::json::deref(r) == chart_top(*answer, list@, entry@),
{
    crate::json::get_first(crate::json::get_member(crate::json::get_member(Some(answer), list), entry))
}

/// The user's name, as `spec_username` says.
fn username_of(cfg: &Config, user_info: &Json) -> (s: String)
    ensures
        s@ == spec_username(cfg@, *user_info),
{
    let t = crate::json::get_text(
        crate::json::get_member(crate::json::get_member(Some(user_info), "user"), "name"),
    );
    match t {
        Some(n) => String::from_str(n),
        None => cfg.username.clone(),
    }
}

/// The text that stands for a missing figure.
fn no_stats_text() -> (s: String)
    ensures
        s@ == no_stats(),
{
    String::from_str("No user stats")
}

/// Last week's top track, as `spec_top_track` says.
fn top_track_of(top_tracks: &Json) -> (s: String)
    ensures
        s@ == spec_top_track(*top_tracks),
{
    match chart_first(top_tracks, "toptracks", "track") {
        Some(t) => super::name_and_artist_text(t, "name"),
        None => no_stats_text(),
    }
}

/// Last week's top artist, as `spec_top_artist` says.
fn top_artist_of(top_artists: &Json) -> (s: String)
    ensures
        s@ == spec_top_artist(*top_artists),
{
    match chart_first(top_artists, "topartists", "artist") {
        Some(a) => super::text_of_member(a, "name"),
        None => no_stats_text(),
    }
}

/// Last week's top album, as `spec_top_album` says.
fn top_album_of(top_albums: &Json) -> (s: String)
    ensures
        s@ == spec_top_album(*top_albums),
{
    match chart_first(top_albums, "topalbums", "album") {
        Some(a) => super::name_and_artist_text(a, "name"),
        None => no_stats_text(),
    }
}

/// The cover address, as `spec_cover_url` says.
fn cover_url_of(top_albums: &Json) -> (u: Option<String>)
    ensures
        opt_text(u) == spec_cover_url(*top_albums),
{
    let album = chart_first(top_albums, "topalbums", "album");
    let images = match album {
        Some(a) => crate::json::get_items(crate::json::get_member(Some(a), "image")),
        None => None,
    };
    match images {
        Some(imgs) => {
            let mut i: usize = imgs.len();
            assert(imgs@.take(imgs@.len() as int) =~= imgs@);
            let ghost found = last_image_text(imgs@);
            assert(spec_cover_url(*top_albums) == match found {
                Some(u) => if u.len() > 0 {
                    Some(u)
                } else {
                    None
                },
                None => None,
            });
            while i > 0
                invariant
                    i <= imgs@.len(),
                    found == last_image_text(imgs@),
                    spec_cover_url(*top_albums) == match found {
                        Some(u) => if u.len() > 0 {
                            Some(u)
                        } else {
                            None::<Seq<char>>
                        },
                        None => None,
                    },
                    last_image_text(imgs@) == last_image_text(imgs@.take(i as int)),
                decreases i,
            {
                let ghost before = imgs@.take(i as int);
                assert(before.drop_last() =~= imgs@.take(i - 1));
                assert(before.last() == imgs@[i - 1]);
                match crate::json::get_text(crate::json::get_member(Some(&imgs[i - 1]), "#text")) {
                    Some(t) => {
                        if t.unicode_len() > 0 {
                            return Some(String::from_str(t));
                        } else {
                            return None;
                        }
                    },
                    None => {},
                }
                i = i - 1;
            }
            assert(imgs@.take(0) =~= Seq::<Json>::empty());
            None
        },
        None => None,
    }
}

/// The track playing now, as `spec_now_playing` says.
fn now_playing_of(recent: &Json) -> (s: String)
    ensures
        s@ == spec_now_playing(*recent),
{
    match chart_first(recent, "recenttracks", "track") {
        Some(t) => if crate::commands::recent_tracks::now_playing(t) {
            super::name_and_artist_text(t, "#text")
        } else {
            String::from_str("Nothing playing")
        },
        None => String::from_str("Nothing playing"),
    }
}

/// The play count of one chart entry, as `entry_plays` says.
fn plays_of(track: &Json) -> (n: u32)
    ensures
        n as nat == entry_plays(*track),
{
    match crate::json::get_text(crate::json::get_member(Some(track), "playcount")) {
        Some(s) => match crate::text::parse_u32(s) {
            Some(n) => n,
            None => 0,
        },
        None => 0,
    }
}

/// Last week's scrobbles, as `spec_weekly_scrobbles` says.
fn weekly_scrobbles_of(weekly: &Json) -> (n: u32)
    ensures
        n == spec_weekly_scrobbles(*weekly),
{
    let chart = crate::json::get_items(
        crate::json::get_member(crate::json::get_member(Some(weekly), "weeklytrackchart"), "track"),
    );
    match chart {
        Some(tracks) => {
            let mut sum: u32 = 0;
            let mut i: usize = 0;
            while i < tracks.len()
                invariant
                    i <= tracks@.len(),
                    sum as nat == total_plays(tracks@.take(i as int)) % 0x1_0000_0000,
                decreases tracks.len() - i,
            {
                let p = plays_of(&tracks[i]);
                let ghost prev = total_plays(tracks@.take(i as int));
                proof {
                    let t = tracks@.take(i + 1);
                    assert(t.drop_last() =~= tracks@.take(i as int));
                    assert(t.last() == tracks@[i as int]);
                    assert(total_plays(t) == prev + p);
                    vstd::arithmetic::div_mod::lemma_add_mod_noop(
                        prev as int,
                        p as int,
                        0x1_0000_0000,
                    );
                    vstd::arithmetic::div_mod::lemma_mod_twice(p as int, 0x1_0000_0000);
                    vstd::arithmetic::div_mod::lemma_small_mod(p as nat, 0x1_0000_0000);
                }
                let wide: u64 = (sum as u64 + p as u64) % 0x1_0000_0000;
                sum = wide as u32;
                i = i + 1;
            }
            assert(tracks@.take(tracks.len() as int) =~= tracks@);
            sum
        },
        None => 0,
    }
}

/// Reads the six answers into the dashboard's figures. Gives `None` when the
/// user has no statistics: no scrobbles last week and no top track, artist or
/// album.
pub fn dashboard_stats(cfg: &Config, r: &DashboardResponses) -> (res: Option<DashboardStats>)
    ensures
        res is None <==> has_no_stats(*r),
        res matches Some(s) ==> s@ == spec_stats(cfg@, *r),
{
    let username = username_of(cfg, &r.user_info);
    let total_scrobbles = super::text_of_member_at(&r.user_info, "user", "playcount");
    let top_track = top_track_of(&r.top_tracks);
    let top_artist = top_artist_of(&r.top_artists);
    let top_album = top_album_of(&r.top_albums);
    let cover_image_url = cover_url_of(&r.top_albums);
    let now_playing = now_playing_of(&r.recent);
    let weekly_scrobbles = weekly_scrobbles_of(&r.weekly);
    let none = no_stats_text();
    if weekly_scrobbles == 0 && top_track == none && top_artist == none && top_album == none {
        return None;
    }
    Some(
        DashboardStats {
            username,
            weekly_scrobbles,
            top_track,
            top_artist,
            top_album,
            now_playing,
            total_scrobbles,
            cover_image_url,
        },
    )
}

/// The lines that show the figures, one per figure.
pub open spec fn stats_lines(s: DashboardStatsView) -> Seq<Seq<char>> {
    seq![
        "user: "@ + s.username,
        "scrobbles this week: "@ + decimal(s.weekly_scrobbles as nat),
        "top track: "@ + s.top_track,
        "top artist: "@ + s.top_artist,
        "top album: "@ + s.top_album,
        "now playing: "@ + s.now_playing,
        "total scrobbles: "@ + s.total_scrobbles,
    ]
}

/// Builds the lines that show the figures.
pub fn stats_text(s: &DashboardStats) -> (lines: Vec<String>)
    ensures
        texts(lines@) == stats_lines(s@),
{
    let mut lines: Vec<String> = Vec::new();
    lines.push(String::from_str("user: ").concat(s.username.as_str()));
    let n = crate::text::decimal_string(s.weekly_scrobbles as u64);
    lines.push(String::from_str("scrobbles this week: ").concat(n.as_str()));
    lines.push(String::from_str("top track: ").concat(s.top_track.as_str()));
    lines.push(String::from_str("top artist: ").concat(s.top_artist.as_str()));
    lines.push(String::from_str("top album: ").concat(s.top_album.as_str()));
    lines.push(String::from_str("now playing: ").concat(s.now_playing.as_str()));
    lines.push(String::from_str("total scrobbles: ").concat(s.total_scrobbles.as_str()));
    assert(texts(lines@) =~= stats_lines(s@));
    lines
}

} // verus!
