//! The user's most recent tracks.

use vstd::prelude::*;
use crate::config::{Config, ConfigView};
use crate::json::{Json, get, items, text_at};
use crate::text::decimal;
use super::{user_method_url, name_and_artist, texts};

verus! {

/// The address asking for the user's `limit` most recent tracks.
pub open spec fn recent_tracks_url(cfg: ConfigView, limit: u32) -> Seq<char> {
    user_method_url("user.getrecenttracks"@, cfg, "&limit="@ + decimal(limit as nat))
}

/// Builds the address asking for the user's `limit` most recent tracks.
pub fn recent_tracks_address(cfg: &Config, limit: u32) -> (s: String)
    ensures
        s@ == recent_tracks_url(cfg@, limit),
{
    let n = crate::text::decimal_string(limit as u64);
    let extra = String::from_str("&limit=").concat(n.as_str());
    super::user_method_address("user.getrecenttracks", cfg, extra.as_str())
}

/// Whether a recent track is the one playing now: its `@attr.nowplaying` is
/// the string `true`.
pub open spec fn is_now_playing(track: Json) -> bool {
    text_at(track, "@attr"@, "nowplaying"@) == Some("true"@)
}

/// The line shown for one recent track.
pub open spec fn recent_line(track: Json) -> Seq<char> {
    if is_now_playing(track) {
        "> "@ + name_and_artist(track, "#text"@) + " (now playing)"@
    } else {
        "    "@ + name_and_artist(track, "#text"@)
    }
}

/// The tracks of an answer: `recenttracks.track`, when it is an array.
pub open spec fn recent_entries(answer: Json) -> Seq<Json> {
    match items(get(get(Some(answer), "recenttracks"@), "track"@)) {
        Some(ts) => ts,
        None => Seq::empty(),
    }
}

/// The lines shown for an answer: one per track, in order.
pub open spec fn recent_lines(answer: Json) -> Seq<Seq<char>> {
    recent_entries(answer).map_values(|t: Json| recent_line(t))
}

/// Whether a track is playing now, as `is_now_playing` says.
pub fn now_playing(track: &Json) -> (r: bool)
    ensures
        r == is_now_playing(*track),
{
    let flag = crate::json::get_text(
        crate::json::get_member(crate::json::get_member(Some(track), "@attr"), "nowplaying"),
    );
    match flag {
        Some(f) => crate::text::text_eq(f, "true"),
        None => false,
    }
}

/// The line shown for one recent track.
pub fn recent_track_line(track: &Json) -> (s: String)
    ensures
        s@ == recent_line(*track),
{
    let pair = super::name_and_artist_text(track, "#text");
    if now_playing(track) {
        let s = String::from_str("> ").concat(pair.as_str());
        s.concat(" (now playing)")
    } else {
        String::from_str("    ").concat(pair.as_str())
    }
}

/// Reads an answer to the recent-tracks request: one line per track, the one
/// playing now marked with `> `; no lines when the answer holds no track list.
pub fn track_lines(answer: &Json) -> (lines: Vec<String>)
    ensures
        texts(lines@) == recent_lines(*answer),
{
    let mut lines: Vec<String> = Vec::new();
    let tracks = crate::json::get_items(
        crate::json::get_member(crate::json::get_member(Some(answer), "recenttracks"), "track"),
    );
    let ghost entries = recent_entries(*answer);
    match tracks {
        Some(arr) => {
            let mut i: usize = 0;
            while i < arr.len()
                invariant
                    entries == arr@,
                    i <= arr@.len(),
                    texts(lines@) == entries.take(i as int).map_values(|t: Json| recent_line(t)),
                decreases arr.len() - i,
            {
                let line = recent_track_line(&arr[i]);
                let ghost before = lines@;
                lines.push(line);
                proof {
                    assert(texts(lines@) =~= texts(before).push(line@));
                    assert(entries.take(i + 1).map_values(|t: Json| recent_line(t))
                        =~= entries.take(i as int).map_values(|t: Json| recent_line(t)).push(
                        recent_line(entries[i as int]),
                    ));
                }
                i = i + 1;
            }
            assert(entries.take(arr.len() as int) =~= entries);
        },
        None => {
            assert(texts(lines@) =~= recent_lines(*answer));
        },
    }
    lines
}

} // verus!
