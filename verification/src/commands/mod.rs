//! The three requests the client makes to the web API: the dashboard's figures,
//! the recent tracks and the track search. Each module builds the request's
//! address and reads the answer; sending it is left to the caller.

pub mod dashboard;
pub mod recent_tracks;
pub mod search;

use vstd::prelude::*;
use crate::config::{Config, ConfigView};
use crate::json::{Json, or_unknown, text, get, text_at};

verus! {

/// The address of the web API's method `method` for the configured user, with
/// JSON answers and the query parameters `extra` after them.
pub open spec fn user_method_url(method: Seq<char>, cfg: ConfigView, extra: Seq<char>) -> Seq<char> {
    "https://ws.audioscrobbler.com/2.0/?method="@ + method + "&user="@ + cfg.username
        + "&api_key="@ + cfg.api_key + "&format=json"@ + extra
}

/// Builds the address `user_method_url` describes.
pub fn user_method_address(method: &str, cfg: &Config, extra: &str) -> (s: String)
    ensures
        s@ == user_method_url(method@, cfg@, extra@),
{
    let s = String::from_str("https://ws.audioscrobbler.com/2.0/?method=");
    let s = s.concat(method);
    let s = s.concat("&user=");
    let s = s.concat(cfg.username.as_str());
    let s = s.concat("&api_key=");
    let s = s.concat(cfg.api_key.as_str());
    let s = s.concat("&format=json");
    s.concat(extra)
}

/// `name - artist` for a track or album entry: its `name`, then the text at
/// `artist[artist_key]`, each `?` when missing.
pub open spec fn name_and_artist(entry: Json, artist_key: Seq<char>) -> Seq<char> {
    or_unknown(text(get(Some(entry), "name"@))) + " - "@ + or_unknown(
        text_at(entry, "artist"@, artist_key),
    )
}

/// Builds the text `name_and_artist` describes.
pub fn name_and_artist_text(entry: &Json, artist_key: &str) -> (s: String)
    ensures
        s@ == name_and_artist(*entry, artist_key@),
{
    let name = text_of_member(entry, "name");
    let artist = crate::json::text_or_unknown(entry, "artist", artist_key);
    let s = name.concat(" - ");
    s.concat(artist.as_str())
}

/// The text of member `key` of `entry`, or `?` when it is not a string.
pub fn text_of_member(entry: &Json, key: &str) -> (s: String)
    ensures
        s@ == or_unknown(text(get(Some(*entry), key@))),
{
    match crate::json::get_text(crate::json::get_member(Some(entry), key)) {
        Some(t) => String::from_str(t),
        None => {
            proof {
                reveal_strlit("?");
            }
            String::from_str("?")
        },
    }
}

/// The text at `entry[k1][k2]`, or `?` when it is not a string.
pub fn text_of_member_at(entry: &Json, k1: &str, k2: &str) -> (s: String)
    ensures
        s@ == or_unknown(text_at(*entry, k1@, k2@)),
{
    crate::json::text_or_unknown(entry, k1, k2)
}

/// The text of each string of `lines`.
pub open spec fn texts(lines: Seq<String>) -> Seq<Seq<char>> {
    lines.map_values(|l: String| l@)
}

} // verus!
