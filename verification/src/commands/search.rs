//! Searching tracks by title.

use vstd::prelude::*;
use vstd::string::*;
use crate::config::{Config, ConfigView};
use crate::json::{Json, get, items, text, or_unknown};
use super::texts;

verus! {

/// Whether a byte passes URL encoding unchanged: ASCII letters, digits and
/// `-`, `.`, `_`, `~`.
pub open spec fn is_unreserved(b: u8) -> bool {
    (48 <= b && b <= 57) || (65 <= b && b <= 90) || (97 <= b && b <= 122) || b == 45 || b == 46
        || b == 95 || b == 126
}

/// The upper-case hexadecimal digit of `d < 16`.
pub open spec fn hex_digit(d: u8) -> char {
    if d < 10 {
        (48 + d) as char
    } else {
        (55 + d) as char
    }
}

/// How one byte is written in a URL: unchanged when unreserved, else `%` and
/// its two upper-case hexadecimal digits.
pub open spec fn encode_byte(b: u8) -> Seq<char> {
    if is_unreserved(b) {
        seq![b as char]
    } else {
        seq!['%', hex_digit(b / 16), hex_digit(b % 16)]
    }
}

/// The percent-encoding of a byte sequence, byte by byte.
pub open spec fn percent_encoded(bytes: Seq<u8>) -> Seq<char>
    decreases bytes.len(),
{
    if bytes.len() == 0 {
        Seq::empty()
    } else {
        encode_byte(bytes[0]) + percent_encoded(bytes.drop_first())
    }
}

/// Percent-encodes the UTF-8 bytes of `data` (`urlencoding::encode`): every
/// byte but ASCII letters, digits and `-`, `.`, `_`, `~` becomes `%` and two
/// upper-case hexadecimal digits.
#[verifier::external_body]
fn url_encode(data: &str) -> (s: String)
    ensures
        s@ == percent_encoded(data.spec_bytes()),
{
    urlencoding::encode(data).into_owned()
}

/// The address of a search for tracks titled like `query`: the query
/// percent-encoded, at most ten results.
pub open spec fn search_url(cfg: ConfigView, query_bytes: Seq<u8>) -> Seq<char> {
    "https://ws.audioscrobbler.com/2.0/?method=track.search&track="@ + percent_encoded(query_bytes)
        + "&api_key="@ + cfg.api_key + "&format=json&limit=10"@
}

/// Builds the address of a search for tracks titled like `query`.
pub fn search_address(cfg: &Config, query: &str) -> (s: String)
    ensures
        s@ == search_url(cfg@, query.spec_bytes()),
{
    let encoded = url_encode(query);
    let s = String::from_str("https://ws.audioscrobbler.com/2.0/?method=track.search&track=");
    let s = s.concat(encoded.as_str());
    let s = s.concat("&api_key=");
    let s = s.concat(cfg.api_key.as_str());
    s.concat("&format=json&limit=10")
}

/// The line shown for one search result: `name - artist (listeners listeners)`,
/// each part `?` when missing.
pub open spec fn result_line(track: Json) -> Seq<char> {
    or_unknown(text(get(Some(track), "name"@))) + " - "@ + or_unknown(
        text(get(Some(track), "artist"@)),
    ) + " ("@ + or_unknown(text(get(Some(track), "listeners"@))) + " listeners)"@
}

/// The results of an answer: `results.trackmatches.track`, when it is an array.
pub open spec fn result_entries(answer: Json) -> Seq<Json> {
    match items(get(get(get(Some(answer), "results"@), "trackmatches"@), "track"@)) {
        Some(ts) => ts,
        None => Seq::empty(),
    }
}

/// The lines shown for an answer: one per result, in order.
pub open spec fn result_lines(answer: Json) -> Seq<Seq<char>> {
    result_entries(answer).map_values(|t: Json| result_line(t))
}

/// The line shown for one search result.
pub fn search_result_line(track: &Json) -> (s: String)
    ensures
        s@ == result_line(*track),
{
    let name = super::text_of_member(track, "name");
    let artist = super::text_of_member(track, "artist");
    let listeners = super::text_of_member(track, "listeners");
    let s = name.concat(" - ");
    let s = s.concat(artist.as_str());
    let s = s.concat(" (");
    let s = s.concat(listeners.as_str());
    s.concat(" listeners)")
}

/// Reads an answer to the search request: one line per result; no lines when
/// the answer holds no result list.
pub fn search_lines(answer: &Json) -> (lines: Vec<String>)
    ensures
        texts(lines@) == result_lines(*answer),
{
    let mut lines: Vec<String> = Vec::new();
    let tracks = crate::json::get_items(
        crate::json::get_member(
            crate::json::get_member(crate::json::get_member(Some(answer), "results"), "trackmatches"),
            "track",
        ),
    );
    let ghost entries = result_entries(*answer);
    match tracks {
        Some(arr) => {
            let mut i: usize = 0;
            while i < arr.len()
                invariant
                    entries == arr@,
                    i <= arr@.len(),
                    texts(lines@) == entries.take(i as int).map_values(|t: Json| result_line(t)),
                decreases arr.len() - i,
            {
                let line = search_result_line(&arr[i]);
                let ghost before = lines@;
                lines.push(line);
                proof {
                    assert(texts(lines@) =~= texts(before).push(line@));
                    assert(entries.take(i + 1).map_values(|t: Json| result_line(t))
                        =~= entries.take(i as int).map_values(|t: Json| result_line(t)).push(
                        result_line(entries[i as int]),
                    ));
                }
                i = i + 1;
            }
            assert(entries.take(arr.len() as int) =~= entries);
        },
        None => {
            assert(texts(lines@) =~= result_lines(*answer));
        },
    }
    lines
}

} // verus!
