//! Properties of the client that hold across calls and for all inputs.

use vstd::prelude::*;
use crate::app::{AppView, Key, Screen, SettingsField, key_step, well_formed, searched_step};
use crate::colors::{scaled, boosted, saturated, to_channel, luma};
use crate::commands::search::{percent_encoded, encode_byte, is_unreserved};
use crate::commands::recent_tracks::{recent_lines, recent_entries, is_now_playing};
use crate::palette::{fuzzy_match, is_embedding, matching_commands, all_commands, label};
use crate::text::{ascii_lower, ascii_lower_seq, ascii_upper, ascii_upper_seq};
use crate::view::spec_masked_api_key;

verus! {

/// The empty query matches every candidate.
pub proof fn lemma_empty_query_matches(candidate: Seq<char>)
    ensures
        fuzzy_match(Seq::empty(), candidate),
{
    let f = |i: int| i;
    assert(is_embedding(f, ascii_lower_seq(Seq::<char>::empty()), ascii_lower_seq(candidate)));
}

/// Every text matches itself.
pub proof fn lemma_text_matches_itself(t: Seq<char>)
    ensures
        fuzzy_match(t, t),
{
    let f = |i: int| i;
    assert(is_embedding(f, ascii_lower_seq(t), ascii_lower_seq(t)));
}

/// Lower-casing a character twice is lower-casing it once.
proof fn lemma_ascii_lower_idempotent(c: char)
    ensures
        ascii_lower(ascii_lower(c)) == ascii_lower(c),
{
    if 'A' <= c && c <= 'Z' {
        let v = (c as u32) + 32;
        assert(97 <= v <= 122);
        assert((v as char) as u32 == v);
    }
}

/// Matching ignores the case of the query: a query and its lower-cased form
/// match the same candidates.
pub proof fn lemma_match_ignores_query_case(query: Seq<char>, candidate: Seq<char>)
    ensures
        fuzzy_match(query, candidate) == fuzzy_match(ascii_lower_seq(query), candidate),
{
    assert forall|i: int| 0 <= i < query.len() implies ascii_lower(ascii_lower(query[i]))
        == ascii_lower(query[i]) by {
        lemma_ascii_lower_idempotent(query[i]);
    }
    assert(ascii_lower_seq(ascii_lower_seq(query)) =~= ascii_lower_seq(query));
}

/// Lower-casing an upper-cased character is lower-casing it.
proof fn lemma_ascii_lower_of_upper(c: char)
    ensures
        ascii_lower(ascii_upper(c)) == ascii_lower(c),
{
    if 'a' <= c && c <= 'z' {
        let v = (c as u32) - 32;
        assert(65 <= v <= 90);
        assert((v as char) as u32 == v);
        assert((((v + 32) as u32) as char) == c);
    }
}

/// Matching ignores the case of both texts: upper-casing the query and
/// lower-casing the candidate match the same way.
pub proof fn lemma_match_ignores_case(query: Seq<char>, candidate: Seq<char>)
    ensures
        fuzzy_match(query, candidate) == fuzzy_match(
            ascii_upper_seq(query),
            ascii_lower_seq(candidate),
        ),
{
    assert forall|i: int| 0 <= i < query.len() implies ascii_lower(ascii_upper(query[i]))
        == ascii_lower(query[i]) by {
        lemma_ascii_lower_of_upper(query[i]);
    }
    assert forall|i: int| 0 <= i < candidate.len() implies ascii_lower(ascii_lower(candidate[i]))
        == ascii_lower(candidate[i]) by {
        lemma_ascii_lower_idempotent(candidate[i]);
    }
    assert(ascii_lower_seq(ascii_upper_seq(query)) =~= ascii_lower_seq(query));
    assert(ascii_lower_seq(ascii_lower_seq(candidate)) =~= ascii_lower_seq(candidate));
}

/// A query that matches keeps matching when its end is cut off.
pub proof fn lemma_shorter_query_matches(query: Seq<char>, rest: Seq<char>, candidate: Seq<char>)
    requires
        fuzzy_match(query + rest, candidate),
    ensures
        fuzzy_match(query, candidate),
{
    let q = ascii_lower_seq(query + rest);
    let c = ascii_lower_seq(candidate);
    let f = choose|f: spec_fn(int) -> int| #[trigger] is_embedding(f, q, c);
    assert forall|i: int| 0 <= i < query.len() implies ascii_lower_seq(query)[i] == q[i] by {
        assert((query + rest)[i] == query[i]);
    }
    assert(is_embedding(f, ascii_lower_seq(query), c));
}

/// A candidate that matches keeps matching with text added before or after.
pub proof fn lemma_longer_candidate_matches(query: Seq<char>, candidate: Seq<char>, extra: Seq<char>)
    requires
        fuzzy_match(query, candidate),
    ensures
        fuzzy_match(query, candidate + extra),
        fuzzy_match(query, extra + candidate),
{
    let q = ascii_lower_seq(query);
    let c = ascii_lower_seq(candidate);
    let f = choose|f: spec_fn(int) -> int| #[trigger] is_embedding(f, q, c);
    let after = ascii_lower_seq(candidate + extra);
    let before = ascii_lower_seq(extra + candidate);
    assert forall|i: int| 0 <= i < q.len() implies 0 <= #[trigger] f(i) < after.len() && after[f(i)]
        == q[i] by {
        assert((candidate + extra)[f(i)] == candidate[f(i)]);
    }
    assert(is_embedding(f, q, after));
    let n = extra.len() as int;
    let g = |i: int| f(i) + n;
    assert forall|i: int| 0 <= i < q.len() implies 0 <= #[trigger] g(i) < before.len() && before[g(i)]
        == q[i] by {
        assert((extra + candidate)[f(i) + n] == candidate[f(i)]);
    }
    assert forall|i: int, j: int| 0 <= i < j < q.len() implies #[trigger] g(i) < #[trigger] g(j) by {
        assert(f(i) < f(j));
    }
    assert(is_embedding(g, q, before));
}

/// With nothing typed, the palette lists every command.
pub proof fn lemma_empty_query_lists_all()
    ensures
        matching_commands(Seq::empty()) == all_commands(),
{
    let p = |c: crate::palette::Command| fuzzy_match(Seq::empty(), label(c));
    assert forall|c: crate::palette::Command| #[trigger] p(c) by {
        lemma_empty_query_matches(label(c));
    }
    reveal_with_fuel(Seq::<crate::palette::Command>::filter, 4);
    assert(all_commands().filter(p) =~= all_commands());
}

/// Pressing Tab three times on a browsing view comes back to the same state.
pub proof fn lemma_tab_cycles(s: AppView)
    requires
        well_formed(s),
        !s.command_palette_open,
        s.screen != Screen::Settings,
    ensures
        key_step(key_step(key_step(s, Key::Tab).0, Key::Tab).0, Key::Tab).0 == s,
{
    let s1 = key_step(s, Key::Tab).0;
    let s2 = key_step(s1, Key::Tab).0;
    let s3 = key_step(s2, Key::Tab).0;
    assert(s3 =~= s);
}

/// Opening the palette with `s` and closing it with Esc leaves the state as
/// it was.
pub proof fn lemma_palette_open_close(s: AppView)
    requires
        well_formed(s),
        !s.command_palette_open,
        s.screen != Screen::Settings,
    ensures
        key_step(key_step(s, Key::Char('s')).0, Key::Esc).0 == s,
{
    let s1 = key_step(s, Key::Char('s')).0;
    assert(key_step(s1, Key::Esc).0 =~= s);
}

/// Enter in the palette always closes it.
pub proof fn lemma_palette_enter_closes(s: AppView)
    requires
        s.command_palette_open,
    ensures
        !key_step(s, Key::Enter).0.command_palette_open,
        key_step(s, Key::Enter).0.command_input.len() == 0,
{
}

/// On the search view, typing a character (other than the `q` and `s`
/// bindings) and deleting it leaves the state as it was.
pub proof fn lemma_search_type_then_delete(s: AppView, c: char)
    requires
        !s.command_palette_open,
        s.screen == Screen::Search,
        c != 'q',
        c != 's',
    ensures
        key_step(key_step(s, Key::Char(c)).0, Key::Backspace).0 == s,
{
    let s1 = key_step(s, Key::Char(c)).0;
    assert(s1.search_input.drop_last() =~= s.search_input);
    assert(key_step(s1, Key::Backspace).0 =~= s);
}

/// On the settings view, switching the field twice comes back to it, and no
/// key but a successful save changes the settings in use.
pub proof fn lemma_settings_keys(s: AppView, key: Key)
    requires
        !s.command_palette_open,
        s.screen == Screen::Settings,
    ensures
        key_step(key_step(s, Key::Tab).0, Key::Tab).0 == s,
        key_step(s, key).0.config == s.config,
        key == Key::Enter ==> key_step(s, key) == (s, crate::app::Action::SaveSettings),
{
    let s1 = key_step(s, Key::Tab).0;
    assert(key_step(s1, Key::Tab).0 =~= s);
}

/// The background colour is never brighter than the pixel.
pub proof fn lemma_darken_never_brightens(v: u8)
    ensures
        scaled(v, 45) <= v,
{
}

/// A grey pixel (all three channels equal) gets a grey foreground and a grey
/// background; the foreground grey is the pixel's level brightened by 1.08,
/// saturation leaving a grey unchanged.
pub proof fn lemma_grey_stays_grey(c: [u8; 3])
    requires
        c[0] == c[1],
        c[1] == c[2],
    ensures
        boosted(c, 0) == scaled(c[0], 108),
        boosted(c, 1) == scaled(c[0], 108),
        boosted(c, 2) == scaled(c[0], 108),
        scaled(c[0], 45) == scaled(c[1], 45),
        scaled(c[1], 45) == scaled(c[2], 45),
{
    crate::colors::lemma_grey_saturation(c[0]);
    assert(c == [c[0], c[0], c[0]]);
}

/// Scaling a channel keeps the order of channels.
proof fn lemma_scaled_monotone(u: u8, v: u8, percent: nat)
    requires
        u <= v,
    ensures
        scaled(u, percent) <= scaled(v, percent),
{
    assert(u * percent <= v * percent) by (nonlinear_arith)
        requires
            u <= v,
    ;
    vstd::arithmetic::div_mod::lemma_div_is_ordered(
        (u * percent + 50) as int,
        (v * percent + 50) as int,
        100,
    );
}

/// Both colours keep the order of a pixel's channels: a channel no brighter
/// than another stays no brighter in the foreground and in the background.
pub proof fn lemma_colors_keep_channel_order(c: [u8; 3], i: int, j: int)
    requires
        0 <= i < 3,
        0 <= j < 3,
        c[i] <= c[j],
    ensures
        boosted(c, i) <= boosted(c, j),
        scaled(c[i], 45) <= scaled(c[j], 45),
{
    crate::colors::lemma_saturated_monotone(c[i], c[j], luma(c));
    lemma_scaled_monotone(
        to_channel(saturated(c[i], luma(c))),
        to_channel(saturated(c[j], luma(c))),
        108,
    );
    lemma_scaled_monotone(c[i], c[j], 45);
}

/// Whether a character may stand in a query parameter without ending it:
/// ASCII letters, digits, `-`, `.`, `_`, `~` and `%`.
pub open spec fn is_parameter_safe(c: char) -> bool {
    ('0' <= c && c <= '9') || ('A' <= c && c <= 'Z') || ('a' <= c && c <= 'z') || c == '-'
        || c == '.' || c == '_' || c == '~' || c == '%'
}

/// A percent-encoded query holds only characters that cannot end the query
/// parameter: no `&`, `=`, `#`, space or anything beyond ASCII.
pub proof fn lemma_encoding_is_parameter_safe(bytes: Seq<u8>)
    ensures
        forall|i: int|
            0 <= i < percent_encoded(bytes).len() ==> #[trigger] is_parameter_safe(
                percent_encoded(bytes)[i],
            ),
    decreases bytes.len(),
{
    if bytes.len() > 0 {
        lemma_encoding_is_parameter_safe(bytes.drop_first());
        let b = bytes[0];
        let head = encode_byte(b);
        assert forall|i: int| 0 <= i < head.len() implies #[trigger] is_parameter_safe(head[i]) by {
            if is_unreserved(b) {
                assert(((b as char) as u32) == b as u32);
            } else {
                let hi = b / 16;
                let lo = b % 16;
                assert(((hi + 48) as char) as u32 == hi + 48);
                assert(((hi + 55) as char) as u32 == hi + 55);
                assert(((lo + 48) as char) as u32 == lo + 48);
                assert(((lo + 55) as char) as u32 == lo + 55);
            }
        }
        let rest = percent_encoded(bytes.drop_first());
        assert(percent_encoded(bytes) == head + rest);
        assert forall|i: int| 0 <= i < percent_encoded(bytes).len() implies #[trigger] is_parameter_safe(
            percent_encoded(bytes)[i],
        ) by {
            if i < head.len() {
                assert(percent_encoded(bytes)[i] == head[i]);
            } else {
                assert(percent_encoded(bytes)[i] == rest[i - head.len()]);
            }
        }
    }
}

/// The recent-tracks view shows one line per track, and a line starts with
/// `> ` exactly when its track is playing now.
pub proof fn lemma_recent_lines_mark_now_playing(answer: crate::json::Json)
    ensures
        recent_lines(answer).len() == recent_entries(answer).len(),
        forall|i: int|
            0 <= i < recent_entries(answer).len() ==> (#[trigger] recent_lines(answer)[i].take(2)
                == "> "@ <==> is_now_playing(recent_entries(answer)[i])),
{
    reveal_strlit("> ");
    reveal_strlit("    ");
    assert forall|i: int| 0 <= i < recent_entries(answer).len() implies (
    #[trigger] recent_lines(answer)[i].take(2) == "> "@ <==> is_now_playing(
        recent_entries(answer)[i],
    )) by {
        let t = recent_entries(answer)[i];
        let line = recent_lines(answer)[i];
        if is_now_playing(t) {
            assert(line.take(2) =~= "> "@);
        } else {
            assert(line.take(2)[0] == ' ');
        }
    }
}

/// A cover address, when the dashboard has one, is never empty.
pub proof fn lemma_cover_url_not_empty(top_albums: crate::json::Json)
    ensures
        crate::commands::dashboard::spec_cover_url(top_albums) matches Some(u) ==> u.len() > 0,
{
}

/// The masked key is as long as the key; a key of at most four characters is
/// shown whole; of a longer one, exactly the last four characters show and
/// every other position holds `*`.
pub proof fn lemma_masked_key_shape(key: Seq<char>)
    ensures
        spec_masked_api_key(key).len() == key.len(),
        key.len() <= 4 ==> spec_masked_api_key(key) == key,
        key.len() > 4 ==> forall|i: int|
            0 <= i < key.len() ==> #[trigger] spec_masked_api_key(key)[i] == if i < key.len() - 4 {
                '*'
            } else {
                key[i]
            },
{
}

/// In the open palette, Down moves the selection one match further, stopping
/// at the last match, and Up moves it one back, stopping at the first; the
/// palette stays open on the same input.
pub proof fn lemma_palette_moves_one_step(s: AppView)
    requires
        s.command_palette_open,
    ensures
        matching_commands(s.command_input).len() > 0 ==> key_step(s, Key::Down).0.command_selected
            == if s.command_selected + 1 <= matching_commands(s.command_input).len() - 1 {
            s.command_selected + 1
        } else {
            matching_commands(s.command_input).len() - 1
        },
        matching_commands(s.command_input).len() == 0 ==> key_step(s, Key::Down).0.command_selected
            == s.command_selected,
        key_step(s, Key::Up).0.command_selected == if s.command_selected > 0 {
            s.command_selected - 1
        } else {
            0
        },
        key_step(s, Key::Down).0.command_palette_open,
        key_step(s, Key::Down).0.command_input == s.command_input,
        key_step(s, Key::Up).0.command_palette_open,
        key_step(s, Key::Up).0.command_input == s.command_input,
{
}

/// Enter in the palette runs the selected match: choosing the settings
/// command opens the settings form filled with the settings in use, whatever
/// the form held before, with the user name field active.
pub proof fn lemma_settings_command_loads_config(s: AppView)
    requires
        s.command_palette_open,
        s.command_selected < matching_commands(s.command_input).len(),
        matching_commands(s.command_input)[s.command_selected as int]
            == crate::palette::Command::Settings,
    ensures
        key_step(s, Key::Enter).0.screen == Screen::Settings,
        key_step(s, Key::Enter).0.settings_username == s.config.username,
        key_step(s, Key::Enter).0.settings_api_key == s.config.api_key,
        key_step(s, Key::Enter).0.settings_field == SettingsField::Username,
        key_step(s, Key::Enter).0.config == s.config,
        !key_step(s, Key::Enter).0.command_palette_open,
{
}

/// Enter in the palette runs the selected match: the search command opens an
/// empty search view, the now-playing command the recent tracks.
pub proof fn lemma_palette_runs_selected(s: AppView)
    requires
        s.command_palette_open,
        s.command_selected < matching_commands(s.command_input).len(),
    ensures
        matching_commands(s.command_input)[s.command_selected as int]
            == crate::palette::Command::SearchSong ==> key_step(s, Key::Enter).0.screen
            == Screen::Search && key_step(s, Key::Enter).0.search_input.len() == 0
            && key_step(s, Key::Enter).0.search_results.len() == 0,
        matching_commands(s.command_input)[s.command_selected as int]
            == crate::palette::Command::NowPlaying ==> key_step(s, Key::Enter).0.screen
            == Screen::RecentTracks,
{
}

/// On the settings form, Backspace deletes the last character of the field
/// being edited (nothing when it is empty) and leaves the other field alone;
/// typing appends to the field being edited only.
pub proof fn lemma_settings_edits_active_field(s: AppView, c: char)
    requires
        !s.command_palette_open,
        s.screen == Screen::Settings,
    ensures
        s.settings_field == SettingsField::Username ==> {
            let b = key_step(s, Key::Backspace).0;
            let t = key_step(s, Key::Char(c)).0;
            &&& b.settings_api_key == s.settings_api_key
            &&& s.settings_username.len() > 0 ==> b.settings_username == s.settings_username.drop_last()
            &&& s.settings_username.len() == 0 ==> b.settings_username == s.settings_username
            &&& t.settings_api_key == s.settings_api_key
            &&& t.settings_username == s.settings_username.push(c)
        },
        s.settings_field == SettingsField::ApiKey ==> {
            let b = key_step(s, Key::Backspace).0;
            let t = key_step(s, Key::Char(c)).0;
            &&& b.settings_username == s.settings_username
            &&& s.settings_api_key.len() > 0 ==> b.settings_api_key == s.settings_api_key.drop_last()
            &&& s.settings_api_key.len() == 0 ==> b.settings_api_key == s.settings_api_key
            &&& t.settings_username == s.settings_username
            &&& t.settings_api_key == s.settings_api_key.push(c)
        },
        key_step(key_step(s, Key::Char(c)).0, Key::Backspace).0 == s,
{
    let t = key_step(s, Key::Char(c)).0;
    if s.settings_field == SettingsField::Username {
        assert(t.settings_username.drop_last() =~= s.settings_username);
    } else {
        assert(t.settings_api_key.drop_last() =~= s.settings_api_key);
    }
    assert(key_step(t, Key::Backspace).0 =~= s);
}

/// A finished search shows exactly its own results, whatever was shown
/// before, and the status counts them and quotes the query.
pub proof fn lemma_search_shows_its_results(s: AppView, t: AppView, results: Seq<Seq<char>>)
    ensures
        searched_step(s, results).search_results == results,
        searched_step(s, results).search_results == searched_step(t, results).search_results,
        searched_step(s, results).status == crate::text::decimal(results.len()) + " results for '"@
            + s.search_input + "'"@,
        searched_step(s, results).search_input == s.search_input,
        searched_step(s, results).screen == s.screen,
        searched_step(s, results).config == s.config,
{
}

/// The dashboard reports no statistics only for a user without any: it has
/// figures as soon as last week has scrobbles, or there is a top track, a
/// top album, or a top artist (named other than the no-statistics text);
/// with none of them it has none.
pub proof fn lemma_no_stats_only_without_figures(r: crate::commands::dashboard::DashboardResponses)
    ensures
        crate::commands::dashboard::spec_weekly_scrobbles(r.weekly) != 0
            ==> !crate::commands::dashboard::has_no_stats(r),
        crate::commands::dashboard::chart_top(r.top_tracks, "toptracks"@, "track"@) is Some
            ==> !crate::commands::dashboard::has_no_stats(r),
        crate::commands::dashboard::chart_top(r.top_albums, "topalbums"@, "album"@) is Some
            ==> !crate::commands::dashboard::has_no_stats(r),
        (crate::commands::dashboard::chart_top(r.top_artists, "topartists"@, "artist"@) matches Some(
            a,
        ) && crate::json::text(crate::json::get(Some(a), "name"@)) != Some(
            crate::commands::dashboard::no_stats(),
        )) ==> !crate::commands::dashboard::has_no_stats(r),
        (crate::commands::dashboard::spec_weekly_scrobbles(r.weekly) == 0
            && crate::commands::dashboard::chart_top(r.top_tracks, "toptracks"@, "track"@) is None
            && crate::commands::dashboard::chart_top(r.top_albums, "topalbums"@, "album"@) is None
            && crate::commands::dashboard::chart_top(r.top_artists, "topartists"@, "artist"@) is None)
            ==> crate::commands::dashboard::has_no_stats(r),
{
    reveal_strlit("No user stats");
    reveal_strlit(" - ");
    reveal_strlit("?");
    match crate::commands::dashboard::chart_top(r.top_tracks, "toptracks"@, "track"@) {
        Some(t) => lemma_pair_is_not_no_stats(t),
        None => {},
    }
    match crate::commands::dashboard::chart_top(r.top_albums, "topalbums"@, "album"@) {
        Some(a) => lemma_pair_is_not_no_stats(a),
        None => {},
    }
    match crate::commands::dashboard::chart_top(r.top_artists, "topartists"@, "artist"@) {
        Some(a) => {
            if crate::json::text(crate::json::get(Some(a), "name"@)) is None {
                assert(crate::commands::dashboard::spec_top_artist(r.top_artists) =~= seq!['?']);
            }
        },
        None => {},
    }
}

/// A `name - artist` text is never the no-statistics text: it holds a `-`.
proof fn lemma_pair_is_not_no_stats(entry: crate::json::Json)
    ensures
        crate::commands::name_and_artist(entry, "name"@) != crate::commands::dashboard::no_stats(),
{
    reveal_strlit("No user stats");
    reveal_strlit(" - ");
    let a = crate::json::or_unknown(crate::json::text(crate::json::get(Some(entry), "name"@)));
    let b = crate::json::or_unknown(crate::json::text_at(entry, "artist"@, "name"@));
    let p = crate::commands::name_and_artist(entry, "name"@);
    assert(p == a + " - "@ + b);
    assert(p[a.len() as int + 1] == '-');
    let n = crate::commands::dashboard::no_stats();
    if p == n {
        assert(forall|i: int| 0 <= i < n.len() ==> n[i] != '-');
        assert(n[a.len() as int + 1] == '-');
    }
}

} // verus!
