//! The command palette: its commands, the fuzzy matching that filters them by
//! what the user typed, and the lines it shows.

use vstd::prelude::*;
use crate::text::{ascii_lower_seq, to_ascii_lower};

verus! {

/// Whether `f` places the characters of `q`, in order, at increasing positions
/// of `c` that hold them.
pub open spec fn is_embedding(f: spec_fn(int) -> int, q: Seq<char>, c: Seq<char>) -> bool {
    &&& forall|i: int| 0 <= i < q.len() ==> 0 <= #[trigger] f(i) < c.len() && c[f(i)] == q[i]
    &&& forall|i: int, j: int| 0 <= i < j < q.len() ==> #[trigger] f(i) < #[trigger] f(j)
}

/// Whether `q` is a subsequence of `c`: its characters occur in `c` in the
/// same order, not necessarily next to each other.
pub open spec fn embeds(q: Seq<char>, c: Seq<char>) -> bool {
    exists|f: spec_fn(int) -> int| #[trigger] is_embedding(f, q, c)
}

/// Fuzzy matching of a query against a candidate: ignoring ASCII case, the
/// query's characters occur in the candidate in order. The empty query
/// matches everything.
pub open spec fn fuzzy_match(query: Seq<char>, candidate: Seq<char>) -> bool {
    embeds(ascii_lower_seq(query), ascii_lower_seq(candidate))
}

/// An embedding of `q` in a prefix of `c` is one in `c`.
proof fn lemma_embeds_longer(q: Seq<char>, c: Seq<char>, i: int)
    requires
        0 <= i <= c.len(),
        embeds(q, c.take(i)),
    ensures
        embeds(q, c),
{
    let f = choose|f: spec_fn(int) -> int| #[trigger] is_embedding(f, q, c.take(i));
    assert(is_embedding(f, q, c));
}

/// An embedding of `q` gives one of each prefix of `q`.
proof fn lemma_embeds_prefix(q: Seq<char>, c: Seq<char>, k: int)
    requires
        0 <= k <= q.len(),
        embeds(q, c),
    ensures
        embeds(q.take(k), c),
{
    let f = choose|f: spec_fn(int) -> int| #[trigger] is_embedding(f, q, c);
    assert(is_embedding(f, q.take(k), c));
}

/// Extending an embedding of `q[..k]` in `c[..i]` by the match `c[i] == q[k]`.
proof fn lemma_embeds_step(q: Seq<char>, c: Seq<char>, k: int, i: int)
    requires
        0 <= k < q.len(),
        0 <= i < c.len(),
        c[i] == q[k],
        embeds(q.take(k), c.take(i)),
    ensures
        embeds(q.take(k + 1), c.take(i + 1)),
{
    let f = choose|f: spec_fn(int) -> int| #[trigger] is_embedding(f, q.take(k), c.take(i));
    let g = |j: int| if j == k { i } else { f(j) };
    assert forall|j: int| 0 <= j < q.take(k + 1).len() implies 0 <= #[trigger] g(j) < c.take(
        i + 1,
    ).len() && c.take(i + 1)[g(j)] == q.take(k + 1)[j] by {
        if j < k {
            assert(0 <= f(j) < i);
        }
    }
    assert forall|a: int, b: int| 0 <= a < b < q.take(k + 1).len() implies #[trigger] g(a)
        < #[trigger] g(b) by {
        if b == k {
            assert(0 <= f(a) < i);
        } else {
            assert(f(a) < f(b));
        }
    }
    assert(is_embedding(g, q.take(k + 1), c.take(i + 1)));
}

/// Without a match at `c[i]`, no embedding of `q[..k+1]` reaches into `c[i]`.
proof fn lemma_no_embed_step(q: Seq<char>, c: Seq<char>, k: int, i: int)
    requires
        0 <= k < q.len(),
        0 <= i < c.len(),
        c[i] != q[k],
        !embeds(q.take(k + 1), c.take(i)),
    ensures
        !embeds(q.take(k + 1), c.take(i + 1)),
{
    if embeds(q.take(k + 1), c.take(i + 1)) {
        let f = choose|f: spec_fn(int) -> int| #[trigger] is_embedding(f, q.take(k + 1), c.take(i + 1));
        assert(f(k) < i + 1);
        assert(f(k) != i);
        assert forall|j: int| 0 <= j < q.take(k + 1).len() implies 0 <= #[trigger] f(j) < c.take(
            i,
        ).len() && c.take(i)[f(j)] == q.take(k + 1)[j] by {
            if j < k {
                assert(f(j) < f(k));
            }
        }
        assert(is_embedding(f, q.take(k + 1), c.take(i)));
    }
}

/// After the match `c[i] == q[k]`, no embedding of `q[..k+2]` fits in `c[..i+1]`
/// when none of `q[..k+1]` fits in `c[..i]`.
proof fn lemma_no_embed_after_match(q: Seq<char>, c: Seq<char>, k: int, i: int)
    requires
        0 <= k,
        k + 1 < q.len(),
        0 <= i < c.len(),
        !embeds(q.take(k + 1), c.take(i)),
    ensures
        !embeds(q.take(k + 2), c.take(i + 1)),
{
    if embeds(q.take(k + 2), c.take(i + 1)) {
        let f = choose|f: spec_fn(int) -> int| #[trigger] is_embedding(f, q.take(k + 2), c.take(i + 1));
        assert(f(k) < f(k + 1));
        assert forall|j: int| 0 <= j < q.take(k + 1).len() implies 0 <= #[trigger] f(j) < c.take(
            i,
        ).len() && c.take(i)[f(j)] == q.take(k + 1)[j] by {
            if j < k {
                assert(f(j) < f(k));
            }
            assert(f(k + 1) < i + 1);
        }
        assert(is_embedding(f, q.take(k + 1), c.take(i)));
    }
}

/// Whether `query` fuzzily matches `candidate`, as `fuzzy_match` says: walks
/// the candidate once, advancing in the query at each matching character.
pub fn fuzzy_matches(query: &str, candidate: &str) -> (r: bool)
    ensures
        r == fuzzy_match(query@, candidate@),
{
    let ghost q = ascii_lower_seq(query@);
    let ghost c = ascii_lower_seq(candidate@);
    let qn = query.unicode_len();
    if qn == 0 {
        proof {
            let f = |j: int| j;
            assert(is_embedding(f, q, c));
        }
        return true;
    }
    let cn = candidate.unicode_len();
    let mut k: usize = 0;
    let mut i: usize = 0;
    proof {
        let f = |j: int| j;
        assert(is_embedding(f, q.take(0), c.take(0)));
        if embeds(q.take(1), c.take(0)) {
            let g = choose|g: spec_fn(int) -> int| #[trigger] is_embedding(g, q.take(1), c.take(0));
            assert(q.take(1).len() == 1);
            assert(c.take(0).len() == 0);
            assert(0 <= g(0) < c.take(0).len());
        }
    }
    while i < cn
        invariant
            qn == query@.len(),
            cn == candidate@.len(),
            q == ascii_lower_seq(query@),
            c == ascii_lower_seq(candidate@),
            k < qn,
            i <= cn,
            embeds(q.take(k as int), c.take(i as int)),
            !embeds(q.take(k + 1), c.take(i as int)),
        decreases cn - i,
    {
        let ch = to_ascii_lower(candidate.get_char(i));
        let want = to_ascii_lower(query.get_char(k));
        assert(ch == c[i as int]);
        assert(want == q[k as int]);
        if ch == want {
            proof {
                lemma_embeds_step(q, c, k as int, i as int);
            }
            if k + 1 == qn {
                proof {
                    assert(q.take(qn as int) =~= q);
                    lemma_embeds_longer(q, c, i + 1);
                }
                return true;
            }
            proof {
                lemma_no_embed_after_match(q, c, k as int, i as int);
            }
            k = k + 1;
        } else {
            proof {
                lemma_no_embed_step(q, c, k as int, i as int);
                let f = choose|f: spec_fn(int) -> int| #[trigger] is_embedding(f, q.take(k as int), c.take(i as int));
                assert(is_embedding(f, q.take(k as int), c.take(i + 1)));
            }
        }
        i = i + 1;
    }
    proof {
        assert(c.take(cn as int) =~= c);
        if embeds(q, c) {
            lemma_embeds_prefix(q, c, k + 1);
        }
    }
    false
}

/// A command the palette offers.
#[derive(Clone, Copy, PartialEq, Eq, Structural, Debug)]
pub enum Command {
    NowPlaying,
    SearchSong,
    Settings,
}

/// The name under which the palette lists a command.
pub open spec fn label(c: Command) -> Seq<char> {
    match c {
        Command::NowPlaying => "now playing"@,
        Command::SearchSong => "search song"@,
        Command::Settings => "settings"@,
    }
}

impl Command {
    /// The name under which the palette lists the command.
    pub fn label(&self) -> (s: &'static str)
        ensures
            s@ == label(*self),
    {
        match self {
            Command::NowPlaying => "now playing",
            Command::SearchSong => "search song",
            Command::Settings => "settings",
        }
    }
}

/// The palette's commands, in the order it lists them.
pub open spec fn all_commands() -> Seq<Command> {
    seq![Command::NowPlaying, Command::SearchSong, Command::Settings]
}

/// The palette's commands, in the order it lists them.
pub fn command_items() -> (v: Vec<Command>)
    ensures
        v@ == all_commands(),
{
    let mut v: Vec<Command> = Vec::new();
    v.push(Command::NowPlaying);
    v.push(Command::SearchSong);
    v.push(Command::Settings);
    assert(v@ =~= all_commands());
    v
}

/// The commands whose names the query fuzzily matches, in palette order.
pub open spec fn matching_commands(query: Seq<char>) -> Seq<Command> {
    all_commands().filter(|c: Command| fuzzy_match(query, label(c)))
}

/// The commands whose names the query fuzzily matches, in palette order.
pub fn filtered_commands(query: &str) -> (v: Vec<Command>)
    ensures
        v@ == matching_commands(query@),
{
    let items = command_items();
    let ghost pred = |c: Command| fuzzy_match(query@, label(c));
    let mut v: Vec<Command> = Vec::new();
    let mut i: usize = 0;
    while i < items.len()
        invariant
            items@ == all_commands(),
            i <= items@.len(),
            pred == (|c: Command| fuzzy_match(query@, label(c))),
            v@ == items@.take(i as int).filter(pred),
        decreases items.len() - i,
    {
        let c = items[i];
        proof {
            reveal_with_fuel(Seq::<Command>::filter, 1);
            assert(items@.take(i + 1).drop_last() =~= items@.take(i as int));
        }
        if fuzzy_matches(query, c.label()) {
            v.push(c);
        }
        i = i + 1;
    }
    assert(items@.take(items.len() as int) =~= items@);
    v
}

/// The line the palette shows for its `index`-th match: `> ` before the
/// selected one, one space before the others.
pub open spec fn palette_line(index: int, selected: int, c: Command) -> Seq<char> {
    (if index == selected {
        "> "@
    } else {
        " "@
    }) + label(c)
}

/// The lines the palette shows for a query and a selected position.
pub open spec fn palette_view(query: Seq<char>, selected: int) -> Seq<Seq<char>> {
    matching_commands(query).map(|i: int, c: Command| palette_line(i, selected, c))
}

/// The lines the palette shows for a query and a selected position.
pub fn palette_lines(query: &str, selected: usize) -> (lines: Vec<String>)
    ensures
        lines@.map_values(|l: String| l@) == palette_view(query@, selected as int),
{
    let matches = filtered_commands(query);
    let mut lines: Vec<String> = Vec::new();
    let mut i: usize = 0;
    while i < matches.len()
        invariant
            matches@ == matching_commands(query@),
            i <= matches@.len(),
            lines@.map_values(|l: String| l@) == matches@.take(i as int).map(
                |j: int, c: Command| palette_line(j, selected as int, c),
            ),
        decreases matches.len() - i,
    {
        let prefix = if i == selected {
            String::from_str("> ")
        } else {
            String::from_str(" ")
        };
        let line = prefix.concat(matches[i].label());
        let ghost before = lines@;
        lines.push(line);
        proof {
            assert(lines@.map_values(|l: String| l@) =~= before.map_values(|l: String| l@).push(
                line@,
            ));
            assert(matches@.take(i + 1).map(|j: int, c: Command| palette_line(j, selected as int, c))
                =~= matches@.take(i as int).map(
                |j: int, c: Command| palette_line(j, selected as int, c),
            ).push(palette_line(i as int, selected as int, matches@[i as int])));
        }
        i = i + 1;
    }
    assert(matches@.take(matches.len() as int) =~= matches@);
    lines
}

} // verus!
