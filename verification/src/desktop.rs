//! Desktop-entry parsing and application matching for the launcher
//! buttons: the pure half of looking an application up by name.  Reading
//! directories and files happens outside; this module parses the bytes it
//! is handed and decides which paths match a query.
use vstd::prelude::*;
use vstd::string::*;

use crate::text::contains_str;
use crate::text::find_char;
use crate::text::find_char_from;
use crate::text::find_wsp;
use crate::text::find_wsp_from;
use crate::text::has_prefix;
use crate::text::has_substr;
use crate::text::is_wsp;
use crate::text::is_whitespace_char;
use crate::text::lemma_find_wsp_from;
use crate::text::lower_of;
use crate::text::lowercase;
use crate::text::opt_view;
use crate::text::push_char;
use crate::text::spec_trim;
use crate::text::starts_with_str;
use crate::text::trim_str;

verus! {

/// One parsed desktop entry: the fields the launcher needs.
#[derive(Debug, Clone, PartialEq)]
pub struct DesktopFile {
    /// The `Name=` value, verbatim.
    pub name: String,
    /// The `Exec=` value with every `%`-placeholder dropped.
    pub exec_cmd: String,
    /// The `Icon=` value, when the entry has one.
    pub icon: Option<String>,
}

/// The line starting at `i`: everything up to the next newline, with one
/// trailing carriage return stripped.
pub open spec fn line_at(s: Seq<char>, i: int) -> Seq<char> {
    let raw = s.subrange(i, find_char_from(s, '\n', i));
    if raw.len() > 0 && raw.last() == '\r' {
        raw.drop_last()
    } else {
        raw
    }
}

/// The value of the first line at or after `i` that starts with `prefix`:
/// the rest of that line; `None` when no line does.
pub open spec fn first_value(s: Seq<char>, i: int, prefix: Seq<char>) -> Option<Seq<char>>
    decreases s.len() - i when 0 <= i <= s.len()
{
    let e = find_char_from(s, '\n', i);
    let l = line_at(s, i);
    if has_prefix(l, prefix) {
        Some(l.skip(prefix.len() as int))
    } else if i <= e && e + 1 <= s.len() {
        first_value(s, e + 1, prefix)
    } else {
        None
    }
}

fn find_line_value(s: &str, i: usize, prefix: &str) -> (r: Option<String>)
    requires
        i <= s@.len(),
    ensures
        opt_view(r) == first_value(s@, i as int, prefix@),
    decreases s@.len() - i,
{
    let n = s.unicode_len();
    let e = find_char(s, '\n', i);
    let raw = s.substring_char(i, e);
    let line: &str = if raw.unicode_len() > 0 && raw.get_char(raw.unicode_len() - 1) == '\r' {
        s.substring_char(i, e - 1)
    } else {
        raw
    };
    proof {
        assert(line@ =~= line_at(s@, i as int));
    }
    if starts_with_str(line, prefix) {
        let v = line.substring_char(prefix.unicode_len(), line.unicode_len());
        proof {
            assert(v@ =~= line_at(s@, i as int).skip(prefix@.len() as int));
        }
        Some(String::from_str(v))
    } else if e < n {
        find_line_value(s, e + 1, prefix)
    } else {
        None
    }
}

/// The whitespace-separated tokens of `s` from position `i` on.
pub open spec fn tokens_from(s: Seq<char>, i: int) -> Seq<Seq<char>>
    decreases s.len() - i when 0 <= i <= s.len()
{
    if i >= s.len() {
        Seq::empty()
    } else if is_wsp(s[i]) {
        tokens_from(s, i + 1)
    } else {
        let e = find_wsp_from(s, i);
        if i < e <= s.len() {
            seq![s.subrange(i, e)] + tokens_from(s, e)
        } else {
            seq![s.subrange(i, s.len() as int)]
        }
    }
}

/// The kept tokens joined with single spaces; a token is dropped when it
/// starts with `%`, the desktop-entry placeholder marker.
pub open spec fn join_kept(ts: Seq<Seq<char>>) -> Seq<char>
    decreases ts.len(),
{
    if ts.len() == 0 {
        Seq::empty()
    } else {
        let rest = join_kept(ts.skip(1));
        if ts[0].len() > 0 && ts[0][0] == '%' {
            rest
        } else if rest.len() == 0 {
            ts[0]
        } else {
            ts[0] + seq![' '] + rest
        }
    }
}

/// What cleaning an `Exec=` value yields: its tokens without the
/// `%`-placeholders, joined with single spaces.
pub open spec fn spec_clean_exec(s: Seq<char>) -> Seq<char> {
    join_kept(tokens_from(s, 0))
}

/// The views of a token vector.
pub open spec fn token_views(ts: Seq<String>) -> Seq<Seq<char>> {
    ts.map_values(|t: String| t@)
}

fn collect_tokens(s: &str, i: usize) -> (r: Vec<String>)
    requires
        i <= s@.len(),
    ensures
        token_views(r@) == tokens_from(s@, i as int),
    decreases s@.len() - i,
{
    let n = s.unicode_len();
    if i == n {
        let r: Vec<String> = Vec::new();
        proof {
            assert(token_views(r@) =~= tokens_from(s@, i as int));
        }
        r
    } else if is_whitespace_char(s.get_char(i)) {
        collect_tokens(s, i + 1)
    } else {
        let e = find_wsp(s, i);
        proof {
            lemma_find_wsp_from(s@, i as int);
        }
        let head = String::from_str(s.substring_char(i, e));
        let mut r = collect_tokens(s, e);
        r.insert(0, head);
        proof {
            assert(token_views(r@) =~= seq![s@.subrange(i as int, e as int)] + tokens_from(
                s@,
                e as int,
            ));
        }
        r
    }
}

fn join_kept_from(ts: &Vec<String>, i: usize) -> (r: String)
    requires
        i <= ts@.len(),
    ensures
        r@ == join_kept(token_views(ts@).skip(i as int)),
    decreases ts@.len() - i,
{
    if i == ts.len() {
        let r = String::new();
        proof {
            assert(token_views(ts@).skip(i as int) =~= Seq::<Seq<char>>::empty());
        }
        r
    } else {
        let rest = join_kept_from(ts, i + 1);
        proof {
            assert(token_views(ts@).skip(i as int).skip(1) =~= token_views(ts@).skip(i + 1));
            assert(token_views(ts@).skip(i as int)[0] == ts@[i as int]@);
        }
        let t = &ts[i];
        if t.unicode_len() > 0 && t.as_str().get_char(0) == '%' {
            rest
        } else if rest.as_str().unicode_len() == 0 {
            t.clone()
        } else {
            let joined = t.clone().concat(" ").concat(rest.as_str());
            proof {
                reveal_strlit(" ");
                assert(" "@ =~= seq![' ']);
            }
            joined
        }
    }
}

/// Clean an `Exec=` value: drop every `%`-placeholder token and join what
/// remains with single spaces.
pub fn clean_exec(s: &str) -> (r: String)
    ensures
        r@ == spec_clean_exec(s@),
{
    let ts = collect_tokens(s, 0);
    let r = join_kept_from(&ts, 0);
    proof {
        assert(token_views(ts@).skip(0) =~= token_views(ts@));
    }
    r
}

/// Parse one desktop entry.  The first `Name=`, `Exec=` and `Icon=` lines
/// count; an entry without a name or without a command parses to `None`,
/// an entry without an icon keeps `None` there.
pub fn parse_desktop_file(content: &str) -> (r: Option<DesktopFile>)
    ensures
        (r is Some) == (first_value(content@, 0, "Name="@) is Some && first_value(
            content@,
            0,
            "Exec="@,
        ) is Some),
        r matches Some(d) ==> ((first_value(content@, 0, "Name="@) matches Some(nm) && d.name@
            == nm) && (first_value(content@, 0, "Exec="@) matches Some(ex) && d.exec_cmd@
            == spec_clean_exec(ex)) && opt_view(d.icon) == first_value(content@, 0, "Icon="@)),
{
    let name = find_line_value(content, 0, "Name=");
    let cmd = find_line_value(content, 0, "Exec=");
    let icon = find_line_value(content, 0, "Icon=");
    match (name, cmd) {
        (Some(nm), Some(ex)) => {
            let cleaned = clean_exec(ex.as_str());
            Some(DesktopFile { name: nm, exec_cmd: cleaned, icon })
        },
        _ => None,
    }
}

/// The character-wise space-to-dash replacement applied to launcher
/// queries.
pub open spec fn dashed(s: Seq<char>) -> Seq<char> {
    s.map_values(
        |c: char|
            if c == ' ' {
                '-'
            } else {
                c
            },
    )
}

/// Normalize an application name for matching against desktop-file paths:
/// trim it, lower-case it, and replace spaces with dashes, the convention
/// desktop-file names follow.
pub fn normalize_app_query(name: &str) -> (r: String)
    ensures
        r@ == dashed(lower_of(spec_trim(name@))),
{
    let low = lowercase(trim_str(name));
    let n = low.as_str().unicode_len();
    let mut out = String::new();
    let mut i: usize = 0;
    while i < n
        invariant
            i <= n,
            n == low@.len(),
            out@ == dashed(low@.take(i as int)),
        decreases n - i,
    {
        let c = low.as_str().get_char(i);
        push_char(
            &mut out,
            if c == ' ' {
                '-'
            } else {
                c
            },
        );
        proof {
            assert(dashed(low@.take(i + 1)) =~= out@);
        }
        i = i + 1;
    }
    proof {
        assert(low@.take(n as int) =~= low@);
    }
    out
}

/// Whether a desktop-file path matches a normalized query: the lower-cased
/// path contains it somewhere.
pub fn path_matches_query(path: &str, query: &str) -> (r: bool)
    ensures
        r == has_substr(lower_of(path@), query@),
{
    let low = lowercase(path);
    contains_str(low.as_str(), query)
}

} // verus!
