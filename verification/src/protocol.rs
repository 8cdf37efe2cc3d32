//! The line-oriented compositor protocol: one raw line maps to exactly one
//! classified event, and malformed input never raises — every optional piece
//! defaults to an empty string, so the read loop can stay alive under any
//! input.
//!
//! A raw line has the shape `<event-name>>><event-payload>`.  The line splits
//! at the first occurrence of the two-character `>>` separator; an unknown
//! event name classifies to [`ClassifiedEvent::Unrecognized`].
use vstd::prelude::*;
use vstd::string::*;

use crate::text::find_char;
use crate::text::find_char_from;
use crate::text::has_char;
use crate::text::contains_char;
use crate::text::lemma_find_char_from;
use crate::text::lower_of;
use crate::text::lowercase;
use crate::text::spec_trim;
use crate::text::str_eq;
use crate::text::trim_str;

verus! {

/// One classified protocol event.
#[derive(Debug, Clone, PartialEq)]
pub enum ClassifiedEvent {
    /// The workspace layout changed; the payload carries no information.
    WorkspaceUpdated,
    /// A workspace or window demands attention.
    WorkspaceUrgent { id: String },
    /// A window entered or left fullscreen.
    FullscreenToggled { is_fullscreen: bool },
    /// The focused window's title changed; empty when no window has focus.
    ActiveWindowTitleChanged { title: String },
    /// A window opened, identified by its class and its lower-cased title.
    WindowOpened { window_class: String, window_title: String },
    /// A window of the given class closed.
    WindowClosed { window_class: String },
    /// Anything else; ignored downstream.
    Unrecognized,
}

/// The mathematical shape of a classified event: each string field as its
/// character sequence.
pub enum EventModel {
    Workspace,
    Urgent { id: Seq<char> },
    Fullscreen { on: bool },
    Title { title: Seq<char> },
    Opened { class: Seq<char>, title: Seq<char> },
    Closed { class: Seq<char> },
    Other,
}

impl View for ClassifiedEvent {
    type V = EventModel;

    open spec fn view(&self) -> EventModel {
        match self {
            ClassifiedEvent::WorkspaceUpdated => EventModel::Workspace,
            ClassifiedEvent::WorkspaceUrgent { id } => EventModel::Urgent { id: id@ },
            ClassifiedEvent::FullscreenToggled { is_fullscreen } => EventModel::Fullscreen {
                on: *is_fullscreen,
            },
            ClassifiedEvent::ActiveWindowTitleChanged { title } => EventModel::Title {
                title: title@,
            },
            ClassifiedEvent::WindowOpened { window_class, window_title } => EventModel::Opened {
                class: window_class@,
                title: window_title@,
            },
            ClassifiedEvent::WindowClosed { window_class } => EventModel::Closed {
                class: window_class@,
            },
            ClassifiedEvent::Unrecognized => EventModel::Other,
        }
    }
}

/// Index of the first `>>` separator at or after `i`, or `s.len()` when
/// there is none.
pub open spec fn find_sep(s: Seq<char>, i: int) -> int
    decreases s.len() - i when 0 <= i <= s.len()
{
    if i + 2 > s.len() {
        s.len() as int
    } else if s[i] == '>' && s[i + 1] == '>' {
        i
    } else {
        find_sep(s, i + 1)
    }
}

pub proof fn lemma_find_sep(s: Seq<char>, i: int)
    requires
        0 <= i <= s.len(),
    ensures
        i <= find_sep(s, i) <= s.len(),
        find_sep(s, i) < s.len() ==> find_sep(s, i) + 2 <= s.len()
            && s[find_sep(s, i)] == '>' && s[find_sep(s, i) + 1] == '>',
    decreases s.len() - i,
{
    if i + 2 <= s.len() && !(s[i] == '>' && s[i + 1] == '>') {
        lemma_find_sep(s, i + 1);
    }
}

fn find_sep_at(s: &str, i: usize) -> (r: usize)
    requires
        i <= s@.len(),
    ensures
        r as int == find_sep(s@, i as int),
        i <= r <= s@.len(),
    decreases s@.len() - i,
{
    proof {
        lemma_find_sep(s@, i as int);
    }
    let n = s.unicode_len();
    if i >= n || i + 1 >= n {
        n
    } else if s.get_char(i) == '>' && s.get_char(i + 1) == '>' {
        i
    } else {
        find_sep_at(s, i + 1)
    }
}

/// The event name of a raw line: everything before the first separator,
/// trimmed.  A line without a separator is all name.
pub open spec fn line_name(line: Seq<char>) -> Seq<char> {
    spec_trim(line.take(find_sep(line, 0)))
}

/// The payload of a raw line: everything after the first separator, or empty
/// when the line has none.
pub open spec fn line_payload(line: Seq<char>) -> Seq<char> {
    if find_sep(line, 0) == line.len() {
        Seq::empty()
    } else {
        line.skip(find_sep(line, 0) + 2)
    }
}

/// Title normalization for focus-change events.  The payload is
/// `class,title`; the title is everything after the first comma (or the
/// whole payload when there is no comma), trimmed.  The protocol emits
/// degenerate artifacts such as `,` or ` - ` when no window is focused;
/// those collapse to the empty title rather than passing through.
pub open spec fn normalize_title(p: Seq<char>) -> Seq<char> {
    let after = if has_char(p, ',') {
        p.skip(find_char_from(p, ',', 0) + 1)
    } else {
        p
    };
    let t = spec_trim(after);
    if t.len() == 0 || (t.len() == 1 && (t[0] == ',' || t[0] == '-')) {
        Seq::empty()
    } else {
        t
    }
}

/// Field 0 of a comma-separated open-window payload: the window class,
/// verbatim.  The whole payload when there is no comma.
pub open spec fn opened_class(p: Seq<char>) -> Seq<char> {
    p.take(find_char_from(p, ',', 0))
}

/// Field 2 of a comma-separated open-window payload, untrimmed; empty when
/// the payload has fewer than three fields.
pub open spec fn opened_title_raw(p: Seq<char>) -> Seq<char> {
    let c1 = find_char_from(p, ',', 0);
    if c1 >= p.len() {
        Seq::empty()
    } else {
        let c2 = find_char_from(p, ',', c1 + 1);
        if c2 >= p.len() {
            Seq::empty()
        } else {
            p.subrange(c2 + 1, find_char_from(p, ',', c2 + 1))
        }
    }
}

/// What classification returns for any raw line.
pub open spec fn spec_classify(line: Seq<char>) -> EventModel {
    let name = line_name(line);
    let p = line_payload(line);
    if name == "workspace"@ || name == "change"@ {
        EventModel::Workspace
    } else if name == "fullscreen"@ {
        EventModel::Fullscreen { on: has_char(p, '1') }
    } else if name == "activewindow"@ {
        EventModel::Title { title: normalize_title(p) }
    } else if name == "urgent"@ {
        EventModel::Urgent { id: spec_trim(p) }
    } else if name == "openwindow"@ {
        EventModel::Opened {
            class: opened_class(p),
            title: lower_of(spec_trim(opened_title_raw(p))),
        }
    } else if name == "closewindow"@ {
        EventModel::Closed { class: p }
    } else {
        EventModel::Other
    }
}

fn normalized_title(p: &str) -> (t: String)
    ensures
        t@ == normalize_title(p@),
{
    let n = p.unicode_len();
    let c = find_char(p, ',', 0);
    proof {
        lemma_find_char_from(p@, ',', 0);
    }
    let after = if c == n {
        p
    } else {
        p.substring_char(c + 1, n)
    };
    proof {
        if c < n {
            assert(after@ =~= p@.skip(find_char_from(p@, ',', 0) + 1));
            assert(has_char(p@, ','));
        } else {
            assert(!has_char(p@, ','));
        }
    }
    let t = trim_str(after);
    let tl = t.unicode_len();
    if tl == 0 || (tl == 1 && (t.get_char(0) == ',' || t.get_char(0) == '-')) {
        let r = String::new();
        proof {
            assert(r@ =~= normalize_title(p@));
        }
        r
    } else {
        String::from_str(t)
    }
}

fn opened_fields(p: &str) -> (r: (String, String))
    ensures
        r.0@ == opened_class(p@),
        r.1@ == lower_of(spec_trim(opened_title_raw(p@))),
{
    let n = p.unicode_len();
    let c1 = find_char(p, ',', 0);
    let class = String::from_str(p.substring_char(0, c1));
    proof {
        assert(class@ =~= opened_class(p@));
    }
    let raw: &str = if c1 == n {
        p.substring_char(n, n)
    } else {
        let c2 = find_char(p, ',', c1 + 1);
        if c2 == n {
            p.substring_char(n, n)
        } else {
            let c3 = find_char(p, ',', c2 + 1);
            p.substring_char(c2 + 1, c3)
        }
    };
    proof {
        assert(raw@ =~= opened_title_raw(p@));
    }
    let title = lowercase(trim_str(raw));
    (class, title)
}

/// Map one raw protocol line to its classified event.  Total: every input,
/// however malformed, yields some event, with `Unrecognized` as the default.
pub fn classify_line(line: &str) -> (ev: ClassifiedEvent)
    ensures
        ev@ == spec_classify(line@),
{
    let n = line.unicode_len();
    let k = find_sep_at(line, 0);
    proof {
        lemma_find_sep(line@, 0);
    }
    let name = trim_str(line.substring_char(0, k));
    proof {
        assert(line@.subrange(0, k as int) =~= line@.take(find_sep(line@, 0)));
    }
    let payload: &str = if k == n {
        line.substring_char(n, n)
    } else {
        line.substring_char(k + 2, n)
    };
    proof {
        assert(payload@ =~= line_payload(line@));
    }
    if str_eq(name, "workspace") || str_eq(name, "change") {
        ClassifiedEvent::WorkspaceUpdated
    } else if str_eq(name, "fullscreen") {
        ClassifiedEvent::FullscreenToggled { is_fullscreen: contains_char(payload, '1') }
    } else if str_eq(name, "activewindow") {
        ClassifiedEvent::ActiveWindowTitleChanged { title: normalized_title(payload) }
    } else if str_eq(name, "urgent") {
        ClassifiedEvent::WorkspaceUrgent { id: String::from_str(trim_str(payload)) }
    } else if str_eq(name, "openwindow") {
        let fields = opened_fields(payload);
        ClassifiedEvent::WindowOpened { window_class: fields.0, window_title: fields.1 }
    } else if str_eq(name, "closewindow") {
        ClassifiedEvent::WindowClosed { window_class: String::from_str(payload) }
    } else {
        ClassifiedEvent::Unrecognized
    }
}

/// Every line whose event name is `workspace` or `change` classifies to a
/// workspace update, whatever its payload holds.
pub proof fn lemma_workspace_line(line: Seq<char>)
    requires
        line_name(line) == "workspace"@ || line_name(line) == "change"@,
    ensures
        spec_classify(line) is Workspace,
{
}

/// Every fullscreen line carries the flag, and the flag is set exactly when
/// the payload contains the digit `1`.
pub proof fn lemma_fullscreen_line(line: Seq<char>)
    requires
        line_name(line) == "fullscreen"@,
    ensures
        spec_classify(line) matches EventModel::Fullscreen { on } && on == has_char(
            line_payload(line),
            '1',
        ),
{
    broadcast use vstd::string::group_string_axioms;

    // The three names have different lengths, so a fullscreen line cannot
    // take the workspace branch.
    reveal_strlit("fullscreen");
    reveal_strlit("workspace");
    reveal_strlit("change");
    assert("fullscreen"@.len() == 10);
    assert("workspace"@.len() == 9);
    assert("change"@.len() == 6);
}

} // verus!
