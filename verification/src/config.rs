//! The user configuration as the bar consumes it: plain data, with the one
//! piece of logic the bar applies on load — renaming duplicate widget keys
//! so that every widget instance gets a distinct cache key.
//!
//! Loading the file and decoding its JSON happen outside; this module only
//! holds the decoded values and normalizes them.
use vstd::prelude::*;
use vstd::string::*;

use crate::text::dec_digits;
use crate::text::push_char;
use crate::text::u64_to_dec;

verus! {

/// Per-widget settings, all optional.
#[derive(Debug, Clone, PartialEq)]
pub struct WidgetsConfig {
    pub favorites: Option<Vec<String>>,
    pub icon: Option<String>,
    pub size: Option<u32>,
    pub format: Option<String>,
    pub timezone: Option<String>,
    pub show_icons: Option<bool>,
    pub max_workspaces: Option<u32>,
}

/// A user-defined launcher button.
#[derive(Debug, Clone, PartialEq)]
pub struct CustomAppsConfig {
    pub name: Option<String>,
    pub icon: Option<String>,
    pub cmd: Option<String>,
    pub tooltip: Option<bool>,
}

/// Colors of the bar.
#[derive(Debug, Clone, PartialEq)]
pub struct UiConfig {
    pub background: String,
    pub accent: String,
}

/// Geometry and behaviour of the bar window.
#[derive(Debug, Clone, PartialEq)]
pub struct BarConfig {
    pub height: u32,
    pub autohide: bool,
    pub position: String,
}

/// Which widgets stand in which section, left to right.
#[derive(Debug, Clone, PartialEq)]
pub struct SectionsConfig {
    pub left: Vec<String>,
    pub center: Vec<String>,
    pub right: Vec<String>,
}

/// The whole user configuration.  The widget and launcher tables are
/// association lists keyed by widget name; a well-formed configuration
/// keys each entry once.
#[derive(Debug, Clone, PartialEq)]
pub struct UserConfig {
    pub theme: String,
    pub ui: UiConfig,
    pub bar: BarConfig,
    pub sections: SectionsConfig,
    pub widgets: Vec<(String, WidgetsConfig)>,
    pub custom_apps: Vec<(String, CustomAppsConfig)>,
}

/// The character sequences of a list of strings.
pub open spec fn key_views(s: Seq<String>) -> Seq<Seq<char>> {
    s.map_values(|x: String| x@)
}

/// How often `k` occurs in `s`.
pub open spec fn count_of(s: Seq<Seq<char>>, k: Seq<char>) -> nat
    decreases s.len(),
{
    if s.len() == 0 {
        0
    } else {
        count_of(s.drop_last(), k) + (if s.last() == k {
            1nat
        } else {
            0nat
        })
    }
}

/// The key under which the `c`-th occurrence of `k` is stored: the key
/// itself the first time, `<key>_<count>` afterwards.
pub open spec fn renamed_key(k: Seq<char>, c: nat) -> Seq<char> {
    if c == 0 {
        k
    } else {
        k + seq!['_'] + dec_digits(c)
    }
}

/// Duplicate-key normalization: each key is renamed by how often it was
/// seen before it, counting both the keys already recorded in `seen` and
/// the earlier keys of the same list.
pub open spec fn normalize_model(keys: Seq<Seq<char>>, seen: Seq<Seq<char>>) -> Seq<Seq<char>>
    decreases keys.len(),
{
    if keys.len() == 0 {
        Seq::empty()
    } else {
        seq![renamed_key(keys[0], count_of(seen, keys[0]))] + normalize_model(
            keys.skip(1),
            seen.push(keys[0]),
        )
    }
}

/// The record of keys seen so far, shared across the three section lists of
/// one normalization pass.
#[derive(Debug, Clone, PartialEq)]
pub struct SeenKeys {
    pub keys: Vec<String>,
}

impl SeenKeys {
    /// A record with nothing seen yet.
    pub fn new() -> (r: SeenKeys)
        ensures
            key_views(r.keys@) =~= Seq::<Seq<char>>::empty(),
    {
        SeenKeys { keys: Vec::new() }
    }
}

fn count_key(seen: &Vec<String>, k: &String) -> (c: u64)
    ensures
        c as nat == count_of(key_views(seen@), k@),
        c <= seen@.len(),
{
    let mut c: u64 = 0;
    let mut i: usize = 0;
    let n = seen.len();
    while i < n
        invariant
            i <= n,
            n == seen@.len(),
            c <= i,
            c as nat == count_of(key_views(seen@.take(i as int)), k@),
        decreases n - i,
    {
        proof {
            assert(key_views(seen@.take(i + 1)).drop_last() =~= key_views(seen@.take(i as int)));
            assert(key_views(seen@.take(i + 1)).last() == seen@[i as int]@);
        }
        if crate::text::str_eq(seen[i].as_str(), k.as_str()) {
            c = c + 1;
        }
        i = i + 1;
    }
    proof {
        assert(seen@.take(n as int) =~= seen@);
    }
    c
}

fn rename_key(k: &String, c: u64) -> (r: String)
    ensures
        r@ == renamed_key(k@, c as nat),
{
    if c == 0 {
        k.clone()
    } else {
        let mut r = k.clone();
        push_char(&mut r, '_');
        let digits = u64_to_dec(c);
        r.append(digits.as_str());
        proof {
            assert(r@ =~= k@ + seq!['_'] + dec_digits(c as nat));
        }
        r
    }
}

fn normalize_from(keys: &Vec<String>, i: usize, seen: &mut SeenKeys) -> (r: Vec<String>)
    requires
        i <= keys@.len(),
    ensures
        key_views(r@) == normalize_model(key_views(keys@).skip(i as int), key_views(old(seen).keys@)),
        key_views(final(seen).keys@) == key_views(old(seen).keys@) + key_views(keys@).skip(i as int),
    decreases keys@.len() - i,
{
    if i == keys.len() {
        let r: Vec<String> = Vec::new();
        proof {
            assert(key_views(r@) =~= normalize_model(
                key_views(keys@).skip(i as int),
                key_views(old(seen).keys@),
            ));
            assert(key_views(seen.keys@) =~= key_views(old(seen).keys@) + key_views(keys@).skip(
                i as int,
            ));
        }
        r
    } else {
        let c = count_key(&seen.keys, &keys[i]);
        let head = rename_key(&keys[i], c);
        seen.keys.push(keys[i].clone());
        proof {
            assert(key_views(seen.keys@) =~= key_views(old(seen).keys@).push(keys@[i as int]@));
        }
        let mut r = normalize_from(keys, i + 1, seen);
        r.insert(0, head);
        proof {
            let ks = key_views(keys@).skip(i as int);
            assert(ks[0] == keys@[i as int]@);
            assert(ks.skip(1) =~= key_views(keys@).skip(i + 1));
            assert(key_views(r@) =~= seq![
                renamed_key(keys@[i as int]@, count_of(key_views(old(seen).keys@), keys@[i as int]@)),
            ] + normalize_model(
                key_views(keys@).skip(i + 1),
                key_views(old(seen).keys@).push(keys@[i as int]@),
            ));
            assert(key_views(seen.keys@) =~= key_views(old(seen).keys@) + ks);
        }
        r
    }
}

/// Rename every duplicate key in `keys` to `<key>_<n>`, where `n` counts
/// how often the key occurred before — in `seen` or earlier in the list —
/// and record every key in `seen` for the lists that follow.
pub fn normalize_duplicate_keys(keys: Vec<String>, seen: &mut SeenKeys) -> (r: Vec<String>)
    ensures
        key_views(r@) == normalize_model(key_views(keys@), key_views(old(seen).keys@)),
        key_views(final(seen).keys@) == key_views(old(seen).keys@) + key_views(keys@),
{
    let r = normalize_from(&keys, 0, seen);
    proof {
        assert(key_views(keys@).skip(0) =~= key_views(keys@));
    }
    r
}

/// Whether some entry of the list is exactly this name.
pub open spec fn section_has(s: Seq<String>, name: Seq<char>) -> bool {
    exists|i: int| 0 <= i < s.len() && s[i]@ == name
}

fn list_contains(v: &Vec<String>, name: &str) -> (r: bool)
    ensures
        r == section_has(v@, name@),
{
    let n = v.len();
    let mut i: usize = 0;
    while i < n
        invariant
            i <= n,
            n == v@.len(),
            forall|j: int| 0 <= j < i ==> v@[j]@ != name@,
        decreases n - i,
    {
        if crate::text::str_eq(v[i].as_str(), name) {
            proof {
                assert(v@[i as int]@ == name@);
            }
            return true;
        }
        i = i + 1;
    }
    false
}

/// Index of the first entry keyed `k` at or after `i`, or `m.len()`.
pub open spec fn assoc_idx<T>(m: Seq<(String, T)>, k: Seq<char>, i: int) -> int
    decreases m.len() - i when 0 <= i <= m.len()
{
    if i >= m.len() {
        m.len() as int
    } else if m[i].0@ == k {
        i
    } else {
        assoc_idx(m, k, i + 1)
    }
}

fn assoc_get_from<'a, T>(m: &'a Vec<(String, T)>, k: &str, i: usize) -> (r: Option<&'a T>)
    requires
        i <= m@.len(),
    ensures
        (r is Some) == (assoc_idx(m@, k@, i as int) < m@.len()),
        r matches Some(v) ==> *v == m@[assoc_idx(m@, k@, i as int)].1,
    decreases m@.len() - i,
{
    if i == m.len() {
        None
    } else if crate::text::str_eq(m[i].0.as_str(), k) {
        Some(&m[i].1)
    } else {
        assoc_get_from(m, k, i + 1)
    }
}

/// Whether the configuration marks this application as a favorite: the
/// `apps` widget entry exists and lists the name among its favorites.
pub open spec fn spec_is_favorite(c: UserConfig, name: Seq<char>) -> bool {
    let j = assoc_idx(c.widgets@, "apps"@, 0);
    j < c.widgets@.len() && (c.widgets@[j].1.favorites matches Some(f) && section_has(f@, name))
}

impl UserConfig {
    /// Whether any of the three sections names this widget.
    pub fn widget_exists(&self, widget_name: &str) -> (r: bool)
        ensures
            r == (section_has(self.sections.left@, widget_name@) || section_has(
                self.sections.center@,
                widget_name@,
            ) || section_has(self.sections.right@, widget_name@)),
    {
        list_contains(&self.sections.left, widget_name) || list_contains(
            &self.sections.center,
            widget_name,
        ) || list_contains(&self.sections.right, widget_name)
    }

    /// The settings of the named widget: the first entry under that key.
    pub fn widget_config<'a>(&'a self, name: &str) -> (r: Option<&'a WidgetsConfig>)
        ensures
            (r is Some) == (assoc_idx(self.widgets@, name@, 0) < self.widgets@.len()),
            r matches Some(v) ==> *v == self.widgets@[assoc_idx(self.widgets@, name@, 0)].1,
    {
        assoc_get_from(&self.widgets, name, 0)
    }

    /// The named launcher button: the first entry under that key.
    pub fn custom_app<'a>(&'a self, name: &str) -> (r: Option<&'a CustomAppsConfig>)
        ensures
            (r is Some) == (assoc_idx(self.custom_apps@, name@, 0) < self.custom_apps@.len()),
            r matches Some(v) ==> *v == self.custom_apps@[assoc_idx(self.custom_apps@, name@, 0)].1,
    {
        assoc_get_from(&self.custom_apps, name, 0)
    }

    /// Whether a closed window's application should keep its button: it is
    /// listed among the `apps` widget's favorites.
    pub fn is_favorite_app(&self, name: &str) -> (r: bool)
        ensures
            r == spec_is_favorite(*self, name@),
    {
        match self.widget_config("apps") {
            Some(w) => match &w.favorites {
                Some(f) => list_contains(f, name),
                None => false,
            },
            None => false,
        }
    }
}

/// Normalize the three section lists of a configuration with one shared
/// record, left first, then center, then right, as the bar lays them out.
pub fn normalize_user_config(config: UserConfig) -> (r: UserConfig)
    ensures
        key_views(r.sections.left@) == normalize_model(
            key_views(config.sections.left@),
            Seq::empty(),
        ),
        key_views(r.sections.center@) == normalize_model(
            key_views(config.sections.center@),
            key_views(config.sections.left@),
        ),
        key_views(r.sections.right@) == normalize_model(
            key_views(config.sections.right@),
            key_views(config.sections.left@) + key_views(config.sections.center@),
        ),
        r.theme == config.theme,
        r.ui == config.ui,
        r.bar == config.bar,
        r.widgets == config.widgets,
        r.custom_apps == config.custom_apps,
{
    let mut seen = SeenKeys::new();
    let UserConfig { theme, ui, bar, sections, widgets, custom_apps } = config;
    let left = normalize_duplicate_keys(sections.left, &mut seen);
    let center = normalize_duplicate_keys(sections.center, &mut seen);
    let right = normalize_duplicate_keys(sections.right, &mut seen);
    UserConfig {
        theme,
        ui,
        bar,
        sections: SectionsConfig { left, center, right },
        widgets,
        custom_apps,
    }
}

} // verus!
