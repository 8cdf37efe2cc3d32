//! Character- and string-level helpers shared by the protocol parser and the
//! configuration code: whitespace trimming, searching, equality, decimal
//! rendering, and the few pieces of `std` string behaviour the library takes
//! on trust.
use vstd::prelude::*;
use vstd::string::*;

verus! {

/// The characters that count as whitespace here: the Unicode `White_Space`
/// set, the same set `str::trim` and `char::is_whitespace` work from.
pub open spec fn is_wsp(c: char) -> bool {
    ||| c == ' '
    ||| c == '\t'
    ||| c == '\n'
    ||| c == '\r'
    ||| c == '\u{000B}'
    ||| c == '\u{000C}'
    ||| c == '\u{0085}'
    ||| c == '\u{00A0}'
    ||| c == '\u{1680}'
    ||| c == '\u{2000}'
    ||| c == '\u{2001}'
    ||| c == '\u{2002}'
    ||| c == '\u{2003}'
    ||| c == '\u{2004}'
    ||| c == '\u{2005}'
    ||| c == '\u{2006}'
    ||| c == '\u{2007}'
    ||| c == '\u{2008}'
    ||| c == '\u{2009}'
    ||| c == '\u{200A}'
    ||| c == '\u{2028}'
    ||| c == '\u{2029}'
    ||| c == '\u{202F}'
    ||| c == '\u{205F}'
    ||| c == '\u{3000}'
}

/// Executable counterpart of [`is_wsp`].
pub fn is_whitespace_char(c: char) -> (r: bool)
    ensures
        r == is_wsp(c),
{
    c == ' ' || c == '\t' || c == '\n' || c == '\r' || c == '\u{000B}' || c == '\u{000C}'
        || c == '\u{0085}' || c == '\u{00A0}' || c == '\u{1680}' || c == '\u{2000}'
        || c == '\u{2001}' || c == '\u{2002}' || c == '\u{2003}' || c == '\u{2004}'
        || c == '\u{2005}' || c == '\u{2006}' || c == '\u{2007}' || c == '\u{2008}'
        || c == '\u{2009}' || c == '\u{200A}' || c == '\u{2028}' || c == '\u{2029}'
        || c == '\u{202F}' || c == '\u{205F}' || c == '\u{3000}'
}

/// Index of the first non-whitespace character at or after `i`, or `s.len()`.
pub open spec fn first_non_wsp(s: Seq<char>, i: int) -> int
    decreases s.len() - i when 0 <= i <= s.len()
{
    if i >= s.len() {
        i
    } else if !is_wsp(s[i]) {
        i
    } else {
        first_non_wsp(s, i + 1)
    }
}

/// One past the last non-whitespace character strictly before `i`, or `0`.
pub open spec fn end_non_wsp(s: Seq<char>, i: int) -> int
    decreases i when 0 <= i <= s.len()
{
    if i <= 0 {
        0
    } else if !is_wsp(s[i - 1]) {
        i
    } else {
        end_non_wsp(s, i - 1)
    }
}

pub proof fn lemma_first_non_wsp(s: Seq<char>, i: int)
    requires
        0 <= i <= s.len(),
    ensures
        i <= first_non_wsp(s, i) <= s.len(),
        first_non_wsp(s, i) < s.len() ==> !is_wsp(s[first_non_wsp(s, i)]),
        forall|j: int| i <= j < first_non_wsp(s, i) ==> is_wsp(s[j]),
    decreases s.len() - i,
{
    if i < s.len() && is_wsp(s[i]) {
        lemma_first_non_wsp(s, i + 1);
    }
}

pub proof fn lemma_end_non_wsp(s: Seq<char>, i: int)
    requires
        0 <= i <= s.len(),
    ensures
        0 <= end_non_wsp(s, i) <= i,
        end_non_wsp(s, i) > 0 ==> !is_wsp(s[end_non_wsp(s, i) - 1]),
        forall|j: int| end_non_wsp(s, i) <= j < i ==> is_wsp(s[j]),
    decreases i,
{
    if i > 0 && is_wsp(s[i - 1]) {
        lemma_end_non_wsp(s, i - 1);
    }
}

/// What trimming leaves: the slice between the first non-whitespace
/// character and the last one, empty when there is none.
pub open spec fn spec_trim(s: Seq<char>) -> Seq<char> {
    if first_non_wsp(s, 0) == s.len() {
        Seq::empty()
    } else {
        s.subrange(first_non_wsp(s, 0), end_non_wsp(s, s.len() as int))
    }
}

fn scan_front(s: &str, i: usize) -> (r: usize)
    requires
        i <= s@.len(),
    ensures
        r as int == first_non_wsp(s@, i as int),
        i <= r <= s@.len(),
    decreases s@.len() - i,
{
    if i == s.unicode_len() {
        i
    } else if !is_whitespace_char(s.get_char(i)) {
        i
    } else {
        scan_front(s, i + 1)
    }
}

fn scan_back(s: &str, i: usize) -> (r: usize)
    requires
        i <= s@.len(),
    ensures
        r as int == end_non_wsp(s@, i as int),
        r <= i,
    decreases i,
{
    if i == 0 {
        0
    } else if !is_whitespace_char(s.get_char(i - 1)) {
        i
    } else {
        scan_back(s, i - 1)
    }
}

/// Remove leading and trailing whitespace, like `str::trim`.
pub fn trim_str<'a>(s: &'a str) -> (r: &'a str)
    ensures
        r@ == spec_trim(s@),
{
    let n = s.unicode_len();
    let lo = scan_front(s, 0);
    if lo == n {
        let r = s.substring_char(0, 0);
        proof {
            assert(r@ =~= spec_trim(s@));
        }
        r
    } else {
        let hi = scan_back(s, n);
        proof {
            lemma_first_non_wsp(s@, 0);
            lemma_end_non_wsp(s@, s@.len() as int);
            // The character at `lo` is not whitespace, so the scan from the
            // right cannot pass it.
            if hi <= lo {
                assert(is_wsp(s@[lo as int]));
            }
        }
        s.substring_char(lo, hi)
    }
}

/// Index of the first occurrence of `c` at or after `i`, or `s.len()`.
pub open spec fn find_char_from(s: Seq<char>, c: char, i: int) -> int
    decreases s.len() - i when 0 <= i <= s.len()
{
    if i >= s.len() {
        i
    } else if s[i] == c {
        i
    } else {
        find_char_from(s, c, i + 1)
    }
}

pub proof fn lemma_find_char_from(s: Seq<char>, c: char, i: int)
    requires
        0 <= i <= s.len(),
    ensures
        i <= find_char_from(s, c, i) <= s.len(),
        find_char_from(s, c, i) < s.len() ==> s[find_char_from(s, c, i)] == c,
        forall|j: int| i <= j < find_char_from(s, c, i) ==> s[j] != c,
    decreases s.len() - i,
{
    if i < s.len() && s[i] != c {
        lemma_find_char_from(s, c, i + 1);
    }
}

/// Executable counterpart of [`find_char_from`].
pub fn find_char(s: &str, c: char, i: usize) -> (r: usize)
    requires
        i <= s@.len(),
    ensures
        r as int == find_char_from(s@, c, i as int),
        i <= r <= s@.len(),
    decreases s@.len() - i,
{
    if i == s.unicode_len() {
        i
    } else if s.get_char(i) == c {
        i
    } else {
        find_char(s, c, i + 1)
    }
}

/// Whether `c` occurs anywhere in `s`.
pub open spec fn has_char(s: Seq<char>, c: char) -> bool {
    exists|i: int| 0 <= i < s.len() && s[i] == c
}

/// Executable counterpart of [`has_char`].
pub fn contains_char(s: &str, c: char) -> (r: bool)
    ensures
        r == has_char(s@, c),
{
    let k = find_char(s, c, 0);
    proof {
        lemma_find_char_from(s@, c, 0);
        if k < s@.len() {
            assert(s@[k as int] == c);
        }
    }
    k < s.unicode_len()
}

fn eq_from(a: &str, b: &str, i: usize) -> (r: bool)
    requires
        a@.len() == b@.len(),
        i <= a@.len(),
    ensures
        r == (forall|j: int| i <= j < a@.len() ==> a@[j] == b@[j]),
    decreases a@.len() - i,
{
    if i == a.unicode_len() {
        true
    } else if a.get_char(i) != b.get_char(i) {
        false
    } else {
        eq_from(a, b, i + 1)
    }
}

/// Character-for-character string equality.
pub fn str_eq(a: &str, b: &str) -> (r: bool)
    ensures
        r == (a@ == b@),
{
    if a.unicode_len() != b.unicode_len() {
        return false;
    }
    let e = eq_from(a, b, 0);
    proof {
        if e {
            assert(a@ =~= b@);
        }
    }
    e
}

/// Whether `p` is a prefix of `s`.
pub open spec fn has_prefix(s: Seq<char>, p: Seq<char>) -> bool {
    p.len() <= s.len() && s.subrange(0, p.len() as int) == p
}

fn prefix_eq_from(s: &str, p: &str, i: usize) -> (r: bool)
    requires
        p@.len() <= s@.len(),
        i <= p@.len(),
    ensures
        r == (forall|j: int| i <= j < p@.len() ==> s@[j] == p@[j]),
    decreases p@.len() - i,
{
    if i == p.unicode_len() {
        true
    } else if s.get_char(i) != p.get_char(i) {
        false
    } else {
        prefix_eq_from(s, p, i + 1)
    }
}

/// Executable counterpart of [`has_prefix`].
pub fn starts_with_str(s: &str, p: &str) -> (r: bool)
    ensures
        r == has_prefix(s@, p@),
{
    if s.unicode_len() < p.unicode_len() {
        return false;
    }
    let e = prefix_eq_from(s, p, 0);
    proof {
        if e {
            assert(s@.subrange(0, p@.len() as int) =~= p@);
        } else {
            assert(s@.subrange(0, p@.len() as int) != p@) by {
                let j = choose|j: int| 0 <= j < p@.len() && s@[j] != p@[j];
                assert(s@.subrange(0, p@.len() as int)[j] != p@[j]);
            }
        }
    }
    e
}

/// Index of the first whitespace character at or after `i`, or `s.len()`.
pub open spec fn find_wsp_from(s: Seq<char>, i: int) -> int
    decreases s.len() - i when 0 <= i <= s.len()
{
    if i >= s.len() {
        i
    } else if is_wsp(s[i]) {
        i
    } else {
        find_wsp_from(s, i + 1)
    }
}

pub proof fn lemma_find_wsp_from(s: Seq<char>, i: int)
    requires
        0 <= i <= s.len(),
    ensures
        i <= find_wsp_from(s, i) <= s.len(),
        find_wsp_from(s, i) < s.len() ==> is_wsp(s[find_wsp_from(s, i)]),
        forall|j: int| i <= j < find_wsp_from(s, i) ==> !is_wsp(s[j]),
    decreases s.len() - i,
{
    if i < s.len() && !is_wsp(s[i]) {
        lemma_find_wsp_from(s, i + 1);
    }
}

/// Executable counterpart of [`find_wsp_from`].
pub fn find_wsp(s: &str, i: usize) -> (r: usize)
    requires
        i <= s@.len(),
    ensures
        r as int == find_wsp_from(s@, i as int),
        i <= r <= s@.len(),
    decreases s@.len() - i,
{
    if i == s.unicode_len() {
        i
    } else if is_whitespace_char(s.get_char(i)) {
        i
    } else {
        find_wsp(s, i + 1)
    }
}

/// `n` occurs in `h` starting at position `i`.
pub open spec fn is_substr_at(h: Seq<char>, n: Seq<char>, i: int) -> bool {
    0 <= i && i + n.len() <= h.len() && h.subrange(i, i + n.len() as int) == n
}

/// `n` occurs somewhere in `h`.
pub open spec fn has_substr(h: Seq<char>, n: Seq<char>) -> bool {
    exists|i: int| is_substr_at(h, n, i)
}

fn match_at_from(h: &str, n: &str, i: usize, j: usize) -> (r: bool)
    requires
        i + n@.len() <= h@.len(),
        i + n@.len() <= usize::MAX,
        j <= n@.len(),
    ensures
        r == (forall|q: int| j <= q < n@.len() ==> h@[i + q] == n@[q]),
    decreases n@.len() - j,
{
    if j == n.unicode_len() {
        true
    } else if h.get_char(i + j) != n.get_char(j) {
        false
    } else {
        match_at_from(h, n, i, j + 1)
    }
}

fn match_at(h: &str, n: &str, i: usize) -> (r: bool)
    requires
        i + n@.len() <= h@.len(),
        i + n@.len() <= usize::MAX,
    ensures
        r == is_substr_at(h@, n@, i as int),
{
    let e = match_at_from(h, n, i, 0);
    proof {
        if e {
            assert(h@.subrange(i as int, i + n@.len()) =~= n@);
        } else {
            assert(h@.subrange(i as int, i + n@.len()) != n@) by {
                let q = choose|q: int| 0 <= q < n@.len() && h@[i + q] != n@[q];
                assert(h@.subrange(i as int, i + n@.len())[q] != n@[q]);
            }
        }
    }
    e
}

fn scan_substr(h: &str, n: &str, i: usize) -> (r: bool)
    requires
        i <= h@.len(),
    ensures
        r == (exists|j: int| i <= j && is_substr_at(h@, n@, j)),
    decreases h@.len() - i,
{
    let hl = h.unicode_len();
    let nl = n.unicode_len();
    if nl == 0 {
        proof {
            assert(h@.subrange(i as int, i as int) =~= n@);
            assert(is_substr_at(h@, n@, i as int));
        }
        true
    } else if hl < nl || i > hl - nl {
        proof {
            assert(!(exists|j: int| i <= j && is_substr_at(h@, n@, j))) by {
                if exists|j: int| i <= j && is_substr_at(h@, n@, j) {
                    let j = choose|j: int| i <= j && is_substr_at(h@, n@, j);
                    assert(j + n@.len() <= h@.len());
                }
            }
        }
        false
    } else if match_at(h, n, i) {
        proof {
            assert(is_substr_at(h@, n@, i as int));
        }
        true
    } else {
        let r = scan_substr(h, n, i + 1);
        proof {
            if !r {
                assert(!(exists|j: int| i <= j && is_substr_at(h@, n@, j))) by {
                    if exists|j: int| i <= j && is_substr_at(h@, n@, j) {
                        let j = choose|j: int| i <= j && is_substr_at(h@, n@, j);
                        assert(j != i);
                        assert(i + 1 <= j && is_substr_at(h@, n@, j));
                    }
                }
            }
        }
        r
    }
}

/// Executable counterpart of [`has_substr`], like `str::contains`.
pub fn contains_str(h: &str, n: &str) -> (r: bool)
    ensures
        r == has_substr(h@, n@),
{
    scan_substr(h, n, 0)
}

/// The view of an optional string.
pub open spec fn opt_view(o: Option<String>) -> Option<Seq<char>> {
    match o {
        Some(s) => Some(s@),
        None => None,
    }
}

/// The decimal digit character for `d`.
pub open spec fn digit_char(d: nat) -> char {
    if d == 0 {
        '0'
    } else if d == 1 {
        '1'
    } else if d == 2 {
        '2'
    } else if d == 3 {
        '3'
    } else if d == 4 {
        '4'
    } else if d == 5 {
        '5'
    } else if d == 6 {
        '6'
    } else if d == 7 {
        '7'
    } else if d == 8 {
        '8'
    } else {
        '9'
    }
}

/// The decimal rendering of `n`, most significant digit first.
pub open spec fn dec_digits(n: nat) -> Seq<char>
    decreases n,
{
    if n < 10 {
        seq![digit_char(n)]
    } else {
        dec_digits(n / 10).push(digit_char(n % 10))
    }
}

fn digit_to_char(d: u64) -> (c: char)
    requires
        d < 10,
    ensures
        c == digit_char(d as nat),
{
    if d == 0 {
        '0'
    } else if d == 1 {
        '1'
    } else if d == 2 {
        '2'
    } else if d == 3 {
        '3'
    } else if d == 4 {
        '4'
    } else if d == 5 {
        '5'
    } else if d == 6 {
        '6'
    } else if d == 7 {
        '7'
    } else if d == 8 {
        '8'
    } else {
        '9'
    }
}

/// Render `n` in decimal, like `format!("{}", n)` does for a `u64`.
pub fn u64_to_dec(n: u64) -> (r: String)
    ensures
        r@ == dec_digits(n as nat),
    decreases n,
{
    if n < 10 {
        let mut s = String::new();
        push_char(&mut s, digit_to_char(n));
        proof {
            assert(s@ =~= dec_digits(n as nat));
        }
        s
    } else {
        let mut s = u64_to_dec(n / 10);
        push_char(&mut s, digit_to_char(n % 10));
        s
    }
}

/// Relies on `String::push`: appends exactly the given character.
#[verifier::external_body]
pub fn push_char(s: &mut String, c: char)
    ensures
        final(s)@ == old(s)@.push(c),
{
    s.push(c);
}

/// What `str::to_lowercase` returns; it depends on the characters alone.
pub uninterp spec fn lower_of(s: Seq<char>) -> Seq<char>;

/// Relies on `str::to_lowercase`: the Unicode lowercase mapping of the
/// string, a function of its characters alone.
#[verifier::external_body]
pub fn lowercase(s: &str) -> (r: String)
    ensures
        r@ == lower_of(s@),
{
    s.to_lowercase()
}

} // verus!
