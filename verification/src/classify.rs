//! Text classification: pattern-matches a text payload into a sub-type
//! (URL, email, or hex color), evaluated in that priority order.
//!
//! The URL and email patterns match anywhere inside the text; the color
//! pattern must match the whole text. Each pattern is stated as a
//! specification predicate over the character sequence, and the executable
//! matchers are proved to decide exactly those predicates.

use vstd::prelude::*;
use vstd::string::StrSliceExecFns;
use vstd::string::StringExecFns;

verus! {

/// The finer classification of a text payload.
#[derive(Clone, Copy, PartialEq, Eq, Structural, Debug)]
pub enum TextSubtype {
    Url,
    Email,
    Color,
}

// ---------------------------------------------------------------------------
// Character classes
// ---------------------------------------------------------------------------

/// Whitespace characters (the Unicode white-space set).
pub open spec fn is_wspace(c: char) -> bool {
    let u = c as u32;
    u == 9 || u == 10 || u == 11 || u == 12 || u == 13 || u == 32 || u == 0x85 || u == 0xA0
        || u == 0x1680 || (0x2000 <= u && u <= 0x200A) || u == 0x2028 || u == 0x2029 || u == 0x202F
        || u == 0x205F || u == 0x3000
}

/// ASCII letters.
pub open spec fn is_ascii_letter(c: char) -> bool {
    let u = c as u32;
    (65 <= u && u <= 90) || (97 <= u && u <= 122)
}

/// ASCII digits.
pub open spec fn is_ascii_digit(c: char) -> bool {
    let u = c as u32;
    48 <= u && u <= 57
}

/// Hexadecimal digits.
pub open spec fn is_hex_digit(c: char) -> bool {
    let u = c as u32;
    (48 <= u && u <= 57) || (65 <= u && u <= 70) || (97 <= u && u <= 102)
}

/// Word characters: letters, digits and underscore. A word boundary falls
/// between a word character and a non-word character.
pub open spec fn is_word_char(c: char) -> bool {
    is_ascii_letter(c) || is_ascii_digit(c) || c == '_'
}

/// Characters allowed in the local part of an email address.
pub open spec fn is_local_char(c: char) -> bool {
    is_ascii_letter(c) || is_ascii_digit(c) || c == '.' || c == '_' || c == '%' || c == '+'
        || c == '-'
}

/// Characters allowed in the domain part of an email address.
pub open spec fn is_domain_char(c: char) -> bool {
    is_ascii_letter(c) || is_ascii_digit(c) || c == '.' || c == '-'
}

// ---------------------------------------------------------------------------
// URL pattern: `http` or `https`, `://`, one character that is neither
// whitespace nor one of `/ $ . ? #`, then one character other than a line
// feed, anywhere in the text.
// ---------------------------------------------------------------------------

/// The literal scheme prefix `http://` starts at position `i`.
pub open spec fn http_prefix_at(s: Seq<char>, i: int) -> bool {
    0 <= i && i + 7 <= s.len() && s[i] == 'h' && s[i + 1] == 't' && s[i + 2] == 't' && s[i + 3]
        == 'p' && s[i + 4] == ':' && s[i + 5] == '/' && s[i + 6] == '/'
}

/// The literal scheme prefix `https://` starts at position `i`.
pub open spec fn https_prefix_at(s: Seq<char>, i: int) -> bool {
    0 <= i && i + 8 <= s.len() && s[i] == 'h' && s[i + 1] == 't' && s[i + 2] == 't' && s[i + 3]
        == 'p' && s[i + 4] == 's' && s[i + 5] == ':' && s[i + 6] == '/' && s[i + 7] == '/'
}

/// After the scheme, the path must open with a character that is neither
/// whitespace nor one of `/ $ . ? #`, followed by any character other than
/// a line feed.
pub open spec fn url_tail_at(s: Seq<char>, j: int) -> bool {
    0 <= j && j + 2 <= s.len() && !is_wspace(s[j]) && s[j] != '/' && s[j] != '$' && s[j] != '.'
        && s[j] != '?' && s[j] != '#' && s[j + 1] != '\n'
}

/// A URL match starts at position `i`.
pub open spec fn url_match_at(s: Seq<char>, i: int) -> bool {
    (http_prefix_at(s, i) && url_tail_at(s, i + 7)) || (https_prefix_at(s, i) && url_tail_at(
        s,
        i + 8,
    ))
}

/// The text contains a URL match somewhere.
pub open spec fn is_url(s: Seq<char>) -> bool {
    exists|i: int| url_match_at(s, i)
}

// ---------------------------------------------------------------------------
// Email pattern: at a word boundary, one or more local-part characters,
// `@`, one or more domain characters, a dot, and a top-level domain of at
// least two letters ending at a word boundary, anywhere in the text.
// ---------------------------------------------------------------------------

/// Position `p` holds a word character.
pub open spec fn word_at(s: Seq<char>, p: int) -> bool {
    0 <= p && p < s.len() && is_word_char(s[p])
}

/// A word boundary falls immediately before position `p`.
pub open spec fn boundary_at(s: Seq<char>, p: int) -> bool {
    word_at(s, p - 1) != word_at(s, p)
}

/// A nonempty run of local-part characters fills `[i, a)`, opening at a
/// word boundary.
pub open spec fn local_span_ok(s: Seq<char>, i: int, a: int) -> bool {
    0 <= i && i < a && boundary_at(s, i) && (forall|k: int| i <= k < a ==> is_local_char(s[k]))
}

/// Some valid local part ends right before the `@` at position `a`.
pub open spec fn has_local(s: Seq<char>, a: int) -> bool {
    exists|i: int| local_span_ok(s, i, a)
}

/// A top-level domain of at least two letters fills `(d, e)` after the dot
/// at position `d`, and `e` is a word boundary.
pub open spec fn tld_ok(s: Seq<char>, d: int, e: int) -> bool {
    d + 2 < e && e <= s.len() && (forall|k: int| d < k < e ==> is_ascii_letter(s[k]))
        && boundary_at(s, e)
}

/// A nonempty run of domain characters fills `(a, d)`, position `d` holds
/// the final dot, and a valid top-level domain ends at `e`.
pub open spec fn domain_span_ok(s: Seq<char>, a: int, d: int, e: int) -> bool {
    a + 1 < d && d < s.len() && s[d] == '.' && (forall|k: int| a < k < d ==> is_domain_char(s[k]))
        && tld_ok(s, d, e)
}

/// Some valid domain part follows the `@` at position `a`.
pub open spec fn has_domain(s: Seq<char>, a: int) -> bool {
    exists|d: int, e: int| domain_span_ok(s, a, d, e)
}

/// An email match is anchored at the `@` sign at position `a`.
pub open spec fn email_match_at(s: Seq<char>, a: int) -> bool {
    0 <= a && a < s.len() && s[a] == '@' && has_local(s, a) && has_domain(s, a)
}

/// The text contains an email match somewhere.
pub open spec fn is_email(s: Seq<char>) -> bool {
    exists|a: int| email_match_at(s, a)
}

// ---------------------------------------------------------------------------
// Color pattern: the whole text is `#` followed by exactly 3 or 6
// hexadecimal digits.
// ---------------------------------------------------------------------------

/// The whole text is a hex color.
pub open spec fn is_color(s: Seq<char>) -> bool {
    (s.len() == 4 || s.len() == 7) && s[0] == '#' && (forall|k: int|
        1 <= k < s.len() ==> is_hex_digit(s[k]))
}

// ---------------------------------------------------------------------------
// Classification
// ---------------------------------------------------------------------------

/// The classification of a text: the first matching pattern, in the
/// priority order URL, email, color, wins.
pub open spec fn classify(s: Seq<char>) -> Option<TextSubtype> {
    if is_url(s) {
        Some(TextSubtype::Url)
    } else if is_email(s) {
        Some(TextSubtype::Email)
    } else if is_color(s) {
        Some(TextSubtype::Color)
    } else {
        None
    }
}

/// The label under which a sub-type is reported.
pub open spec fn subtype_label(t: TextSubtype) -> Seq<char> {
    match t {
        TextSubtype::Url => "url"@,
        TextSubtype::Email => "email"@,
        TextSubtype::Color => "color"@,
    }
}

// ---------------------------------------------------------------------------
// Executable character classes
// ---------------------------------------------------------------------------

fn wspace_char(c: char) -> (r: bool)
    ensures
        r == is_wspace(c),
{
    let u = c as u32;
    u == 9 || u == 10 || u == 11 || u == 12 || u == 13 || u == 32 || u == 0x85 || u == 0xA0
        || u == 0x1680 || (0x2000 <= u && u <= 0x200A) || u == 0x2028 || u == 0x2029 || u == 0x202F
        || u == 0x205F || u == 0x3000
}

fn letter_char(c: char) -> (r: bool)
    ensures
        r == is_ascii_letter(c),
{
    let u = c as u32;
    (65 <= u && u <= 90) || (97 <= u && u <= 122)
}

fn hex_digit_char(c: char) -> (r: bool)
    ensures
        r == is_hex_digit(c),
{
    let u = c as u32;
    (48 <= u && u <= 57) || (65 <= u && u <= 70) || (97 <= u && u <= 102)
}

fn word_char(c: char) -> (r: bool)
    ensures
        r == is_word_char(c),
{
    let u = c as u32;
    (65 <= u && u <= 90) || (97 <= u && u <= 122) || (48 <= u && u <= 57) || c == '_'
}

fn local_char(c: char) -> (r: bool)
    ensures
        r == is_local_char(c),
{
    letter_char(c) || (c as u32 >= 48 && c as u32 <= 57) || c == '.' || c == '_' || c == '%'
        || c == '+' || c == '-'
}

fn domain_char(c: char) -> (r: bool)
    ensures
        r == is_domain_char(c),
{
    letter_char(c) || (c as u32 >= 48 && c as u32 <= 57) || c == '.' || c == '-'
}

// ---------------------------------------------------------------------------
// Executable matchers
// ---------------------------------------------------------------------------

/// Collects the characters of a string into a vector.
fn chars_of(s: &str) -> (v: Vec<char>)
    ensures
        v@ == s@,
{
    let n = s.unicode_len();
    let mut v: Vec<char> = Vec::new();
    let mut i: usize = 0;
    while i < n
        invariant
            n == s@.len(),
            i <= n,
            v@ == s@.take(i as int),
        decreases n - i,
    {
        let c = s.get_char(i);
        proof {
            assert(s@.take(i + 1) =~= s@.take(i as int).push(s@[i as int]));
        }
        v.push(c);
        i = i + 1;
    }
    proof {
        assert(s@.take(n as int) =~= s@);
    }
    v
}

fn url_tail_check(s: &Vec<char>, j: usize) -> (r: bool)
    requires
        j <= s@.len(),
    ensures
        r == url_tail_at(s@, j as int),
{
    let n = s.len();
    if n - j < 2 {
        return false;
    }
    let c0 = s[j];
    let c1 = s[j + 1];
    !wspace_char(c0) && c0 != '/' && c0 != '$' && c0 != '.' && c0 != '?' && c0 != '#' && c1 != '\n'
}

fn url_check_at(s: &Vec<char>, i: usize) -> (r: bool)
    requires
        i < s@.len(),
    ensures
        r == url_match_at(s@, i as int),
{
    let n = s.len();
    if n - i < 9 {
        return false;
    }
    if !(s[i] == 'h' && s[i + 1] == 't' && s[i + 2] == 't' && s[i + 3] == 'p') {
        return false;
    }
    if s[i + 4] == ':' {
        if s[i + 5] == '/' && s[i + 6] == '/' {
            url_tail_check(s, i + 7)
        } else {
            false
        }
    } else if s[i + 4] == 's' {
        if n - i < 10 {
            false
        } else if s[i + 5] == ':' && s[i + 6] == '/' && s[i + 7] == '/' {
            url_tail_check(s, i + 8)
        } else {
            false
        }
    } else {
        false
    }
}

fn find_url(s: &Vec<char>) -> (r: bool)
    ensures
        r == is_url(s@),
{
    let n = s.len();
    let mut i: usize = 0;
    while i < n
        invariant
            n == s@.len(),
            i <= n,
            forall|k: int| 0 <= k < i ==> !url_match_at(s@, k),
        decreases n - i,
    {
        if url_check_at(s, i) {
            return true;
        }
        i = i + 1;
    }
    proof {
        assert forall|k: int| !url_match_at(s@, k) by {
            if 0 <= k < s@.len() {
            } else {
            }
        }
    }
    false
}

/// Scans left from `a` to the start of the maximal run of local-part
/// characters ending at `a`.
fn local_run_start(s: &Vec<char>, a: usize) -> (m: usize)
    requires
        a <= s@.len(),
    ensures
        m <= a,
        forall|k: int| m <= k < a ==> is_local_char(s@[k]),
        m > 0 ==> !is_local_char(s@[m - 1]),
    decreases a,
{
    let mut m: usize = a;
    while m > 0
        invariant
            m <= a,
            a <= s@.len(),
            forall|k: int| m <= k < a ==> is_local_char(s@[k]),
        decreases m,
    {
        if !local_char(s[m - 1]) {
            return m;
        }
        m = m - 1;
    }
    m
}

/// Decides whether a word boundary falls at some position in `[m, a)`.
fn has_boundary_in(s: &Vec<char>, m: usize, a: usize) -> (r: bool)
    requires
        m <= a,
        a <= s@.len(),
    ensures
        r == exists|i: int| m <= i < a && boundary_at(s@, i),
{
    let mut i: usize = m;
    while i < a
        invariant
            m <= i <= a,
            a <= s@.len(),
            forall|k: int| m <= k < i ==> !boundary_at(s@, k),
        decreases a - i,
    {
        let wprev: bool = if i > 0 {
            word_char(s[i - 1])
        } else {
            false
        };
        let wcur: bool = word_char(s[i]);
        if wprev != wcur {
            assert(boundary_at(s@, i as int));
            return true;
        }
        i = i + 1;
    }
    false
}

/// Scans right from `start` to the end of the maximal run of domain
/// characters.
fn domain_run_end(s: &Vec<char>, start: usize) -> (t: usize)
    requires
        start <= s@.len(),
    ensures
        start <= t <= s@.len(),
        forall|k: int| start <= k < t ==> is_domain_char(s@[k]),
        t < s@.len() ==> !is_domain_char(s@[t as int]),
{
    let n = s.len();
    let mut t: usize = start;
    while t < n
        invariant
            start <= t <= n,
            n == s@.len(),
            forall|k: int| start <= k < t ==> is_domain_char(s@[k]),
        decreases n - t,
    {
        if !domain_char(s[t]) {
            return t;
        }
        t = t + 1;
    }
    t
}

/// Scans right from `start` to the end of the maximal run of letters.
fn letter_run_end(s: &Vec<char>, start: usize) -> (t: usize)
    requires
        start <= s@.len(),
    ensures
        start <= t <= s@.len(),
        forall|k: int| start <= k < t ==> is_ascii_letter(s@[k]),
        t < s@.len() ==> !is_ascii_letter(s@[t as int]),
{
    let n = s.len();
    let mut t: usize = start;
    while t < n
        invariant
            start <= t <= n,
            n == s@.len(),
            forall|k: int| start <= k < t ==> is_ascii_letter(s@[k]),
        decreases n - t,
    {
        if !letter_char(s[t]) {
            return t;
        }
        t = t + 1;
    }
    t
}

/// Decides whether a valid top-level domain follows the dot at `d`.
fn tld_check(s: &Vec<char>, d: usize) -> (r: bool)
    requires
        d < s@.len(),
    ensures
        r == exists|e: int| tld_ok(s@, d as int, e),
{
    let n = s.len();
    let t = letter_run_end(s, d + 1);
    let word_after: bool = if t < n {
        word_char(s[t])
    } else {
        false
    };
    let ok = t - d >= 3 && !word_after;
    proof {
        if ok {
            assert(word_at(s@, t - 1));
            assert(!word_at(s@, t as int));
            assert(tld_ok(s@, d as int, t as int));
        } else {
            assert forall|e: int| !tld_ok(s@, d as int, e) by {
                if tld_ok(s@, d as int, e) {
                    if e > t {
                        assert(is_ascii_letter(s@[t as int]));
                        assert(is_word_char(s@[t as int]));
                        assert(false);
                    } else if e < t {
                        assert(word_at(s@, e - 1));
                        assert(word_at(s@, e));
                        assert(false);
                    } else {
                        assert(word_at(s@, e - 1));
                        assert(!word_at(s@, e));
                        assert(false);
                    }
                }
            }
        }
    }
    ok
}

/// Decides whether an email match is anchored at the `@` at position `a`.
fn email_at(s: &Vec<char>, a: usize) -> (r: bool)
    requires
        a < s@.len(),
        s@[a as int] == '@',
    ensures
        r == email_match_at(s@, a as int),
{
    let m = local_run_start(s, a);
    let local_ok: bool = if m < a {
        has_boundary_in(s, m, a)
    } else {
        false
    };
    proof {
        if local_ok {
            let i = choose|i: int| m <= i < a && boundary_at(s@, i);
            assert(local_span_ok(s@, i, a as int));
        } else {
            assert forall|i: int| !local_span_ok(s@, i, a as int) by {
                if local_span_ok(s@, i, a as int) {
                    if i < m {
                        assert(is_local_char(s@[m - 1]));
                        assert(false);
                    } else {
                        assert(m <= i < a && boundary_at(s@, i));
                        assert(false);
                    }
                }
            }
        }
        assert(local_ok == has_local(s@, a as int));
    }
    if !local_ok {
        return false;
    }
    let n = s.len();
    let dmax = domain_run_end(s, a + 1);
    if dmax <= a + 1 {
        proof {
            assert forall|dd: int, e: int| !domain_span_ok(s@, a as int, dd, e) by {
                if domain_span_ok(s@, a as int, dd, e) {
                    assert(a + 1 < dd < s@.len());
                    assert(is_domain_char(s@[a + 1]));
                    assert(false);
                }
            }
            assert(!has_domain(s@, a as int));
        }
        return false;
    }
    let mut d: usize = a + 2;
    while d < dmax
        invariant
            a + 2 <= d,
            d <= dmax,
            a < s@.len(),
            s@[a as int] == '@',
            has_local(s@, a as int),
            dmax <= s@.len(),
            a + 1 <= dmax,
            forall|k: int| a + 1 <= k < dmax ==> is_domain_char(s@[k]),
            dmax < s@.len() ==> !is_domain_char(s@[dmax as int]),
            forall|dd: int, e: int| a + 2 <= dd < d ==> !domain_span_ok(s@, a as int, dd, e),
        decreases dmax - d,
    {
        if s[d] == '.' {
            if tld_check(s, d) {
                proof {
                    let e = choose|e: int| tld_ok(s@, d as int, e);
                    assert(domain_span_ok(s@, a as int, d as int, e));
                    assert(has_domain(s@, a as int));
                }
                return true;
            }
        }
        proof {
            assert forall|e: int| !domain_span_ok(s@, a as int, d as int, e) by {}
        }
        d = d + 1;
    }
    proof {
        assert forall|dd: int, e: int| !domain_span_ok(s@, a as int, dd, e) by {
            if domain_span_ok(s@, a as int, dd, e) {
                if dd < d {
                } else {
                    assert(dd >= dmax);
                    if dd == dmax {
                        assert(dmax < s@.len());
                        assert(s@[dmax as int] == '.');
                        assert(is_domain_char(s@[dmax as int]));
                        assert(false);
                    } else {
                        assert(a + 1 <= dmax < dd);
                        assert(is_domain_char(s@[dmax as int]));
                        assert(dmax < s@.len());
                        assert(false);
                    }
                }
            }
        }
        assert(!has_domain(s@, a as int));
    }
    false
}

fn find_email(s: &Vec<char>) -> (r: bool)
    ensures
        r == is_email(s@),
{
    let n = s.len();
    let mut a: usize = 0;
    while a < n
        invariant
            n == s@.len(),
            a <= n,
            forall|k: int| 0 <= k < a ==> !email_match_at(s@, k),
        decreases n - a,
    {
        if s[a] == '@' {
            if email_at(s, a) {
                return true;
            }
        }
        a = a + 1;
    }
    proof {
        assert forall|k: int| !email_match_at(s@, k) by {
            if 0 <= k < s@.len() {
            } else {
            }
        }
    }
    false
}

fn check_color(s: &Vec<char>) -> (r: bool)
    ensures
        r == is_color(s@),
{
    let n = s.len();
    if !(n == 4 || n == 7) {
        return false;
    }
    if s[0] != '#' {
        return false;
    }
    let mut i: usize = 1;
    while i < n
        invariant
            1 <= i <= n,
            n == s@.len(),
            forall|k: int| 1 <= k < i ==> is_hex_digit(s@[k]),
        decreases n - i,
    {
        if !hex_digit_char(s[i]) {
            return false;
        }
        i = i + 1;
    }
    true
}

/// Determines the sub-type of a text payload: the label of the first
/// matching pattern in the priority order URL, email, color, or nothing
/// when no pattern matches.
pub fn get_text_subtype(value: &str) -> (r: Option<String>)
    ensures
        r is Some <==> classify(value@) is Some,
        r matches Some(label) ==> classify(value@) matches Some(t) && label@ == subtype_label(t),
{
    let chars = chars_of(value);
    if find_url(&chars) {
        Some(String::from_str("url"))
    } else if find_email(&chars) {
        Some(String::from_str("email"))
    } else if check_color(&chars) {
        Some(String::from_str("color"))
    } else {
        None
    }
}

} // verus!
