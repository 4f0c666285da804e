//! Character-level text utilities shared by the cleaning, keyword and
//! template modules. Strings are handled as sequences of Unicode scalar
//! values; the byte-level facts the callers need are derived from
//! `utf8_len`.

use vstd::prelude::*;

verus! {

broadcast use vstd::string::group_string_axioms;

/// Sets of characters that the trimming helpers strip.
#[derive(Clone, Copy, PartialEq, Eq, Debug)]
pub enum CharClass {
    /// Unicode `White_Space`, as used by `str::trim`.
    Whitespace,
    /// `:` `,` `;` `-` `—` around a command payload.
    CommandPunct,
    /// Whitespace or `.` `,` `!` `?` `:` `;` `-` `—` after a trailing keyword.
    EndPadding,
    /// `.` `!` `?` `*` `;` `:` after subtitle boilerplate.
    TrailingPunct,
}

/// The Unicode `White_Space` property (the set `char::is_whitespace` tests).
pub open spec fn is_ws(c: char) -> bool {
    ||| ('\u{9}' <= c && c <= '\u{d}')
    ||| c == ' '
    ||| c == '\u{85}'
    ||| c == '\u{a0}'
    ||| c == '\u{1680}'
    ||| ('\u{2000}' <= c && c <= '\u{200a}')
    ||| c == '\u{2028}'
    ||| c == '\u{2029}'
    ||| c == '\u{202f}'
    ||| c == '\u{205f}'
    ||| c == '\u{3000}'
}

pub open spec fn is_command_punct(c: char) -> bool {
    c == ':' || c == ',' || c == ';' || c == '-' || c == '—'
}

pub open spec fn in_class(c: char, class: CharClass) -> bool {
    match class {
        CharClass::Whitespace => is_ws(c),
        CharClass::CommandPunct => is_command_punct(c),
        CharClass::EndPadding => is_ws(c) || c == '.' || c == ',' || c == '!' || c == '?' || c
            == ':' || c == ';' || c == '-' || c == '—',
        CharClass::TrailingPunct => c == '.' || c == '!' || c == '?' || c == '*' || c == ';' || c
            == ':',
    }
}

/// Same answer as `char::is_whitespace`.
pub fn is_whitespace(c: char) -> (r: bool)
    ensures
        r == is_ws(c),
{
    ('\u{9}' <= c && c <= '\u{d}') || c == ' ' || c == '\u{85}' || c == '\u{a0}' || c == '\u{1680}'
        || ('\u{2000}' <= c && c <= '\u{200a}') || c == '\u{2028}' || c == '\u{2029}' || c
        == '\u{202f}' || c == '\u{205f}' || c == '\u{3000}'
}

pub fn is_in_class(c: char, class: CharClass) -> (r: bool)
    ensures
        r == in_class(c, class),
{
    match class {
        CharClass::Whitespace => is_whitespace(c),
        CharClass::CommandPunct => c == ':' || c == ',' || c == ';' || c == '-' || c == '—',
        CharClass::EndPadding => is_whitespace(c) || c == '.' || c == ',' || c == '!' || c == '?'
            || c == ':' || c == ';' || c == '-' || c == '—',
        CharClass::TrailingPunct => c == '.' || c == '!' || c == '?' || c == '*' || c == ';' || c
            == ':',
    }
}

/// Number of leading characters of `s` that belong to `class`.
pub open spec fn lead_count(s: Seq<char>, class: CharClass) -> nat
    decreases s.len(),
{
    if s.len() > 0 && in_class(s[0], class) {
        1 + lead_count(s.drop_first(), class)
    } else {
        0
    }
}

/// Number of trailing characters of `s` that belong to `class`.
pub open spec fn trail_count(s: Seq<char>, class: CharClass) -> nat
    decreases s.len(),
{
    if s.len() > 0 && in_class(s.last(), class) {
        1 + trail_count(s.drop_last(), class)
    } else {
        0
    }
}

/// `s` without its leading characters of `class` (`trim_start_matches`).
pub open spec fn strip_start(s: Seq<char>, class: CharClass) -> Seq<char> {
    s.skip(lead_count(s, class) as int)
}

/// `s` without its trailing characters of `class` (`trim_end_matches`).
pub open spec fn strip_end(s: Seq<char>, class: CharClass) -> Seq<char> {
    s.take(s.len() - trail_count(s, class))
}

/// `str::trim`.
pub open spec fn trim(s: Seq<char>) -> Seq<char> {
    strip_end(strip_start(s, CharClass::Whitespace), CharClass::Whitespace)
}

pub proof fn lemma_lead_count_bound(s: Seq<char>, class: CharClass)
    ensures
        lead_count(s, class) <= s.len(),
        forall|i: int| 0 <= i < lead_count(s, class) ==> in_class(#[trigger] s[i], class),
        lead_count(s, class) < s.len() ==> !in_class(s[lead_count(s, class) as int], class),
    decreases s.len(),
{
    if s.len() > 0 && in_class(s[0], class) {
        lemma_lead_count_bound(s.drop_first(), class);
        assert forall|i: int| 0 <= i < lead_count(s, class) implies in_class(#[trigger] s[i], class) by {
            if i > 0 {
                assert(s[i] == s.drop_first()[i - 1]);
            }
        }
    }
}

pub proof fn lemma_trail_count_bound(s: Seq<char>, class: CharClass)
    ensures
        trail_count(s, class) <= s.len(),
        forall|i: int|
            s.len() - trail_count(s, class) <= i < s.len() ==> in_class(#[trigger] s[i], class),
        trail_count(s, class) < s.len() ==> !in_class(
            s[s.len() - trail_count(s, class) - 1],
            class,
        ),
    decreases s.len(),
{
    if s.len() > 0 && in_class(s.last(), class) {
        lemma_trail_count_bound(s.drop_last(), class);
        assert forall|i: int|
            s.len() - trail_count(s, class) <= i < s.len() implies in_class(#[trigger] s[i], class) by {
            if i < s.len() - 1 {
                assert(s[i] == s.drop_last()[i]);
            }
        }
    }
}

/// Characterizes `lead_count` by its two defining facts.
pub proof fn lemma_lead_count_unique(s: Seq<char>, class: CharClass, n: nat)
    requires
        n <= s.len(),
        forall|i: int| 0 <= i < n ==> in_class(#[trigger] s[i], class),
        n < s.len() ==> !in_class(s[n as int], class),
    ensures
        lead_count(s, class) == n,
    decreases s.len(),
{
    if n > 0 {
        assert(in_class(s[0], class));
        assert forall|i: int| 0 <= i < n - 1 implies in_class(#[trigger] s.drop_first()[i], class) by {
            assert(s.drop_first()[i] == s[i + 1]);
        }
        if n - 1 < s.drop_first().len() {
            assert(s.drop_first()[n - 1] == s[n as int]);
        }
        lemma_lead_count_unique(s.drop_first(), class, (n - 1) as nat);
    }
}

/// Characterizes `trail_count` by its two defining facts.
pub proof fn lemma_trail_count_unique(s: Seq<char>, class: CharClass, n: nat)
    requires
        n <= s.len(),
        forall|i: int| s.len() - n <= i < s.len() ==> in_class(#[trigger] s[i], class),
        n < s.len() ==> !in_class(s[s.len() - n - 1], class),
    ensures
        trail_count(s, class) == n,
    decreases s.len(),
{
    if n > 0 {
        assert(in_class(s[s.len() - 1], class));
        let t = s.drop_last();
        assert forall|i: int| t.len() - (n - 1) <= i < t.len() implies in_class(#[trigger] t[i], class) by {
            assert(t[i] == s[i]);
        }
        if n - 1 < t.len() {
            assert(t[t.len() - (n - 1) - 1] == s[s.len() - n - 1]);
        }
        lemma_trail_count_unique(t, class, (n - 1) as nat);
    }
}

/// Index of the first character in `v[lo..hi]` outside `class` (or `hi`).
pub fn skip_leading(v: &Vec<char>, lo: usize, hi: usize, class: CharClass) -> (r: usize)
    requires
        lo <= hi <= v@.len(),
    ensures
        r == lo + lead_count(v@.subrange(lo as int, hi as int), class),
        lo <= r <= hi,
{
    let mut i: usize = lo;
    while i < hi && is_in_class(v[i], class)
        invariant
            lo <= i <= hi <= v@.len(),
            forall|k: int| lo <= k < i ==> in_class(#[trigger] v@[k], class),
        decreases hi - i,
    {
        i = i + 1;
    }
    proof {
        let s = v@.subrange(lo as int, hi as int);
        assert forall|k: int| 0 <= k < i - lo implies in_class(#[trigger] s[k], class) by {
            assert(s[k] == v@[lo + k]);
        }
        if i < hi {
            assert(s[i - lo] == v@[i as int]);
        }
        lemma_lead_count_unique(s, class, (i - lo) as nat);
    }
    i
}

/// One past the last character in `v[lo..hi]` outside `class` (or `lo`).
pub fn skip_trailing(v: &Vec<char>, lo: usize, hi: usize, class: CharClass) -> (r: usize)
    requires
        lo <= hi <= v@.len(),
    ensures
        r == hi - trail_count(v@.subrange(lo as int, hi as int), class),
        lo <= r <= hi,
{
    let mut j: usize = hi;
    while j > lo && is_in_class(v[j - 1], class)
        invariant
            lo <= j <= hi <= v@.len(),
            forall|k: int| j <= k < hi ==> in_class(#[trigger] v@[k], class),
        decreases j - lo,
    {
        j = j - 1;
    }
    proof {
        let s = v@.subrange(lo as int, hi as int);
        assert forall|k: int| s.len() - (hi - j) <= k < s.len() implies in_class(
            #[trigger] s[k],
            class,
        ) by {
            assert(s[k] == v@[lo + k]);
        }
        if j > lo {
            assert(s[s.len() - (hi - j) - 1] == v@[j - 1]);
        }
        lemma_trail_count_unique(s, class, (hi - j) as nat);
    }
    j
}

/// The characters of `s`, in order.
pub fn chars_of(s: &str) -> (v: Vec<char>)
    ensures
        v@ == s@,
{
    let mut v: Vec<char> = Vec::new();
    for c in it: s.chars()
        invariant
            v@ == it.seq().take(it.index()),
    {
        v.push(c);
    }
    assert(v@ =~= s@);
    v
}

/// Calls `String::push`: the string afterwards is the old one with `c`
/// appended.
#[verifier::external_body]
pub(crate) fn push_char(s: &mut String, c: char)
    ensures
        final(s)@ == old(s)@.push(c),
{
    s.push(c);
}

/// Calls `String::push_str`: the string afterwards is the old one followed
/// by `t`.
#[verifier::external_body]
pub(crate) fn push_str(s: &mut String, t: &str)
    ensures
        final(s)@ == old(s)@ + t@,
{
    s.push_str(t);
}

/// The string made of `v[lo..hi]`.
pub fn string_of_range(v: &Vec<char>, lo: usize, hi: usize) -> (r: String)
    requires
        lo <= hi <= v@.len(),
    ensures
        r@ == v@.subrange(lo as int, hi as int),
{
    let mut r = String::new();
    let mut i: usize = lo;
    while i < hi
        invariant
            lo <= i <= hi <= v@.len(),
            r@ == v@.subrange(lo as int, i as int),
        decreases hi - i,
    {
        push_char(&mut r, v[i]);
        assert(v@.subrange(lo as int, i + 1) =~= v@.subrange(lo as int, i as int).push(v@[i as int]));
        i = i + 1;
    }
    r
}

/// The string made of all of `v`.
pub fn string_of(v: &Vec<char>) -> (r: String)
    ensures
        r@ == v@,
{
    let r = string_of_range(v, 0, v.len());
    assert(v@.subrange(0, v@.len() as int) =~= v@);
    r
}

/// `str::trim`, as an owned string.
pub fn trimmed(s: &str) -> (r: String)
    ensures
        r@ == trim(s@),
{
    let v = chars_of(s);
    let (lo, hi) = trim_bounds(&v, 0, v.len());
    assert(v@.subrange(0, v@.len() as int) =~= s@);
    string_of_range(&v, lo, hi)
}

/// Bounds of `trim(v[lo..hi])` inside `v`.
pub fn trim_bounds(v: &Vec<char>, lo: usize, hi: usize) -> (r: (usize, usize))
    requires
        lo <= hi <= v@.len(),
    ensures
        lo <= r.0 <= r.1 <= hi,
        v@.subrange(r.0 as int, r.1 as int) == trim(v@.subrange(lo as int, hi as int)),
{
    let a = skip_leading(v, lo, hi, CharClass::Whitespace);
    let b = skip_trailing(v, a, hi, CharClass::Whitespace);
    proof {
        let s = v@.subrange(lo as int, hi as int);
        let t = strip_start(s, CharClass::Whitespace);
        assert(t =~= v@.subrange(a as int, hi as int));
        assert(strip_end(t, CharClass::Whitespace) =~= v@.subrange(a as int, b as int));
    }
    (a, b)
}

/// Unicode `Alphabetic` or `Numeric`, the property `char::is_alphanumeric` tests.
pub uninterp spec fn unicode_alphanumeric(c: char) -> bool;

/// The full lowercase mapping of one character, as `char::to_lowercase` yields it.
pub uninterp spec fn char_lowercase(c: char) -> Seq<char>;

/// The lowercase form of a whole string, as `str::to_lowercase` returns it
/// (this is not a per-character map: a final sigma lowercases differently).
pub uninterp spec fn str_lowercase(s: Seq<char>) -> Seq<char>;

/// Calls `char::is_alphanumeric`; the result is the character's Unicode
/// `Alphabetic`/`Numeric` property, which is only named here.
#[verifier::external_body]
pub(crate) fn char_is_alphanumeric(c: char) -> (r: bool)
    ensures
        r == unicode_alphanumeric(c),
{
    c.is_alphanumeric()
}

/// Calls `char::to_lowercase` and collects the characters it yields; the
/// result is a function of `c` alone and is only named here.
#[verifier::external_body]
pub(crate) fn char_to_lowercase(c: char) -> (r: String)
    ensures
        r@ == char_lowercase(c),
{
    c.to_lowercase().collect()
}

/// Calls `str::to_lowercase`; the result is a function of `s` alone and is
/// only named here.
#[verifier::external_body]
pub(crate) fn str_to_lowercase(s: &str) -> (r: String)
    ensures
        r@ == str_lowercase(s@),
{
    s.to_lowercase()
}

/// Whether `s` ends with `t`, over characters.
pub open spec fn ends_with(s: Seq<char>, t: Seq<char>) -> bool {
    t.len() <= s.len() && s.subrange(s.len() - t.len(), s.len() as int) == t
}

pub fn vec_ends_with(s: &Vec<char>, len: usize, t: &Vec<char>) -> (r: bool)
    requires
        len <= s@.len(),
    ensures
        r == ends_with(s@.take(len as int), t@),
{
    if t.len() > len {
        return false;
    }
    let off: usize = len - t.len();
    let mut i: usize = 0;
    while i < t.len()
        invariant
            off + t@.len() == len <= s@.len(),
            i <= t@.len(),
            forall|k: int| 0 <= k < i ==> s@[off + k] == t@[k],
        decreases t@.len() - i,
    {
        if s[off + i] != t[i] {
            proof {
                assert(s@.take(len as int).subrange(off as int, len as int)[i as int] == s@[off + i]);
            }
            return false;
        }
        i = i + 1;
    }
    assert(s@.take(len as int).subrange(off as int, len as int) =~= t@);
    true
}

/// `s` with every non-overlapping occurrence of `pat`, scanning left to
/// right, replaced by `rep` (`str::replace` for a non-empty pattern).
pub open spec fn replace_all(s: Seq<char>, pat: Seq<char>, rep: Seq<char>) -> Seq<char>
    decreases s.len(),
{
    if pat.len() == 0 || s.len() < pat.len() {
        s
    } else if s.take(pat.len() as int) == pat {
        rep + replace_all(s.skip(pat.len() as int), pat, rep)
    } else {
        seq![s[0]] + replace_all(s.drop_first(), pat, rep)
    }
}

pub fn starts_at(v: &Vec<char>, i: usize, pat: &Vec<char>) -> (r: bool)
    requires
        i <= v@.len(),
    ensures
        r == (pat@.len() <= v@.len() - i && v@.skip(i as int).take(pat@.len() as int) == pat@),
{
    if pat.len() > v.len() - i {
        return false;
    }
    let n: usize = v.len();
    let mut k: usize = 0;
    while k < pat.len()
        invariant
            n == v@.len(),
            i <= v@.len(),
            pat@.len() <= v@.len() - i,
            k <= pat@.len(),
            forall|j: int| 0 <= j < k ==> v@[i + j] == pat@[j],
        decreases pat@.len() - k,
    {
        assert(i + k < n);
        if v[i + k] != pat[k] {
            assert(v@.skip(i as int).take(pat@.len() as int)[k as int] == v@[i + k]);
            return false;
        }
        k = k + 1;
    }
    assert(v@.skip(i as int).take(pat@.len() as int) =~= pat@);
    true
}

/// `str::replace` with a non-empty pattern.
pub fn replace_str(s: &str, pat: &str, rep: &str) -> (r: String)
    requires
        pat@.len() > 0,
    ensures
        r@ == replace_all(s@, pat@, rep@),
{
    let v = chars_of(s);
    let p = chars_of(pat);
    let mut out = String::new();
    let mut i: usize = 0;
    assert(v@.skip(0) =~= v@);
    while i < v.len()
        invariant
            i <= v@.len(),
            p@.len() > 0,
            out@ + replace_all(v@.skip(i as int), p@, rep@) == replace_all(v@, p@, rep@),
        decreases v@.len() - i,
    {
        let ghost rest = v@.skip(i as int);
        if starts_at(&v, i, &p) {
            push_str(&mut out, rep);
            assert(rest.skip(p@.len() as int) =~= v@.skip(i + p@.len()));
            i = i + p.len();
        } else {
            push_char(&mut out, v[i]);
            assert(rest.drop_first() =~= v@.skip(i + 1));
            assert(rest[0] == v@[i as int]);
            i = i + 1;
        }
        proof {
            assert(out@ + replace_all(v@.skip(i as int), p@, rep@) =~= replace_all(v@, p@, rep@));
        }
    }
    proof {
        assert(v@.skip(i as int) =~= Seq::<char>::empty());
        assert(out@ + Seq::<char>::empty() =~= out@);
    }
    out
}

/// The order of `str`: characters compared by code point, the first
/// difference deciding, and a prefix coming first.
pub open spec fn text_le(a: Seq<char>, b: Seq<char>) -> bool
    decreases a.len(),
{
    if a.len() == 0 {
        true
    } else if b.len() == 0 {
        false
    } else if a[0] != b[0] {
        (a[0] as int) < (b[0] as int)
    } else {
        text_le(a.drop_first(), b.drop_first())
    }
}

/// Any two strings are ordered one way or the other.
pub proof fn lemma_text_le_total(a: Seq<char>, b: Seq<char>)
    ensures
        text_le(a, b) || text_le(b, a),
    decreases a.len(),
{
    if a.len() > 0 && b.len() > 0 && a[0] == b[0] {
        lemma_text_le_total(a.drop_first(), b.drop_first());
    }
}

/// The order of strings is transitive.
pub proof fn lemma_text_le_transitive(a: Seq<char>, b: Seq<char>, c: Seq<char>)
    requires
        text_le(a, b),
        text_le(b, c),
    ensures
        text_le(a, c),
    decreases a.len(),
{
    if a.len() > 0 && b.len() > 0 && c.len() > 0 && a[0] == b[0] && b[0] == c[0] {
        lemma_text_le_transitive(a.drop_first(), b.drop_first(), c.drop_first());
    }
}

/// Whether `a` comes before `b` or equals it, in the order of `str`.
pub fn text_le_exec(a: &Vec<char>, b: &Vec<char>) -> (r: bool)
    ensures
        r == text_le(a@, b@),
{
    let mut i: usize = 0;
    assert(a@.skip(0) =~= a@);
    assert(b@.skip(0) =~= b@);
    while i < a.len() && i < b.len() && a[i] == b[i]
        invariant
            i <= a@.len(),
            i <= b@.len(),
            text_le(a@, b@) == text_le(a@.skip(i as int), b@.skip(i as int)),
        decreases a@.len() - i,
    {
        assert(a@.skip(i as int).drop_first() =~= a@.skip(i + 1));
        assert(b@.skip(i as int).drop_first() =~= b@.skip(i + 1));
        i = i + 1;
    }
    if i == a.len() {
        true
    } else if i == b.len() {
        false
    } else {
        assert(a@.skip(i as int)[0] == a@[i as int]);
        assert(b@.skip(i as int)[0] == b@[i as int]);
        a[i] < b[i]
    }
}

/// Whether two strings hold the same characters.
pub fn same_text(a: &str, b: &str) -> (r: bool)
    ensures
        r == (a@ == b@),
{
    let va = chars_of(a);
    let vb = chars_of(b);
    if va.len() != vb.len() {
        return false;
    }
    let mut i: usize = 0;
    while i < va.len()
        invariant
            va@ == a@,
            vb@ == b@,
            va@.len() == vb@.len(),
            i <= va@.len(),
            forall|k: int| 0 <= k < i ==> va@[k] == vb@[k],
        decreases va@.len() - i,
    {
        if va[i] != vb[i] {
            assert(va@[i as int] != vb@[i as int]);
            return false;
        }
        i = i + 1;
    }
    assert(va@ =~= vb@);
    true
}

/// The rest of `s` after the prefix `p`, where `s` starts with `p`.
pub fn strip_prefix_str(s: &str, p: &str) -> (r: Option<String>)
    ensures
        match r {
            Some(rest) => p@.is_prefix_of(s@) && rest@ == s@.skip(p@.len() as int),
            None => !p@.is_prefix_of(s@),
        },
{
    let v = chars_of(s);
    let pv = chars_of(p);
    if starts_at(&v, 0, &pv) {
        assert(v@.skip(0) =~= v@);
        let rest = string_of_range(&v, pv.len(), v.len());
        assert(rest@ =~= s@.skip(p@.len() as int));
        Some(rest)
    } else {
        assert(v@.skip(0) =~= v@);
        proof {
            if p@.is_prefix_of(s@) {
                assert(v@.skip(0).take(pv@.len() as int) =~= pv@);
            }
        }
        None
    }
}

} // verus!
