//! Removal of subtitle-channel boilerplate ("Продолжение следует",
//! "Thanks for watching", ...) from the end of a transcript.
//!
//! Matching is done on the lowercase form of the trimmed transcript, which is
//! computed once. A match may be followed by any number of `. ! ? * ; :`.
//! The cut itself is made in the original-case text: trailing punctuation is
//! skipped, then as many bytes as the boilerplate phrase has in UTF-8 are
//! removed, and the remainder is trimmed.

use crate::text::{
    chars_of, ends_with, in_class, is_in_class, is_ws, lead_count, lemma_lead_count_bound,
    lemma_lead_count_unique, lemma_trail_count_bound, lemma_trail_count_unique, skip_trailing,
    str_lowercase, str_to_lowercase, string_of, strip_end, strip_start, trail_count, trim,
    trim_bounds, vec_ends_with, CharClass,
};
use vstd::prelude::*;

verus! {

broadcast use vstd::string::group_string_axioms;

/// Number of boilerplate phrases.
pub const SUFFIX_COUNT: usize = 7;

/// The boilerplate phrases, in the order they are tried.
pub open spec fn unwanted_suffix(i: int) -> Seq<char> {
    if i == 0 {
        "продолжение следует"@
    } else if i == 1 {
        "субтитры сделал dimatorzok"@
    } else if i == 2 {
        "субтитры сделаны dimatorzok"@
    } else if i == 3 {
        "subtitles by dimatorzok"@
    } else if i == 4 {
        "subtitles made by dimatorzok"@
    } else if i == 5 {
        "to be continued"@
    } else {
        "thanks for watching"@
    }
}

fn suffix_at(i: usize) -> (r: &'static str)
    requires
        i < SUFFIX_COUNT,
    ensures
        r@ == unwanted_suffix(i as int),
{
    if i == 0 {
        "продолжение следует"
    } else if i == 1 {
        "субтитры сделал dimatorzok"
    } else if i == 2 {
        "субтитры сделаны dimatorzok"
    } else if i == 3 {
        "subtitles by dimatorzok"
    } else if i == 4 {
        "subtitles made by dimatorzok"
    } else if i == 5 {
        "to be continued"
    } else {
        "thanks for watching"
    }
}

/// UTF-8 width of one character (what `char::len_utf8` returns).
pub open spec fn utf8_len(c: char) -> nat {
    if (c as int) < 0x80 {
        1
    } else if (c as int) < 0x800 {
        2
    } else if (c as int) < 0x10000 {
        3
    } else {
        4
    }
}

/// Number of bytes `s` takes in UTF-8.
pub open spec fn byte_len(s: Seq<char>) -> nat
    decreases s.len(),
{
    if s.len() == 0 {
        0
    } else {
        byte_len(s.drop_last()) + utf8_len(s.last())
    }
}

fn utf8_byte_count(v: &Vec<char>) -> (r: u128)
    ensures
        r == byte_len(v@),
{
    let mut total: u128 = 0;
    let mut i: usize = 0;
    while i < v.len()
        invariant
            i <= v@.len(),
            total == byte_len(v@.take(i as int)),
            total <= 4 * i,
        decreases v@.len() - i,
    {
        assert(v@.take(i + 1).drop_last() =~= v@.take(i as int));
        total = total + char_utf8_len(v[i]) as u128;
        i = i + 1;
    }
    assert(v@.take(v@.len() as int) =~= v@);
    total
}

fn char_utf8_len(c: char) -> (r: usize)
    ensures
        r == utf8_len(c),
{
    let v: u32 = c as u32;
    if v < 0x80 {
        1
    } else if v < 0x800 {
        2
    } else if v < 0x10000 {
        3
    } else {
        4
    }
}

/// `p` ends with `ls` once some of its trailing `. ! ? * ; :` are
/// dropped, checking after each drop.
pub open spec fn probe_match(p: Seq<char>, ls: Seq<char>) -> bool
    decreases p.len(),
{
    if ends_with(p, ls) {
        true
    } else if p.len() > 0 && in_class(p.last(), CharClass::TrailingPunct) {
        probe_match(p.drop_last(), ls)
    } else {
        false
    }
}

/// Walks back from character index `q`, removing `need` more bytes.
/// `Some(0)` when fewer bytes remain; `None` when the byte position falls
/// inside a character (the slice would not be on a character boundary).
pub open spec fn back_cut(r: Seq<char>, q: nat, need: nat) -> Option<nat>
    decreases q,
{
    if need == 0 {
        Some(q)
    } else if q == 0 || q > r.len() {
        Some(0)
    } else if utf8_len(r[q - 1]) > need {
        None
    } else {
        back_cut(r, (q - 1) as nat, (need - utf8_len(r[q - 1])) as nat)
    }
}

/// One boilerplate phrase applied to the current text `r`.
pub open spec fn clean_step(r: Seq<char>, lower0: Seq<char>, i: int) -> Option<Seq<char>> {
    let ls = str_lowercase(unwanted_suffix(i));
    if ls.len() == 0 || !probe_match(lower0, ls) {
        Some(r)
    } else {
        let p = (r.len() - trail_count(r, CharClass::TrailingPunct)) as nat;
        match back_cut(r, p, byte_len(unwanted_suffix(i))) {
            None => None,
            Some(q) => Some(trim(r.take(q as int))),
        }
    }
}

/// The phrases `i..` applied in order.
pub open spec fn clean_from(r: Seq<char>, lower0: Seq<char>, i: int) -> Option<Seq<char>>
    decreases SUFFIX_COUNT - i,
{
    if i >= SUFFIX_COUNT || i < 0 {
        Some(r)
    } else {
        match clean_step(r, lower0, i) {
            None => None,
            Some(r2) => clean_from(r2, lower0, i + 1),
        }
    }
}

/// The cleaned transcript, or `None` where a cut would not fall on a
/// character boundary.
pub open spec fn clean_result(text: Seq<char>) -> Option<Seq<char>> {
    let r0 = trim(text);
    if r0.len() == 0 {
        Some(r0)
    } else {
        clean_from(r0, str_lowercase(r0), 0)
    }
}

pub open spec fn is_prefix(a: Seq<char>, b: Seq<char>) -> bool {
    a.len() <= b.len() && b.take(a.len() as int) == a
}

fn probe_matches(p: &Vec<char>, ls: &Vec<char>) -> (r: bool)
    ensures
        r == probe_match(p@, ls@),
{
    let mut len: usize = p.len();
    assert(p@.take(len as int) =~= p@);
    loop
        invariant
            len <= p@.len(),
            probe_match(p@, ls@) == probe_match(p@.take(len as int), ls@),
        decreases len,
    {
        if vec_ends_with(p, len, ls) {
            return true;
        }
        if len > 0 && is_in_class(p[len - 1], CharClass::TrailingPunct) {
            assert(p@.take(len as int).drop_last() =~= p@.take(len - 1));
            assert(p@.take(len as int).last() == p@[len - 1]);
            len = len - 1;
        } else {
            return false;
        }
    }
}

fn cut_point(r: &Vec<char>, p: usize, bytes: u128) -> (res: Option<usize>)
    requires
        p <= r@.len(),
    ensures
        match res {
            None => back_cut(r@, p as nat, bytes as nat) is None,
            Some(q) => back_cut(r@, p as nat, bytes as nat) == Some(q as nat) && q <= p,
        },
{
    let mut q: usize = p;
    let mut need: u128 = bytes;
    loop
        invariant
            q <= p <= r@.len(),
            back_cut(r@, p as nat, bytes as nat) == back_cut(r@, q as nat, need as nat),
        decreases q,
    {
        if need == 0 {
            return Some(q);
        }
        if q == 0 {
            return Some(0);
        }
        let l = char_utf8_len(r[q - 1]) as u128;
        if l > need {
            return None;
        }
        need = need - l;
        q = q - 1;
    }
}

/// The characters of `v[lo..hi]` as a new vector.
fn sub_vec(v: &Vec<char>, lo: usize, hi: usize) -> (r: Vec<char>)
    requires
        lo <= hi <= v@.len(),
    ensures
        r@ == v@.subrange(lo as int, hi as int),
{
    let mut r: Vec<char> = Vec::new();
    let mut i: usize = lo;
    while i < hi
        invariant
            lo <= i <= hi <= v@.len(),
            r@ == v@.subrange(lo as int, i as int),
        decreases hi - i,
    {
        r.push(v[i]);
        assert(v@.subrange(lo as int, i + 1) =~= v@.subrange(lo as int, i as int).push(v@[i as int]));
        i = i + 1;
    }
    r
}

/// Applies every phrase to `r0`, matching against `lower0`.
fn clean_chars(r0: Vec<char>, lower0: &Vec<char>) -> (res: Option<Vec<char>>)
    ensures
        match res {
            None => clean_from(r0@, lower0@, 0) is None,
            Some(v) => clean_from(r0@, lower0@, 0) == Some(v@),
        },
{
    let mut cur = r0;
    let mut i: usize = 0;
    while i < SUFFIX_COUNT
        invariant
            i <= SUFFIX_COUNT,
            clean_from(r0@, lower0@, 0) == clean_from(cur@, lower0@, i as int),
        decreases SUFFIX_COUNT - i,
    {
        let ghost before = cur@;
        let suffix = suffix_at(i);
        let ls_string = str_to_lowercase(suffix);
        let ls = chars_of(ls_string.as_str());
        if ls.len() > 0 && probe_matches(lower0, &ls) {
            let p = skip_trailing(&cur, 0, cur.len(), CharClass::TrailingPunct);
            assert(cur@.subrange(0, cur@.len() as int) =~= cur@);
            let sb = utf8_byte_count(&chars_of(suffix));
            match cut_point(&cur, p, sb) {
                None => {
                    assert(clean_step(before, lower0@, i as int) is None);
                    return None;
                },
                Some(q) => {
                    let (a, b) = trim_bounds(&cur, 0, q);
                    assert(cur@.subrange(0, q as int) =~= cur@.take(q as int));
                    cur = sub_vec(&cur, a, b);
                    assert(clean_step(before, lower0@, i as int) == Some(cur@));
                },
            }
        } else {
            assert(clean_step(before, lower0@, i as int) == Some(cur@));
        }
        i = i + 1;
    }
    Some(cur)
}

/// Strips subtitle boilerplate from the end of transcripts.
pub struct TextCleaner;

impl TextCleaner {
    /// The trimmed transcript without trailing boilerplate phrases.
    ///
    /// The result is always a prefix of the trimmed input and is itself
    /// trimmed.
    pub fn clean(text: &str) -> (r: String)
        requires
            clean_result(text@) is Some,
        ensures
            clean_result(text@) == Some(r@),
            is_prefix(r@, trim(text@)),
            trim(r@) == r@,
    {
        let t = chars_of(text);
        let (lo, hi) = trim_bounds(&t, 0, t.len());
        assert(t@.subrange(0, t@.len() as int) =~= text@);
        let r0 = sub_vec(&t, lo, hi);
        if r0.len() == 0 {
            proof {
                lemma_trim_idempotent(text@);
                assert(trim(text@).take(0) =~= r0@);
            }
            return string_of(&r0);
        }
        let r0_string = string_of(&r0);
        let lower_string = str_to_lowercase(r0_string.as_str());
        let lower0 = chars_of(lower_string.as_str());
        let res = clean_chars(r0, &lower0);
        proof {
            lemma_trim_idempotent(text@);
            lemma_clean_from_shape(trim(text@), lower0@, 0);
        }
        match res {
            Some(v) => string_of(&v),
            None => {
                proof { assert(false); }
                String::new()
            },
        }
    }

    /// `clean`, or `None` for the inputs on which a cut would not fall on a
    /// character boundary.
    pub fn clean_checked(text: &str) -> (r: Option<String>)
        ensures
            match r {
                None => clean_result(text@) is None,
                Some(s) => clean_result(text@) == Some(s@),
            },
    {
        let t = chars_of(text);
        let (lo, hi) = trim_bounds(&t, 0, t.len());
        assert(t@.subrange(0, t@.len() as int) =~= text@);
        let r0 = sub_vec(&t, lo, hi);
        if r0.len() == 0 {
            return Some(TextCleaner::clean(text));
        }
        let r0_string = string_of(&r0);
        let lower_string = str_to_lowercase(r0_string.as_str());
        let lower0 = chars_of(lower_string.as_str());
        match clean_chars(r0, &lower0) {
            Some(_) => Some(TextCleaner::clean(text)),
            None => None,
        }
    }
}

/// A sequence whose ends are not whitespace is its own trim.
proof fn lemma_trim_of_clean_ends(u: Seq<char>)
    requires
        u.len() > 0 ==> !is_ws(u[0]) && !is_ws(u.last()),
    ensures
        trim(u) == u,
{
    if u.len() > 0 {
        lemma_lead_count_unique(u, CharClass::Whitespace, 0);
        assert(strip_start(u, CharClass::Whitespace) =~= u);
        lemma_trail_count_unique(u, CharClass::Whitespace, 0);
        assert(strip_end(u, CharClass::Whitespace) =~= u);
    } else {
        assert(strip_start(u, CharClass::Whitespace) =~= u);
        assert(strip_end(u, CharClass::Whitespace) =~= u);
    }
}

/// `trim` leaves no whitespace at either end, so trimming twice changes nothing.
pub proof fn lemma_trim_idempotent(s: Seq<char>)
    ensures
        trim(s).len() > 0 ==> !is_ws(trim(s)[0]) && !is_ws(trim(s).last()),
        trim(trim(s)) == trim(s),
{
    let a = strip_start(s, CharClass::Whitespace);
    lemma_lead_count_bound(s, CharClass::Whitespace);
    lemma_trail_count_bound(a, CharClass::Whitespace);
    let b = trim(s);
    if b.len() > 0 {
        assert(b[0] == a[0]);
        assert(a[0] == s[lead_count(s, CharClass::Whitespace) as int]);
        assert(b.last() == a[a.len() - trail_count(a, CharClass::Whitespace) - 1]);
    }
    lemma_trim_of_clean_ends(b);
}

/// The trim of a prefix of a trimmed sequence is again a trimmed prefix of it.
proof fn lemma_trim_prefix(r: Seq<char>, q: int)
    requires
        trim(r) == r,
        0 <= q <= r.len(),
    ensures
        is_prefix(trim(r.take(q)), r),
        trim(trim(r.take(q))) == trim(r.take(q)),
{
    let u = r.take(q);
    lemma_trim_idempotent(r);
    lemma_trim_idempotent(u);
    if q > 0 {
        assert(u[0] == r[0]);
        lemma_lead_count_unique(u, CharClass::Whitespace, 0);
        assert(strip_start(u, CharClass::Whitespace) =~= u);
        lemma_trail_count_bound(u, CharClass::Whitespace);
        let t = trim(u);
        assert(r.take(t.len() as int) =~= t);
    } else {
        assert(strip_start(u, CharClass::Whitespace) =~= u);
        assert(trim(u) =~= Seq::<char>::empty());
    }
}

proof fn lemma_back_cut_bound(r: Seq<char>, q: nat, need: nat)
    ensures
        back_cut(r, q, need) matches Some(x) ==> x <= q,
    decreases q,
{
    if need != 0 && q != 0 && q <= r.len() && utf8_len(r[q - 1]) <= need {
        lemma_back_cut_bound(r, (q - 1) as nat, (need - utf8_len(r[q - 1])) as nat);
    }
}

/// Every phrase step keeps the text a trimmed prefix of what it was.
proof fn lemma_clean_from_shape(r: Seq<char>, lower0: Seq<char>, i: int)
    requires
        trim(r) == r,
    ensures
        clean_from(r, lower0, i) matches Some(x) ==> is_prefix(x, r) && trim(x) == x,
    decreases SUFFIX_COUNT - i,
{
    if 0 <= i < SUFFIX_COUNT {
        match clean_step(r, lower0, i) {
            None => {},
            Some(r2) => {
                let ls = str_lowercase(unwanted_suffix(i));
                if !(ls.len() == 0 || !probe_match(lower0, ls)) {
                    let p = (r.len() - trail_count(r, CharClass::TrailingPunct)) as nat;
                    lemma_trail_count_bound(r, CharClass::TrailingPunct);
                    lemma_back_cut_bound(r, p, byte_len(unwanted_suffix(i)));
                    let q = back_cut(r, p, byte_len(unwanted_suffix(i)))->0;
                    lemma_trim_prefix(r, q as int);
                } else {
                    assert(r.take(r.len() as int) =~= r);
                }
                lemma_clean_from_shape(r2, lower0, i + 1);
                if clean_from(r2, lower0, i + 1) is Some {
                    let x = clean_from(r2, lower0, i + 1)->0;
                    assert(r.take(x.len() as int) =~= r2.take(x.len() as int));
                }
            },
        }
    } else {
        assert(r.take(r.len() as int) =~= r);
    }
}

/// The boilerplate phrases are exactly these seven, tried in this order.
pub proof fn lemma_boilerplate_phrases()
    ensures
        SUFFIX_COUNT == 7,
        unwanted_suffix(0) == "продолжение следует"@,
        unwanted_suffix(1) == "субтитры сделал dimatorzok"@,
        unwanted_suffix(2) == "субтитры сделаны dimatorzok"@,
        unwanted_suffix(3) == "subtitles by dimatorzok"@,
        unwanted_suffix(4) == "subtitles made by dimatorzok"@,
        unwanted_suffix(5) == "to be continued"@,
        unwanted_suffix(6) == "thanks for watching"@,
{
}

} // verus!
