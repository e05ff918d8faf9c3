//! Character-sequence utilities: conversion between `str`/`String` and
//! `Vec<char>`, character classification, substring search, and trimming.
//! All contracts are stated over `Seq<char>` views.

use vstd::prelude::*;
use vstd::std_specs::iter::IteratorSpec;

verus! {

/// Whether the `char::is_whitespace` classification holds of `c`.
pub uninterp spec fn char_whitespace(c: char) -> bool;

/// Relies on char::is_whitespace: true exactly of characters with the
/// Unicode White_Space property; in the ASCII range these are space,
/// tab, line feed, vertical tab, form feed and carriage return.
#[verifier::external_body]
pub fn is_whitespace_char(c: char) -> (r: bool)
    ensures
        r == char_whitespace(c),
        (c as u32) < 128 ==> (r <==> (c == ' ' || c == '\t' || c == '\n' || c == '\r'
            || c == '\u{B}' || c == '\u{C}')),
{
    c.is_whitespace()
}

/// Whether the `char::is_alphanumeric` classification holds of `c`.
pub uninterp spec fn char_alphanumeric(c: char) -> bool;

/// Relies on char::is_alphanumeric: true exactly of alphabetic characters
/// and characters in the Unicode number categories; in the ASCII range
/// these are the letters and the decimal digits.
#[verifier::external_body]
pub fn is_alphanumeric_char(c: char) -> (r: bool)
    ensures
        r == char_alphanumeric(c),
        (c as u32) < 128 ==> (r <==> (('a' <= c && c <= 'z') || ('A' <= c && c <= 'Z')
            || ('0' <= c && c <= '9'))),
{
    c.is_alphanumeric()
}

/// Whether `c` is an ASCII decimal digit.
pub open spec fn is_digit_char(c: char) -> bool {
    '0' <= c && c <= '9'
}

/// Executable ASCII-digit test.
pub fn check_digit_char(c: char) -> (r: bool)
    ensures
        r == is_digit_char(c),
{
    '0' <= c && c <= '9'
}

/// Relies on String::from_iter over chars (via `Iterator::collect`):
/// the resulting string holds exactly the given characters, in order.
#[verifier::external_body]
pub fn chars_to_string(v: &Vec<char>) -> (r: String)
    ensures
        r@ == v@,
{
    v.iter().collect()
}

/// Collects the characters of a string slice into a vector.
pub fn str_to_chars(s: &str) -> (v: Vec<char>)
    ensures
        v@ == s@,
{
    broadcast use vstd::string::next_postcondition;
    broadcast use vstd::string::axiom_spec_iter;

    let mut it = s.chars();
    let mut v: Vec<char> = Vec::new();
    loop
        invariant
            it.obeys_prophetic_iter_laws(),
            it.decrease() is Some,
            v@ + it.remaining() == s@,
        ensures
            v@ == s@,
        decreases it.decrease()->0,
    {
        let ghost pre = it;
        let r = it.next();
        proof {
            vstd::string::next_postcondition(&pre, &it, r);
        }
        match r {
            Some(c) => {
                proof {
                    assert(v@.push(c) + it.remaining() =~= v@ + pre.remaining());
                }
                v.push(c);
            },
            None => {
                proof {
                    assert(v@ + it.remaining() =~= v@);
                }
                break ;
            },
        }
    }
    v
}

/// Copies the characters of `v` in positions `from..to` into a fresh vector.
pub fn subvec(v: &Vec<char>, from: usize, to: usize) -> (r: Vec<char>)
    requires
        from <= to <= v@.len(),
    ensures
        r@ == v@.subrange(from as int, to as int),
{
    let mut r: Vec<char> = Vec::new();
    let mut i = from;
    while i < to
        invariant
            from <= i <= to <= v@.len(),
            r@ == v@.subrange(from as int, i as int),
        decreases to - i,
    {
        r.push(v[i]);
        proof {
            assert(v@.subrange(from as int, i as int).push(v@[i as int]) =~= v@.subrange(
                from as int,
                i + 1,
            ));
        }
        i = i + 1;
    }
    r
}

/// `pat` occurs in `s` at position `i`.
pub open spec fn matches_at(s: Seq<char>, pat: Seq<char>, i: int) -> bool {
    0 <= i && i + pat.len() <= s.len() && s.subrange(i, i + pat.len()) == pat
}

/// `pat` occurs somewhere in `s`.
pub open spec fn contains_seq(s: Seq<char>, pat: Seq<char>) -> bool {
    exists|i: int| matches_at(s, pat, i)
}

/// `s` begins with `pat`.
pub open spec fn starts_with(s: Seq<char>, pat: Seq<char>) -> bool {
    matches_at(s, pat, 0)
}

/// Compares `pat` against the characters of `v` starting at position `i`.
pub fn eq_at(v: &Vec<char>, pat: &Vec<char>, i: usize) -> (r: bool)
    requires
        i + pat@.len() <= v@.len(),
    ensures
        r == matches_at(v@, pat@, i as int),
{
    let n = v.len();
    let m = pat.len();
    let mut j: usize = 0;
    while j < m
        invariant
            j <= m,
            m == pat@.len(),
            n == v@.len(),
            i + m <= n,
            forall|k: int| 0 <= k < j ==> v@[i + k] == pat@[k],
        decreases m - j,
    {
        if v[i + j] != pat[j] {
            proof {
                assert(v@.subrange(i as int, i + m)[j as int] == v@[i + j]);
            }
            return false;
        }
        j = j + 1;
    }
    proof {
        assert(v@.subrange(i as int, i + m) =~= pat@);
    }
    true
}

/// Position of the first occurrence of `pat` in `s` at or after `i`,
/// if there is one.
pub open spec fn find_from(s: Seq<char>, pat: Seq<char>, i: int) -> Option<int>
    decreases s.len() - i + 1,
{
    if !(0 <= i && i + pat.len() <= s.len()) {
        None
    } else if matches_at(s, pat, i) {
        Some(i)
    } else {
        find_from(s, pat, i + 1)
    }
}

/// Finds the first occurrence of `pat` in `v` at or after `from`.
pub fn find_first(v: &Vec<char>, pat: &Vec<char>, from: usize) -> (r: Option<usize>)
    requires
        pat@.len() >= 1,
    ensures
        match r {
            Some(i) => find_from(v@, pat@, from as int) == Some(i as int),
            None => find_from(v@, pat@, from as int) is None,
        },
{
    let n = v.len();
    let m = pat.len();
    if m > n || from > n - m {
        return None;
    }
    let mut i = from;
    loop
        invariant
            from <= i,
            i + m <= n,
            n == v@.len(),
            m == pat@.len(),
            find_from(v@, pat@, from as int) == find_from(v@, pat@, i as int),
        decreases n - i,
    {
        if eq_at(v, pat, i) {
            return Some(i);
        }
        assert(find_from(v@, pat@, i as int) == find_from(v@, pat@, i + 1));
        if i >= n - m {
            return None;
        }
        i = i + 1;
    }
}

/// Position of the last occurrence of `pat` in `s` at or before `i`,
/// if there is one.
pub open spec fn rfind_upto(s: Seq<char>, pat: Seq<char>, i: int) -> Option<int>
    decreases i + 1,
{
    if i < 0 {
        None
    } else if matches_at(s, pat, i) {
        Some(i)
    } else {
        rfind_upto(s, pat, i - 1)
    }
}

/// Finds the last occurrence of `pat` in `v`.
pub fn rfind_last(v: &Vec<char>, pat: &Vec<char>) -> (r: Option<usize>)
    requires
        pat@.len() >= 1,
    ensures
        match r {
            Some(i) => rfind_upto(v@, pat@, v@.len() - 1) == Some(i as int),
            None => rfind_upto(v@, pat@, v@.len() - 1) is None,
        },
{
    let n = v.len();
    let m = pat.len();
    if m > n {
        proof {
            lemma_rfind_none_when_too_long(v@, pat@, n - 1);
        }
        return None;
    }
    let mut i = n - m;
    proof {
        lemma_rfind_skip_high(v@, pat@, n - 1, n - m);
    }
    loop
        invariant
            i + m <= n,
            n == v@.len(),
            m == pat@.len(),
            m <= n,
            rfind_upto(v@, pat@, n - 1) == rfind_upto(v@, pat@, i as int),
        decreases i,
    {
        if eq_at(v, pat, i) {
            return Some(i);
        }
        assert(rfind_upto(v@, pat@, i as int) == rfind_upto(v@, pat@, i - 1));
        if i == 0 {
            return None;
        }
        i = i - 1;
    }
}

/// Above every valid match position, `rfind_upto` is unchanged.
proof fn lemma_rfind_skip_high(s: Seq<char>, pat: Seq<char>, i: int, top: int)
    requires
        0 <= top <= i,
        top == s.len() - pat.len(),
    ensures
        rfind_upto(s, pat, i) == rfind_upto(s, pat, top),
    decreases i,
{
    if i > top {
        assert(!matches_at(s, pat, i));
        lemma_rfind_skip_high(s, pat, i - 1, top);
    }
}

/// A pattern longer than the string never occurs in it.
proof fn lemma_rfind_none_when_too_long(s: Seq<char>, pat: Seq<char>, i: int)
    requires
        pat.len() > s.len(),
    ensures
        rfind_upto(s, pat, i) is None,
    decreases i + 1,
{
    if i >= 0 {
        lemma_rfind_none_when_too_long(s, pat, i - 1);
    }
}

/// First position at or after `i` whose character is not whitespace,
/// or the length of `s`.
pub open spec fn skip_ws_from(s: Seq<char>, i: int) -> int
    decreases s.len() - i,
{
    if 0 <= i && i < s.len() && char_whitespace(s[i]) {
        skip_ws_from(s, i + 1)
    } else {
        i
    }
}

/// Advances past whitespace characters, starting at `from`.
pub fn skip_ws(v: &Vec<char>, from: usize) -> (r: usize)
    requires
        from <= v@.len(),
    ensures
        r as int == skip_ws_from(v@, from as int),
        from <= r <= v@.len(),
{
    let n = v.len();
    let mut i = from;
    while i < n && is_whitespace_char(v[i])
        invariant
            from <= i <= n,
            n == v@.len(),
            skip_ws_from(v@, from as int) == skip_ws_from(v@, i as int),
        decreases n - i,
    {
        i = i + 1;
    }
    i
}

/// Position reached after dropping whitespace characters from the end of
/// `s.subrange(0, i)`.
pub open spec fn skip_ws_back(s: Seq<char>, i: int) -> int
    decreases i,
{
    if 0 < i <= s.len() && char_whitespace(s[i - 1]) {
        skip_ws_back(s, i - 1)
    } else {
        i
    }
}

/// Retreats before trailing whitespace characters, starting at `from`.
pub fn skip_ws_end(v: &Vec<char>, from: usize) -> (r: usize)
    requires
        from <= v@.len(),
    ensures
        r as int == skip_ws_back(v@, from as int),
        r <= from,
{
    let mut i = from;
    while i > 0 && is_whitespace_char(v[i - 1])
        invariant
            i <= from <= v@.len(),
            skip_ws_back(v@, from as int) == skip_ws_back(v@, i as int),
        decreases i,
    {
        i = i - 1;
    }
    i
}

/// `s` with leading and trailing whitespace removed.
pub open spec fn spec_trim(s: Seq<char>) -> Seq<char> {
    let a = skip_ws_from(s, 0);
    let b = skip_ws_back(s, s.len() as int);
    if a <= b {
        s.subrange(a, b)
    } else {
        Seq::empty()
    }
}

/// Copies `v` without its leading and trailing whitespace.
pub fn trim(v: &Vec<char>) -> (r: Vec<char>)
    ensures
        r@ == spec_trim(v@),
{
    let a = skip_ws(v, 0);
    let b = skip_ws_end(v, v.len());
    if a <= b {
        subvec(v, a, b)
    } else {
        Vec::new()
    }
}

/// First position at or after `i` whose character is not a carriage
/// return or line feed, or the length of `s`.
pub open spec fn skip_crlf_from(s: Seq<char>, i: int) -> int
    decreases s.len() - i,
{
    if 0 <= i && i < s.len() && (s[i] == '\r' || s[i] == '\n') {
        skip_crlf_from(s, i + 1)
    } else {
        i
    }
}

/// Advances past carriage returns and line feeds, starting at `from`.
pub fn skip_crlf(v: &Vec<char>, from: usize) -> (r: usize)
    requires
        from <= v@.len(),
    ensures
        r as int == skip_crlf_from(v@, from as int),
        from <= r <= v@.len(),
{
    let n = v.len();
    let mut i = from;
    while i < n && (v[i] == '\r' || v[i] == '\n')
        invariant
            from <= i <= n,
            n == v@.len(),
            skip_crlf_from(v@, from as int) == skip_crlf_from(v@, i as int),
        decreases n - i,
    {
        i = i + 1;
    }
    i
}

/// First position at or after `i` holding the character `c`, or the
/// length of `s`.
pub open spec fn find_char_from(s: Seq<char>, c: char, i: int) -> int
    decreases s.len() - i,
{
    if !(0 <= i && i < s.len()) {
        s.len() as int
    } else if s[i] == c {
        i
    } else {
        find_char_from(s, c, i + 1)
    }
}

/// The position `find_char_from` returns lies between `i` and the length
/// of `s`, and `i` itself is past any earlier occurrence.
pub proof fn lemma_find_char_bounds(s: Seq<char>, c: char, i: int)
    requires
        0 <= i <= s.len(),
    ensures
        i <= find_char_from(s, c, i) <= s.len(),
    decreases s.len() - i,
{
    if i < s.len() && s[i] != c {
        lemma_find_char_bounds(s, c, i + 1);
    }
}

/// Finds the first occurrence of the character `c` at or after `from`.
pub fn find_char(v: &Vec<char>, c: char, from: usize) -> (r: usize)
    requires
        from <= v@.len(),
    ensures
        r as int == find_char_from(v@, c, from as int),
        from <= r <= v@.len(),
{
    let n = v.len();
    let mut i = from;
    while i < n && v[i] != c
        invariant
            from <= i <= n,
            n == v@.len(),
            find_char_from(v@, c, from as int) == find_char_from(v@, c, i as int),
        decreases n - i,
    {
        i = i + 1;
    }
    proof {
        lemma_find_char_bounds(v@, c, i as int);
    }
    i
}

/// First position at or after `i` whose character is not `c`, or the
/// length of `s`.
pub open spec fn skip_char_from(s: Seq<char>, c: char, i: int) -> int
    decreases s.len() - i,
{
    if 0 <= i && i < s.len() && s[i] == c {
        skip_char_from(s, c, i + 1)
    } else {
        i
    }
}

/// Advances past occurrences of `c`, starting at `from`.
pub fn skip_char(v: &Vec<char>, c: char, from: usize) -> (r: usize)
    requires
        from <= v@.len(),
    ensures
        r as int == skip_char_from(v@, c, from as int),
        from <= r <= v@.len(),
{
    let n = v.len();
    let mut i = from;
    while i < n && v[i] == c
        invariant
            from <= i <= n,
            n == v@.len(),
            skip_char_from(v@, c, from as int) == skip_char_from(v@, c, i as int),
        decreases n - i,
    {
        i = i + 1;
    }
    i
}

/// Position reached after dropping occurrences of `c` from the end of
/// `s.subrange(0, i)`.
pub open spec fn skip_char_back(s: Seq<char>, c: char, i: int) -> int
    decreases i,
{
    if 0 < i <= s.len() && s[i - 1] == c {
        skip_char_back(s, c, i - 1)
    } else {
        i
    }
}

/// `s` with leading and trailing occurrences of `c` removed.
pub open spec fn spec_trim_char(s: Seq<char>, c: char) -> Seq<char> {
    let a = skip_char_from(s, c, 0);
    let b = skip_char_back(s, c, s.len() as int);
    if a <= b {
        s.subrange(a, b)
    } else {
        Seq::empty()
    }
}

/// Copies `v` without leading and trailing occurrences of `c`.
pub fn trim_char(v: &Vec<char>, c: char) -> (r: Vec<char>)
    ensures
        r@ == spec_trim_char(v@, c),
{
    let n = v.len();
    let mut a: usize = 0;
    while a < n && v[a] == c
        invariant
            a <= n,
            n == v@.len(),
            skip_char_from(v@, c, 0) == skip_char_from(v@, c, a as int),
        decreases n - a,
    {
        a = a + 1;
    }
    let mut b: usize = n;
    while b > 0 && v[b - 1] == c
        invariant
            b <= n == v@.len(),
            skip_char_back(v@, c, n as int) == skip_char_back(v@, c, b as int),
        decreases b,
    {
        b = b - 1;
    }
    if a <= b {
        subvec(v, a, b)
    } else {
        Vec::new()
    }
}

/// Tests whether `pat` occurs anywhere in `v`.
pub fn contains_sub(v: &Vec<char>, pat: &Vec<char>) -> (r: bool)
    requires
        pat@.len() >= 1,
    ensures
        r == contains_seq(v@, pat@),
{
    match find_first(v, pat, 0) {
        Some(i) => {
            proof {
                lemma_find_from_found(v@, pat@, 0, i as int);
            }
            true
        },
        None => {
            proof {
                lemma_find_from_not_found(v@, pat@, 0);
            }
            false
        },
    }
}

/// A successful `find_from` names a match position.
pub proof fn lemma_find_from_found(s: Seq<char>, pat: Seq<char>, i: int, k: int)
    requires
        find_from(s, pat, i) == Some(k),
    ensures
        i <= k,
        matches_at(s, pat, k),
        contains_seq(s, pat),
    decreases s.len() - i + 1,
{
    if 0 <= i && i + pat.len() <= s.len() {
        if !matches_at(s, pat, i) {
            lemma_find_from_found(s, pat, i + 1, k);
        }
    }
}

/// Appends the characters of `src` to `dst`.
pub fn push_all(dst: &mut Vec<char>, src: &Vec<char>)
    ensures
        final(dst)@ == old(dst)@ + src@,
{
    let n = src.len();
    let mut i: usize = 0;
    while i < n
        invariant
            i <= n,
            n == src@.len(),
            dst@ == old(dst)@ + src@.subrange(0, i as int),
        decreases n - i,
    {
        dst.push(src[i]);
        proof {
            assert(old(dst)@ + src@.subrange(0, i as int) + seq![src@[i as int]] =~= old(dst)@
                + src@.subrange(0, i + 1));
        }
        i = i + 1;
    }
    proof {
        assert(old(dst)@ + src@.subrange(0, n as int) =~= old(dst)@ + src@);
    }
}

/// `s` from position `i` on, with every non-overlapping occurrence of
/// `pat` (found left to right) replaced by `sub`; for an empty `pat`,
/// the rest of `s` unchanged.
pub open spec fn spec_replace(s: Seq<char>, pat: Seq<char>, sub: Seq<char>, i: int) -> Seq<char>
    decreases s.len() - i + 1,
{
    if !(0 <= i <= s.len()) {
        Seq::empty()
    } else if pat.len() == 0 {
        s.subrange(i, s.len() as int)
    } else {
        match find_from(s, pat, i) {
            None => s.subrange(i, s.len() as int),
            Some(p) => {
                proof {
                    lemma_find_from_found(s, pat, i, p);
                }
                s.subrange(i, p) + sub + spec_replace(s, pat, sub, p + pat.len())
            },
        }
    }
}

/// Replaces every non-overlapping occurrence of `pat` in `s` by `sub`,
/// scanning left to right, as `str::replace` does for a non-empty
/// pattern.
pub fn replace_all(s: &str, pat: &str, sub: &str) -> (r: String)
    requires
        pat@.len() >= 1,
    ensures
        r@ == spec_replace(s@, pat@, sub@, 0),
{
    let v = str_to_chars(s);
    let pv = str_to_chars(pat);
    let sv = str_to_chars(sub);
    let n = v.len();
    let m = pv.len();
    let mut out: Vec<char> = Vec::new();
    let mut i: usize = 0;
    loop
        invariant
            i <= n,
            n == v@.len(),
            m == pv@.len(),
            m >= 1,
            v@ == s@,
            pv@ == pat@,
            sv@ == sub@,
            out@ + spec_replace(v@, pv@, sv@, i as int) == spec_replace(v@, pv@, sv@, 0),
        decreases n - i,
    {
        match find_first(&v, &pv, i) {
            None => {
                let rest = subvec(&v, i, n);
                push_all(&mut out, &rest);
                proof {
                    assert(out@ =~= spec_replace(v@, pv@, sv@, 0));
                }
                return chars_to_string(&out);
            },
            Some(p) => {
                proof {
                    lemma_find_from_found(v@, pv@, i as int, p as int);
                }
                let ghost out0 = out@;
                let before = subvec(&v, i, p);
                push_all(&mut out, &before);
                push_all(&mut out, &sv);
                proof {
                    assert(out@ + spec_replace(v@, pv@, sv@, p + m) =~= out0 + (v@.subrange(
                        i as int,
                        p as int,
                    ) + sv@ + spec_replace(v@, pv@, sv@, p + m)));
                }
                i = p + m;
            },
        }
    }
}

/// A character sequence never has more characters than its UTF-8
/// encoding has bytes.
pub proof fn lemma_encode_len(chars: Seq<char>)
    ensures
        vstd::utf8::encode_utf8(chars).len() >= chars.len(),
    decreases chars.len(),
{
    if chars.len() > 0 {
        lemma_encode_len(chars.drop_first());
        assert(vstd::utf8::encode_scalar(chars[0] as u32).len() >= 1);
    }
}

/// A failed `find_from` from position 0 means no match anywhere.
pub proof fn lemma_find_from_not_found(s: Seq<char>, pat: Seq<char>, i: int)
    requires
        find_from(s, pat, i) is None,
        0 <= i,
    ensures
        forall|k: int| i <= k ==> !matches_at(s, pat, k),
        i == 0 ==> !contains_seq(s, pat),
    decreases s.len() - i + 1,
{
    if 0 <= i && i + pat.len() <= s.len() {
        lemma_find_from_not_found(s, pat, i + 1);
    } else {
        assert forall|k: int| i <= k implies !matches_at(s, pat, k) by {}
    }
}

} // verus!
