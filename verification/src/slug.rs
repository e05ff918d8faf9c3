//! Turning a title into a filename slug: alphanumeric characters are
//! kept (ASCII letters lowercased), every other run of characters
//! becomes a single dash, with no leading or trailing dash.

use vstd::prelude::*;
use crate::text::{char_alphanumeric, is_alphanumeric_char, str_to_chars, chars_to_string};

verus! {

/// An ASCII uppercase letter lowercased; any other character unchanged,
/// as `char::to_ascii_lowercase` maps it.
pub open spec fn lower_char(c: char) -> char {
    if 'A' <= c && c <= 'Z' {
        (((c as u8) + 32) as u8) as char
    } else {
        c
    }
}

/// The slug characters produced from position `i` on, given whether the
/// previous emitted character was a dash (or the start of the string).
pub open spec fn slug_rec(s: Seq<char>, i: int, prev_dash: bool) -> Seq<char>
    decreases s.len() - i,
{
    if !(0 <= i && i < s.len()) {
        Seq::empty()
    } else {
        let c = s[i];
        if char_alphanumeric(c) {
            seq![lower_char(c)] + slug_rec(s, i + 1, false)
        } else if !prev_dash {
            seq!['-'] + slug_rec(s, i + 1, true)
        } else {
            slug_rec(s, i + 1, prev_dash)
        }
    }
}

/// The slug of a title: the emitted characters, with a trailing dash
/// removed.
pub open spec fn spec_slugify(s: Seq<char>) -> Seq<char> {
    let r = slug_rec(s, 0, true);
    if r.len() > 0 && r.last() == '-' {
        r.drop_last()
    } else {
        r
    }
}

/// Builds a filename slug from a title: alphanumeric characters are kept
/// (ASCII letters lowercased) and runs of all other characters collapse
/// to single dashes, none leading or trailing.
pub fn slugify(title: &str) -> (r: String)
    ensures
        r@ == spec_slugify(title@),
{
    let v = str_to_chars(title);
    let n = v.len();
    let mut out: Vec<char> = Vec::new();
    let mut prev_dash = true;
    let mut i: usize = 0;
    while i < n
        invariant
            i <= n,
            n == v@.len(),
            out@ + slug_rec(v@, i as int, prev_dash) == slug_rec(v@, 0, true),
        decreases n - i,
    {
        let c = v[i];
        let ghost out0 = out@;
        if is_alphanumeric_char(c) {
            let lc: char = if 'A' <= c && c <= 'Z' {
                ((c as u8) + 32) as char
            } else {
                c
            };
            out.push(lc);
            prev_dash = false;
            proof {
                assert(out@ + slug_rec(v@, i + 1, false) =~= out0 + (seq![lower_char(c)]
                    + slug_rec(v@, i + 1, false)));
            }
        } else if !prev_dash {
            out.push('-');
            prev_dash = true;
            proof {
                assert(out@ + slug_rec(v@, i + 1, true) =~= out0 + (seq!['-'] + slug_rec(
                    v@,
                    i + 1,
                    true,
                )));
            }
        }
        i = i + 1;
    }
    proof {
        assert(out@ + Seq::<char>::empty() =~= out@);
    }
    if out.len() > 0 && out[out.len() - 1] == '-' {
        out.pop();
        proof {
            assert(out@ =~= slug_rec(v@, 0, true).drop_last());
        }
    }
    chars_to_string(&out)
}

} // verus!
