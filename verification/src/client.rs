//! Interpreting the argument of the fetch command: either a full spec
//! URL, from which the server base and the id are extracted, or a raw id
//! used against the configured server.

use vstd::prelude::*;
use crate::text::{
    chars_to_string, eq_at, find_char, find_char_from, lemma_find_char_bounds, matches_at,
    rfind_last, rfind_upto, skip_char, skip_char_from, spec_trim, starts_with, str_to_chars,
    subvec, trim,
};

verus! {

/// The spec-path marker inside a share URL.
pub open spec fn spec_path_marker() -> Seq<char> {
    "/s/"@
}

/// How an input names a spec: a full URL `base/s/id` yields its own base
/// and id; otherwise everything after the last slash (when the input has
/// one and that segment is non-empty), or the whole input, is the id,
/// used with the configured base URL.
pub open spec fn spec_parse_spec_input(input: Seq<char>, config_url: Seq<char>) -> (
    Seq<char>,
    Seq<char>,
) {
    let marker = rfind_upto(input, spec_path_marker(), input.len() - 1);
    match marker {
        Some(pos) if pos > 0 => (input.subrange(0, pos), input.subrange(pos + 3, input.len() as int)),
        _ => {
            let slash = rfind_upto(input, "/"@, input.len() - 1);
            match slash {
                Some(p) if p + 1 < input.len() => (
                    config_url,
                    input.subrange(p + 1, input.len() as int),
                ),
                _ => (config_url, input),
            }
        },
    }
}

/// The last match of `pat` names a position where it occurs, with
/// nothing matching later.
proof fn lemma_rfind_found(s: Seq<char>, pat: Seq<char>, i: int, k: int)
    requires
        rfind_upto(s, pat, i) == Some(k),
    ensures
        k <= i,
        matches_at(s, pat, k),
    decreases i + 1,
{
    if i >= 0 && !matches_at(s, pat, i) {
        lemma_rfind_found(s, pat, i - 1, k);
    }
}

/// The prefix that marks a section heading line.
pub open spec fn heading_prefix() -> Seq<char> {
    "## "@
}

/// A heading line's text: the line without its leading hash marks,
/// trimmed.
pub open spec fn heading_text(line: Seq<char>) -> Seq<char> {
    spec_trim(line.subrange(skip_char_from(line, '#', 0), line.len() as int))
}

/// The section headings of a document from position `i` on: the text of
/// each line that starts with `"## "`.
pub open spec fn spec_section_headings(s: Seq<char>, i: int) -> Seq<Seq<char>>
    decreases s.len() - i + 1,
{
    if !(0 <= i && i < s.len()) {
        seq![]
    } else {
        let e = find_char_from(s, '\n', i);
        proof {
            lemma_find_char_bounds(s, '\n', i);
        }
        let line = s.subrange(i, e);
        let this = if starts_with(line, heading_prefix()) {
            seq![heading_text(line)]
        } else {
            seq![]
        };
        if e == s.len() {
            this
        } else {
            this + spec_section_headings(s, e + 1)
        }
    }
}

/// Collects the section headings of a document, for the preview the
/// fetch command prints: the lines beginning with `"## "`, each without
/// its hash marks and trimmed.
pub fn section_headings(content: &str) -> (r: Vec<String>)
    ensures
        r.deep_view() == spec_section_headings(content@, 0),
{
    let v = str_to_chars(content);
    let n = v.len();
    let prefix = str_to_chars("## ");
    proof {
        reveal_strlit("## ");
    }
    let mut acc: Vec<String> = Vec::new();
    proof {
        assert(acc.deep_view() =~= Seq::<Seq<char>>::empty());
    }
    let mut i: usize = 0;
    while i < n
        invariant_except_break
            acc.deep_view() + spec_section_headings(v@, i as int) == spec_section_headings(v@, 0),
        invariant
            i <= n,
            n == v@.len(),
            prefix@ == heading_prefix(),
            prefix@.len() == 3,
        ensures
            acc.deep_view() == spec_section_headings(v@, 0),
        decreases n - i,
    {
        let e = find_char(&v, '\n', i);
        let line = subvec(&v, i, e);
        let ghost acc0 = acc.deep_view();
        if prefix.len() <= line.len() && eq_at(&line, &prefix, 0) {
            let a = skip_char(&line, '#', 0);
            let stripped = subvec(&line, a, line.len());
            let text = trim(&stripped);
            proof {
                assert(text@ == heading_text(line@));
            }
            acc.push(chars_to_string(&text));
            proof {
                assert(acc.deep_view() =~= acc0.push(heading_text(line@)));
                assert(acc.deep_view() =~= acc0 + seq![heading_text(line@)]);
            }
        } else {
            proof {
                assert(acc.deep_view() + Seq::<Seq<char>>::empty() =~= acc.deep_view());
            }
        }
        if e == n {
            proof {
                assert(spec_section_headings(v@, e + 1) =~= Seq::<Seq<char>>::empty());
                assert(acc.deep_view() =~= spec_section_headings(v@, 0));
            }
            break ;
        }
        i = e + 1;
    }
    acc
}

/// Splits the argument of the fetch command into (base URL, spec id).
pub fn parse_spec_input(input: &str, config_api_url: &str) -> (r: (String, String))
    ensures
        (r.0@, r.1@) == spec_parse_spec_input(input@, config_api_url@),
{
    let v = str_to_chars(input);
    let n = v.len();
    let marker = str_to_chars("/s/");
    proof {
        reveal_strlit("/s/");
    }
    match rfind_last(&v, &marker) {
        Some(pos) if pos > 0 => {
            proof {
                lemma_rfind_found(v@, marker@, n - 1, pos as int);
            }
            let base = subvec(&v, 0, pos);
            let id = subvec(&v, pos + 3, n);
            (chars_to_string(&base), chars_to_string(&id))
        },
        _ => {
            let slash = str_to_chars("/");
            proof {
                reveal_strlit("/");
            }
            match rfind_last(&v, &slash) {
                Some(p) => {
                    proof {
                        lemma_rfind_found(v@, slash@, n - 1, p as int);
                    }
                    if p + 1 < n {
                        let id = subvec(&v, p + 1, n);
                        (config_api_url.to_owned(), chars_to_string(&id))
                    } else {
                        (config_api_url.to_owned(), input.to_owned())
                    }
                },
                None => (config_api_url.to_owned(), input.to_owned()),
            }
        },
    }
}

} // verus!
