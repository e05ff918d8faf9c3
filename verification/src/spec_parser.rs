//! Parsing of spec documents: a document may begin with a YAML-style
//! front-matter block, delimited by `---` lines, holding a title, a
//! description and a tag list; the rest is the markdown body. The
//! specification-level functions define the grammar; the executable
//! functions are proved to follow it exactly.

use vstd::prelude::*;
use crate::text::{
    chars_to_string, eq_at, find_char, find_char_from, find_first, find_from,
    lemma_find_char_bounds, lemma_find_from_found, matches_at, skip_crlf, skip_crlf_from,
    skip_ws, skip_ws_from, spec_trim, spec_trim_char, starts_with, str_to_chars, subvec, trim,
    trim_char,
};

verus! {

/// A parsed specification document: front-matter metadata plus the
/// markdown body, with the full original text kept as `raw`.
pub struct ParsedSpec {
    pub title: String,
    pub description: String,
    pub tags: Vec<String>,
    pub body: String,
    pub raw: String,
}

/// The front-matter delimiter line prefix.
pub open spec fn fm_dashes() -> Seq<char> {
    "---"@
}

/// The pattern that closes a front-matter block.
pub open spec fn fm_end_pat() -> Seq<char> {
    "\n---"@
}

/// Key of the title field.
pub open spec fn title_key() -> Seq<char> {
    "title"@
}

/// Key of the description field.
pub open spec fn desc_key() -> Seq<char> {
    "description"@
}

/// Prefix of the tags field.
pub open spec fn tags_prefix() -> Seq<char> {
    "tags:"@
}

/// A value with one pair of surrounding double quotes removed, when both
/// are present.
pub open spec fn spec_unquote(val: Seq<char>) -> Seq<char> {
    if val.len() >= 2 && val[0] == '"' && val.last() == '"' {
        val.subrange(1, val.len() - 1)
    } else {
        val
    }
}

/// The value of a `key: value` line for the given `prefix` (the key with
/// its colon): everything after the prefix, trimmed and unquoted; `None`
/// when the line does not begin with the prefix.
pub open spec fn spec_strip_prefix_val(line: Seq<char>, prefix: Seq<char>) -> Option<Seq<char>> {
    if starts_with(line, prefix) {
        Some(spec_unquote(spec_trim(line.subrange(prefix.len() as int, line.len() as int))))
    } else {
        None
    }
}

/// The value of a front-matter field line for the given field name.
pub open spec fn spec_strip_field(line: Seq<char>, field: Seq<char>) -> Option<Seq<char>> {
    spec_strip_prefix_val(line, field.push(':'))
}

/// A tag token: trimmed, then stripped of surrounding double and single
/// quotes.
pub open spec fn clean_token(t: Seq<char>) -> Seq<char> {
    spec_trim_char(spec_trim_char(spec_trim(t), '"'), '\'')
}

/// The cleaned, non-empty comma-separated tokens of `inner` from
/// position `i` on.
pub open spec fn yaml_items_from(inner: Seq<char>, i: int) -> Seq<Seq<char>>
    decreases inner.len() - i + 1,
{
    if !(0 <= i <= inner.len()) {
        seq![]
    } else {
        let e = find_char_from(inner, ',', i);
        proof {
            lemma_find_char_bounds(inner, ',', i);
        }
        let c = clean_token(inner.subrange(i, e));
        let this = if c.len() > 0 {
            seq![c]
        } else {
            seq![]
        };
        if e == inner.len() {
            this
        } else {
            this + yaml_items_from(inner, e + 1)
        }
    }
}

/// The tag list denoted by a YAML-style inline array: the input is
/// trimmed, one pair of surrounding brackets is removed when both are
/// present, and the comma-separated tokens are cleaned, dropping empty
/// ones.
pub open spec fn spec_parse_yaml_array(s: Seq<char>) -> Seq<Seq<char>> {
    let t = spec_trim(s);
    let inner = if t.len() >= 2 && t[0] == '[' && t.last() == ']' {
        t.subrange(1, t.len() - 1)
    } else {
        t
    };
    yaml_items_from(inner, 0)
}

/// One front-matter line applied to the accumulated (title, description,
/// tags) fields: a recognized field replaces the corresponding value.
pub open spec fn fm_apply_line(
    line: Seq<char>,
    title: Seq<char>,
    desc: Seq<char>,
    tags: Seq<Seq<char>>,
) -> (Seq<char>, Seq<char>, Seq<Seq<char>>) {
    match spec_strip_field(line, title_key()) {
        Some(val) => (val, desc, tags),
        None => match spec_strip_field(line, desc_key()) {
            Some(val) => (title, val, tags),
            None => if starts_with(line, tags_prefix()) {
                (
                    title,
                    desc,
                    spec_parse_yaml_array(
                        line.subrange(tags_prefix().len() as int, line.len() as int),
                    ),
                )
            } else {
                (title, desc, tags)
            },
        },
    }
}

/// The (title, description, tags) fields after scanning the lines of the
/// front-matter block from position `i` on, each line trimmed first.
/// Later occurrences of a field replace earlier ones.
pub open spec fn fm_fields_from(
    fm: Seq<char>,
    i: int,
    title: Seq<char>,
    desc: Seq<char>,
    tags: Seq<Seq<char>>,
) -> (Seq<char>, Seq<char>, Seq<Seq<char>>)
    decreases fm.len() - i + 1,
{
    if !(0 <= i && i < fm.len()) {
        (title, desc, tags)
    } else {
        let e = find_char_from(fm, '\n', i);
        proof {
            lemma_find_char_bounds(fm, '\n', i);
        }
        let line = spec_trim(fm.subrange(i, e));
        let next = fm_apply_line(line, title, desc, tags);
        fm_fields_from(fm, e + 1, next.0, next.1, next.2)
    }
}

/// The front-matter parse of a document: `None` when the document does
/// not begin (after leading whitespace) with a `---` delimiter closed by
/// a later `\n---`; otherwise the scanned fields and the body that
/// follows the closing delimiter, with leading newlines removed.
pub open spec fn spec_parse_frontmatter(s: Seq<char>) -> Option<
    (Seq<char>, Seq<char>, Seq<Seq<char>>, Seq<char>),
> {
    let t = skip_ws_from(s, 0);
    if !matches_at(s, fm_dashes(), t) {
        None
    } else {
        let a = skip_crlf_from(s, t + 3);
        match find_from(s, fm_end_pat(), a) {
            None => None,
            Some(e) => {
                let fields = fm_fields_from(
                    s.subrange(a, e),
                    0,
                    Seq::empty(),
                    Seq::empty(),
                    Seq::empty(),
                );
                let b = skip_crlf_from(s, e + 4);
                Some((fields.0, fields.1, fields.2, s.subrange(b, s.len() as int)))
            },
        }
    }
}

/// Title a document parses to: the front-matter title, or empty.
pub open spec fn spec_title(s: Seq<char>) -> Seq<char> {
    match spec_parse_frontmatter(s) {
        Some(f) => f.0,
        None => Seq::empty(),
    }
}

/// Description a document parses to: the front-matter description, or
/// empty.
pub open spec fn spec_description(s: Seq<char>) -> Seq<char> {
    match spec_parse_frontmatter(s) {
        Some(f) => f.1,
        None => Seq::empty(),
    }
}

/// Tags a document parses to: the front-matter tags, or none.
pub open spec fn spec_tags(s: Seq<char>) -> Seq<Seq<char>> {
    match spec_parse_frontmatter(s) {
        Some(f) => f.2,
        None => Seq::empty(),
    }
}

/// Body a document parses to: what follows the front-matter, or the
/// whole document when there is none.
pub open spec fn spec_body(s: Seq<char>) -> Seq<char> {
    match spec_parse_frontmatter(s) {
        Some(f) => f.3,
        None => s,
    }
}

/// Copies `v` (used where a fresh vector must equal an existing one).
fn copy_chars(v: &Vec<char>) -> (r: Vec<char>)
    ensures
        r@ == v@,
{
    let r = subvec(v, 0, v.len());
    proof {
        assert(v@.subrange(0, v@.len() as int) =~= v@);
    }
    r
}

/// Removes one pair of surrounding double quotes, when both are present.
fn unquote(v: &Vec<char>) -> (r: Vec<char>)
    ensures
        r@ == spec_unquote(v@),
{
    let n = v.len();
    if n >= 2 && v[0] == '"' && v[n - 1] == '"' {
        subvec(v, 1, n - 1)
    } else {
        copy_chars(v)
    }
}

/// The value of a `key: value` line for the given prefix, over character
/// vectors.
fn strip_prefix_val(line: &Vec<char>, prefix: &Vec<char>) -> (r: Option<Vec<char>>)
    ensures
        match r {
            Some(x) => spec_strip_prefix_val(line@, prefix@) == Some(x@),
            None => spec_strip_prefix_val(line@, prefix@) is None,
        },
{
    if prefix.len() > line.len() {
        return None;
    }
    if !eq_at(line, prefix, 0) {
        return None;
    }
    let raw = subvec(line, prefix.len(), line.len());
    let t = trim(&raw);
    Some(unquote(&t))
}

/// Extracts the value of a front-matter field line such as
/// `title: "Some Title"`, for the given field name.
pub fn strip_yaml_field(line: &str, field: &str) -> (r: Option<String>)
    ensures
        match r {
            Some(x) => spec_strip_field(line@, field@) == Some(x@),
            None => spec_strip_field(line@, field@) is None,
        },
{
    let lv = str_to_chars(line);
    let mut prefix = str_to_chars(field);
    prefix.push(':');
    match strip_prefix_val(&lv, &prefix) {
        Some(x) => Some(chars_to_string(&x)),
        None => None,
    }
}

/// The cleaned, non-empty comma-separated tokens of `inner`.
fn yaml_items(inner: &Vec<char>) -> (r: Vec<String>)
    ensures
        r.deep_view() == yaml_items_from(inner@, 0),
{
    let n = inner.len();
    let mut acc: Vec<String> = Vec::new();
    let mut i: usize = 0;
    loop
        invariant
            i <= n,
            n == inner@.len(),
            acc.deep_view() + yaml_items_from(inner@, i as int) == yaml_items_from(inner@, 0),
        ensures
            acc.deep_view() == yaml_items_from(inner@, 0),
        decreases n - i,
    {
        let e = find_char(inner, ',', i);
        let raw = subvec(inner, i, e);
        let t0 = trim(&raw);
        let t1 = trim_char(&t0, '"');
        let tok = trim_char(&t1, '\'');
        let ghost acc0 = acc.deep_view();
        if tok.len() > 0 {
            let s = chars_to_string(&tok);
            acc.push(s);
            proof {
                assert(acc.deep_view() =~= acc0.push(tok@));
            }
        }
        proof {
            assert(tok@ == clean_token(inner@.subrange(i as int, e as int)));
            if tok@.len() > 0 {
                assert(acc.deep_view() =~= acc0 + seq![tok@]);
            } else {
                assert(acc.deep_view() =~= acc0 + Seq::<Seq<char>>::empty());
            }
            if e == n {
                assert(yaml_items_from(inner@, i as int) == (if clean_token(
                    inner@.subrange(i as int, e as int),
                ).len() > 0 {
                    seq![clean_token(inner@.subrange(i as int, e as int))]
                } else {
                    seq![]
                }));
            }
        }
        if e == n {
            proof {
                assert(acc.deep_view() + Seq::<Seq<char>>::empty() =~= acc.deep_view());
                assert(acc.deep_view() =~= yaml_items_from(inner@, 0));
            }
            return acc;
        }
        proof {
            assert(acc0 + yaml_items_from(inner@, i as int) =~= acc.deep_view()
                + yaml_items_from(inner@, e + 1));
        }
        i = e + 1;
    }
}

/// Parses a YAML-style inline array over a character vector.
fn parse_yaml_array_chars(s: &Vec<char>) -> (r: Vec<String>)
    ensures
        r.deep_view() == spec_parse_yaml_array(s@),
{
    let t = trim(s);
    let n = t.len();
    let inner = if n >= 2 && t[0] == '[' && t[n - 1] == ']' {
        subvec(&t, 1, n - 1)
    } else {
        copy_chars(&t)
    };
    yaml_items(&inner)
}

/// Parses a YAML-style inline array such as `["tag1", "tag2"]` into its
/// tag list.
pub fn parse_yaml_array(s: &str) -> (r: Vec<String>)
    ensures
        r.deep_view() == spec_parse_yaml_array(s@),
{
    let v = str_to_chars(s);
    parse_yaml_array_chars(&v)
}

/// Scans the lines of a front-matter block for its title, description
/// and tags fields.
fn fm_scan(fm: &Vec<char>) -> (r: (Vec<char>, Vec<char>, Vec<String>))
    ensures
        (r.0@, r.1@, r.2.deep_view()) == fm_fields_from(
            fm@,
            0,
            Seq::empty(),
            Seq::empty(),
            Seq::empty(),
        ),
{
    let n = fm.len();
    let mut title: Vec<char> = Vec::new();
    let mut desc: Vec<char> = Vec::new();
    let mut tags: Vec<String> = Vec::new();
    let mut title_prefix = str_to_chars("title");
    title_prefix.push(':');
    let mut desc_prefix = str_to_chars("description");
    desc_prefix.push(':');
    let tags_pre = str_to_chars("tags:");
    proof {
        assert(title@ =~= Seq::<char>::empty());
        assert(desc@ =~= Seq::<char>::empty());
        assert(tags.deep_view() =~= Seq::<Seq<char>>::empty());
    }
    let mut i: usize = 0;
    while i < n
        invariant
            i <= n,
            n == fm@.len(),
            title_prefix@ == title_key().push(':'),
            desc_prefix@ == desc_key().push(':'),
            tags_pre@ == tags_prefix(),
            fm_fields_from(fm@, 0, Seq::empty(), Seq::empty(), Seq::empty()) == fm_fields_from(
                fm@,
                i as int,
                title@,
                desc@,
                tags.deep_view(),
            ),
        ensures
            (title@, desc@, tags.deep_view()) == fm_fields_from(
                fm@,
                0,
                Seq::empty(),
                Seq::empty(),
                Seq::empty(),
            ),
        decreases n - i,
    {
        let e = find_char(fm, '\n', i);
        let raw = subvec(fm, i, e);
        let line = trim(&raw);
        let ghost pre = (title@, desc@, tags.deep_view());
        match strip_prefix_val(&line, &title_prefix) {
            Some(val) => {
                title = val;
            },
            None => {
                match strip_prefix_val(&line, &desc_prefix) {
                    Some(val) => {
                        desc = val;
                    },
                    None => {
                        if tags_pre.len() <= line.len() && eq_at(&line, &tags_pre, 0) {
                            let rest = subvec(&line, tags_pre.len(), line.len());
                            tags = parse_yaml_array_chars(&rest);
                        }
                    },
                }
            },
        }
        proof {
            assert((title@, desc@, tags.deep_view()) == fm_apply_line(
                line@,
                pre.0,
                pre.1,
                pre.2,
            ));
            assert(fm_fields_from(fm@, i as int, pre.0, pre.1, pre.2) == fm_fields_from(
                fm@,
                e + 1,
                title@,
                desc@,
                tags.deep_view(),
            ));
        }
        if e == n {
            break ;
        }
        i = e + 1;
    }
    (title, desc, tags)
}

/// Splits a document into its front-matter fields and body: `None` when
/// no well-formed front-matter block opens the document.
pub fn parse_frontmatter(content: &str) -> (r: Option<(String, String, Vec<String>, String)>)
    ensures
        match r {
            Some(p) => spec_parse_frontmatter(content@) == Some(
                (p.0@, p.1@, p.2.deep_view(), p.3@),
            ),
            None => spec_parse_frontmatter(content@) is None,
        },
{
    let v = str_to_chars(content);
    let dashes = str_to_chars("---");
    proof {
        reveal_strlit("---");
    }
    let t = skip_ws(&v, 0);
    if v.len() < 3 || t > v.len() - 3 || !eq_at(&v, &dashes, t) {
        return None;
    }
    let a = skip_crlf(&v, t + 3);
    let end_pat = str_to_chars("\n---");
    proof {
        reveal_strlit("\n---");
    }
    match find_first(&v, &end_pat, a) {
        None => None,
        Some(e) => {
            proof {
                lemma_find_from_found(v@, end_pat@, a as int, e as int);
            }
            let fm = subvec(&v, a, e);
            let fields = fm_scan(&fm);
            let b = skip_crlf(&v, e + 4);
            let body = subvec(&v, b, v.len());
            Some(
                (
                    chars_to_string(&fields.0),
                    chars_to_string(&fields.1),
                    fields.2,
                    chars_to_string(&body),
                ),
            )
        },
    }
}

/// Parses a spec document: front-matter metadata when present, the rest
/// as the body; without front-matter the whole content is the body and
/// the metadata fields are empty. The original text is kept as `raw`.
pub fn parse_spec(content: &str) -> (r: ParsedSpec)
    ensures
        r.raw@ == content@,
        r.title@ == spec_title(content@),
        r.description@ == spec_description(content@),
        r.tags.deep_view() == spec_tags(content@),
        r.body@ == spec_body(content@),
{
    match parse_frontmatter(content) {
        Some(p) => ParsedSpec {
            title: p.0,
            description: p.1,
            tags: p.2,
            body: p.3,
            raw: content.to_owned(),
        },
        None => ParsedSpec {
            title: String::new(),
            description: String::new(),
            tags: Vec::new(),
            body: content.to_owned(),
            raw: content.to_owned(),
        },
    }
}

} // verus!
