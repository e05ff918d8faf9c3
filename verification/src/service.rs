//! The HTTP service's request logic: validation and storage for the
//! create endpoint, lookup for the get endpoint, and the step-count
//! heuristic, all stated over the store model. The surrounding server
//! only decodes requests into these calls and encodes their outcomes.

use vstd::prelude::*;
use crate::spec_parser::{parse_spec, spec_description, spec_title};
use crate::store::{RecordModel, SpecRecord, Store, StoreError};
use crate::text::{
    check_digit_char, contains_seq, contains_sub, find_char, find_char_from, is_digit_char,
    lemma_find_char_bounds, spec_trim, str_to_chars, subvec, trim,
};
use vstd::string::StringSliceAdditionalSpecFns;

verus! {

/// The two-character sequence that marks a numbered list item.
pub open spec fn dot_space() -> Seq<char> {
    ". "@
}

/// Whether a line counts as a numbered step: after trimming, it has more
/// than two characters, begins with an ASCII digit, and contains `". "`.
pub open spec fn is_step_line(line: Seq<char>) -> bool {
    let t = spec_trim(line);
    t.len() > 2 && is_digit_char(t[0]) && contains_seq(t, dot_space())
}

/// The number of step lines from position `i` on, taking each line up
/// to the next newline.
pub open spec fn count_steps_from(s: Seq<char>, i: int) -> int
    decreases s.len() - i + 1,
{
    if !(0 <= i && i < s.len()) {
        0
    } else {
        let e = find_char_from(s, '\n', i);
        proof {
            lemma_find_char_bounds(s, '\n', i);
        }
        (if is_step_line(s.subrange(i, e)) {
            1int
        } else {
            0int
        }) + count_steps_from(s, e + 1)
    }
}

/// The step count is non-negative and at most the number of characters
/// left.
pub proof fn lemma_count_steps_bounds(s: Seq<char>, i: int)
    requires
        0 <= i,
    ensures
        0 <= count_steps_from(s, i),
        count_steps_from(s, i) <= s.len() - i || count_steps_from(s, i) == 0,
    decreases s.len() - i + 1,
{
    if i < s.len() {
        lemma_find_char_bounds(s, '\n', i);
        let e = find_char_from(s, '\n', i);
        lemma_count_steps_bounds(s, e + 1);
    }
}

/// Counts the numbered steps of a document: the lines whose first
/// non-whitespace character is an ASCII digit and which contain `". "`.
pub fn count_steps(content: &str) -> (n: usize)
    ensures
        n as int == count_steps_from(content@, 0),
{
    let v = str_to_chars(content);
    let len = v.len();
    let dot = str_to_chars(". ");
    proof {
        reveal_strlit(". ");
    }
    let mut n: usize = 0;
    let mut i: usize = 0;
    while i < len
        invariant_except_break
            n <= i,
            n as int + count_steps_from(v@, i as int) == count_steps_from(v@, 0),
        invariant
            i <= len,
            len == v@.len(),
            dot@ == dot_space(),
            dot@.len() == 2,
        ensures
            n as int == count_steps_from(v@, 0),
        decreases len - i,
    {
        let e = find_char(&v, '\n', i);
        let raw = subvec(&v, i, e);
        let t = trim(&raw);
        let step = t.len() > 2 && check_digit_char(t[0]) && contains_sub(&t, &dot);
        proof {
            assert(step == is_step_line(v@.subrange(i as int, e as int)));
            assert(count_steps_from(v@, i as int) == (if is_step_line(
                v@.subrange(i as int, e as int),
            ) {
                1int
            } else {
                0int
            }) + count_steps_from(v@, e + 1));
        }
        if step {
            n = n + 1;
        }
        if e == len {
            proof {
                assert(count_steps_from(v@, e + 1) == 0);
            }
            break ;
        }
        i = e + 1;
    }
    n
}

/// What the create endpoint answers on success.
#[derive(Debug)]
pub struct CreateSpecResponse {
    pub id: String,
    pub url: String,
}

/// A request-level failure, mapped to an HTTP status.
#[derive(Debug)]
pub enum ServiceError {
    /// The submitted content was empty (400).
    EmptyContent,
    /// The submitted content exceeded the size ceiling (413).
    OversizedContent,
    /// No record has the requested id (404).
    NotFound,
    /// The storage engine failed; the detail is for server-side logs
    /// only (500).
    Storage(String),
}

impl ServiceError {
    /// The HTTP status of this failure.
    pub open spec fn spec_status_code(&self) -> int {
        match self {
            ServiceError::EmptyContent => 400,
            ServiceError::OversizedContent => 413,
            ServiceError::NotFound => 404,
            ServiceError::Storage(_) => 500,
        }
    }

    /// The HTTP status code to answer with.
    pub fn status_code(&self) -> (r: u16)
        ensures
            r as int == self.spec_status_code(),
    {
        match self {
            ServiceError::EmptyContent => 400,
            ServiceError::OversizedContent => 413,
            ServiceError::NotFound => 404,
            ServiceError::Storage(_) => 500,
        }
    }

    /// The client-visible error text; storage detail is redacted.
    pub open spec fn spec_message(&self) -> Seq<char> {
        match self {
            ServiceError::EmptyContent => "content must not be empty"@,
            ServiceError::OversizedContent => "content exceeds maximum size of 512000 bytes"@,
            ServiceError::NotFound => "spec not found"@,
            ServiceError::Storage(_) => "storage error"@,
        }
    }

    /// The error body text answered to the client.
    pub fn message(&self) -> (r: String)
        ensures
            r@ == self.spec_message(),
    {
        match self {
            ServiceError::EmptyContent => "content must not be empty".to_owned(),
            ServiceError::OversizedContent => "content exceeds maximum size of 512000 bytes"
                .to_owned(),
            ServiceError::NotFound => "spec not found".to_owned(),
            ServiceError::Storage(_) => "storage error".to_owned(),
        }
    }
}

/// Whether submitted content passes validation: non-empty and at most
/// `MAX_CONTENT_SIZE` bytes.
pub open spec fn valid_content(content: &str) -> bool {
    content@.len() > 0 && content.spec_bytes().len() <= crate::MAX_CONTENT_SIZE
}

/// The record a successful create stores for the given content and
/// version, with the engine-assigned creation time `ts`.
pub open spec fn spec_new_record(content: Seq<char>, version: Seq<char>, ts: Seq<char>) -> RecordModel {
    RecordModel {
        content: content,
        title: spec_title(content),
        summary: spec_description(content),
        step_count: count_steps_from(content, 0),
        version: version,
        created_at: ts,
    }
}

/// Whether `c` may appear in a generated spec id: the URL-safe id
/// alphabet.
pub open spec fn is_id_char(c: char) -> bool {
    ('a' <= c && c <= 'z') || ('A' <= c && c <= 'Z') || ('0' <= c && c <= '9') || c == '_' || c
        == '-'
}

/// Relies on nanoid::format with the crate's default random source and
/// its URL-safe alphabet (`A-Za-z0-9_-`): the id has exactly 21
/// characters, each from that alphabet. The result is random; nothing
/// relates one call to another.
#[verifier::external_body]
pub fn new_spec_id() -> (r: String)
    ensures
        r@.len() == 21,
        forall|i: int| 0 <= i < r@.len() ==> is_id_char(#[trigger] r@[i]),
{
    nanoid::format(nanoid::rngs::default, &nanoid::alphabet::SAFE, 21)
}

/// Validates and stores submitted content under the given id: empty
/// content is rejected with `EmptyContent`, content over the ceiling
/// with `OversizedContent`, both before any storage call; otherwise the
/// record derived from the content (title and summary from its
/// front-matter, the step count from its lines) is inserted under the
/// id, and the response carries the id and the joined share URL.
pub fn create_spec_with_id(
    store: &mut Store,
    base_url: &str,
    content: &str,
    version: &str,
    id: &str,
) -> (r: Result<CreateSpecResponse, ServiceError>)
    ensures
        match r {
            Ok(resp) => valid_content(content) && !old(store).contents().dom().contains(id@)
                && resp.id@ == id@ && resp.url@ == base_url@ + "/s/"@ + id@ && (
            exists|ts: Seq<char>|
                final(store).contents() == old(store).contents().insert(
                    id@,
                    spec_new_record(content@, version@, ts),
                )),
            Err(e) => final(store).contents() == old(store).contents() && match e {
                ServiceError::EmptyContent => content@.len() == 0,
                ServiceError::OversizedContent => content@.len() > 0 && content.spec_bytes().len()
                    > crate::MAX_CONTENT_SIZE,
                ServiceError::Storage(_) => valid_content(content),
                ServiceError::NotFound => false,
            },
        },
        content@.len() == 0 ==> r is Err,
        content.spec_bytes().len() > crate::MAX_CONTENT_SIZE ==> r is Err,
        valid_content(content) && old(store).contents().dom().contains(id@) ==> r is Err,
{
    broadcast use vstd::slice::axiom_spec_len;

    if content.is_empty() {
        return Err(ServiceError::EmptyContent);
    }
    let nbytes = content.as_bytes().len();
    if nbytes > crate::MAX_CONTENT_SIZE {
        return Err(ServiceError::OversizedContent);
    }
    proof {
        crate::text::lemma_encode_len(content@);
        assert(content@.len() <= crate::MAX_CONTENT_SIZE);
    }
    let parsed = parse_spec(content);
    let steps = count_steps(content);
    proof {
        lemma_count_steps_bounds(content@, 0);
        assert(steps <= crate::MAX_CONTENT_SIZE);
    }
    let step_count: i64 = steps as i64;
    match store.insert(id, content, parsed.title.as_str(), parsed.description.as_str(), step_count, version) {
        Ok(()) => {
            let mut url = base_url.to_owned();
            url.append("/s/");
            url.append(id);
            proof {
                let ts = choose|ts: Seq<char>|
                    store.contents() == old(store).contents().insert(
                        id@,
                        (RecordModel {
                            content: content@,
                            title: parsed.title@,
                            summary: parsed.description@,
                            step_count: step_count as int,
                            version: version@,
                            created_at: ts,
                        }),
                    );
                assert(store.contents() == old(store).contents().insert(
                    id@,
                    spec_new_record(content@, version@, ts),
                ));
            }
            Ok(CreateSpecResponse { id: id.to_owned(), url })
        },
        Err(StoreError::Conflict) => Err(ServiceError::Storage("duplicate spec id".to_owned())),
        Err(StoreError::Storage(detail)) => Err(ServiceError::Storage(detail)),
    }
}

/// Handles the create endpoint: validates the content, generates a
/// fresh random id, and stores the derived record under it; the
/// response carries the id and the share URL. A collision of the random
/// id with a stored one surfaces as a storage failure, never as a
/// silent retry.
pub fn create_spec(store: &mut Store, base_url: &str, content: &str, version: &str) -> (r: Result<
    CreateSpecResponse,
    ServiceError,
>)
    ensures
        match r {
            Ok(resp) => valid_content(content) && resp.id@.len() == 21 && (forall|i: int|
                0 <= i < resp.id@.len() ==> is_id_char(#[trigger] resp.id@[i])) && !old(
                store,
            ).contents().dom().contains(resp.id@) && resp.url@ == base_url@ + "/s/"@ + resp.id@
                && (exists|ts: Seq<char>|
                final(store).contents() == old(store).contents().insert(
                    resp.id@,
                    spec_new_record(content@, version@, ts),
                )),
            Err(e) => final(store).contents() == old(store).contents() && match e {
                ServiceError::EmptyContent => content@.len() == 0,
                ServiceError::OversizedContent => content@.len() > 0 && content.spec_bytes().len()
                    > crate::MAX_CONTENT_SIZE,
                ServiceError::Storage(_) => valid_content(content),
                ServiceError::NotFound => false,
            },
        },
        content@.len() == 0 ==> r is Err,
        content.spec_bytes().len() > crate::MAX_CONTENT_SIZE ==> r is Err,
{
    let id = new_spec_id();
    create_spec_with_id(store, base_url, content, version, id.as_str())
}

/// Handles the get endpoint: the stored record for the id, `NotFound`
/// when no record has it, a redacted storage failure otherwise. Reading
/// never changes the store.
pub fn get_spec(store: &Store, id: &str) -> (r: Result<SpecRecord, ServiceError>)
    ensures
        match r {
            Ok(rec) => store.contents().dom().contains(id@) && rec.id@ == id@ && rec.model()
                == store.contents()[id@],
            Err(e) => match e {
                ServiceError::NotFound => !store.contents().dom().contains(id@),
                ServiceError::Storage(_) => true,
                ServiceError::EmptyContent => false,
                ServiceError::OversizedContent => false,
            },
        },
{
    match store.get(id) {
        Ok(Some(rec)) => Ok(rec),
        Ok(None) => Err(ServiceError::NotFound),
        Err(_) => Err(ServiceError::Storage("database error".to_owned())),
    }
}

/// The health endpoint's body: a pure liveness signal, independent of
/// storage state.
pub fn health_body() -> (r: String)
    ensures
        r@ == "{\"status\":\"ok\"}"@,
{
    "{\"status\":\"ok\"}".to_owned()
}

/// Creating any allowed content under a fresh id and then reading that
/// id back finds the record, whose content is exactly what was
/// submitted: the create/get round trip over the store model.
pub proof fn lemma_create_then_get(
    m: Map<Seq<char>, RecordModel>,
    id: Seq<char>,
    content: Seq<char>,
    version: Seq<char>,
    ts: Seq<char>,
)
    requires
        !m.dom().contains(id),
    ensures
        m.insert(id, spec_new_record(content, version, ts)).dom().contains(id),
        m.insert(id, spec_new_record(content, version, ts))[id].content == content,
{
}

/// A create adds only its own id: an id absent from the store is still
/// absent after a different id is created, so a get on an id never
/// returned by create still finds nothing.
pub proof fn lemma_get_unknown_id(
    m: Map<Seq<char>, RecordModel>,
    created: Seq<char>,
    unknown: Seq<char>,
    rec: RecordModel,
)
    requires
        !m.dom().contains(unknown),
        created != unknown,
    ensures
        !m.insert(created, rec).dom().contains(unknown),
{
}

} // verus!

