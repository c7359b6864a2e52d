use vstd::prelude::*;
use crate::types::SyncStoryPreview;

verus! {

#[verifier::external_type_specification]
#[verifier::external_body]
pub struct ExJsonValue(serde_json::Value);

/// A JSON value read from a document, with the document's text and the
/// member names that lead from its root to this value.
pub struct JsonAt {
    value: serde_json::Value,
    doc: Ghost<Seq<char>>,
    path: Ghost<Seq<Seq<char>>>,
}

impl JsonAt {
    /// The text of the document the value was read from.
    pub closed spec fn doc(self) -> Seq<char> {
        self.doc@
    }

    /// The member names that lead from the document's root to the value.
    pub closed spec fn path(self) -> Seq<Seq<char>> {
        self.path@
    }
}

/// What serde_json says of a text read as a JSON value: `None` when it is
/// one, else the message of its error.
pub uninterp spec fn json_error_of(text: Seq<char>) -> Option<Seq<char>>;

/// Whether the member path `path` leads to a value in the JSON document
/// `doc`: each step names a member of an object.
pub uninterp spec fn json_member_exists(doc: Seq<char>, path: Seq<Seq<char>>) -> bool;

/// The text of the string at `path` in `doc`, if it is a string.
pub uninterp spec fn json_str_at(doc: Seq<char>, path: Seq<Seq<char>>) -> Option<Seq<char>>;

/// The integer at `path` in `doc`, if it is one that fits in i64.
pub uninterp spec fn json_i64_at(doc: Seq<char>, path: Seq<Seq<char>>) -> Option<i64>;

/// The number of items of the array at `path` in `doc`, if it is an array.
pub uninterp spec fn json_array_len_at(doc: Seq<char>, path: Seq<Seq<char>>) -> Option<usize>;

/// Whether a text is one JSON document.
pub open spec fn is_json(text: Seq<char>) -> bool {
    json_error_of(text) is None
}

/// The view of an optional string.
pub open spec fn opt_view(o: Option<String>) -> Option<Seq<char>> {
    match o {
        Some(s) => Some(s@),
        None => None,
    }
}

/// Relies on serde_json::from_str::<Value>: it reads the text as a JSON
/// value, or fails with an error, depending on the text alone. The error is
/// kept as its message.
#[verifier::external_body]
fn parse_json(text: &str) -> (r: Result<JsonAt, String>)
    ensures
        match r {
            Ok(v) => json_error_of(text@) is None && v.doc() == text@
                && v.path() == Seq::<Seq<char>>::empty(),
            Err(e) => json_error_of(text@) == Some(e@),
        },
{
    match serde_json::from_str::<serde_json::Value>(text) {
        Ok(value) => Ok(JsonAt { value, doc: Ghost(text@), path: Ghost(Seq::empty()) }),
        Err(e) => Err(e.to_string()),
    }
}

/// Relies on serde_json::Value::get: the member named `key` of an object,
/// and nothing for a value of another kind.
#[verifier::external_body]
fn json_member(at: &JsonAt, key: &str) -> (r: Option<JsonAt>)
    ensures
        r is Some <==> json_member_exists(at.doc(), at.path().push(key@)),
        r matches Some(c) ==> c.doc() == at.doc() && c.path() == at.path().push(key@),
{
    match at.value.get(key) {
        Some(v) => Some(JsonAt { value: v.clone(), doc: Ghost(at.doc@), path: Ghost(at.path@.push(key@)) }),
        None => None,
    }
}

/// Relies on serde_json::Value::as_str: the text of a string value.
#[verifier::external_body]
fn json_text(at: &JsonAt) -> (r: Option<String>)
    ensures
        opt_view(r) == json_str_at(at.doc(), at.path()),
{
    at.value.as_str().map(String::from)
}

/// Relies on serde_json::Value::as_i64: the value of an integer that fits in i64.
#[verifier::external_body]
fn json_i64(at: &JsonAt) -> (r: Option<i64>)
    ensures
        r == json_i64_at(at.doc(), at.path()),
{
    at.value.as_i64()
}

/// Relies on serde_json::Value::as_array: the number of items of an array.
#[verifier::external_body]
fn json_array_len(at: &JsonAt) -> (r: Option<usize>)
    ensures
        r == json_array_len_at(at.doc(), at.path()),
{
    at.value.as_array().map(|a| a.len())
}

/// The text of the string at `path` in `doc`, when that member exists and
/// is a string.
pub open spec fn field_text(doc: Seq<char>, path: Seq<Seq<char>>) -> Option<Seq<char>> {
    if json_member_exists(doc, path) { json_str_at(doc, path) } else { None }
}

/// The i64 at `path` in `doc`, when that member exists and is one.
pub open spec fn field_i64(doc: Seq<char>, path: Seq<Seq<char>>) -> Option<i64> {
    if json_member_exists(doc, path) { json_i64_at(doc, path) } else { None }
}

/// The length of the array at `path` in `doc`, when that member exists and
/// is an array.
pub open spec fn field_array_len(doc: Seq<char>, path: Seq<Seq<char>>) -> Option<usize> {
    if json_member_exists(doc, path) { json_array_len_at(doc, path) } else { None }
}

/// The path of the member `key` of an export's story.
pub open spec fn story_path(key: Seq<char>) -> Seq<Seq<char>> {
    seq!["story"@, key]
}

/// Whether an export has a top-level `story` member.
pub open spec fn has_story(doc: Seq<char>) -> bool {
    json_member_exists(doc, seq!["story"@])
}

/// Whether a preview can be extracted from an export: it is JSON and has a
/// story.
pub open spec fn extracts(doc: Seq<char>) -> bool {
    is_json(doc) && has_story(doc)
}

/// Whether `p` is the preview of the export `doc`: each field is read from
/// the story, or from the top-level `entries`, with its default.
pub open spec fn preview_matches(doc: Seq<char>, p: SyncStoryPreview) -> bool {
    &&& p.id@ == (match field_text(doc, story_path("id"@)) {
        Some(s) => s,
        None => Seq::<char>::empty(),
    })
    &&& p.title@ == (match field_text(doc, story_path("title"@)) {
        Some(s) => s,
        None => untitled_text(),
    })
    &&& opt_view(p.genre) == field_text(doc, story_path("genre"@))
    &&& p.updated_at == (match field_i64(doc, story_path("updatedAt"@)) {
        Some(t) => t,
        None => 0i64,
    })
    &&& p.entry_count == (match field_array_len(doc, seq!["entries"@]) {
        Some(n) => n,
        None => 0usize,
    })
}

/// The text of an absent title.
pub open spec fn untitled_text() -> Seq<char> {
    "Untitled"@
}

/// The message of a failure to read a document as JSON.
pub open spec fn invalid_json_text(detail: Seq<char>) -> Seq<char> {
    "Invalid JSON: "@ + detail
}

/// The message of a document without a story.
pub open spec fn missing_story_text() -> Seq<char> {
    "Missing 'story' field in export"@
}

/// Builds a preview from the fields found in an export, with defaults for
/// those that are absent or of another type: an empty id, the title
/// "Untitled", no genre, time zero, and no entries.
pub fn preview_from_fields(
    id: Option<String>,
    title: Option<String>,
    genre: Option<String>,
    updated_at: Option<i64>,
    entry_count: Option<usize>,
) -> (r: SyncStoryPreview)
    ensures
        r.id@ == (match id {
            Some(s) => s@,
            None => Seq::<char>::empty(),
        }),
        r.title@ == (match title {
            Some(s) => s@,
            None => untitled_text(),
        }),
        r.genre == genre,
        r.updated_at == (match updated_at {
            Some(t) => t,
            None => 0i64,
        }),
        r.entry_count == (match entry_count {
            Some(n) => n,
            None => 0usize,
        }),
{
    let id = match id {
        Some(s) => s,
        None => String::new(),
    };
    let title = match title {
        Some(s) => s,
        None => String::from_str("Untitled"),
    };
    let updated_at: i64 = match updated_at {
        Some(t) => t,
        None => 0,
    };
    let entry_count: usize = match entry_count {
        Some(n) => n,
        None => 0,
    };
    SyncStoryPreview { id, title, genre, updated_at, entry_count }
}

/// Reads the preview of a story export: `story.id`, `story.title`,
/// `story.genre`, `story.updatedAt` and the length of `entries`. Fails when
/// the text is not JSON, or has no `story` member.
pub fn parse_story_preview(json: &str) -> (r: Result<SyncStoryPreview, String>)
    ensures
        r is Ok <==> extracts(json@),
        json_error_of(json@) matches Some(d) ==> (r matches Err(m) && m@ == invalid_json_text(d)),
        is_json(json@) && !has_story(json@) ==> (r matches Err(m) && m@ == missing_story_text()),
        r matches Ok(p) ==> preview_matches(json@, p),
{
    let data = match parse_json(json) {
        Ok(v) => v,
        Err(detail) => {
            return Err(String::from_str("Invalid JSON: ").concat(detail.as_str()));
        },
    };
    assert(data.path().push("story"@) =~= seq!["story"@]);
    assert(data.path().push("entries"@) =~= seq!["entries"@]);
    let story = match json_member(&data, "story") {
        Some(s) => s,
        None => {
            return Err(String::from_str("Missing 'story' field in export"));
        },
    };
    assert(story.path().push("id"@) =~= story_path("id"@));
    assert(story.path().push("title"@) =~= story_path("title"@));
    assert(story.path().push("genre"@) =~= story_path("genre"@));
    assert(story.path().push("updatedAt"@) =~= story_path("updatedAt"@));
    let entries = match json_member(&data, "entries") {
        Some(e) => json_array_len(&e),
        None => None,
    };
    let id = match json_member(&story, "id") {
        Some(v) => json_text(&v),
        None => None,
    };
    let title = match json_member(&story, "title") {
        Some(v) => json_text(&v),
        None => None,
    };
    let genre = match json_member(&story, "genre") {
        Some(v) => json_text(&v),
        None => None,
    };
    let updated_at = match json_member(&story, "updatedAt") {
        Some(v) => json_i64(&v),
        None => None,
    };
    Ok(preview_from_fields(id, title, genre, updated_at, entries))
}

} // verus!
