//! The notes that a signed-in user keeps, and the decisions that the notes
//! API makes about each request. The server reads the request, hands the
//! library plain values, performs the database or network work the library
//! asks for, and hands back what came of it.
use vstd::prelude::*;

use crate::calls::{
    all_visible_ascii, ascii_text, header_text, now_millis, rfc3339_of_millis, rfc3339_text,
};
use crate::calls::{note_id_text, parse_note_id};
use crate::json::{field, fields_view, object, Json, JsonValue};
use crate::note_id::{hex_bytes, is_note_id_text, lower_hex, NoteId};
use crate::text::{first_segment, first_segment_of, trim, trimmed};

verus! {

/// The header values that the notes API reads: `x-eco-user`, which the
/// gateway sets to `<sub>,roles=<role>`, and `authorization`. Each is the raw
/// bytes of the first value of that header, or `None` where it is absent.
#[derive(Clone, Debug, PartialEq)]
pub struct RequestHeaders {
    pub eco_user: Option<Vec<u8>>,
    pub authorization: Option<Vec<u8>>,
}

/// The bytes of an optional byte vector.
pub open spec fn opt_bytes(o: Option<Vec<u8>>) -> Option<Seq<u8>> {
    match o {
        Some(v) => Some(v@),
        None => None,
    }
}

/// The characters of an optional string.
pub open spec fn opt_chars(o: Option<String>) -> Option<Seq<char>> {
    match o {
        Some(s) => Some(s@),
        None => None,
    }
}

/// The signed-in user that an `x-eco-user` header names: the text before its
/// first comma, without surrounding white space, where that is not empty and
/// the header reads as text.
pub open spec fn user_of(eco_user: Option<Seq<u8>>) -> Option<Seq<char>> {
    match eco_user {
        None => None,
        Some(raw) => if all_visible_ascii(raw) {
            let sub = trimmed(first_segment(ascii_text(raw), ','));
            if sub.len() == 0 {
                None
            } else {
                Some(sub)
            }
        } else {
            None
        },
    }
}

/// Reads the authenticated user id from the `x-eco-user` header that the
/// gateway sets (`<sub>,roles=<role>`).
pub fn user_from_headers(headers: &RequestHeaders) -> (res: Option<String>)
    ensures
        opt_chars(res) == user_of(opt_bytes(headers.eco_user)),
{
    let raw = match &headers.eco_user {
        Some(raw) => raw,
        None => return None,
    };
    let value = match header_text(raw.as_slice()) {
        Some(value) => value,
        None => return None,
    };
    let sub = trim(first_segment_of(value.as_str(), ',').as_str());
    if sub.unicode_len() == 0 {
        None
    } else {
        Some(sub)
    }
}

/// A note of a user.
#[derive(Clone, Debug, PartialEq)]
pub struct Note {
    /// The identifier that the database gave the note, once it is stored.
    pub id: Option<NoteId>,
    pub user_id: String,
    pub title: String,
    pub body: String,
    pub pinned: bool,
    /// Milliseconds since the Unix epoch.
    pub created_at: i64,
    /// Milliseconds since the Unix epoch.
    pub updated_at: i64,
}

/// A note as a mathematical value.
pub struct NoteView {
    pub id: Option<Seq<u8>>,
    pub user_id: Seq<char>,
    pub title: Seq<char>,
    pub body: Seq<char>,
    pub pinned: bool,
    pub created_at: i64,
    pub updated_at: i64,
}

impl View for Note {
    type V = NoteView;

    open spec fn view(&self) -> NoteView {
        NoteView {
            id: match self.id {
                Some(id) => Some(id@),
                None => None,
            },
            user_id: self.user_id@,
            title: self.title@,
            body: self.body@,
            pinned: self.pinned,
            created_at: self.created_at,
            updated_at: self.updated_at,
        }
    }
}

/// What the API shows of a note, given the text of its two times: everything
/// but its owner, the identifier in lower-case hexadecimal.
pub open spec fn note_json_of(n: NoteView, created_at: Seq<char>, updated_at: Seq<char>) -> Json {
    Json::Object(
        seq![
            ("id"@, match n.id {
                Some(b) => Json::Str(lower_hex(b)),
                None => Json::Null,
            }),
            ("title"@, Json::Str(n.title)),
            ("body"@, Json::Str(n.body)),
            ("pinned"@, Json::Bool(n.pinned)),
            ("createdAt"@, Json::Str(created_at)),
            ("updatedAt"@, Json::Str(updated_at)),
        ],
    )
}

/// What the API shows of a note: everything but its owner, with the times
/// in RFC 3339.
pub open spec fn public_json_of(n: NoteView) -> Json {
    note_json_of(n, rfc3339_text(n.created_at), rfc3339_text(n.updated_at))
}

impl Note {
    /// The note as the API shows it, with its times written as `created_at`
    /// and `updated_at`.
    pub fn json_with_times(&self, created_at: String, updated_at: String) -> (res: JsonValue)
        ensures
            res@ == note_json_of(self@, created_at@, updated_at@),
    {
        let id = match self.id {
            Some(oid) => JsonValue::Str(note_id_text(oid)),
            None => JsonValue::Null,
        };
        let fields = vec![
            field("id", id),
            field("title", JsonValue::Str(self.title.clone())),
            field("body", JsonValue::Str(self.body.clone())),
            field("pinned", JsonValue::Bool(self.pinned)),
            field("createdAt", JsonValue::Str(created_at)),
            field("updatedAt", JsonValue::Str(updated_at)),
        ];
        assert(fields_view(fields@) =~= note_json_of(self@, created_at@, updated_at@)->Object_0);
        object(fields)
    }

    /// The note as the API shows it.
    pub fn public_json(&self) -> (res: JsonValue)
        ensures
            res@ == public_json_of(self@),
    {
        self.json_with_times(rfc3339_of_millis(self.created_at), rfc3339_of_millis(self.updated_at))
    }
}

/// An answer of the API: an HTTP status and a JSON body.
#[derive(Debug, PartialEq)]
pub struct ApiResponse {
    pub status: u16,
    pub body: JsonValue,
}

impl View for ApiResponse {
    type V = (u16, Json);

    open spec fn view(&self) -> (u16, Json) {
        (self.status, self.body@)
    }
}

/// The body `{"error": message}`.
pub open spec fn error_json(message: Seq<char>) -> Json {
    Json::Object(seq![("error"@, Json::Str(message))])
}

fn error_response(status: u16, message: String) -> (res: ApiResponse)
    ensures
        res@ == (status, error_json(message@)),
{
    let fields = vec![field("error", JsonValue::Str(message))];
    assert(fields_view(fields@) =~= seq![("error"@, Json::Str(message@))]);
    ApiResponse { status, body: object(fields) }
}

/// The answer to a request without a signed-in user.
pub fn unauthorized() -> (res: ApiResponse)
    ensures
        res@ == (401u16, error_json("unauthorized"@)),
{
    error_response(401, "unauthorized".to_owned())
}

/// The answer to a request that failed in the database or the network.
pub fn internal(message: String) -> (res: ApiResponse)
    ensures
        res@ == (500u16, error_json(message@)),
{
    error_response(500, message)
}

/// The answer where the note asked for does not exist or is not the user's.
pub fn not_found() -> (res: ApiResponse)
    ensures
        res@ == (404u16, error_json("not found"@)),
{
    error_response(404, "not found".to_owned())
}

} // verus!

verus! {

/// Copies `a` followed by `b`.
pub fn concat(a: &str, b: &str) -> (res: String)
    ensures
        res@ == a@ + b@,
{
    let mut res = a.to_owned();
    res.append(b);
    res
}

/// What a user sends to create or change a note; a field left out keeps
/// its default or its stored value.
#[derive(Clone, Debug, PartialEq)]
pub struct NoteInput {
    pub title: Option<String>,
    pub body: Option<String>,
    pub pinned: Option<bool>,
}

pub struct NoteInputView {
    pub title: Option<Seq<char>>,
    pub body: Option<Seq<char>>,
    pub pinned: Option<bool>,
}

impl View for NoteInput {
    type V = NoteInputView;

    open spec fn view(&self) -> NoteInputView {
        NoteInputView {
            title: opt_chars(self.title),
            body: opt_chars(self.body),
            pinned: self.pinned,
        }
    }
}

/// The note that `user` creates from `input` at `now`: its title without
/// surrounding white space, an empty body and no pin where left out, and
/// both times `now`. It has no identifier until it is stored.
pub open spec fn new_note_of(user: Seq<char>, input: NoteInputView, now: i64) -> NoteView {
    NoteView {
        id: None,
        user_id: user,
        title: match input.title {
            Some(t) => trimmed(t),
            None => Seq::empty(),
        },
        body: match input.body {
            Some(b) => b,
            None => Seq::empty(),
        },
        pinned: match input.pinned {
            Some(p) => p,
            None => false,
        },
        created_at: now,
        updated_at: now,
    }
}

/// Builds the note that `user_id` creates from `input` at `now`.
pub fn new_note(user_id: String, input: NoteInput, now: i64) -> (res: Note)
    ensures
        res@ == new_note_of(user_id@, input@, now),
{
    let title = match &input.title {
        Some(t) => trim(t.as_str()),
        None => String::new(),
    };
    let body = match input.body {
        Some(b) => b,
        None => String::new(),
    };
    let pinned = match input.pinned {
        Some(p) => p,
        None => false,
    };
    Note { id: None, user_id, title, body, pinned, created_at: now, updated_at: now }
}

/// The note `existing` after `user` changes it with `input` at `now`: each
/// field that `input` gives replaces the stored one (the title as given), the
/// creation time stays, and the change time becomes `now`.
pub open spec fn merged_note_of(
    existing: NoteView,
    id: Seq<u8>,
    user: Seq<char>,
    input: NoteInputView,
    now: i64,
) -> NoteView {
    NoteView {
        id: Some(id),
        user_id: user,
        title: match input.title {
            Some(t) => t,
            None => existing.title,
        },
        body: match input.body {
            Some(b) => b,
            None => existing.body,
        },
        pinned: match input.pinned {
            Some(p) => p,
            None => existing.pinned,
        },
        created_at: existing.created_at,
        updated_at: now,
    }
}

/// Builds the note `existing` after `user_id` changes it with `input` at `now`.
pub fn merge_note(existing: Note, id: NoteId, user_id: String, input: NoteInput, now: i64) -> (res:
    Note)
    ensures
        res@ == merged_note_of(existing@, id@, user_id@, input@, now),
{
    let title = match input.title {
        Some(t) => t,
        None => existing.title,
    };
    let body = match input.body {
        Some(b) => b,
        None => existing.body,
    };
    let pinned = match input.pinned {
        Some(p) => p,
        None => existing.pinned,
    };
    Note {
        id: Some(id),
        user_id,
        title,
        body,
        pinned,
        created_at: existing.created_at,
        updated_at: now,
    }
}

/// A field of a note that a listing is ordered by.
#[derive(Clone, Copy, PartialEq, Eq, Structural, Debug)]
pub enum SortKey {
    Pinned,
    UpdatedAt,
}

/// Whether a listing puts the smallest or the greatest value of a key first
/// (`false` before `true`, earlier times before later ones).
#[derive(Clone, Copy, PartialEq, Eq, Structural, Debug)]
pub enum Direction {
    Ascending,
    Descending,
}

/// The order of a listing: pinned notes first, then the most recently
/// changed, each key from its greatest value down.
pub open spec fn listing_order() -> Seq<(SortKey, Direction)> {
    seq![(SortKey::Pinned, Direction::Descending), (SortKey::UpdatedAt, Direction::Descending)]
}

/// Whether `a` comes before `b` when notes are listed in `order`: by the
/// first key on which they differ, in that key's direction.
pub open spec fn listed_before(order: Seq<(SortKey, Direction)>, a: NoteView, b: NoteView) -> bool
    decreases order.len(),
{
    if order.len() == 0 {
        false
    } else {
        let (key, dir) = order[0];
        let (x, y): (int, int) = match key {
            SortKey::Pinned => (if a.pinned { 1int } else { 0int }, if b.pinned { 1int } else { 0int }),
            SortKey::UpdatedAt => (a.updated_at as int, b.updated_at as int),
        };
        if x == y {
            listed_before(order.drop_first(), a, b)
        } else {
            match dir {
                Direction::Ascending => x < y,
                Direction::Descending => x > y,
            }
        }
    }
}

/// The first step of listing: answer at once, or ask the database for the
/// notes of a user, in `order`: by the first key, then by the next.
#[derive(Debug, PartialEq)]
pub enum ListStep {
    Respond(ApiResponse),
    Query { user_id: String, order: Vec<(SortKey, Direction)> },
}

/// Decides what a request to list the notes needs.
pub fn list_notes(headers: &RequestHeaders) -> (res: ListStep)
    ensures
        user_of(opt_bytes(headers.eco_user)) is None ==> (res matches ListStep::Respond(r) && r@
            == unauthorized_view()),
        user_of(opt_bytes(headers.eco_user)) matches Some(u) ==> (res matches ListStep::Query {
            user_id,
            order,
        } && user_id@ == u && order@ == listing_order()),
{
    match user_from_headers(headers) {
        None => ListStep::Respond(unauthorized()),
        Some(user_id) => ListStep::Query {
            user_id,
            order: vec![(SortKey::Pinned, Direction::Descending), (SortKey::UpdatedAt, Direction::Descending)],
        },
    }
}

/// The answer to a listing, from the notes that the database found, in its
/// order, or from the text of its error.
pub fn list_notes_result(found: Result<Vec<Note>, String>) -> (res: ApiResponse)
    ensures
        found matches Ok(notes) ==> res@ == (200u16, Json::Array(
            Seq::new(notes@.len(), |i: int| public_json_of(notes@[i]@)),
        )),
        found matches Err(e) ==> res@ == (500u16, error_json("list notes: "@ + e@)),
{
    match found {
        Ok(notes) => {
            let mut items: Vec<JsonValue> = Vec::new();
            let mut i: usize = 0;
            while i < notes.len()
                invariant
                    i <= notes@.len(),
                    items@.len() == i,
                    forall|j: int| 0 <= j < i ==> (#[trigger] items@[j])@ == public_json_of(notes@[j]@),
                decreases notes@.len() - i,
            {
                items.push(notes[i].public_json());
                i = i + 1;
            }
            let body = crate::json::array(items);
            proof {
                assert(crate::json::items_view(items@) =~= Seq::new(
                    notes@.len(),
                    |i: int| public_json_of(notes@[i]@),
                ));
            }
            ApiResponse { status: 200, body }
        },
        Err(e) => internal(concat("list notes: ", e.as_str())),
    }
}

/// The first step of creating a note: answer at once, or store the note.
#[derive(Debug, PartialEq)]
pub enum CreateStep {
    Respond(ApiResponse),
    Insert(Note),
}

/// Decides what a request to create a note needs; the note is stamped with the
/// current time, read from the clock, which is never before the epoch.
pub fn create_note(headers: &RequestHeaders, input: NoteInput) -> (res: CreateStep)
    ensures
        user_of(opt_bytes(headers.eco_user)) is None ==> (res matches CreateStep::Respond(r) && r@
            == unauthorized_view()),
        user_of(opt_bytes(headers.eco_user)) matches Some(u) ==> (res matches CreateStep::Insert(n)
            && n@ == new_note_of(u, input@, n.created_at) && n.created_at >= 0),
{
    match user_from_headers(headers) {
        None => CreateStep::Respond(unauthorized()),
        Some(user_id) => {
            let now = now_millis();
            CreateStep::Insert(new_note(user_id, input, now))
        },
    }
}

/// `note` with the identifier `id`.
pub open spec fn with_id(note: NoteView, id: Option<Seq<u8>>) -> NoteView {
    NoteView { id, ..note }
}

/// The answer to a creation, from the identifier that the database gave the
/// note (none where it is not an object id), or from the text of its error.
pub fn create_note_result(note: Note, inserted: Result<Option<NoteId>, String>) -> (res:
    ApiResponse)
    ensures
        inserted matches Ok(id) ==> res@ == (200u16, public_json_of(with_id(note@, match id {
            Some(i) => Some(i@),
            None => None,
        }))),
        inserted matches Err(e) ==> res@ == (500u16, error_json("create note: "@ + e@)),
{
    match inserted {
        Ok(id) => {
            let mut created = note;
            created.id = id;
            ApiResponse { status: 200, body: created.public_json() }
        },
        Err(e) => internal(concat("create note: ", e.as_str())),
    }
}

/// The first step of changing or deleting a note: answer at once, or work on
/// the note `id` of the user.
#[derive(Debug, PartialEq)]
pub enum NoteTarget {
    Respond(ApiResponse),
    Target { id: NoteId, user_id: String },
}

pub enum NoteTargetView {
    Respond((u16, Json)),
    Target { id: Seq<u8>, user_id: Seq<char> },
}

impl View for NoteTarget {
    type V = NoteTargetView;

    open spec fn view(&self) -> NoteTargetView {
        match self {
            NoteTarget::Respond(r) => NoteTargetView::Respond(r@),
            NoteTarget::Target { id, user_id } => NoteTargetView::Target {
                id: id@,
                user_id: user_id@,
            },
        }
    }
}

/// The answer to a request without a signed-in user.
pub open spec fn unauthorized_view() -> (u16, Json) {
    (401u16, error_json("unauthorized"@))
}

/// The answer where the note asked for does not exist or is not the user's.
pub open spec fn not_found_view() -> (u16, Json) {
    (404u16, error_json("not found"@))
}

/// Which note a request to change or delete `id_text` works on: without a
/// signed-in user it is answered 401; with one, an id that is not 24
/// hexadecimal digits is answered 404.
pub open spec fn target_of(eco_user: Option<Seq<u8>>, id_text: Seq<char>) -> NoteTargetView {
    match user_of(eco_user) {
        None => NoteTargetView::Respond(unauthorized_view()),
        Some(u) => if is_note_id_text(id_text) {
            NoteTargetView::Target { id: hex_bytes(id_text), user_id: u }
        } else {
            NoteTargetView::Respond(not_found_view())
        },
    }
}

fn target_note(headers: &RequestHeaders, id_text: &str) -> (res: NoteTarget)
    ensures
        res@ == target_of(opt_bytes(headers.eco_user), id_text@),
{
    let user_id = match user_from_headers(headers) {
        None => return NoteTarget::Respond(unauthorized()),
        Some(user_id) => user_id,
    };
    match parse_note_id(id_text) {
        None => NoteTarget::Respond(not_found()),
        Some(id) => NoteTarget::Target { id, user_id },
    }
}

/// Decides what a request to change the note `id_text` needs first.
pub fn update_note(headers: &RequestHeaders, id_text: &str) -> (res: NoteTarget)
    ensures
        res@ == target_of(opt_bytes(headers.eco_user), id_text@),
{
    target_note(headers, id_text)
}

/// The second step of a change: answer at once, or write the changed note.
#[derive(Debug, PartialEq)]
pub enum UpdateWrite {
    Respond(ApiResponse),
    Write(Note),
}

/// Decides the change from the note that the database found for the id and
/// the user, if any; the change is stamped with the current time, read from
/// the clock, which is never before the epoch, whatever the stored note says.
pub fn update_note_found(existing: Option<Note>, id: NoteId, user_id: String, input: NoteInput) -> (res:
    UpdateWrite)
    ensures
        existing is None ==> (res matches UpdateWrite::Respond(r) && r@ == not_found_view()),
        existing matches Some(e) ==> (res matches UpdateWrite::Write(n) && n@ == merged_note_of(
            e@,
            id@,
            user_id@,
            input@,
            n.updated_at,
        ) && n.updated_at >= 0),
{
    match existing {
        None => UpdateWrite::Respond(not_found()),
        Some(e) => {
            let now = now_millis();
            UpdateWrite::Write(merge_note(e, id, user_id, input, now))
        },
    }
}

/// The answer to a change, once the database has written `note` or failed
/// with the text of its error.
pub fn update_note_result(note: &Note, written: Result<(), String>) -> (res: ApiResponse)
    ensures
        written is Ok ==> res@ == (200u16, public_json_of(note@)),
        written matches Err(e) ==> res@ == (500u16, error_json("update note: "@ + e@)),
{
    match written {
        Ok(()) => ApiResponse { status: 200, body: note.public_json() },
        Err(e) => internal(concat("update note: ", e.as_str())),
    }
}

/// Decides what a request to delete the note `id_text` needs first.
pub fn delete_note(headers: &RequestHeaders, id_text: &str) -> (res: NoteTarget)
    ensures
        res@ == target_of(opt_bytes(headers.eco_user), id_text@),
{
    target_note(headers, id_text)
}

/// The body `{"ok": true}`.
pub open spec fn ok_json() -> Json {
    Json::Object(seq![("ok"@, Json::Bool(true))])
}

/// The answer to a deletion, from the number of notes that the database
/// deleted or the text of its error: one deleted note is a success, none is
/// 404.
pub fn delete_note_result(deleted: Result<u64, String>) -> (res: ApiResponse)
    ensures
        deleted == Ok::<u64, String>(1) ==> res@ == (200u16, ok_json()),
        deleted matches Ok(n) && n != 1 ==> res@ == not_found_view(),
        deleted matches Err(e) ==> res@ == (500u16, error_json("delete note: "@ + e@)),
{
    match deleted {
        Ok(n) => if n == 1 {
            let fields = vec![field("ok", JsonValue::Bool(true))];
            assert(fields_view(fields@) =~= ok_json()->Object_0);
            ApiResponse { status: 200, body: object(fields) }
        } else {
            not_found()
        },
        Err(e) => internal(concat("delete note: ", e.as_str())),
    }
}

} // verus!
