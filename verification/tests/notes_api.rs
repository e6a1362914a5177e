use proof_rust::json::JsonValue;
use proof_rust::note_id::NoteId;
use proof_rust::notes::{
    create_note, create_note_result, delete_note, delete_note_result, internal, list_notes,
    list_notes_result, merge_note, new_note, not_found, unauthorized, update_note,
    update_note_found, update_note_result, user_from_headers, ApiResponse, CreateStep, ListStep,
    Direction, Note, NoteInput, NoteTarget, RequestHeaders, SortKey, UpdateWrite,
};

fn s(text: &str) -> JsonValue {
    JsonValue::Str(text.to_string())
}

fn obj(fields: Vec<(&str, JsonValue)>) -> JsonValue {
    JsonValue::Object(fields.into_iter().map(|(k, v)| (k.to_string(), v)).collect())
}

fn error(status: u16, message: &str) -> ApiResponse {
    ApiResponse { status, body: obj(vec![("error", s(message))]) }
}

fn headers(user: Option<&[u8]>) -> RequestHeaders {
    RequestHeaders { eco_user: user.map(|u| u.to_vec()), authorization: None }
}

const ID_TEXT: &str = "65a1b2c3d4e5f60718293a4b";
const ID_BYTES: [u8; 12] = [0x65, 0xa1, 0xb2, 0xc3, 0xd4, 0xe5, 0xf6, 0x07, 0x18, 0x29, 0x3a, 0x4b];

fn sample_note() -> Note {
    Note {
        id: Some(NoteId { bytes: ID_BYTES }),
        user_id: "user-1".to_string(),
        title: "Groceries".to_string(),
        body: "milk, eggs".to_string(),
        pinned: true,
        created_at: 0,
        updated_at: 1_700_000_000_123,
    }
}

fn sample_json() -> JsonValue {
    obj(vec![
        ("id", s(ID_TEXT)),
        ("title", s("Groceries")),
        ("body", s("milk, eggs")),
        ("pinned", JsonValue::Bool(true)),
        ("createdAt", s("1970-01-01T00:00:00+00:00")),
        ("updatedAt", s("2023-11-14T22:13:20.123+00:00")),
    ])
}

#[test]
fn user_is_the_text_before_the_first_comma() {
    assert_eq!(user_from_headers(&headers(Some(b"user-1,roles=admin"))), Some("user-1".to_string()));
    assert_eq!(user_from_headers(&headers(Some(b"  bob \t,roles=user"))), Some("bob".to_string()));
    assert_eq!(user_from_headers(&headers(Some(b"alice"))), Some("alice".to_string()));
}

#[test]
fn user_is_missing_without_a_usable_header() {
    assert_eq!(user_from_headers(&headers(None)), None);
    assert_eq!(user_from_headers(&headers(Some(b""))), None);
    assert_eq!(user_from_headers(&headers(Some(b",roles=admin"))), None);
    assert_eq!(user_from_headers(&headers(Some(b"   ,roles=admin"))), None);
    assert_eq!(user_from_headers(&headers(Some(b"caf\xc3\xa9,roles=user"))), None);
    assert_eq!(user_from_headers(&headers(Some(b"bad\x01,roles=user"))), None);
}

#[test]
fn public_json_shows_the_note_without_its_owner() {
    assert_eq!(sample_note().public_json(), sample_json());
    let mut unsaved = sample_note();
    unsaved.id = None;
    let JsonValue::Object(fields) = unsaved.public_json() else { panic!("not an object") };
    assert_eq!(fields[0], ("id".to_string(), JsonValue::Null));
    assert_eq!(fields.len(), 6);
}

#[test]
fn error_answers() {
    assert_eq!(unauthorized(), error(401, "unauthorized"));
    assert_eq!(not_found(), error(404, "not found"));
    assert_eq!(internal("boom".to_string()), error(500, "boom"));
}

#[test]
fn listing_needs_a_user() {
    match list_notes(&headers(None)) {
        ListStep::Respond(r) => assert_eq!(r, error(401, "unauthorized")),
        other => panic!("unexpected {:?}", other),
    }
    match list_notes(&headers(Some(b"user-1,roles=user"))) {
        ListStep::Query { user_id, order } => {
            assert_eq!(user_id, "user-1");
            assert_eq!(
                order,
                vec![(SortKey::Pinned, Direction::Descending), (SortKey::UpdatedAt, Direction::Descending)]
            );
        }
        other => panic!("unexpected {:?}", other),
    }
}

#[test]
fn listing_answers_the_notes_in_order() {
    let mut second = sample_note();
    second.id = None;
    second.pinned = false;
    let r = list_notes_result(Ok(vec![sample_note(), second.clone()]));
    assert_eq!(r.status, 200);
    assert_eq!(r.body, JsonValue::Array(vec![sample_json(), second.public_json()]));
    assert_eq!(list_notes_result(Ok(vec![])), ApiResponse { status: 200, body: JsonValue::Array(vec![]) });
    assert_eq!(list_notes_result(Err("timeout".to_string())), error(500, "list notes: timeout"));
}

#[test]
fn a_new_note_has_a_trimmed_title_and_defaults() {
    let input = NoteInput { title: Some("  Plan \u{3000}".to_string()), body: None, pinned: None };
    let note = new_note("user-1".to_string(), input, 42);
    assert_eq!(note.title, "Plan");
    assert_eq!(note.body, "");
    assert!(!note.pinned);
    assert_eq!((note.created_at, note.updated_at), (42, 42));
    assert_eq!(note.id, None);
    assert_eq!(note.user_id, "user-1");
}

#[test]
fn creating_needs_a_user() {
    let input = NoteInput { title: None, body: Some("text".to_string()), pinned: Some(true) };
    match create_note(&headers(None), input.clone()) {
        CreateStep::Respond(r) => assert_eq!(r, error(401, "unauthorized")),
        other => panic!("unexpected {:?}", other),
    }
    match create_note(&headers(Some(b"user-2,roles=user")), input) {
        CreateStep::Insert(note) => {
            assert_eq!(note.user_id, "user-2");
            assert_eq!(note.title, "");
            assert_eq!(note.body, "text");
            assert!(note.pinned);
            assert_eq!(note.created_at, note.updated_at);
        }
        other => panic!("unexpected {:?}", other),
    }
}

#[test]
fn a_created_note_is_answered_with_its_id() {
    let mut note = sample_note();
    note.id = None;
    let r = create_note_result(note.clone(), Ok(Some(NoteId { bytes: ID_BYTES })));
    assert_eq!(r, ApiResponse { status: 200, body: sample_json() });
    let r = create_note_result(note.clone(), Ok(None));
    assert_eq!(r.status, 200);
    assert_eq!(create_note_result(note, Err("dup".to_string())), error(500, "create note: dup"));
}

#[test]
fn changing_and_deleting_check_user_and_id() {
    let user = headers(Some(b"user-1,roles=user"));
    for step in [update_note(&headers(None), ID_TEXT), delete_note(&headers(None), ID_TEXT)] {
        assert_eq!(step, NoteTarget::Respond(error(401, "unauthorized")));
    }
    for bad in ["", "65a1b2c3d4e5f60718293a4", "65a1b2c3d4e5f60718293a4g", "65a1b2c3d4e5f60718293a4b00"] {
        assert_eq!(update_note(&user, bad), NoteTarget::Respond(error(404, "not found")));
        assert_eq!(delete_note(&user, bad), NoteTarget::Respond(error(404, "not found")));
    }
    let expected = NoteTarget::Target { id: NoteId { bytes: ID_BYTES }, user_id: "user-1".to_string() };
    assert_eq!(update_note(&user, ID_TEXT), expected);
    assert_eq!(delete_note(&user, "65A1B2C3D4E5F60718293A4B"), expected);
}

#[test]
fn a_change_keeps_what_it_does_not_give() {
    let input = NoteInput { title: None, body: Some("bread".to_string()), pinned: Some(false) };
    let id = NoteId { bytes: ID_BYTES };
    let changed = merge_note(sample_note(), id, "user-1".to_string(), input, 99);
    assert_eq!(changed.title, "Groceries");
    assert_eq!(changed.body, "bread");
    assert!(!changed.pinned);
    assert_eq!((changed.created_at, changed.updated_at), (0, 99));
    assert_eq!(changed.id, Some(id));
    let untouched = NoteInput { title: Some("  spaced  ".to_string()), body: None, pinned: None };
    let changed = merge_note(sample_note(), id, "user-1".to_string(), untouched, 5);
    assert_eq!(changed.title, "  spaced  ");
    assert_eq!(changed.body, "milk, eggs");
    assert!(changed.pinned);
}

#[test]
fn a_change_of_a_missing_note_is_not_found() {
    let id = NoteId { bytes: ID_BYTES };
    let input = NoteInput { title: Some("x".to_string()), body: None, pinned: None };
    assert_eq!(
        update_note_found(None, id, "user-1".to_string(), input.clone()),
        UpdateWrite::Respond(error(404, "not found"))
    );
    match update_note_found(Some(sample_note()), id, "user-1".to_string(), input) {
        UpdateWrite::Write(note) => {
            assert_eq!(note.title, "x");
            assert_eq!(note.created_at, 0);
        }
        other => panic!("unexpected {:?}", other),
    }
}

#[test]
fn the_answer_to_a_change() {
    assert_eq!(update_note_result(&sample_note(), Ok(())), ApiResponse { status: 200, body: sample_json() });
    assert_eq!(update_note_result(&sample_note(), Err("gone".to_string())), error(500, "update note: gone"));
}

#[test]
fn the_answer_to_a_deletion() {
    assert_eq!(delete_note_result(Ok(1)), ApiResponse { status: 200, body: obj(vec![("ok", JsonValue::Bool(true))]) });
    assert_eq!(delete_note_result(Ok(0)), error(404, "not found"));
    assert_eq!(delete_note_result(Ok(2)), error(404, "not found"));
    assert_eq!(delete_note_result(Err("down".to_string())), error(500, "delete note: down"));
}

#[test]
fn the_shown_id_names_the_note_again() {
    let user = headers(Some(b"user-1,roles=user"));
    for bytes in [ID_BYTES, [0u8; 12], [0xffu8; 12]] {
        let mut note = sample_note();
        note.id = Some(NoteId { bytes });
        let JsonValue::Object(fields) = note.public_json() else { panic!("not an object") };
        let JsonValue::Str(shown) = &fields[0].1 else { panic!("id is not text") };
        assert_eq!(shown.len(), 24);
        let expected = NoteTarget::Target { id: NoteId { bytes }, user_id: "user-1".to_string() };
        assert_eq!(update_note(&user, shown), expected);
        assert_eq!(delete_note(&user, shown), expected);
    }
}

#[test]
fn the_json_of_a_note_carries_the_given_times() {
    let shown = sample_note().json_with_times("created".to_string(), "changed".to_string());
    assert_eq!(
        shown,
        obj(vec![
            ("id", s(ID_TEXT)),
            ("title", s("Groceries")),
            ("body", s("milk, eggs")),
            ("pinned", JsonValue::Bool(true)),
            ("createdAt", s("created")),
            ("updatedAt", s("changed")),
        ])
    );
}
