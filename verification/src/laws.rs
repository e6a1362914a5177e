//! Properties of the library that span its functions, stated over the
//! specifications that their contracts use, and proved.
use vstd::prelude::*;

use crate::calls::{all_visible_ascii, ascii_text};
use crate::note_id::{hex_bytes, hex_digit_value, is_hex_digit, is_note_id_text, lower_hex, lower_hex_digit};
use crate::notes::{
    listed_before, listing_order, error_json, merged_note_of, new_note_of, public_json_of, target_of, unauthorized_view, user_of,
    Direction, NoteInputView, NoteTargetView, NoteView, SortKey,
};
use crate::calls::is_base64url_char;
use crate::signup::{
    bearer_of, bearer_passes_check, email_label_of, forward_token_of, forwarded_json, ingest_body_of,
    ingest_url_of, signup_plan_of, without_bearer, NotesApiView, SignupEventView, SignupStepView,
};
use crate::text::{first_segment, has_prefix, is_white_space, trim_end, trim_start, trimmed, without_trailing};

verus! {

proof fn lemma_trim_start(s: Seq<char>) -> (k: int)
    ensures
        0 <= k <= s.len(),
        trim_start(s) == s.subrange(k, s.len() as int),
        trim_start(s).len() > 0 ==> !is_white_space(trim_start(s)[0]),
    decreases s.len(),
{
    if s.len() > 0 && is_white_space(s[0]) {
        let k = lemma_trim_start(s.drop_first());
        assert(s.drop_first().subrange(k, s.len() - 1) =~= s.subrange(k + 1, s.len() as int));
        k + 1
    } else {
        assert(s.subrange(0, s.len() as int) =~= s);
        0
    }
}

proof fn lemma_trim_end(s: Seq<char>) -> (k: int)
    ensures
        0 <= k <= s.len(),
        trim_end(s) == s.subrange(0, k),
        trim_end(s).len() > 0 ==> !is_white_space(trim_end(s).last()),
    decreases s.len(),
{
    if s.len() > 0 && is_white_space(s.last()) {
        let k = lemma_trim_end(s.drop_last());
        assert(s.drop_last().subrange(0, k) =~= s.subrange(0, k));
        k
    } else {
        assert(s.subrange(0, s.len() as int) =~= s);
        s.len() as int
    }
}

/// Trimming leaves text that neither starts nor ends with white space, and
/// all of whose characters come from `s`, in order.
pub proof fn trimmed_has_no_outer_white_space(s: Seq<char>)
    ensures
        trimmed(s).len() > 0 ==> !is_white_space(trimmed(s)[0]) && !is_white_space(
            trimmed(s).last(),
        ),
        exists|a: int, b: int| 0 <= a <= b <= s.len() && trimmed(s) == s.subrange(a, b),
{
    let a = lemma_trim_start(s);
    let x = trim_start(s);
    let b = lemma_trim_end(x);
    assert(x.subrange(0, b) =~= s.subrange(a, a + b));
    if trimmed(s).len() > 0 {
        assert(trimmed(s)[0] == x[0]);
    }
}

/// Trimming twice gives what trimming once gives.
pub proof fn trim_is_idempotent(s: Seq<char>)
    ensures
        trimmed(trimmed(s)) == trimmed(s),
{
    let t = trimmed(s);
    trimmed_has_no_outer_white_space(s);
    assert(trim_start(t) == t);
    assert(trim_end(t) == t);
}

proof fn lemma_first_segment(s: Seq<char>, sep: char)
    ensures
        !first_segment(s, sep).contains(sep),
    decreases s.len(),
{
    if s.len() > 0 && s[0] != sep {
        lemma_first_segment(s.drop_first(), sep);
        let r = first_segment(s.drop_first(), sep);
        assert forall|i: int| 0 <= i < r.len() + 1 implies (seq![s[0]] + r)[i] != sep by {
            if i > 0 {
                assert((seq![s[0]] + r)[i] == r[i - 1]);
            }
        }
    }
}

/// The user id read from an `x-eco-user` header is never empty, holds no
/// comma, and neither starts nor ends with white space.
pub proof fn user_id_is_clean(eco_user: Option<Seq<u8>>)
    ensures
        user_of(eco_user) matches Some(u) ==> {
            &&& u.len() > 0
            &&& !u.contains(',')
            &&& !is_white_space(u[0])
            &&& !is_white_space(u.last())
        },
{
    if let Some(raw) = eco_user {
        if all_visible_ascii(raw) {
            let seg = first_segment(ascii_text(raw), ',');
            lemma_first_segment(ascii_text(raw), ',');
            trimmed_has_no_outer_white_space(seg);
            let (a, b) = choose|a: int, b: int|
                0 <= a <= b <= seg.len() && trimmed(seg) == seg.subrange(a, b);
            assert forall|i: int| 0 <= i < trimmed(seg).len() implies trimmed(seg)[i] != ',' by {
                assert(trimmed(seg)[i] == seg[a + i]);
            }
        }
    }
}

/// Without a signed-in user, a request to change or delete a note is answered
/// 401, whatever note it names.
pub proof fn unauthenticated_target_is_refused(eco_user: Option<Seq<u8>>, id_text: Seq<char>)
    requires
        user_of(eco_user) is None,
    ensures
        target_of(eco_user, id_text) == NoteTargetView::Respond(unauthorized_view()),
{
}

/// A new note's title is already trimmed, and it is created and changed at
/// the same moment.
pub proof fn new_note_is_normal(user: Seq<char>, input: NoteInputView, now: i64)
    ensures
        trimmed(new_note_of(user, input, now).title) == new_note_of(user, input, now).title,
        new_note_of(user, input, now).created_at == new_note_of(user, input, now).updated_at,
        new_note_of(user, input, now).id is None,
{
    reveal_strlit("");
    if let Some(t) = input.title {
        trim_is_idempotent(t);
    } else {
        assert(trimmed(Seq::<char>::empty()) =~= Seq::<char>::empty());
    }
}

/// A change that gives no field leaves the note as it was, but for its change
/// time.
pub proof fn empty_update_changes_only_time(
    existing: NoteView,
    id: Seq<u8>,
    user: Seq<char>,
    now: i64,
)
    ensures
        merged_note_of(
            existing,
            id,
            user,
            NoteInputView { title: None, body: None, pinned: None },
            now,
        ) == (NoteView { id: Some(id), user_id: user, updated_at: now, ..existing }),
{
}

/// The change `second` given on top of `first`.
pub open spec fn later_input(first: NoteInputView, second: NoteInputView) -> NoteInputView {
    NoteInputView {
        title: if second.title is Some {
            second.title
        } else {
            first.title
        },
        body: if second.body is Some {
            second.body
        } else {
            first.body
        },
        pinned: if second.pinned is Some {
            second.pinned
        } else {
            first.pinned
        },
    }
}

/// Two changes in turn give what one change gives with the fields of the
/// second over those of the first, at the time of the second; a change never
/// moves the creation time.
pub proof fn successive_updates_compose(
    existing: NoteView,
    id: Seq<u8>,
    user: Seq<char>,
    first: NoteInputView,
    t1: i64,
    second: NoteInputView,
    t2: i64,
)
    ensures
        merged_note_of(merged_note_of(existing, id, user, first, t1), id, user, second, t2)
            == merged_note_of(existing, id, user, later_input(first, second), t2),
        merged_note_of(existing, id, user, first, t1).created_at == existing.created_at,
{
}

/// A listing shows pinned notes before the others and, among notes pinned
/// alike, the more recently changed first; notes that agree on both keys are
/// in no set order.
pub proof fn listing_shows_pinned_then_recent(a: NoteView, b: NoteView)
    ensures
        a.pinned && !b.pinned ==> listed_before(listing_order(), a, b),
        a.pinned == b.pinned && a.updated_at > b.updated_at ==> listed_before(listing_order(), a, b),
        a.pinned == b.pinned && a.updated_at == b.updated_at ==> !listed_before(listing_order(), a, b),
{
    reveal_with_fuel(listed_before, 3);
    assert(listing_order().drop_first() =~= seq![(SortKey::UpdatedAt, Direction::Descending)]);
    assert(listing_order().drop_first().drop_first() =~= Seq::<(SortKey, Direction)>::empty());
}

/// What the API shows of a note does not depend on who owns it.
pub proof fn public_json_hides_owner(note: NoteView, other_owner: Seq<char>)
    ensures
        public_json_of(note) == public_json_of(NoteView { user_id: other_owner, ..note }),
{
}

proof fn lemma_lower_hex_digit(v: int)
    requires
        0 <= v < 16,
    ensures
        is_hex_digit(lower_hex_digit(v)),
        hex_digit_value(lower_hex_digit(v)) == v,
{
}

/// The text of an identifier parses back to that identifier.
pub proof fn note_id_text_round_trip(bytes: Seq<u8>)
    requires
        bytes.len() == 12,
    ensures
        is_note_id_text(lower_hex(bytes)),
        hex_bytes(lower_hex(bytes)) == bytes,
{
    let t = lower_hex(bytes);
    assert forall|i: int| 0 <= i < 24 implies is_hex_digit(#[trigger] t[i]) by {
        if i % 2 == 0 {
            lemma_lower_hex_digit(bytes[i / 2] as int / 16);
        } else {
            lemma_lower_hex_digit(bytes[i / 2] as int % 16);
        }
    }
    assert forall|k: int| 0 <= k < 12 implies #[trigger] hex_bytes(t)[k] == bytes[k] by {
        lemma_lower_hex_digit(bytes[k] as int / 16);
        lemma_lower_hex_digit(bytes[k] as int % 16);
        assert((2 * k) / 2 == k);
        assert((2 * k + 1) / 2 == k);
        assert((2 * k) % 2 == 0);
        assert((2 * k + 1) % 2 == 1);
    }
    assert(hex_bytes(t) =~= bytes);
}

/// The identifier that the API shows for a note names that same note when
/// the signed-in user later asks to change or delete it.
pub proof fn shown_id_names_the_note(eco_user: Option<Seq<u8>>, bytes: Seq<u8>)
    requires
        bytes.len() == 12,
    ensures
        user_of(eco_user) matches Some(u) ==> target_of(eco_user, lower_hex(bytes))
            == (NoteTargetView::Target { id: bytes, user_id: u }),
{
    note_id_text_round_trip(bytes);
}

proof fn lemma_without_trailing(s: Seq<char>, c: char)
    ensures
        without_trailing(s, c).len() > 0 ==> without_trailing(s, c).last() != c,
    decreases s.len(),
{
    if s.len() > 0 && s.last() == c {
        lemma_without_trailing(s.drop_last(), c);
    }
}

/// The ingest address ends in `/ingest` after a base without a trailing
/// slash, and slashes at the end of the configured address make no
/// difference.
pub proof fn ingest_url_ignores_trailing_slashes(base: Seq<char>)
    ensures
        ingest_url_of(base + "/"@) == ingest_url_of(base),
        ingest_url_of(base) == without_trailing(base, '/') + "/ingest"@,
        without_trailing(base, '/').len() > 0 ==> without_trailing(base, '/').last() != '/',
{
    reveal_strlit("/");
    assert((base + "/"@).drop_last() =~= base);
    lemma_without_trailing(base, '/');
}

/// A request without a bearer token, or whose token is refused, is answered
/// 401 and forwards nothing.
pub proof fn refused_signup_forwards_nothing(
    api: NotesApiView,
    authorization: Option<Seq<u8>>,
    payload: SignupEventView,
)
    ensures
        signup_plan_of(api, authorization, payload, false) == SignupStepView::Respond(
            (401u16, error_json("invalid token"@)),
        ),
{
}

/// What the event holds never decides whether it is refused: for a given
/// verdict on the token, every event is refused alike or none is; an event
/// with an accepted token is acknowledged unforwarded exactly when there is no
/// notifications service; and a forwarded event differs from another only in
/// the welcome that names its user and its email (or a dash).
pub proof fn the_payload_never_decides_the_verdict(
    api: NotesApiView,
    authorization: Option<Seq<u8>>,
    p1: SignupEventView,
    p2: SignupEventView,
    accepted: bool,
)
    ensures
        (signup_plan_of(api, authorization, p1, accepted) == SignupStepView::Respond(
            (401u16, error_json("invalid token"@)),
        )) <==> !accepted,
        (signup_plan_of(api, authorization, p1, accepted) == SignupStepView::Respond(
            (401u16, error_json("invalid token"@)),
        )) <==> (signup_plan_of(api, authorization, p2, accepted) == SignupStepView::Respond(
            (401u16, error_json("invalid token"@)),
        )),
        accepted && api.notifications_url.len() == 0 ==> signup_plan_of(
            api,
            authorization,
            p1,
            accepted,
        ) == SignupStepView::Respond((200u16, forwarded_json(false))),
        accepted && api.notifications_url.len() > 0 ==> (signup_plan_of(
            api,
            authorization,
            p1,
            accepted,
        ) matches SignupStepView::Forward { url, bearer, body, timeout_secs } && body
            == ingest_body_of(p1.user_id, email_label_of(p1.email)) && signup_plan_of(
            api,
            authorization,
            p2,
            accepted,
        ) == (SignupStepView::Forward {
            url,
            bearer,
            body: ingest_body_of(p2.user_id, email_label_of(p2.email)),
            timeout_secs,
        })),
{
    reveal_strlit("error");
    reveal_strlit("ok");
    let refused = error_json("invalid token"@);
    assert(refused != forwarded_json(false)) by {
        assert("error"@.len() != "ok"@.len());
        assert(refused->Object_0[0].0 != forwarded_json(false)->Object_0[0].0);
    }
}

/// The token that the bridge forwards to the notifications service is the
/// bearer token that passed the signature check.
pub proof fn forwarded_token_is_the_checked_token(authorization: Option<Seq<u8>>, secret: Seq<char>)
    requires
        bearer_passes_check(authorization, secret),
    ensures
        forward_token_of(authorization) == bearer_of(authorization),
{
    reveal_strlit("Bearer ");
    reveal_strlit("bearer ");
    let raw = authorization->Some_0;
    let v = ascii_text(raw);
    let t = bearer_of(authorization)->Some_0;
    assert(without_bearer(v) == Some(t));
    if has_prefix(v, "Bearer "@) {
        assert(v.subrange(0, 7)[0] == v[0]);
    } else {
        assert(v.subrange(0, 7)[0] == v[0]);
    }
    assert(v.len() >= 7 && (v[0] == 'B' || v[0] == 'b'));
    assert(v.last() == t.last()) by {
        assert(t == v.skip(7));
        assert(t[t.len() - 1] == v[v.len() - 1]);
    }
    assert(!is_white_space(v[0]));
    assert(is_base64url_char(v.last()));
    assert(!is_white_space(v.last()));
    assert(trim_start(v) == v);
    assert(trim_end(v) == v);
    assert(trimmed(v) == v);
}

} // verus!
