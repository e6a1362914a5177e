//! The bridge for the `user.signed_up` event: the auth service posts the event
//! with a service token; the estate checks the token and forwards a welcome
//! notification to the notifications service.
use vstd::prelude::*;

use crate::calls::{
    all_visible_ascii, ascii_text, count_of, header_text, hs512_signature_valid, hs512_token_accepted,
    is_base64url_char,
};
use crate::json::{array, field, fields_view, items_view, object, Json, JsonValue};
use crate::notes::{concat, error_json, internal, opt_bytes, opt_chars, ApiResponse, RequestHeaders};
use crate::text::{has_prefix, strip_prefix, trim, trim_end_char, trimmed, without_trailing};

verus! {

/// The settings of the notes API: the secret that service tokens are signed
/// with, and the base address of the notifications service (empty where there
/// is none).
#[derive(Clone, Debug, PartialEq)]
pub struct NotesApi {
    pub jwt_secret: String,
    pub notifications_url: String,
}

pub struct NotesApiView {
    pub jwt_secret: Seq<char>,
    pub notifications_url: Seq<char>,
}

impl View for NotesApi {
    type V = NotesApiView;

    open spec fn view(&self) -> NotesApiView {
        NotesApiView { jwt_secret: self.jwt_secret@, notifications_url: self.notifications_url@ }
    }
}

/// The `user.signed_up` event as the auth service sends it.
#[derive(Clone, Debug, PartialEq)]
pub struct SignupEventPayload {
    pub event: Option<String>,
    pub user_id: String,
    pub username: Option<String>,
    pub email: Option<String>,
    pub name: Option<String>,
    pub role: Option<String>,
}

pub struct SignupEventView {
    pub user_id: Seq<char>,
    pub email: Option<Seq<char>>,
}

impl View for SignupEventPayload {
    type V = SignupEventView;

    open spec fn view(&self) -> SignupEventView {
        SignupEventView { user_id: self.user_id@, email: opt_chars(self.email) }
    }
}

/// `v` without a leading `Bearer ` or `bearer `, where it has one.
pub open spec fn without_bearer(v: Seq<char>) -> Option<Seq<char>> {
    if has_prefix(v, "Bearer "@) {
        Some(v.skip("Bearer "@.len() as int))
    } else if has_prefix(v, "bearer "@) {
        Some(v.skip("bearer "@.len() as int))
    } else {
        None
    }
}

fn strip_bearer(value: &str) -> (res: Option<String>)
    ensures
        opt_chars(res) == without_bearer(value@),
{
    match strip_prefix(value, "Bearer ") {
        Some(rest) => Some(rest),
        None => strip_prefix(value, "bearer "),
    }
}

/// The bearer token of an `authorization` header: the text after `Bearer `
/// or `bearer `, where the header reads as text and starts so.
pub open spec fn bearer_of(authorization: Option<Seq<u8>>) -> Option<Seq<char>> {
    match authorization {
        None => None,
        Some(raw) => if all_visible_ascii(raw) {
            without_bearer(ascii_text(raw))
        } else {
            None
        },
    }
}

/// Reads the bearer token of the `authorization` header.
pub fn service_token(headers: &RequestHeaders) -> (res: Option<String>)
    ensures
        opt_chars(res) == bearer_of(opt_bytes(headers.authorization)),
{
    let raw = match &headers.authorization {
        Some(raw) => raw,
        None => return None,
    };
    match header_text(raw.as_slice()) {
        Some(value) => strip_bearer(value.as_str()),
        None => None,
    }
}

/// The `authorization` header carries a bearer token that passes the HS512
/// signature check under `secret`: a token with at least two dots that ends
/// in a character of the URL-safe base64 alphabet.
pub open spec fn bearer_passes_check(authorization: Option<Seq<u8>>, secret: Seq<char>) -> bool {
    &&& bearer_of(authorization) matches Some(t)
    &&& hs512_signature_valid(t, secret)
    &&& count_of(t, '.') >= 2
    &&& t.len() > 0
    &&& is_base64url_char(t.last())
}

/// Checks the bearer token of the request as an HS512 token signed with
/// `secret`. A request without a bearer token is refused, and an accepted
/// token passes the signature check under `secret`; whether a token that
/// passes it is accepted also depends on its expiry, which the check compares
/// with the clock.
pub fn verify_service_token(secret: &str, headers: &RequestHeaders) -> (res: bool)
    ensures
        bearer_of(opt_bytes(headers.authorization)) is None ==> !res,
        res ==> bearer_passes_check(opt_bytes(headers.authorization), secret@),
{
    match service_token(headers) {
        Some(token) => hs512_token_accepted(token.as_str(), secret),
        None => false,
    }
}

/// The token forwarded to the notifications service: the `authorization`
/// header without surrounding white space and without a leading `Bearer ` or
/// `bearer `, where that leaves any text.
pub open spec fn forward_token_of(authorization: Option<Seq<u8>>) -> Option<Seq<char>> {
    match authorization {
        None => None,
        Some(raw) => if all_visible_ascii(raw) {
            let v = trimmed(ascii_text(raw));
            let t = match without_bearer(v) {
                Some(rest) => rest,
                None => v,
            };
            if t.len() > 0 {
                Some(t)
            } else {
                None
            }
        } else {
            None
        },
    }
}

fn forward_token(headers: &RequestHeaders) -> (res: Option<String>)
    ensures
        opt_chars(res) == forward_token_of(opt_bytes(headers.authorization)),
{
    let raw = match &headers.authorization {
        Some(raw) => raw,
        None => return None,
    };
    let value = match header_text(raw.as_slice()) {
        Some(value) => trim(value.as_str()),
        None => return None,
    };
    let token = match strip_bearer(value.as_str()) {
        Some(rest) => rest,
        None => value,
    };
    if token.as_str().is_empty() {
        None
    } else {
        Some(token)
    }
}

/// How the welcome text names the account: its email, or a dash where there
/// is none.
pub open spec fn email_label_of(email: Option<Seq<char>>) -> Seq<char> {
    match email {
        Some(e) => if e.len() == 0 {
            "\u{2014}"@
        } else {
            e
        },
        None => "\u{2014}"@,
    }
}

/// The text of the welcome notification.
pub open spec fn welcome_text(label: Seq<char>) -> Seq<char> {
    "Your account ("@ + label
        + ") was created. The auth LXS emitted user.signed_up \u{2192} notifications LXS delivered this."@
}

/// The welcome notification for the new user `user_id`.
pub open spec fn ingest_body_of(user_id: Seq<char>, label: Seq<char>) -> Json {
    Json::Object(
        seq![
            ("recipient_ids"@, Json::Array(seq![Json::Str(user_id)])),
            ("kind"@, Json::Str("system"@)),
            ("title"@, Json::Str("Welcome to proof-rust"@)),
            ("body"@, Json::Str(welcome_text(label))),
            ("reference_id"@, Json::Str(user_id)),
        ],
    )
}

/// The ingest address of the notifications service at `base`.
pub open spec fn ingest_url_of(base: Seq<char>) -> Seq<char> {
    without_trailing(base, '/') + "/ingest"@
}

/// The body `{"ok": true, "forwarded": forwarded}`.
pub open spec fn forwarded_json(forwarded: bool) -> Json {
    Json::Object(seq![("ok"@, Json::Bool(true)), ("forwarded"@, Json::Bool(forwarded))])
}

/// A request to post to the notifications service.
#[derive(Debug, PartialEq)]
pub struct IngestRequest {
    pub url: String,
    pub bearer: Option<String>,
    pub body: JsonValue,
    pub timeout_secs: u64,
}

/// What the event bridge does: answer at once, or forward the notification.
#[derive(Debug, PartialEq)]
pub enum SignupStep {
    Respond(ApiResponse),
    Forward(IngestRequest),
}

pub enum SignupStepView {
    Respond((u16, Json)),
    Forward { url: Seq<char>, bearer: Option<Seq<char>>, body: Json, timeout_secs: u64 },
}

impl View for SignupStep {
    type V = SignupStepView;

    open spec fn view(&self) -> SignupStepView {
        match self {
            SignupStep::Respond(r) => SignupStepView::Respond(r@),
            SignupStep::Forward(f) => SignupStepView::Forward {
                url: f.url@,
                bearer: opt_chars(f.bearer),
                body: f.body@,
                timeout_secs: f.timeout_secs,
            },
        }
    }
}

/// What the bridge does once the service token is judged: a refused token is
/// answered 401; without a notifications service the event is acknowledged
/// unforwarded; else the welcome notification goes to its ingest address,
/// with a five-second limit and the caller's token.
pub open spec fn signup_plan_of(
    api: NotesApiView,
    authorization: Option<Seq<u8>>,
    payload: SignupEventView,
    token_accepted: bool,
) -> SignupStepView {
    if !token_accepted {
        SignupStepView::Respond((401u16, error_json("invalid token"@)))
    } else if api.notifications_url.len() == 0 {
        SignupStepView::Respond((200u16, forwarded_json(false)))
    } else {
        SignupStepView::Forward {
            url: ingest_url_of(api.notifications_url),
            bearer: forward_token_of(authorization),
            body: ingest_body_of(payload.user_id, email_label_of(payload.email)),
            timeout_secs: 5,
        }
    }
}

fn forwarded_body(forwarded: bool) -> (res: JsonValue)
    ensures
        res@ == forwarded_json(forwarded),
{
    let fields = vec![field("ok", JsonValue::Bool(true)), field("forwarded", JsonValue::Bool(forwarded))];
    assert(fields_view(fields@) =~= forwarded_json(forwarded)->Object_0);
    object(fields)
}

fn ingest_body(payload: &SignupEventPayload) -> (res: JsonValue)
    ensures
        res@ == ingest_body_of(payload@.user_id, email_label_of(payload@.email)),
{
    let label = match &payload.email {
        Some(e) => if e.as_str().is_empty() {
            "\u{2014}".to_owned()
        } else {
            e.clone()
        },
        None => "\u{2014}".to_owned(),
    };
    let text = concat(
        concat("Your account (", label.as_str()).as_str(),
        ") was created. The auth LXS emitted user.signed_up \u{2192} notifications LXS delivered this.",
    );
    let items = vec![JsonValue::Str(payload.user_id.clone())];
    assert(items_view(items@) =~= seq![Json::Str(payload.user_id@)]);
    let recipients = array(items);
    let fields = vec![
        field("recipient_ids", recipients),
        field("kind", JsonValue::Str("system".to_owned())),
        field("title", JsonValue::Str("Welcome to proof-rust".to_owned())),
        field("body", JsonValue::Str(text)),
        field("reference_id", JsonValue::Str(payload.user_id.clone())),
    ];
    assert(fields_view(fields@) =~= ingest_body_of(
        payload@.user_id,
        email_label_of(payload@.email),
    )->Object_0);
    object(fields)
}

/// What the bridge does, given whether the service token was accepted.
pub fn signup_plan(
    api: &NotesApi,
    headers: &RequestHeaders,
    payload: &SignupEventPayload,
    token_accepted: bool,
) -> (res: SignupStep)
    ensures
        res@ == signup_plan_of(api@, opt_bytes(headers.authorization), payload@, token_accepted),
{
    if !token_accepted {
        let fields = vec![field("error", JsonValue::Str("invalid token".to_owned()))];
        assert(fields_view(fields@) =~= error_json("invalid token"@)->Object_0);
        return SignupStep::Respond(ApiResponse { status: 401, body: object(fields) });
    }
    if api.notifications_url.as_str().is_empty() {
        return SignupStep::Respond(ApiResponse { status: 200, body: forwarded_body(false) });
    }
    let base = trim_end_char(api.notifications_url.as_str(), '/');
    let url = concat(base.as_str(), "/ingest");
    SignupStep::Forward(
        IngestRequest {
            url,
            bearer: forward_token(headers),
            body: ingest_body(payload),
            timeout_secs: 5,
        },
    )
}

/// Handles a `user.signed_up` event: checks the service token against the
/// secret of the API, then decides as `signup_plan` does. Whatever is not
/// refused as an invalid token carries a bearer token that passes the
/// signature check under that secret.
pub fn signup_event(api: &NotesApi, headers: &RequestHeaders, payload: &SignupEventPayload) -> (res:
    SignupStep)
    ensures
        res@ == signup_plan_of(api@, opt_bytes(headers.authorization), payload@, true) || res@
            == signup_plan_of(api@, opt_bytes(headers.authorization), payload@, false),
        res@ != signup_plan_of(api@, opt_bytes(headers.authorization), payload@, false) ==> (
        bearer_passes_check(opt_bytes(headers.authorization), api@.jwt_secret) && res@
            == signup_plan_of(api@, opt_bytes(headers.authorization), payload@, true)),
        bearer_of(opt_bytes(headers.authorization)) is None ==> res@ == signup_plan_of(
            api@,
            opt_bytes(headers.authorization),
            payload@,
            false,
        ),
{
    let accepted = verify_service_token(api.jwt_secret.as_str(), headers);
    signup_plan(api, headers, payload, accepted)
}

/// What came of posting to the notifications service: its status, the text
/// of that status and of its answer; or the text of the error.
#[derive(Clone, Debug, PartialEq)]
pub enum IngestOutcome {
    Delivered { status: u16, status_text: String, body_text: String },
    Failed { error: String },
}

/// The answer to the event once the notification was posted: a success
/// status (200 to 299) is acknowledged as forwarded, anything else is 500.
pub fn signup_event_result(outcome: IngestOutcome) -> (res: ApiResponse)
    ensures
        outcome matches IngestOutcome::Delivered { status, status_text, body_text } ==> res@ == (
            if 200 <= status <= 299 {
                (200u16, forwarded_json(true))
            } else {
                (500u16, error_json(
                    "notifications ingest returned "@ + status_text@ + ": "@ + body_text@,
                ))
            }),
        outcome matches IngestOutcome::Failed { error } ==> res@ == (500u16, error_json(
            "notifications ingest failed: "@ + error@,
        )),
{
    match outcome {
        IngestOutcome::Delivered { status, status_text, body_text } => {
            if 200 <= status && status <= 299 {
                ApiResponse { status: 200, body: forwarded_body(true) }
            } else {
                let head = concat("notifications ingest returned ", status_text.as_str());
                let message = concat(concat(head.as_str(), ": ").as_str(), body_text.as_str());
                internal(message)
            }
        },
        IngestOutcome::Failed { error } => internal(
            concat("notifications ingest failed: ", error.as_str()),
        ),
    }
}

} // verus!
