use proof_rust::json::JsonValue;
use proof_rust::notes::{ApiResponse, RequestHeaders};
use proof_rust::signup::{
    service_token, signup_event, signup_event_result, signup_plan, verify_service_token,
    IngestOutcome, IngestRequest, NotesApi, SignupEventPayload, SignupStep,
};

fn s(text: &str) -> JsonValue {
    JsonValue::Str(text.to_string())
}

fn obj(fields: Vec<(&str, JsonValue)>) -> JsonValue {
    JsonValue::Object(fields.into_iter().map(|(k, v)| (k.to_string(), v)).collect())
}

fn auth(value: &str) -> RequestHeaders {
    RequestHeaders { eco_user: None, authorization: Some(value.as_bytes().to_vec()) }
}

fn api(url: &str) -> NotesApi {
    NotesApi { jwt_secret: "estate-secret".to_string(), notifications_url: url.to_string() }
}

fn payload(email: Option<&str>) -> SignupEventPayload {
    SignupEventPayload {
        event: Some("user.signed_up".to_string()),
        user_id: "u-42".to_string(),
        username: None,
        email: email.map(|e| e.to_string()),
        name: None,
        role: None,
    }
}

fn token(secret: &str, exp_offset: i64) -> String {
    let now = std::time::SystemTime::now()
        .duration_since(std::time::UNIX_EPOCH)
        .unwrap()
        .as_secs() as i64;
    let mut claims = serde_json::Map::new();
    claims.insert("sub".to_string(), serde_json::Value::from("auth"));
    claims.insert("exp".to_string(), serde_json::Value::from(now + exp_offset));
    jsonwebtoken::encode(
        &jsonwebtoken::Header::new(jsonwebtoken::Algorithm::HS512),
        &serde_json::Value::Object(claims),
        &jsonwebtoken::EncodingKey::from_secret(secret.as_bytes()),
    )
    .unwrap()
}

fn welcome(label: &str) -> JsonValue {
    obj(vec![
        ("recipient_ids", JsonValue::Array(vec![s("u-42")])),
        ("kind", s("system")),
        ("title", s("Welcome to proof-rust")),
        (
            "body",
            s(&format!(
                "Your account ({}) was created. The auth LXS emitted user.signed_up \u{2192} notifications LXS delivered this.",
                label
            )),
        ),
        ("reference_id", s("u-42")),
    ])
}

fn invalid_token() -> SignupStep {
    SignupStep::Respond(ApiResponse { status: 401, body: obj(vec![("error", s("invalid token"))]) })
}

#[test]
fn the_bearer_token_follows_either_prefix() {
    assert_eq!(service_token(&auth("Bearer a.b.c")), Some("a.b.c".to_string()));
    assert_eq!(service_token(&auth("bearer a.b.c")), Some("a.b.c".to_string()));
    assert_eq!(service_token(&auth("BEARER a.b.c")), None);
    assert_eq!(service_token(&auth("Basic xyz")), None);
    assert_eq!(service_token(&RequestHeaders { eco_user: None, authorization: None }), None);
}

#[test]
fn a_signed_token_is_accepted_with_its_secret_only() {
    let good = token("estate-secret", 3600);
    assert!(verify_service_token("estate-secret", &auth(&format!("Bearer {}", good))));
    assert!(verify_service_token("estate-secret", &auth(&format!("bearer {}", good))));
    assert!(!verify_service_token("other-secret", &auth(&format!("Bearer {}", good))));
    assert!(!verify_service_token("estate-secret", &auth(&good)));
    let expired = token("estate-secret", -3600);
    assert!(!verify_service_token("estate-secret", &auth(&format!("Bearer {}", expired))));
    assert!(!verify_service_token("estate-secret", &auth("Bearer not-a-token")));
}

#[test]
fn an_event_without_a_valid_token_is_refused() {
    assert_eq!(signup_event(&api("http://notify"), &auth("Bearer nope"), &payload(None)), invalid_token());
    let none = RequestHeaders { eco_user: None, authorization: None };
    assert_eq!(signup_event(&api("http://notify"), &none, &payload(None)), invalid_token());
    assert_eq!(signup_plan(&api(""), &none, &payload(None), false), invalid_token());
}

#[test]
fn without_a_notifications_service_the_event_is_not_forwarded() {
    let good = format!("Bearer {}", token("estate-secret", 3600));
    let expected = SignupStep::Respond(ApiResponse {
        status: 200,
        body: obj(vec![("ok", JsonValue::Bool(true)), ("forwarded", JsonValue::Bool(false))]),
    });
    assert_eq!(signup_event(&api(""), &auth(&good), &payload(None)), expected);
}

#[test]
fn the_event_is_forwarded_to_the_ingest_address() {
    let good = token("estate-secret", 3600);
    let header = auth(&format!("  Bearer {}  ", good));
    let step = signup_plan(&api("http://notify:9000//"), &header, &payload(Some("a@b.c")), true);
    let expected = SignupStep::Forward(IngestRequest {
        url: "http://notify:9000/ingest".to_string(),
        bearer: Some(good.clone()),
        body: welcome("a@b.c"),
        timeout_secs: 5,
    });
    assert_eq!(step, expected);
    let step = signup_event(&api("http://notify:9000"), &auth(&format!("Bearer {}", good)), &payload(Some("")));
    let expected = SignupStep::Forward(IngestRequest {
        url: "http://notify:9000/ingest".to_string(),
        bearer: Some(good),
        body: welcome("\u{2014}"),
        timeout_secs: 5,
    });
    assert_eq!(step, expected);
}

#[test]
fn the_forwarded_token_is_the_trimmed_header() {
    let step = signup_plan(&api("http://n"), &auth("  Token xyz "), &payload(None), true);
    match step {
        SignupStep::Forward(request) => {
            assert_eq!(request.bearer, Some("Token xyz".to_string()));
            assert_eq!(request.body, welcome("\u{2014}"));
        }
        other => panic!("unexpected {:?}", other),
    }
    let step = signup_plan(&api("http://n"), &auth("Bearer "), &payload(None), true);
    match step {
        SignupStep::Forward(request) => assert_eq!(request.bearer, Some("Bearer".to_string())),
        other => panic!("unexpected {:?}", other),
    }
    let step = signup_plan(&api("http://n"), &auth(" \t "), &payload(None), true);
    match step {
        SignupStep::Forward(request) => assert_eq!(request.bearer, None),
        other => panic!("unexpected {:?}", other),
    }
}

#[test]
fn the_answer_once_the_notification_was_posted() {
    let ok = ApiResponse {
        status: 200,
        body: obj(vec![("ok", JsonValue::Bool(true)), ("forwarded", JsonValue::Bool(true))]),
    };
    let delivered = |status: u16| IngestOutcome::Delivered {
        status,
        status_text: format!("{} Something", status),
        body_text: "details".to_string(),
    };
    assert_eq!(signup_event_result(delivered(200)), ok);
    assert_eq!(signup_event_result(delivered(204)), ok);
    assert_eq!(
        signup_event_result(delivered(404)),
        ApiResponse {
            status: 500,
            body: obj(vec![("error", s("notifications ingest returned 404 Something: details"))]),
        }
    );
    assert_eq!(
        signup_event_result(IngestOutcome::Failed { error: "refused".to_string() }),
        ApiResponse { status: 500, body: obj(vec![("error", s("notifications ingest failed: refused"))]) }
    );
}

#[test]
fn an_event_signed_with_another_secret_is_refused() {
    let foreign = token("other-secret", 3600);
    let step = signup_event(&api("http://notify"), &auth(&format!("Bearer {}", foreign)), &payload(None));
    assert_eq!(step, invalid_token());
    let empty_key = token("", 3600);
    let step = signup_event(&api("http://notify"), &auth(&format!("Bearer {}", empty_key)), &payload(None));
    assert_eq!(step, invalid_token());
}
