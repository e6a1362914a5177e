//! The calls that the library makes into outside crates. The contract of each
//! of these functions is trusted, not proved; each doc comment says what the
//! contract claims of the outside code.
use vstd::prelude::*;

use crate::note_id::{hex_bytes, is_note_id_text, lower_hex, NoteId};

verus! {

/// `b` may stand in a header value that is read as text: a tab or a
/// printable ASCII character.
pub open spec fn is_visible_ascii(b: u8) -> bool {
    (32 <= b && b < 127) || b == 9
}

/// Every byte of `raw` is a tab or a printable ASCII character.
pub open spec fn all_visible_ascii(raw: Seq<u8>) -> bool {
    forall|i: int| 0 <= i < raw.len() ==> is_visible_ascii(#[trigger] raw[i])
}

/// The ASCII bytes `raw` read as characters.
pub open spec fn ascii_text(raw: Seq<u8>) -> Seq<char> {
    Seq::new(raw.len(), |i: int| raw[i] as char)
}

/// Reads the raw bytes of a header value as text, through
/// `axum::http::HeaderValue::from_bytes` and `HeaderValue::to_str`.
/// Claimed: text comes back exactly when every byte is a tab or lies in
/// 32..127 (`to_str` checks that, and `from_bytes` refuses only bytes outside
/// that set), and the text is those bytes read as characters.
#[verifier::external_body]
pub(crate) fn header_text(raw: &[u8]) -> (res: Option<String>)
    ensures
        res is Some <==> all_visible_ascii(raw@),
        res matches Some(text) ==> text@ == ascii_text(raw@),
{
    match axum::http::HeaderValue::from_bytes(raw) {
        Ok(value) => match value.to_str() {
            Ok(text) => Some(text.to_string()),
            Err(_) => None,
        },
        Err(_) => None,
    }
}

/// Parses the text form of an identifier with `bson::oid::ObjectId::parse_str`.
/// Claimed: it succeeds exactly on 24 hexadecimal digits of either case (the
/// crate hex-decodes the bytes of the text and wants 12 bytes), and the
/// identifier holds the bytes that the digits write.
#[verifier::external_body]
pub(crate) fn parse_note_id(text: &str) -> (res: Option<NoteId>)
    ensures
        res is Some <==> is_note_id_text(text@),
        res matches Some(id) ==> id@ == hex_bytes(text@),
{
    match bson::oid::ObjectId::parse_str(text) {
        Ok(oid) => Some(NoteId { bytes: oid.bytes() }),
        Err(_) => None,
    }
}

/// The text form of an identifier, from the `Display` of
/// `bson::oid::ObjectId`. Claimed: the 24 lower-case hexadecimal digits of its
/// bytes (`to_hex`, which `Display` writes, calls `hex::encode`).
#[verifier::external_body]
pub(crate) fn note_id_text(id: NoteId) -> (res: String)
    ensures
        res@ == lower_hex(id@),
{
    bson::oid::ObjectId::from_bytes(id.bytes).to_string()
}

/// The RFC 3339 text of the UTC instant `millis` milliseconds after the Unix
/// epoch, as chrono writes it. Not stated: the text itself, which takes
/// calendar arithmetic to describe.
pub uninterp spec fn rfc3339_text(millis: i64) -> Seq<char>;

/// Formats a stored time with `bson::DateTime::to_chrono` and
/// `chrono::DateTime::to_rfc3339`. Claimed: the text depends on `millis` alone.
#[verifier::external_body]
pub(crate) fn rfc3339_of_millis(millis: i64) -> (res: String)
    ensures
        res@ == rfc3339_text(millis),
{
    bson::DateTime::from_millis(millis).to_chrono().to_rfc3339()
}

/// The current time in milliseconds since the Unix epoch, from
/// `chrono::Utc::now` through `bson::DateTime::from_chrono`. Claimed: it is
/// not before the epoch (`Utc::now` takes the time since the epoch from
/// `SystemTime` and panics where the clock is set before it; `from_chrono`
/// keeps the milliseconds as they are). Nothing more is claimed: the value is
/// whatever the clock reads.
#[verifier::external_body]
pub(crate) fn now_millis() -> (res: i64)
    ensures
        res >= 0,
{
    bson::DateTime::from_chrono(chrono::Utc::now()).timestamp_millis()
}

/// The number of times `c` occurs in `s`.
pub open spec fn count_of(s: Seq<char>, c: char) -> nat {
    s.filter(|x: char| x == c).len()
}

/// `c` belongs to the URL-safe base64 alphabet: a letter, a digit, `-` or `_`.
pub open spec fn is_base64url_char(c: char) -> bool {
    ||| 'A' <= c <= 'Z'
    ||| 'a' <= c <= 'z'
    ||| '0' <= c <= '9'
    ||| c == '-'
    ||| c == '_'
}

/// Whether `token` passes the signature check of `jsonwebtoken::decode` under
/// `Validation::new(Algorithm::HS512)` and the key `secret`: its header
/// decodes and names HS512, and its last segment is the HMAC-SHA512 signature,
/// under `secret`, of the text before it. That check reads nothing but the
/// token and the secret.
pub uninterp spec fn hs512_signature_valid(token: Seq<char>, secret: Seq<char>) -> bool;

/// Checks `token` with `jsonwebtoken::decode`, as an HS512 token signed with
/// `secret`, under `Validation::new(Algorithm::HS512)`. Claimed of an
/// accepted token: it passes the signature check under `secret`; it holds at
/// least two dots (the crate splits it into header, claims and signature at
/// its last two dots); and it ends in a character of the URL-safe base64
/// alphabet (its signature is compared with the unpadded URL-safe base64 text
/// of a 64-byte digest). Not stated: that a token passing the signature check
/// is accepted, since the validation also compares its `exp` claim with the
/// clock.
#[verifier::external_body]
pub(crate) fn hs512_token_accepted(token: &str, secret: &str) -> (res: bool)
    ensures
        res ==> hs512_signature_valid(token@, secret@),
        res ==> count_of(token@, '.') >= 2,
        res ==> token@.len() > 0 && is_base64url_char(token@.last()),
{
    let key = jsonwebtoken::DecodingKey::from_secret(secret.as_bytes());
    let validation = jsonwebtoken::Validation::new(jsonwebtoken::Algorithm::HS512);
    jsonwebtoken::decode::<serde_json::Value>(token, &key, &validation).is_ok()
}

} // verus!
