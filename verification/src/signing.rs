//! Signing claims into a compact token with HMAC-SHA256.
//!
//! The token itself is the work of the `jwt` crate, keyed through `hmac` and
//! `sha2`. The library decides what is signed (the JSON text of the claims)
//! and with which key, and refuses an empty key before the signer is asked.

use crate::claims::{claims_json, UnsignedToken};
use crate::error::EmbedError;
use hmac::{digest::KeyInit, Hmac};
use jwt::{Header, SignWithKey, Token};
use serde_json::value::RawValue;
use sha2::Sha256;
use vstd::prelude::*;
use vstd::utf8::encode_utf8;

verus! {

/// `jwt::Error`, the error of the token signer. Opaque.
#[verifier::external_type_specification]
#[verifier::external_body]
pub struct ExJwtError(jwt::Error);

/// `c` belongs to the URL-safe base64 alphabet: a letter, a digit, `-` or `_`.
pub open spec fn is_base64url(c: char) -> bool {
    ('A' <= c && c <= 'Z') || ('a' <= c && c <= 'z') || ('0' <= c && c <= '9') || c == '-' || c
        == '_'
}

/// `s` is one segment of a compact token: unpadded URL-safe base64, not empty.
pub open spec fn is_segment(s: Seq<char>) -> bool {
    s.len() > 0 && forall|i: int| 0 <= i < s.len() ==> is_base64url(#[trigger] s[i])
}

/// Three texts joined by periods.
pub open spec fn joined(header: Seq<char>, payload: Seq<char>, signature: Seq<char>) -> Seq<char> {
    header + seq!['.'] + payload + seq!['.'] + signature
}

/// `t` has the form of a compact token: three segments joined by periods.
pub open spec fn is_compact_token(t: Seq<char>) -> bool {
    exists|header: Seq<char>, payload: Seq<char>, signature: Seq<char>|
        is_segment(header) && is_segment(payload) && is_segment(signature) && t == #[trigger] joined(
            header,
            payload,
            signature,
        )
}

/// What `jwt` makes of the text `payload` under the default header (`alg`
/// HS256) and the HMAC-SHA256 key `key`: the compact token (the header, the
/// payload and the signature over both, each in unpadded URL-safe base64,
/// joined by periods), or `None` where the signer fails. It stands for the
/// result of `jwt::SignWithKey::sign_with_key`.
pub uninterp spec fn hs256_compact(key: Seq<u8>, payload: Seq<char>) -> Option<Seq<char>>;

/// Calls `jwt::SignWithKey::sign_with_key` on a `jwt::Token` that holds the
/// default `jwt::Header` and `payload` as its claims, with an
/// `Hmac<Sha256>` key made of `key` by `new_from_slice`.
///
/// The payload goes in as a `serde_json` raw value, which takes any one
/// JSON value and is written out as the text it holds. Trusted:
///
/// - Whether the signer succeeds, and the token if it does, depend on the
///   key's bytes and the payload's text alone: no clock, no nonce, no
///   randomness enters.
/// - It succeeds on the JSON text of any claims, under any key:
///   `new_from_slice` of `Hmac` takes a key of any length, the text is one
///   JSON value, the default header and the key both say HS256, and signing
///   with `Hmac` has no failing path.
/// - A token that comes back is three texts joined by periods, each the
///   unpadded URL-safe base64 of bytes that are not empty (the header's
///   JSON, the payload, the 32 bytes of the signature).
#[verifier::external_body]
fn hs256_sign(key: &[u8], payload: &str) -> (r: Result<String, jwt::Error>)
    ensures
        match r {
            Ok(token) => hs256_compact(key@, payload@) == Some(token@) && is_compact_token(token@),
            Err(_) => hs256_compact(key@, payload@) is None,
        },
        (exists|c: UnsignedToken| payload@ == #[trigger] claims_json(c)) ==> r is Ok,
{
    let key: Hmac<Sha256> = Hmac::new_from_slice(key)?;
    let claims = RawValue::from_string(payload.to_owned())?;
    let signed = Token::new(Header::default(), claims).sign_with_key(&key)?;
    Ok(signed.as_str().to_owned())
}

/// The token for `claims` under the key `key`: the signer's token for the
/// claims' JSON text, keyed with the UTF-8 bytes of `key`.
pub open spec fn signed_token(claims: UnsignedToken, key: Seq<char>) -> Seq<char> {
    hs256_compact(encode_utf8(key), claims_json(claims))->Some_0
}

/// What `sign_claims` returns for `claims` and `key`: under an empty key
/// `SigningError`, under any other the token for them, which has the form of
/// a compact token.
pub open spec fn signing_outcome(
    claims: UnsignedToken,
    key: Seq<char>,
    r: Result<String, EmbedError>,
) -> bool {
    match r {
        Ok(token) => key.len() > 0 && token@ == signed_token(claims, key) && is_compact_token(
            token@,
        ),
        Err(e) => key.len() == 0 && e == EmbedError::SigningError,
    }
}

/// Signs `claims` with `key`.
///
/// An empty key is refused with `SigningError` and the signer is not asked.
/// Under any other key the result is the signer's token for the JSON text of
/// the claims.
pub fn sign_claims(claims: &UnsignedToken, key: &str) -> (r: Result<String, EmbedError>)
    ensures
        signing_outcome(*claims, key@, r),
        r is Ok <==> key@.len() > 0,
{
    if key.is_empty() {
        return Err(EmbedError::SigningError);
    }
    let payload = claims.to_json();
    assert(payload@ == claims_json(*claims));
    match hs256_sign(key.as_bytes(), payload.as_str()) {
        Ok(token) => Ok(token),
        Err(_) => Err(EmbedError::SigningError),
    }
}

/// Signing is a function of the claims and the key: whenever the same claims
/// are signed twice with the same key, both attempts succeed or both fail,
/// and two tokens are the same text.
pub proof fn lemma_signing_is_deterministic(
    claims: UnsignedToken,
    key: Seq<char>,
    first: Result<String, EmbedError>,
    second: Result<String, EmbedError>,
)
    requires
        signing_outcome(claims, key, first),
        signing_outcome(claims, key, second),
    ensures
        first is Ok <==> second is Ok,
        first is Ok ==> first->Ok_0@ == second->Ok_0@,
        first is Err ==> first->Err_0 == second->Err_0,
{
}

} // verus!
