//! The calls into other crates. Each function here has a body that Verus
//! does not read; its contract is taken on trust.

use vstd::prelude::*;
use crate::session::{
    set_cookie_text, CookieDirective, RawClaims, RawClaimsView, SameSitePolicy, TokenClaims,
    TokenClaimsView,
};

verus! {

/// `jsonwebtoken::errors::Error`, carried through as it is: nothing inside
/// it is read.
#[verifier::external_type_specification]
#[verifier::external_body]
pub struct ExTokenError(jsonwebtoken::errors::Error);

/// The hexadecimal SHA-256 digest of a text's UTF-8 bytes.
pub uninterp spec fn sha256_hex(input: Seq<char>) -> Seq<char>;

/// The token that signing the claims under the secret gives, or `None` where
/// signing fails.
pub uninterp spec fn signed_token(claims: TokenClaimsView, secret: Seq<char>) -> Option<
    Seq<char>,
>;

/// The claims of a token that verifies under the secret, or `None` where the
/// token does not verify. Expiry has no part in it.
pub uninterp spec fn verified_claims(token: Seq<char>, secret: Seq<char>) -> Option<
    RawClaimsView,
>;

/// `sha256::digest` on a string slice: the digest depends on the text alone.
#[verifier::external_body]
pub(crate) fn sha256_digest(input: &str) -> (hex: String)
    ensures
        hex@ == sha256_hex(input@),
{
    sha256::digest(input)
}

/// `jsonwebtoken::encode` with the default header (HS256) and the secret as
/// the key, on a JSON object of the four claims: the token depends on the
/// claims and the secret alone.
#[verifier::external_body]
pub(crate) fn encode_token(claims: &TokenClaims, secret: &str) -> (r: Result<
    String,
    jsonwebtoken::errors::Error,
>)
    ensures
        match r {
            Ok(token) => signed_token(claims@, secret@) == Some(token@),
            Err(_) => signed_token(claims@, secret@) is None,
        },
{
    let mut object = std::collections::BTreeMap::new();
    object.insert("sub", serde_json::Value::from(claims.sub.as_str()));
    object.insert("role", serde_json::Value::from(claims.role));
    object.insert("iat", serde_json::Value::from(claims.iat));
    object.insert("exp", serde_json::Value::from(claims.exp));
    let key = jsonwebtoken::EncodingKey::from_secret(secret.as_bytes());
    jsonwebtoken::encode(&jsonwebtoken::Header::default(), &object, &key)
}

/// `jsonwebtoken::decode` for HS256 with the secret as the key and the check
/// of `exp` against the clock switched off: whether the token verifies, and
/// the claims it then gives, depend on the token and the secret alone. Each
/// claim is handed on as the JSON value's own accessor reads it.
#[verifier::external_body]
pub(crate) fn decode_token(token: &str, secret: &str) -> (r: Result<
    RawClaims,
    jsonwebtoken::errors::Error,
>)
    ensures
        match r {
            Ok(raw) => verified_claims(token@, secret@) == Some(raw@),
            Err(_) => verified_claims(token@, secret@) is None,
        },
{
    let mut validation = jsonwebtoken::Validation::default();
    validation.validate_exp = false;
    let key = jsonwebtoken::DecodingKey::from_secret(secret.as_bytes());
    let claims = jsonwebtoken::decode::<serde_json::Value>(token, &key, &validation)?.claims;
    Ok(RawClaims {
        sub: claims.get("sub").and_then(serde_json::Value::as_str).map(str::to_string),
        role: claims.get("role").and_then(serde_json::Value::as_u64),
        iat: claims.get("iat").and_then(serde_json::Value::as_u64),
        exp: claims.get("exp").and_then(serde_json::Value::as_u64),
    })
}

/// The `Set-Cookie` text of a cookie built with `Cookie::build` from the
/// directive's name and value, its path, its life as `Max-Age`, its
/// `HttpOnly` flag and its same-site policy, nothing else set. The cookie
/// crate writes name and value as they are, then `HttpOnly` if set,
/// `SameSite`, `Secure` where the policy is `None` and `secure` was left
/// open, `Path`, and `Max-Age` in whole seconds.
#[verifier::external_body]
pub(crate) fn render_cookie(directive: &CookieDirective) -> (text: String)
    ensures
        text@ == set_cookie_text(directive@),
{
    let same_site = match directive.same_site {
        SameSitePolicy::Strict => axum_extra::extract::cookie::SameSite::Strict,
        SameSitePolicy::Lax => axum_extra::extract::cookie::SameSite::Lax,
        SameSitePolicy::Unrestricted => axum_extra::extract::cookie::SameSite::None,
    };
    axum_extra::extract::cookie::Cookie::build((directive.name.as_str(), directive.value.as_str()))
        .path(directive.path.as_str())
        .max_age(time::Duration::seconds(directive.max_age))
        .http_only(directive.http_only)
        .same_site(same_site)
        .build()
        .to_string()
}

} // verus!
