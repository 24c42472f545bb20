//! Session tokens: the claims they carry, how claims go to the wire and come
//! back, when a token is admitted, and the cookie that delivers it.
//!
//! A token is stateless. Nothing of it is kept on this side; its life ends at
//! the expiry that it carries.

use vstd::prelude::*;
use crate::errors::{AuthenticationError, EncodingError};
use crate::roles::Roles;
use crate::text::{int_text, integer_text, lemma_parse_int_text, parse_i32, parsed_i32};
use crate::trusted::{decode_token, encode_token, render_cookie, signed_token, verified_claims};

verus! {

/// The claims of a token as they travel: the subject as decimal text, the
/// role as its ordinal, both times in seconds since the epoch.
#[derive(Debug, PartialEq, Eq)]
pub struct TokenClaims {
    pub sub: String,
    pub role: usize,
    pub iat: usize,
    pub exp: usize,
}

/// The model of [`TokenClaims`] that contracts speak of.
pub struct TokenClaimsView {
    pub sub: Seq<char>,
    pub role: nat,
    pub iat: nat,
    pub exp: nat,
}

impl View for TokenClaims {
    type V = TokenClaimsView;

    open spec fn view(&self) -> TokenClaimsView {
        TokenClaimsView {
            sub: self.sub@,
            role: self.role as nat,
            iat: self.iat as nat,
            exp: self.exp as nat,
        }
    }
}

/// What a verified token held, claim by claim: a claim that is absent or not
/// of its type is `None`.
#[derive(Debug, PartialEq, Eq)]
pub struct RawClaims {
    pub sub: Option<String>,
    pub role: Option<u64>,
    pub iat: Option<u64>,
    pub exp: Option<u64>,
}

/// The model of [`RawClaims`] that contracts speak of.
pub struct RawClaimsView {
    pub sub: Option<Seq<char>>,
    pub role: Option<u64>,
    pub iat: Option<u64>,
    pub exp: Option<u64>,
}

impl View for RawClaims {
    type V = RawClaimsView;

    open spec fn view(&self) -> RawClaimsView {
        RawClaimsView {
            sub: match self.sub {
                Some(s) => Some(s@),
                None => None,
            },
            role: self.role,
            iat: self.iat,
            exp: self.exp,
        }
    }
}

/// The claims of a session as the pipeline reads them.
#[derive(Debug, Clone, Copy, PartialEq, Eq, Structural)]
pub struct SessionClaims {
    pub subject: i32,
    pub role: Roles,
    pub issued_at: usize,
    pub expires_at: usize,
}

/// The end of a life that starts at `now` and lasts `ttl` seconds, held to
/// the largest time that can be written.
pub open spec fn expiry_of(now: usize, ttl: u32) -> usize {
    if now + ttl > usize::MAX {
        usize::MAX
    } else {
        (now + ttl) as usize
    }
}

/// The claims of a session that starts at `now`.
pub open spec fn claims_issued(subject: i32, role: Roles, now: usize, ttl: u32) -> SessionClaims {
    SessionClaims { subject, role, issued_at: now, expires_at: expiry_of(now, ttl) }
}

/// The wire form of session claims.
pub open spec fn wire_of(claims: SessionClaims) -> TokenClaimsView {
    TokenClaimsView {
        sub: int_text(claims.subject as int),
        role: claims.role.ordinal_of() as nat,
        iat: claims.issued_at as nat,
        exp: claims.expires_at as nat,
    }
}

/// The session claims that wire claims stand for: the subject must write a
/// 32-bit integer, the role must be an ordinal of the hierarchy, and both
/// times must fit.
pub open spec fn session_of(wire: TokenClaimsView) -> Option<SessionClaims> {
    match (parsed_i32(wire.sub), Roles::of_ordinal(wire.role as int)) {
        (Some(subject), Some(role)) => if wire.iat <= usize::MAX && wire.exp <= usize::MAX {
            Some(
                SessionClaims {
                    subject,
                    role,
                    issued_at: wire.iat as usize,
                    expires_at: wire.exp as usize,
                },
            )
        } else {
            None
        },
        _ => None,
    }
}

/// The wire claims that raw claims amount to: every claim must be there, and
/// every number must fit.
pub open spec fn claims_of(raw: RawClaimsView) -> Option<TokenClaimsView> {
    match (raw.sub, raw.role, raw.iat, raw.exp) {
        (Some(sub), Some(role), Some(iat), Some(exp)) => if role <= usize::MAX && iat
            <= usize::MAX && exp <= usize::MAX {
            Some(TokenClaimsView { sub, role: role as nat, iat: iat as nat, exp: exp as nat })
        } else {
            None
        },
        _ => None,
    }
}

/// Whether claims have run out at `now`: the expiry itself is still inside
/// the life of the token.
pub open spec fn expired(claims: SessionClaims, now: usize) -> bool {
    claims.expires_at < now
}

/// The verdict on a decoded token at `now`. A token that did not verify, or
/// whose claims are not those of a session, is invalid; one that is sound but
/// has run out is expired; any other is admitted with its claims.
pub open spec fn admitted(decoded: Option<RawClaimsView>, now: usize) -> Result<
    SessionClaims,
    AuthenticationError,
> {
    match decoded {
        None => Err(AuthenticationError::InvalidToken),
        Some(raw) => match claims_of(raw) {
            None => Err(AuthenticationError::InvalidToken),
            Some(wire) => match session_of(wire) {
                None => Err(AuthenticationError::InvalidToken),
                Some(claims) => if expired(claims, now) {
                    Err(AuthenticationError::ExpiredToken)
                } else {
                    Ok(claims)
                },
            },
        },
    }
}

impl SessionClaims {
    /// The claims of a session for `subject` that starts at `now` and lasts
    /// `ttl` seconds.
    pub fn issue(subject: i32, role: Roles, now: usize, ttl: u32) -> (claims: SessionClaims)
        ensures
            claims == claims_issued(subject, role, now, ttl),
    {
        let expires_at = if ttl as u128 + now as u128 > usize::MAX as u128 {
            usize::MAX
        } else {
            now + ttl as usize
        };
        SessionClaims { subject, role, issued_at: now, expires_at }
    }

    /// Tells whether the claims have run out at `now`.
    pub fn is_expired(&self, now: usize) -> (gone: bool)
        ensures
            gone == expired(*self, now),
    {
        self.expires_at < now
    }

    /// Writes the claims in their wire form.
    pub fn to_wire(&self) -> (wire: TokenClaims)
        ensures
            wire@ == wire_of(*self),
    {
        TokenClaims {
            sub: integer_text(self.subject as i64),
            role: self.role.ordinal() as usize,
            iat: self.issued_at,
            exp: self.expires_at,
        }
    }
}

impl TokenClaims {
    /// Reads wire claims as session claims.
    pub fn to_session(&self) -> (claims: Option<SessionClaims>)
        ensures
            claims == session_of(self@),
    {
        let subject = match parse_i32(self.sub.as_str()) {
            Some(subject) => subject,
            None => {
                return None;
            },
        };
        if self.role > 2 {
            return None;
        }
        match Roles::from_ordinal(self.role as i16) {
            Ok(role) => Some(
                SessionClaims { subject, role, issued_at: self.iat, expires_at: self.exp },
            ),
            Err(_) => None,
        }
    }
}

impl RawClaims {
    /// Gathers the raw claims into wire claims.
    pub fn to_claims(self) -> (claims: Option<TokenClaims>)
        ensures
            match claims_of(self@) {
                Some(wire) => claims matches Some(c) && c@ == wire,
                None => claims is None,
            },
    {
        match (self.sub, self.role, self.iat, self.exp) {
            (Some(sub), Some(role), Some(iat), Some(exp)) => {
                if role > usize::MAX as u64 || iat > usize::MAX as u64 || exp > usize::MAX as u64 {
                    None
                } else {
                    Some(TokenClaims { sub, role: role as usize, iat: iat as usize, exp: exp as usize })
                }
            },
            _ => None,
        }
    }
}

/// Decides on a decoded token at `now`.
pub fn examine(decoded: Option<RawClaims>, now: usize) -> (r: Result<
    SessionClaims,
    AuthenticationError,
>)
    ensures
        r == admitted(
            match decoded {
                Some(raw) => Some(raw@),
                None => None,
            },
            now,
        ),
{
    let raw = match decoded {
        Some(raw) => raw,
        None => {
            return Err(AuthenticationError::InvalidToken);
        },
    };
    let wire = match raw.to_claims() {
        Some(wire) => wire,
        None => {
            return Err(AuthenticationError::InvalidToken);
        },
    };
    match wire.to_session() {
        None => Err(AuthenticationError::InvalidToken),
        Some(claims) => if claims.is_expired(now) {
            Err(AuthenticationError::ExpiredToken)
        } else {
            Ok(claims)
        },
    }
}

/// Session claims come back from their wire form as they went in.
pub proof fn lemma_wire_round_trip(claims: SessionClaims)
    ensures
        session_of(wire_of(claims)) == Some(claims),
{
    lemma_parse_int_text(claims.subject);
}

/// Claims issued at `now` are admitted from then up to their expiry, and
/// refused as expired at every later time.
pub proof fn lemma_issued_claims_lifetime(
    subject: i32,
    role: Roles,
    now: usize,
    ttl: u32,
    later: usize,
)
    requires
        now <= later,
    ensures
        ({
            let claims = claims_issued(subject, role, now, ttl);
            let raw = RawClaimsView {
                sub: Some(wire_of(claims).sub),
                role: Some(wire_of(claims).role as u64),
                iat: Some(wire_of(claims).iat as u64),
                exp: Some(wire_of(claims).exp as u64),
            };
            &&& claims.issued_at == now
            &&& now + ttl <= usize::MAX ==> claims.expires_at == now + ttl
            &&& admitted(Some(raw), now) == Ok::<SessionClaims, AuthenticationError>(claims)
            &&& later <= claims.expires_at ==> admitted(Some(raw), later) == Ok::<
                SessionClaims,
                AuthenticationError,
            >(claims)
            &&& later > claims.expires_at ==> admitted(Some(raw), later) == Err::<
                SessionClaims,
                AuthenticationError,
            >(AuthenticationError::ExpiredToken)
        }),
{
    let claims = claims_issued(subject, role, now, ttl);
    lemma_wire_round_trip(claims);
}

/// The seconds since the epoch that a clock reading stands for: a reading
/// before the epoch counts as the epoch, one beyond the largest time that can
/// be written as that time.
pub open spec fn clock_time(reading: i64) -> usize {
    if reading < 0 {
        0
    } else if reading > usize::MAX {
        usize::MAX
    } else {
        reading as usize
    }
}

/// Brings a clock reading, in signed seconds, to the times of this module.
pub fn clock_seconds(reading: i64) -> (now: usize)
    ensures
        now == clock_time(reading),
{
    if reading < 0 {
        0
    } else if reading as u64 > usize::MAX as u64 {
        usize::MAX
    } else {
        reading as usize
    }
}

/// How far a browser may send the session cookie along with requests that
/// other sites start.
#[derive(Debug, Clone, Copy, PartialEq, Eq, Structural)]
pub enum SameSitePolicy {
    Strict,
    Lax,
    Unrestricted,
}

impl SameSitePolicy {
    /// The attribute value that names the policy.
    pub open spec fn attribute_text(self) -> Seq<char> {
        match self {
            SameSitePolicy::Strict => "Strict"@,
            SameSitePolicy::Lax => "Lax"@,
            SameSitePolicy::Unrestricted => "None"@,
        }
    }
}

/// What the transport is told to do with the session cookie.
#[derive(Debug, PartialEq, Eq)]
pub struct CookieDirective {
    pub name: String,
    pub value: String,
    pub path: String,
    pub max_age: i64,
    pub http_only: bool,
    pub same_site: SameSitePolicy,
}

/// The model of [`CookieDirective`] that contracts speak of.
pub struct CookieDirectiveView {
    pub name: Seq<char>,
    pub value: Seq<char>,
    pub path: Seq<char>,
    pub max_age: int,
    pub http_only: bool,
    pub same_site: SameSitePolicy,
}

impl View for CookieDirective {
    type V = CookieDirectiveView;

    open spec fn view(&self) -> CookieDirectiveView {
        CookieDirectiveView {
            name: self.name@,
            value: self.value@,
            path: self.path@,
            max_age: self.max_age as int,
            http_only: self.http_only,
            same_site: self.same_site,
        }
    }
}

/// The value of the `Set-Cookie` header that carries out a directive: name
/// and value, then the attributes in a fixed order. A cookie without
/// same-site restriction is marked `Secure`.
pub open spec fn set_cookie_text(cookie: CookieDirectiveView) -> Seq<char> {
    cookie.name + "="@ + cookie.value + (if cookie.http_only {
        "; HttpOnly"@
    } else {
        Seq::empty()
    }) + "; SameSite="@ + cookie.same_site.attribute_text() + (if cookie.same_site
        == SameSitePolicy::Unrestricted {
        "; Secure"@
    } else {
        Seq::empty()
    }) + "; Path="@ + cookie.path + "; Max-Age="@ + int_text(cookie.max_age)
}

/// The directive that delivers a token: cookie `token` on path `/`, kept from
/// scripts, living as long as the token does.
pub open spec fn delivery_of(token: Seq<char>, ttl: u32, same_site: SameSitePolicy) -> CookieDirectiveView {
    CookieDirectiveView {
        name: "token"@,
        value: token,
        path: "/"@,
        max_age: ttl as int,
        http_only: true,
        same_site,
    }
}

/// The directive that makes the transport drop the token at once: the same
/// cookie, empty, with no life left.
pub open spec fn discard_of(same_site: SameSitePolicy) -> CookieDirectiveView {
    CookieDirectiveView {
        name: "token"@,
        value: Seq::empty(),
        path: "/"@,
        max_age: 0,
        http_only: true,
        same_site,
    }
}

impl CookieDirective {
    /// Writes the directive as the value of a `Set-Cookie` header.
    pub fn header_value(&self) -> (text: String)
        ensures
            text@ == set_cookie_text(self@),
    {
        render_cookie(self)
    }
}

/// The name of the cookie that carries the session token.
pub const SESSION_COOKIE: &'static str = "token";

/// The life of a token where none other is configured: one hour.
pub const DEFAULT_TTL_SECONDS: u32 = 3600;

/// What a component that issues or reads tokens is built with.
#[derive(Debug, Clone, PartialEq, Eq)]
pub struct SessionConfig {
    pub secret: String,
    pub ttl_seconds: u32,
    pub same_site: SameSitePolicy,
}

/// A fresh token and the directive that delivers it.
#[derive(Debug, PartialEq, Eq)]
pub struct SessionGrant {
    pub token: String,
    pub cookie: CookieDirective,
}

/// The model of [`SessionGrant`] that contracts speak of.
pub struct SessionGrantView {
    pub token: Seq<char>,
    pub cookie: CookieDirectiveView,
}

impl View for SessionGrant {
    type V = SessionGrantView;

    open spec fn view(&self) -> SessionGrantView {
        SessionGrantView { token: self.token@, cookie: self.cookie@ }
    }
}

/// The text that signing gave, as a model value.
pub open spec fn text_view(text: Option<String>) -> Option<Seq<char>> {
    match text {
        Some(t) => Some(t@),
        None => None,
    }
}

/// The grant for a signed token, or the failure where signing gave none.
pub open spec fn grant_of(
    signed: Option<Seq<char>>,
    ttl: u32,
    same_site: SameSitePolicy,
) -> Result<SessionGrantView, EncodingError> {
    match signed {
        Some(token) => Ok(SessionGrantView { token, cookie: delivery_of(token, ttl, same_site) }),
        None => Err(EncodingError::TokenSignatureInvalid),
    }
}

/// Whether a result holds the grant, or the failure, that the model gives.
pub open spec fn grant_matches(
    r: Result<SessionGrant, EncodingError>,
    model: Result<SessionGrantView, EncodingError>,
) -> bool {
    match model {
        Ok(grant) => r matches Ok(g) && g@ == grant,
        Err(e) => r matches Err(f) && f == e,
    }
}

impl SessionConfig {
    /// The directive that delivers `token`.
    pub fn delivery(&self, token: &str) -> (cookie: CookieDirective)
        ensures
            cookie@ == delivery_of(token@, self.ttl_seconds, self.same_site),
    {
        CookieDirective {
            name: String::from_str(SESSION_COOKIE),
            value: String::from_str(token),
            path: String::from_str("/"),
            max_age: self.ttl_seconds as i64,
            http_only: true,
            same_site: self.same_site,
        }
    }

    /// The directive of a sign-out. It ends the cookie, not the token: a
    /// token that was copied stays good until it expires.
    pub fn discard(&self) -> (cookie: CookieDirective)
        ensures
            cookie@ == discard_of(self.same_site),
    {
        CookieDirective {
            name: String::from_str(SESSION_COOKIE),
            value: String::new(),
            path: String::from_str("/"),
            max_age: 0,
            http_only: true,
            same_site: self.same_site,
        }
    }

    /// The grant around what signing gave: the token with the directive that
    /// delivers it, or the failure where signing gave no token.
    pub fn grant(&self, signed: Option<String>) -> (r: Result<SessionGrant, EncodingError>)
        ensures
            grant_matches(r, grant_of(text_view(signed), self.ttl_seconds, self.same_site)),
    {
        match signed {
            Some(token) => {
                let cookie = self.delivery(token.as_str());
                Ok(SessionGrant { token, cookie })
            },
            None => Err(EncodingError::TokenSignatureInvalid),
        }
    }

    /// Signs the claims under the secret.
    pub fn encode(&self, claims: &SessionClaims) -> (r: Result<String, EncodingError>)
        ensures
            match signed_token(wire_of(*claims), self.secret@) {
                Some(token) => r matches Ok(t) && t@ == token,
                None => r == Err::<String, EncodingError>(EncodingError::TokenSignatureInvalid),
            },
    {
        let wire = claims.to_wire();
        match encode_token(&wire, self.secret.as_str()) {
            Ok(token) => Ok(token),
            Err(_) => Err(EncodingError::TokenSignatureInvalid),
        }
    }

    /// Verifies a token under the secret and decides on it at `now`.
    pub fn decode(&self, token: &str, now: usize) -> (r: Result<
        SessionClaims,
        AuthenticationError,
    >)
        ensures
            r == admitted(verified_claims(token@, self.secret@), now),
    {
        match decode_token(token, self.secret.as_str()) {
            Ok(raw) => examine(Some(raw), now),
            Err(_) => examine(None, now),
        }
    }

    /// Issues a session for `subject` that starts at `now`: signs claims
    /// that expire one life later, and has the token delivered in a cookie
    /// of the same life.
    pub fn issue(&self, subject: i32, role: Roles, now: usize) -> (r: Result<
        SessionGrant,
        EncodingError,
    >)
        ensures
            grant_matches(
                r,
                grant_of(
                    signed_token(
                        wire_of(claims_issued(subject, role, now, self.ttl_seconds)),
                        self.secret@,
                    ),
                    self.ttl_seconds,
                    self.same_site,
                ),
            ),
    {
        let claims = SessionClaims::issue(subject, role, now, self.ttl_seconds);
        match self.encode(&claims) {
            Ok(token) => self.grant(Some(token)),
            Err(_) => self.grant(None),
        }
    }
}

} // verus!
