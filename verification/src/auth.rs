//! Sign-up, sign-in and the two gates that every guarded request passes:
//! authentication ties the request to a principal, authorization holds the
//! principal's role against the role that the route asks for.

use vstd::prelude::*;
use crate::errors::{AuthenticationError, AuthorizationError, CredentialError, EncodingError};
use crate::query::{FilterValueView, ParameterView, QueryPlan};
use crate::roles::Roles;
use crate::session::{
    admitted, claims_issued, grant_of, text_view, wire_of, SessionClaims, SessionConfig,
    SessionGrant, SessionGrantView,
};
use crate::trusted::{sha256_digest, sha256_hex, signed_token, verified_claims};
use crate::users::{
    credential_lookup_plan, principal_lookup_plan, registration_plan, User, UserView,
    UserWithPassword, UserWithPasswordView,
};

verus! {

/// The request to create a principal.
#[derive(Debug, Clone, PartialEq, Eq)]
pub struct SignUpPayload {
    pub username: String,
    pub password: String,
}

/// The request to open a session.
#[derive(Debug, Clone, PartialEq, Eq)]
pub struct SignInPayload {
    pub username: String,
    pub password: String,
}

/// Why a sign-in gave no session.
#[derive(Debug, Clone, Copy, PartialEq, Eq, Structural)]
pub enum SignInError {
    Credentials(CredentialError),
    Encoding(EncodingError),
}

/// The digest under which a password is stored: that of the password
/// followed by the server's salt.
pub open spec fn stored_digest(password: Seq<char>, salt: Seq<char>) -> Seq<char> {
    sha256_hex(password + salt)
}

/// Computes the digest under which a password is stored.
pub fn password_digest(password: &str, salt: &str) -> (digest: String)
    ensures
        digest@ == stored_digest(password@, salt@),
{
    let salted = String::from_str(password).concat(salt);
    sha256_digest(salted.as_str())
}

/// The plan that stores the principal of a sign-up.
pub fn sign_up_plan(payload: &SignUpPayload, salt: &str) -> (plan: QueryPlan)
    ensures
        plan@.statement
            == "INSERT INTO users (username, password) VALUES ($1, $2) RETURNING id, username"@,
        plan@.parameters == seq![
            ParameterView::Filter(FilterValueView::TextExact(payload.username@)),
            ParameterView::Filter(
                FilterValueView::TextExact(stored_digest(payload.password@, salt@)),
            ),
        ],
        plan@.well_formed(),
{
    let digest = password_digest(payload.password.as_str(), salt);
    registration_plan(payload.username.as_str(), digest.as_str())
}

/// The plan that reads the stored principal of a sign-in.
pub fn sign_in_plan(payload: &SignInPayload) -> (plan: QueryPlan)
    ensures
        plan@.statement == "SELECT id, username, password, role FROM users WHERE username = $1"@,
        plan@.parameters == seq![
            ParameterView::Filter(FilterValueView::TextExact(payload.username@)),
        ],
        plan@.well_formed(),
{
    credential_lookup_plan(payload.username.as_str())
}

/// The stored principal that a lookup found, as a model value.
pub open spec fn record_view(record: Option<&UserWithPassword>) -> Option<UserWithPasswordView> {
    match record {
        Some(found) => Some(found@),
        None => None,
    }
}

/// Credentials hold where a principal of the name is stored and the digest
/// of what was supplied is, character for character, the stored one.
pub open spec fn credentials_hold(record: Option<UserWithPasswordView>, digest: Seq<char>) -> bool {
    match record {
        Some(found) => found.password == digest,
        None => false,
    }
}

/// Holds the digest of a supplied password against the stored principal. A
/// name that is not stored and a digest that differs fail alike.
pub fn check_credentials(record: Option<&UserWithPassword>, digest: &str) -> (r: Result<
    (),
    CredentialError,
>)
    ensures
        r == if credentials_hold(record_view(record), digest@) {
            Ok::<(), CredentialError>(())
        } else {
            Err(CredentialError::AuthenticationFailed)
        },
{
    match record {
        Some(found) => {
            let supplied = String::from_str(digest);
            if found.password == supplied {
                Ok(())
            } else {
                Err(CredentialError::AuthenticationFailed)
            }
        },
        None => Err(CredentialError::AuthenticationFailed),
    }
}

/// What a sign-in comes to, given the stored principal, the digest of the
/// supplied password and what signing gives: without credentials that hold,
/// the one failure of credentials; with them, the grant around the signed
/// token, or the failure of signing.
pub open spec fn sign_in_outcome(
    record: Option<UserWithPasswordView>,
    digest: Seq<char>,
    signed: Option<Seq<char>>,
    config: SessionConfig,
) -> Result<SessionGrantView, SignInError> {
    if !credentials_hold(record, digest) {
        Err(SignInError::Credentials(CredentialError::AuthenticationFailed))
    } else {
        match grant_of(signed, config.ttl_seconds, config.same_site) {
            Ok(grant) => Ok(grant),
            Err(e) => Err(SignInError::Encoding(e)),
        }
    }
}

/// Whether a result holds the grant, or the failure, that the model gives.
pub open spec fn sign_in_matches(
    r: Result<SessionGrant, SignInError>,
    model: Result<SessionGrantView, SignInError>,
) -> bool {
    match model {
        Ok(grant) => r matches Ok(g) && g@ == grant,
        Err(e) => r matches Err(f) && f == e,
    }
}

/// Ends a sign-in whose credentials hold, given what signing gave: the grant
/// around the token, or the failure of signing.
pub fn conclude_sign_in(config: &SessionConfig, signed: Option<String>) -> (r: Result<
    SessionGrant,
    SignInError,
>)
    ensures
        sign_in_matches(
            r,
            match grant_of(text_view(signed), config.ttl_seconds, config.same_site) {
                Ok(grant) => Ok(grant),
                Err(e) => Err(SignInError::Encoding(e)),
            },
        ),
{
    match config.grant(signed) {
        Ok(grant) => Ok(grant),
        Err(e) => Err(SignInError::Encoding(e)),
    }
}

/// Decides a sign-in whose password digest is at hand, at `now`.
pub fn sign_in_with_digest(
    config: &SessionConfig,
    record: Option<&UserWithPassword>,
    digest: &str,
    now: usize,
) -> (r: Result<SessionGrant, SignInError>)
    ensures
        sign_in_matches(
            r,
            sign_in_outcome(
                record_view(record),
                digest@,
                match record {
                    Some(found) => signed_token(
                        wire_of(claims_issued(found.id, found.role, now, config.ttl_seconds)),
                        config.secret@,
                    ),
                    None => None,
                },
                *config,
            ),
        ),
{
    match check_credentials(record, digest) {
        Err(e) => Err(SignInError::Credentials(e)),
        Ok(()) => {
            let found = record.unwrap();
            let claims = SessionClaims::issue(found.id, found.role, now, config.ttl_seconds);
            match config.encode(&claims) {
                Ok(token) => conclude_sign_in(config, Some(token)),
                Err(_) => conclude_sign_in(config, None),
            }
        },
    }
}

/// Decides a sign-in at `now`: digests the supplied password with the salt,
/// holds it against the stored principal and, where it matches, issues a
/// session for that principal.
pub fn sign_in(
    config: &SessionConfig,
    salt: &str,
    payload: &SignInPayload,
    record: Option<&UserWithPassword>,
    now: usize,
) -> (r: Result<SessionGrant, SignInError>)
    ensures
        sign_in_matches(
            r,
            sign_in_outcome(
                record_view(record),
                stored_digest(payload.password@, salt@),
                match record {
                    Some(found) => signed_token(
                        wire_of(claims_issued(found.id, found.role, now, config.ttl_seconds)),
                        config.secret@,
                    ),
                    None => None,
                },
                *config,
            ),
        ),
{
    let digest = password_digest(payload.password.as_str(), salt);
    sign_in_with_digest(config, record, digest.as_str(), now)
}

/// A sign-in without credentials that hold fails in one way only, whether the
/// name is unknown or the password wrong, and whatever signing would give.
pub proof fn lemma_failed_sign_in_is_uniform(
    record: UserWithPasswordView,
    digest: Seq<char>,
    signed: Option<Seq<char>>,
    other: Option<Seq<char>>,
    config: SessionConfig,
)
    requires
        record.password != digest,
    ensures
        sign_in_outcome(Some(record), digest, signed, config) == sign_in_outcome(
            None,
            digest,
            other,
            config,
        ),
        sign_in_outcome(None, digest, other, config) == Err::<SessionGrantView, SignInError>(
            SignInError::Credentials(CredentialError::AuthenticationFailed),
        ),
{
}

/// With credentials that hold, a sign-in succeeds exactly where signing
/// does, and then delivers the signed token.
pub proof fn lemma_sign_in_with_good_credentials(
    record: UserWithPasswordView,
    signed: Option<Seq<char>>,
    config: SessionConfig,
)
    ensures
        sign_in_outcome(Some(record), record.password, signed, config) is Ok <==> signed
            is Some,
        signed matches Some(token) ==> sign_in_outcome(
            Some(record),
            record.password,
            signed,
            config,
        ) matches Ok(grant) && grant.token == token,
{
}

/// The verdict of the authentication gate on a request at `now`: without a
/// token the request is not logged in; with one, the verdict is that on the
/// token.
pub open spec fn authenticated(
    token: Option<Seq<char>>,
    secret: Seq<char>,
    now: usize,
) -> Result<SessionClaims, AuthenticationError> {
    match token {
        None => Err(AuthenticationError::MissingToken),
        Some(text) => admitted(verified_claims(text, secret), now),
    }
}

/// The token text of a request, as a model value.
pub open spec fn token_view(token: Option<&str>) -> Option<Seq<char>> {
    match token {
        Some(text) => Some(text@),
        None => None,
    }
}

/// The first step of the authentication gate: from the token that the
/// request carried, if any, to the claims of its session.
pub fn authenticate(config: &SessionConfig, token: Option<&str>, now: usize) -> (r: Result<
    SessionClaims,
    AuthenticationError,
>)
    ensures
        r == authenticated(token_view(token), config.secret@, now),
{
    match token {
        None => Err(AuthenticationError::MissingToken),
        Some(text) => config.decode(text, now),
    }
}

/// The plan that reads the principal of a session.
pub fn principal_plan(claims: &SessionClaims) -> (plan: QueryPlan)
    ensures
        plan@.statement == "SELECT id, username, role FROM users WHERE id = $1"@,
        plan@.parameters == seq![
            ParameterView::Filter(FilterValueView::Int(claims.subject as int)),
        ],
        plan@.well_formed(),
{
    principal_lookup_plan(claims.subject)
}

/// The last step of the authentication gate: the principal that the store
/// gave for the subject, or the failure where it gave none.
pub fn resolve_principal(found: Option<User>) -> (r: Result<User, AuthenticationError>)
    ensures
        match found {
            Some(user) => r matches Ok(principal) && principal == user,
            None => r == Err::<User, AuthenticationError>(AuthenticationError::PrincipalNotFound),
        },
{
    match found {
        Some(user) => Ok(user),
        None => Err(AuthenticationError::PrincipalNotFound),
    }
}

/// The verdict of the authorization gate: a request without a principal is
/// not authenticated; a principal passes exactly where its role permits the
/// required one.
pub open spec fn authorized(principal: Option<UserView>, required: Roles) -> Result<
    (),
    AuthorizationError,
> {
    match principal {
        None => Err(AuthorizationError::NotAuthenticated),
        Some(user) => if user.role.permits(required) {
            Ok(())
        } else {
            Err(AuthorizationError::InsufficientRole)
        },
    }
}

/// The principal of a request, as a model value.
pub open spec fn principal_view(principal: Option<&User>) -> Option<UserView> {
    match principal {
        Some(user) => Some(user@),
        None => None,
    }
}

/// The authorization gate.
pub fn authorize(principal: Option<&User>, required: Roles) -> (r: Result<
    (),
    AuthorizationError,
>)
    ensures
        r == authorized(principal_view(principal), required),
{
    match principal {
        None => Err(AuthorizationError::NotAuthenticated),
        Some(user) => if user.role.at_least(required) {
            Ok(())
        } else {
            Err(AuthorizationError::InsufficientRole)
        },
    }
}

/// Authorization goes by the ordinal alone: a principal is let through
/// exactly where the ordinal of its role is not below that of the required
/// role, so whoever is let through for a role is let through for every lower
/// one.
pub proof fn lemma_gate_follows_order(user: UserView, required: Roles, lower: Roles)
    ensures
        authorized(Some(user), required) is Ok <==> user.role.ordinal_of()
            >= required.ordinal_of(),
        authorized(Some(user), required) is Ok && required.permits(lower) ==> authorized(
            Some(user),
            lower,
        ) is Ok,
        authorized(None, required) == Err::<(), AuthorizationError>(
            AuthorizationError::NotAuthenticated,
        ),
{
}

} // verus!
