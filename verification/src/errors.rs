//! The failures of the pipeline and what each shows at the boundary.
//!
//! Every failure ends the request. At the boundary it becomes a status code
//! and a fixed message that tells nothing of the store or of the token.

use vstd::prelude::*;

verus! {

/// Why a request could not be tied to a principal.
#[derive(Debug, Clone, Copy, PartialEq, Eq, Structural)]
pub enum AuthenticationError {
    MissingToken,
    InvalidToken,
    ExpiredToken,
    PrincipalNotFound,
}

/// Why a request may not pass a role gate.
#[derive(Debug, Clone, Copy, PartialEq, Eq, Structural)]
pub enum AuthorizationError {
    NotAuthenticated,
    InsufficientRole,
}

/// The one outcome of a failed sign-in, whatever failed.
#[derive(Debug, Clone, Copy, PartialEq, Eq, Structural)]
pub enum CredentialError {
    AuthenticationFailed,
}

/// What went wrong at the store.
#[derive(Debug, Clone, Copy, PartialEq, Eq, Structural)]
pub enum StoreError {
    ConnectionUnavailable,
    QueryFailed,
    NoRowsAffected,
}

/// A token could not be produced.
#[derive(Debug, Clone, Copy, PartialEq, Eq, Structural)]
pub enum EncodingError {
    TokenSignatureInvalid,
}

/// The status of a request that could not be tied to a principal.
pub const STATUS_UNAUTHORIZED: u16 = 401;

/// The status of a request that the role gate turned away.
pub const STATUS_FORBIDDEN: u16 = 403;

/// The status of every failure of the store or of the service itself.
pub const STATUS_INTERNAL_ERROR: u16 = 500;

impl AuthenticationError {
    /// The fixed message that the boundary shows for the failure.
    pub open spec fn message_text(self) -> Seq<char> {
        match self {
            AuthenticationError::MissingToken => "You are not logged in, please provide token"@,
            AuthenticationError::InvalidToken => "Invalid token"@,
            AuthenticationError::ExpiredToken => "Token expired"@,
            AuthenticationError::PrincipalNotFound => "User not found"@,
        }
    }

    /// The status code that the boundary answers with.
    pub fn status(&self) -> (code: u16)
        ensures
            code == STATUS_UNAUTHORIZED,
    {
        STATUS_UNAUTHORIZED
    }

    /// The message that the boundary answers with.
    pub fn message(&self) -> (text: String)
        ensures
            text@ == self.message_text(),
    {
        match self {
            AuthenticationError::MissingToken => String::from_str(
                "You are not logged in, please provide token",
            ),
            AuthenticationError::InvalidToken => String::from_str("Invalid token"),
            AuthenticationError::ExpiredToken => String::from_str("Token expired"),
            AuthenticationError::PrincipalNotFound => String::from_str("User not found"),
        }
    }
}

impl AuthorizationError {
    /// Both failures read the same at the boundary.
    pub open spec fn message_text(self) -> Seq<char> {
        "Not enough rights"@
    }

    /// The status code that the boundary answers with.
    pub fn status(&self) -> (code: u16)
        ensures
            code == STATUS_FORBIDDEN,
    {
        STATUS_FORBIDDEN
    }

    /// The message that the boundary answers with.
    pub fn message(&self) -> (text: String)
        ensures
            text@ == self.message_text(),
    {
        String::from_str("Not enough rights")
    }
}

impl CredentialError {
    /// The fixed message that the boundary shows for the failure.
    pub open spec fn message_text(self) -> Seq<char> {
        "User does not exist or password was wrong!"@
    }

    /// The status code that the boundary answers with.
    pub fn status(&self) -> (code: u16)
        ensures
            code == STATUS_INTERNAL_ERROR,
    {
        STATUS_INTERNAL_ERROR
    }

    /// The message that the boundary answers with.
    pub fn message(&self) -> (text: String)
        ensures
            text@ == self.message_text(),
    {
        String::from_str("User does not exist or password was wrong!")
    }
}

impl StoreError {
    /// The fixed message that the boundary shows for the failure.
    pub open spec fn message_text(self) -> Seq<char> {
        match self {
            StoreError::ConnectionUnavailable => "Store unavailable"@,
            StoreError::QueryFailed => "Query failed"@,
            StoreError::NoRowsAffected => "No row was affected"@,
        }
    }

    /// The status code that the boundary answers with.
    pub fn status(&self) -> (code: u16)
        ensures
            code == STATUS_INTERNAL_ERROR,
    {
        STATUS_INTERNAL_ERROR
    }

    /// The message that the boundary answers with.
    pub fn message(&self) -> (text: String)
        ensures
            text@ == self.message_text(),
    {
        match self {
            StoreError::ConnectionUnavailable => String::from_str("Store unavailable"),
            StoreError::QueryFailed => String::from_str("Query failed"),
            StoreError::NoRowsAffected => String::from_str("No row was affected"),
        }
    }
}

impl EncodingError {
    /// The fixed message that the boundary shows for the failure.
    pub open spec fn message_text(self) -> Seq<char> {
        "Token could not be signed"@
    }

    /// The status code that the boundary answers with.
    pub fn status(&self) -> (code: u16)
        ensures
            code == STATUS_INTERNAL_ERROR,
    {
        STATUS_INTERNAL_ERROR
    }

    /// The message that the boundary answers with.
    pub fn message(&self) -> (text: String)
        ensures
            text@ == self.message_text(),
    {
        String::from_str("Token could not be signed")
    }
}

/// The row that a statement handed back when it was to change one row: the
/// last of those it returned. A statement that returned none has failed; the
/// failure is not passed over.
pub fn affected_row<T>(rows: Vec<T>) -> (r: Result<T, StoreError>)
    ensures
        match r {
            Ok(row) => rows@.len() > 0 && row == rows@.last(),
            Err(e) => rows@.len() == 0 && e == StoreError::NoRowsAffected,
        },
{
    let mut rows = rows;
    match rows.pop() {
        Some(row) => Ok(row),
        None => Err(StoreError::NoRowsAffected),
    }
}

} // verus!
