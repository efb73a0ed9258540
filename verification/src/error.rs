//! The closed set of ways in which an extraction can fail.

use vstd::prelude::*;

verus! {

/// Why no identity came out of a request.
#[derive(Clone, Copy, Debug, PartialEq, Eq, Structural)]
pub enum JwtError {
    /// The token was well formed, but no candidate key accepted its signature
    /// and claims.
    NoValidKeyError,
    /// The request carried no credential at all.
    MissingToken,
    /// The credential did not have the required scheme.
    InvalidToken,
    /// The issuer's keys could not be fetched or read.
    KeySourceUnavailable,
}

/// The transport status of an unauthorized request.
pub const STATUS_UNAUTHORIZED: u16 = 401;

/// The transport status of a failure of the infrastructure.
pub const STATUS_INTERNAL_ERROR: u16 = 500;

impl JwtError {
    /// Whether the failure lies with the credential, not with the
    /// infrastructure.
    pub open spec fn credential_kind(self) -> bool {
        self != JwtError::KeySourceUnavailable
    }

    /// The text that describes the failure to the operator.
    pub open spec fn message_text(self) -> Seq<char> {
        match self {
            JwtError::NoValidKeyError => "No valid public key found"@,
            JwtError::MissingToken => "Missing authorization token"@,
            JwtError::InvalidToken => "Invalid token"@,
            JwtError::KeySourceUnavailable => "Failed to fetch public keys"@,
        }
    }

    /// The status under which the failure leaves the service.
    pub open spec fn status(self) -> u16 {
        if self.credential_kind() {
            STATUS_UNAUTHORIZED
        } else {
            STATUS_INTERNAL_ERROR
        }
    }

    /// The text that leaves the service with the failure: one text for every
    /// credential failure, and one for a failure of the key source, which
    /// says nothing of its cause.
    pub open spec fn response_text(self) -> Seq<char> {
        if self.credential_kind() {
            "Unauthorized"@
        } else {
            "Failed to fetch public keys"@
        }
    }

    /// Tells credential failures from infrastructure failures.
    pub fn is_credential_error(&self) -> (r: bool)
        ensures
            r == self.credential_kind(),
    {
        match self {
            JwtError::KeySourceUnavailable => false,
            _ => true,
        }
    }

    /// Describes the failure for logs and operators; each kind has a text of
    /// its own.
    pub fn message(&self) -> (r: String)
        ensures
            r@ == self.message_text(),
    {
        match self {
            JwtError::NoValidKeyError => "No valid public key found".to_owned(),
            JwtError::MissingToken => "Missing authorization token".to_owned(),
            JwtError::InvalidToken => "Invalid token".to_owned(),
            JwtError::KeySourceUnavailable => "Failed to fetch public keys".to_owned(),
        }
    }

    /// The transport status: unauthorized for every credential failure,
    /// internal error for the rest.
    pub fn status_code(&self) -> (r: u16)
        ensures
            r == self.status(),
            r == STATUS_UNAUTHORIZED || r == STATUS_INTERNAL_ERROR,
            r == STATUS_UNAUTHORIZED <==> self.credential_kind(),
    {
        if self.is_credential_error() {
            STATUS_UNAUTHORIZED
        } else {
            STATUS_INTERNAL_ERROR
        }
    }

    /// The text sent to the caller. It depends on nothing but the class of the
    /// failure.
    pub fn response_message(&self) -> (r: String)
        ensures
            r@ == self.response_text(),
    {
        if self.is_credential_error() {
            "Unauthorized".to_owned()
        } else {
            "Failed to fetch public keys".to_owned()
        }
    }
}

/// No caller can tell two credential failures apart: they leave the service
/// with the same status and the same text.
pub proof fn credential_failures_look_alike(a: JwtError, b: JwtError)
    requires
        a.credential_kind(),
        b.credential_kind(),
    ensures
        a.status() == b.status(),
        a.response_text() == b.response_text(),
        a.status() == STATUS_UNAUTHORIZED,
{
}

/// A missing credential and a malformed one stay different failures inside the
/// service, though they look alike from outside.
pub proof fn missing_and_invalid_differ()
    ensures
        JwtError::MissingToken != JwtError::InvalidToken,
        JwtError::MissingToken.status() == JwtError::InvalidToken.status(),
        JwtError::MissingToken.response_text() == JwtError::InvalidToken.response_text(),
{
}

} // verus!
