use vstd::prelude::*;

verus! {

/// Every failure a registry or handshake operation can report.
///
/// All of these are recoverable by the caller: it can retry the
/// handshake, re-sign, or re-register. None is fatal to the service.
#[derive(Debug)]
pub enum ReachError {
    /// The supplied DID does not parse as a `did:key` identifier.
    InvalidDid,
    /// A signature did not verify against the claimed DID's key.
    InvalidSignature,
    /// A proof referenced a challenge that was never issued or was
    /// already consumed (this is how replays are rejected).
    InvalidChallenge,
    /// A registration named an empty endpoint; an endpoint is opaque
    /// but must be non-empty.
    InvalidEndpoint,
    /// No registry entry exists for the requested DID.
    NotFound,
    /// A registry entry exists but its validity window has passed.
    Expired,
    /// No usable bearer credential accompanied the request.
    Unauthorized,
    /// The bearer credential exists but its validity window has passed.
    SessionExpired,
    /// The handshake protocol itself rejected a message; the detail
    /// comes from the protocol layer.
    HandshakeError(String),
    /// An unexpected internal failure, with detail.
    Internal(String),
}

impl ReachError {
    /// The stable HTTP status this error maps to.
    pub fn status_code(&self) -> (code: u16)
        ensures
            code == self.spec_status_code(),
    {
        match self {
            ReachError::InvalidDid => 400,
            ReachError::InvalidSignature => 401,
            ReachError::InvalidChallenge => 400,
            ReachError::InvalidEndpoint => 400,
            ReachError::NotFound => 404,
            ReachError::Expired => 410,
            ReachError::Unauthorized => 401,
            ReachError::SessionExpired => 401,
            ReachError::HandshakeError(_) => 400,
            ReachError::Internal(_) => 500,
        }
    }

    pub open spec fn spec_status_code(&self) -> u16 {
        match self {
            ReachError::InvalidDid => 400,
            ReachError::InvalidSignature => 401,
            ReachError::InvalidChallenge => 400,
            ReachError::InvalidEndpoint => 400,
            ReachError::NotFound => 404,
            ReachError::Expired => 410,
            ReachError::Unauthorized => 401,
            ReachError::SessionExpired => 401,
            ReachError::HandshakeError(_) => 400,
            ReachError::Internal(_) => 500,
        }
    }

    /// The message carried in the `{error: ...}` body for this error.
    pub fn message(&self) -> (m: String)
        ensures
            m@ == self.spec_message(),
    {
        match self {
            ReachError::InvalidDid => String::from_str("invalid DID"),
            ReachError::InvalidSignature => String::from_str("invalid signature"),
            ReachError::InvalidChallenge => String::from_str("invalid or expired challenge"),
            ReachError::InvalidEndpoint => String::from_str("invalid endpoint"),
            ReachError::NotFound => String::from_str("agent not found"),
            ReachError::Expired => String::from_str("registration expired"),
            ReachError::Unauthorized => String::from_str("unauthorized"),
            ReachError::SessionExpired => String::from_str("session expired"),
            ReachError::HandshakeError(d) => d.clone(),
            ReachError::Internal(d) => d.clone(),
        }
    }

    pub open spec fn spec_message(&self) -> Seq<char> {
        match self {
            ReachError::InvalidDid => "invalid DID"@,
            ReachError::InvalidSignature => "invalid signature"@,
            ReachError::InvalidChallenge => "invalid or expired challenge"@,
            ReachError::InvalidEndpoint => "invalid endpoint"@,
            ReachError::NotFound => "agent not found"@,
            ReachError::Expired => "registration expired"@,
            ReachError::Unauthorized => "unauthorized"@,
            ReachError::SessionExpired => "session expired"@,
            ReachError::HandshakeError(d) => d@,
            ReachError::Internal(d) => d@,
        }
    }
}

} // verus!
