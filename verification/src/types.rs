use vstd::prelude::*;

verus! {

/// Default validity window, in seconds, for a registration whose
/// request names no explicit `ttl`.
pub fn default_ttl() -> (t: u64)
    ensures
        t == 3600,
{
    3600
}

/// Whether a registry entry is currently usable. Derived lazily from
/// the clock on every read; never stored.
#[derive(Clone, Copy, Debug, PartialEq, Eq, Structural)]
pub enum AgentStatus {
    Online,
    Expired,
}

/// The mathematical value of a [`RegistryEntry`].
pub ghost struct EntryV {
    pub did: Seq<char>,
    pub endpoint: Seq<char>,
    pub registered_at: int,
    pub expires_at: int,
}

/// One registration: where a DID can be reached and for how long the
/// claim is valid. The registry keeps at most one per DID.
pub struct RegistryEntry {
    /// The registered agent's DID (`did:key:...`).
    pub did: String,
    /// Where to reach this agent (any URI format).
    pub endpoint: String,
    /// When the entry was created, in seconds since the epoch.
    pub registered_at: i64,
    /// When the claim lapses, in seconds since the epoch.
    pub expires_at: i64,
}

impl View for RegistryEntry {
    type V = EntryV;

    open spec fn view(&self) -> EntryV {
        EntryV {
            did: self.did@,
            endpoint: self.endpoint@,
            registered_at: self.registered_at as int,
            expires_at: self.expires_at as int,
        }
    }
}

/// The status an entry has when read at time `now`: online until its
/// expiry passes, expired afterwards.
pub open spec fn spec_status(e: EntryV, now: int) -> AgentStatus {
    if now > e.expires_at {
        AgentStatus::Expired
    } else {
        AgentStatus::Online
    }
}

impl Clone for RegistryEntry {
    fn clone(&self) -> (r: Self)
        ensures
            r == *self,
    {
        RegistryEntry {
            did: self.did.clone(),
            endpoint: self.endpoint.clone(),
            registered_at: self.registered_at,
            expires_at: self.expires_at,
        }
    }
}

impl RegistryEntry {
    /// The entry's validity window is never inverted.
    pub open spec fn valid(&self) -> bool {
        self.registered_at <= self.expires_at
    }

    /// Derive the entry's status at time `now`.
    pub fn status(&self, now: i64) -> (s: AgentStatus)
        ensures
            s == spec_status(self@, now as int),
    {
        if now > self.expires_at {
            AgentStatus::Expired
        } else {
            AgentStatus::Online
        }
    }
}

/// Body of a registration request. The session-gated path reads only
/// `endpoint` and `ttl`; the signed-body path reads all four fields.
pub struct RegisterRequest {
    /// The agent's DID (`did:key:...`); ignored on the session path,
    /// where the DID is taken from the session.
    pub did: String,
    /// Where to reach this agent (any URI format).
    pub endpoint: String,
    /// Requested time-to-live in seconds.
    pub ttl: u64,
    /// Signature over the registration payload (signed-body path only).
    pub signature: String,
}

/// Successful registration response.
pub struct RegisterResponse {
    pub ok: bool,
    pub did: String,
    pub expires_at: i64,
}

/// Successful lookup response.
pub struct LookupResponse {
    pub did: String,
    pub endpoint: String,
    pub status: AgentStatus,
    pub registered_at: i64,
    pub expires_at: i64,
}

/// Body of a signed deregistration request.
pub struct DeregisterRequest {
    pub did: String,
    pub signature: String,
}

/// Deregistration response: whether an entry existed and was removed.
pub struct DeregisterResponse {
    pub ok: bool,
}

} // verus!
