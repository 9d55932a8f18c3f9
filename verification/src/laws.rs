use vstd::prelude::*;

use crate::crypto::proof_sig_ok;
use crate::error::ReachError;
use crate::handlers::bearer_token;
use crate::handlers::lookup_outcome;
use crate::handlers::proof_error;
use crate::handlers::session_outcome;
use crate::handshake::SessionV;
use crate::handshake::SESSION_TTL;
use crate::messages::ChallengeV;
use crate::messages::ProofV;
use crate::types::spec_status;
use crate::types::AgentStatus;
use crate::types::EntryV;

verus! {

/// Registering always yields an entry that an immediate — or any
/// in-window — lookup finds online, with the exact endpoint and with
/// `expires_at = registered_at + ttl`. `register` and `register_signed`
/// ensure the registry becomes exactly the insertion below.
pub proof fn lemma_register_then_lookup(
    registry: Map<Seq<char>, EntryV>,
    did: Seq<char>,
    endpoint: Seq<char>,
    ttl: u64,
    now: int,
    later: int,
)
    requires
        now <= later <= now + ttl,
    ensures
        ({
            let entry = EntryV { did, endpoint, registered_at: now, expires_at: now + ttl };
            let updated = registry.insert(did, entry);
            &&& lookup_outcome(updated, did, later) == Result::<EntryV, ReachError>::Ok(entry)
            &&& entry.expires_at == entry.registered_at + ttl
            &&& spec_status(entry, later) == AgentStatus::Online
        }),
{
}

/// Once an entry's window has passed, every lookup reports it expired —
/// no deregistration is needed; staleness is judged against the clock
/// on every read.
pub proof fn lemma_lookup_after_expiry(
    registry: Map<Seq<char>, EntryV>,
    did: Seq<char>,
    endpoint: Seq<char>,
    ttl: u64,
    now: int,
    later: int,
)
    requires
        later > now + ttl,
    ensures
        lookup_outcome(
            registry.insert(did, EntryV { did, endpoint, registered_at: now, expires_at: now + ttl }),
            did,
            later,
        ) == Result::<EntryV, ReachError>::Err(ReachError::Expired),
{
}

/// After a deregistration — `deregister` ensures the registry becomes
/// exactly the removal below — a lookup of that DID fails `NotFound`,
/// at every time. (That deregistering an absent DID reports `ok =
/// false` without error is `deregister`'s own contract.)
pub proof fn lemma_deregister_then_lookup(
    registry: Map<Seq<char>, EntryV>,
    did: Seq<char>,
    now: int,
)
    ensures
        lookup_outcome(registry.remove(did), did, now) == Result::<EntryV, ReachError>::Err(
            ReachError::NotFound,
        ),
{
}

/// A challenge is consumed exactly once: `submit_proof` always leaves
/// the pending store without the referenced hash — whether it succeeded
/// or the verification failed — so submitting a proof for the same hash
/// again is owed `InvalidChallenge`. Replays succeed at most once.
pub proof fn lemma_replay_rejected(pending: Map<Seq<char>, ChallengeV>, p: ProofV)
    ensures
        proof_error(pending.remove(p.challenge_hash), p) == Option::Some(
            ReachError::InvalidChallenge,
        ),
{
}

/// A proof that names an outstanding challenge but whose signature does
/// not verify for the claimed DID — a bad signature, a key mismatch, or
/// a responder DID that does not parse — is owed `InvalidSignature`; by
/// `submit_proof`'s contract the session store is then unchanged, so no
/// session is created for the tampered proof.
pub proof fn lemma_tampered_proof_rejected(pending: Map<Seq<char>, ChallengeV>, p: ProofV)
    requires
        pending.contains_key(p.challenge_hash),
        !proof_sig_ok(p, pending[p.challenge_hash]),
    ensures
        proof_error(pending, p) == Option::Some(ReachError::InvalidSignature),
{
}

/// A credential whose session was created more than `SESSION_TTL`
/// seconds before `now` is owed `SessionExpired` — even though the
/// session still sits in the store: resolving a session never removes
/// it, it merely fails every later use the same way.
pub proof fn lemma_session_expired(
    sessions: Map<Seq<char>, SessionV>,
    auth: Option<Seq<char>>,
    now: int,
)
    requires
        bearer_token(auth) is Some,
        sessions.contains_key(bearer_token(auth)->Some_0),
        now - sessions[bearer_token(auth)->Some_0].created_at > SESSION_TTL,
    ensures
        session_outcome(sessions, auth, now) == Result::<SessionV, ReachError>::Err(
            ReachError::SessionExpired,
        ),
        sessions.contains_key(bearer_token(auth)->Some_0),
{
}

/// The complement: a known credential within its window resolves to its
/// session, whose DID is then the one every session-gated operation
/// acts on.
pub proof fn lemma_session_fresh(
    sessions: Map<Seq<char>, SessionV>,
    auth: Option<Seq<char>>,
    now: int,
)
    requires
        bearer_token(auth) is Some,
        sessions.contains_key(bearer_token(auth)->Some_0),
        now - sessions[bearer_token(auth)->Some_0].created_at <= SESSION_TTL,
    ensures
        session_outcome(sessions, auth, now) == Result::<SessionV, ReachError>::Ok(
            sessions[bearer_token(auth)->Some_0],
        ),
{
}

} // verus!
