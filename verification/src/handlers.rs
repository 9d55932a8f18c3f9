use vstd::prelude::*;

use crate::crypto::challenge_digest;
use crate::crypto::did_canon;
use crate::crypto::did_is_valid;
use crate::crypto::did_ok;
use crate::crypto::fresh_session_id;
use crate::crypto::hash_challenge_str;
use crate::crypto::make_challenge;
use crate::crypto::proof_sig_ok;
use crate::crypto::sig_ok;
use crate::crypto::url_decode;
use crate::crypto::url_decoded;
use crate::crypto::verify_proof_sig;
use crate::crypto::verify_signature;
use crate::decimal::dec_digits;
use crate::decimal::u64_to_string;
use crate::error::ReachError;
use crate::handshake::AuthenticatedSession;
use crate::messages::ChallengeV;
use crate::handshake::HandshakeState;
use crate::handshake::SessionV;
use crate::handshake::SESSION_TTL;
use crate::messages::Challenge;
use crate::messages::Hello;
use crate::messages::Proof;
use crate::messages::ProofAccepted;
use crate::messages::ProofV;
use crate::registry::Registry;
use crate::types::AgentStatus;
use crate::types::DeregisterRequest;
use crate::types::DeregisterResponse;
use crate::types::EntryV;
use crate::types::LookupResponse;
use crate::types::RegisterRequest;
use crate::types::RegisterResponse;
use crate::types::RegistryEntry;

verus! {

/// The whole service's state: the registry of endpoint claims plus the
/// handshake engine's challenge and session stores. Each store is
/// independent; no operation mutates two of them together.
pub struct AppState {
    pub registry: Registry,
    pub handshake: HandshakeState,
}

impl AppState {
    pub open spec fn wf(&self) -> bool {
        self.registry.wf() && self.handshake.wf()
    }

    pub fn new() -> (r: Self)
        ensures
            r.registry@ == Map::<Seq<char>, EntryV>::empty(),
            r.handshake.pending_challenges@ == Map::<Seq<char>, ChallengeV>::empty(),
            r.handshake.sessions@ == Map::<Seq<char>, SessionV>::empty(),
            r.wf(),
    {
        AppState { registry: Registry::new(), handshake: HandshakeState::new() }
    }
}

/// The view of an optional header value.
pub open spec fn auth_view(auth: Option<&str>) -> Option<Seq<char>> {
    match auth {
        Option::Some(a) => Option::Some(a@),
        Option::None => Option::None,
    }
}

/// The bearer credential carried by an `Authorization` header value:
/// whatever follows the literal prefix `Bearer `, or nothing where the
/// header is absent or shaped otherwise.
pub open spec fn bearer_token(auth: Option<Seq<char>>) -> Option<Seq<char>> {
    match auth {
        Option::None => Option::<Seq<char>>::None,
        Option::Some(h) => if h.len() >= 7 && h.subrange(0, 7) == "Bearer "@ {
            Option::Some(h.skip(7))
        } else {
            Option::<Seq<char>>::None
        },
    }
}

/// What resolving a bearer credential against the session store at time
/// `now` yields: the session, or the exact error owed. Absence of a
/// usable credential and an unknown credential are both `Unauthorized`;
/// a known credential past its window is `SessionExpired` (the session
/// itself stays in the store).
pub open spec fn session_outcome(
    sessions: Map<Seq<char>, SessionV>,
    auth: Option<Seq<char>>,
    now: int,
) -> Result<SessionV, ReachError> {
    match bearer_token(auth) {
        Option::None => Result::Err(ReachError::Unauthorized),
        Option::Some(t) => if !sessions.contains_key(t) {
            Result::Err(ReachError::Unauthorized)
        } else if now - sessions[t].created_at > SESSION_TTL {
            Result::Err(ReachError::SessionExpired)
        } else {
            Result::Ok(sessions[t])
        },
    }
}

/// What a lookup against the registry at time `now` yields: the entry,
/// `NotFound` where no record exists, `Expired` where one exists whose
/// window has passed.
pub open spec fn lookup_outcome(
    registry: Map<Seq<char>, EntryV>,
    did: Seq<char>,
    now: int,
) -> Result<EntryV, ReachError> {
    if !registry.contains_key(did) {
        Result::Err(ReachError::NotFound)
    } else if now > registry[did].expires_at {
        Result::Err(ReachError::Expired)
    } else {
        Result::Ok(registry[did])
    }
}

/// The error a proof is owed against the given pending challenges, or
/// none where it must mint a session. A proof whose hash matches no
/// outstanding challenge — never issued, or already consumed — fails
/// `InvalidChallenge`; this is what rejects replays. Every verification
/// failure — a bad signature, a DID/key mismatch, or a responder DID
/// that does not parse at all — is one `InvalidSignature`.
pub open spec fn proof_error(pending: Map<Seq<char>, ChallengeV>, p: ProofV) -> Option<
    ReachError,
> {
    if !pending.contains_key(p.challenge_hash) {
        Option::Some(ReachError::InvalidChallenge)
    } else if !proof_sig_ok(p, pending[p.challenge_hash]) {
        Option::Some(ReachError::InvalidSignature)
    } else {
        Option::None
    }
}

/// The fixed message the signed-body register variant signs over:
/// `did:endpoint:ttl` with the ttl in decimal.
pub open spec fn register_message(did: Seq<char>, endpoint: Seq<char>, ttl: u64) -> Seq<char> {
    did + seq![':'] + endpoint + seq![':'] + dec_digits(ttl as nat)
}

fn build_register_message(did: &str, endpoint: &str, ttl: u64) -> (m: String)
    ensures
        m@ == register_message(did@, endpoint@, ttl),
{
    let mut m = did.to_owned();
    m.append(":");
    m.append(endpoint);
    m.append(":");
    let t = u64_to_string(ttl);
    m.append(t.as_str());
    proof {
        reveal_strlit(":");
        assert(":"@ =~= seq![':']);
        assert(m@ =~= register_message(did@, endpoint@, ttl));
    }
    m
}

fn strip_bearer<'a>(auth: &'a str) -> (r: Option<&'a str>)
    ensures
        match r {
            Option::Some(t) => bearer_token(Option::Some(auth@)) == Option::Some(t@),
            Option::None => bearer_token(Option::Some(auth@)) is None,
        },
{
    let n = auth.unicode_len();
    if n < 7 {
        return None;
    }
    let prefix = auth.substring_char(0, 7).to_owned();
    let expected = String::from_str("Bearer ");
    if !prefix.eq(&expected) {
        return None;
    }
    let t = auth.substring_char(7, n);
    proof {
        assert(t@ =~= auth@.skip(7));
    }
    Some(t)
}

/// Resolve the caller-supplied authorization material to the session it
/// names. The session store is only read; in particular an expired
/// session is reported, not removed.
pub fn get_session(hs: &HandshakeState, auth: Option<&str>, now: i64) -> (r: Result<
    AuthenticatedSession,
    ReachError,
>)
    requires
        hs.wf(),
        0 <= now,
    ensures
        match r {
            Result::Ok(s) => session_outcome(hs.sessions@, auth_view(auth), now as int)
                == Result::<SessionV, ReachError>::Ok(s@),
            Result::Err(e) => session_outcome(hs.sessions@, auth_view(auth), now as int)
                == Result::<SessionV, ReachError>::Err(e),
        },
{
    let header = match auth {
        Some(h) => h,
        None => return Err(ReachError::Unauthorized),
    };
    let token = match strip_bearer(header) {
        Some(t) => t,
        None => return Err(ReachError::Unauthorized),
    };
    let session = match hs.sessions.get(token) {
        Some(s) => s,
        None => return Err(ReachError::Unauthorized),
    };
    if now - session.created_at > SESSION_TTL {
        return Err(ReachError::SessionExpired);
    }
    Ok(session)
}

/// First handshake step: validate the claimed DID, issue a fresh
/// challenge, file it under its deterministic hash, and return it.
/// Every hello yields an independent challenge, even for the same DID.
pub fn hello(state: &mut AppState, req: &Hello) -> (r: Result<Challenge, ReachError>)
    requires
        old(state).wf(),
    ensures
        final(state).wf(),
        final(state).registry@ == old(state).registry@,
        final(state).handshake.sessions@ == old(state).handshake.sessions@,
        match r {
            Result::Ok(c) => {
                &&& did_ok(req.did@)
                &&& challenge_digest(c@) is Some
                &&& final(state).handshake.pending_challenges@ == old(
                    state,
                ).handshake.pending_challenges@.insert(challenge_digest(c@)->Some_0, c@)
                &&& c.type_@ == "Challenge"@
                &&& c.version@ == "1.0"@
                &&& c.audience@ == req.did@
                &&& c.issuer@ == did_canon(req.did@)
                &&& req.version@ == "1.0"@
            },
            Result::Err(e) => {
                &&& final(state).handshake.pending_challenges@ == old(
                    state,
                ).handshake.pending_challenges@
                &&& (e is InvalidDid <==> !did_ok(req.did@))
                &&& (e is InvalidDid || e is HandshakeError || e is Internal)
            },
        },
{
    if !did_is_valid(req.did.as_str()) {
        return Err(ReachError::InvalidDid);
    }
    let c = match make_challenge(req) {
        Ok(c) => c,
        Err(detail) => return Err(ReachError::HandshakeError(detail)),
    };
    let hash = match hash_challenge_str(&c) {
        Ok(h) => h,
        Err(detail) => return Err(ReachError::Internal(detail)),
    };
    state.handshake.pending_challenges.insert(hash, c.clone());
    Ok(c)
}

/// Second handshake step: consume the referenced challenge (exactly
/// once — a second proof for the same hash fails `InvalidChallenge`),
/// verify the signature against the responder DID's key, and on success
/// mint a session bound to that DID at time `now`. Any verification
/// failure — including a responder DID that does not parse — is
/// `InvalidSignature`, and the consumed challenge is not restored: a
/// failed proof costs the caller a fresh handshake.
pub fn submit_proof(state: &mut AppState, req: &Proof, now: i64) -> (r: Result<
    ProofAccepted,
    ReachError,
>)
    requires
        old(state).wf(),
        0 <= now,
    ensures
        final(state).wf(),
        final(state).registry@ == old(state).registry@,
        final(state).handshake.pending_challenges@ == old(
            state,
        ).handshake.pending_challenges@.remove(req.challenge_hash@),
        match r {
            Result::Ok(acc) => {
                &&& proof_error(old(state).handshake.pending_challenges@, req@) is None
                &&& did_ok(req.responder_did@)
                &&& final(state).handshake.sessions@ == old(state).handshake.sessions@.insert(
                    acc.session_id@,
                    SessionV { did: req.responder_did@, created_at: now as int },
                )
                &&& acc.counter_proof is None
            },
            Result::Err(e) => {
                &&& proof_error(old(state).handshake.pending_challenges@, req@)
                    == Option::Some(e)
                &&& final(state).handshake.sessions@ == old(state).handshake.sessions@
            },
        },
{
    let challenge = match state.handshake.pending_challenges.take(req.challenge_hash.as_str()) {
        Some(c) => c,
        None => return Err(ReachError::InvalidChallenge),
    };
    if !verify_proof_sig(req, &challenge) {
        return Err(ReachError::InvalidSignature);
    }
    let session_id = fresh_session_id();
    let session = AuthenticatedSession { did: req.responder_did.clone(), created_at: now };
    state.handshake.sessions.insert(session_id.clone(), session);
    Ok(ProofAccepted { session_id, counter_proof: None })
}

/// What the session-gated register path must leave behind: an empty
/// endpoint is refused outright; otherwise the outcome follows the
/// session resolution, and success upserts the entry for the session's
/// DID — whose `did:key` form parses — with window `[now, now + ttl]`.
pub open spec fn register_session_post(
    pre: AppState,
    post: AppState,
    auth: Option<&str>,
    req: RegisterRequest,
    now: int,
    r: Result<RegisterResponse, ReachError>,
) -> bool {
    let o = session_outcome(pre.handshake.sessions@, auth_view(auth), now);
    if req.endpoint@.len() == 0 {
        &&& r == Result::<RegisterResponse, ReachError>::Err(ReachError::InvalidEndpoint)
        &&& post.registry@ == pre.registry@
    } else {
        match r {
            Result::Ok(resp) => {
                &&& o is Ok
                &&& did_ok(o->Ok_0.did)
                &&& resp.ok == true
                &&& resp.did@ == o->Ok_0.did
                &&& resp.expires_at == now + req.ttl
                &&& post.registry@ == pre.registry@.insert(
                    o->Ok_0.did,
                    EntryV {
                        did: o->Ok_0.did,
                        endpoint: req.endpoint@,
                        registered_at: now,
                        expires_at: now + req.ttl,
                    },
                )
            },
            Result::Err(e) => {
                &&& o == Result::<SessionV, ReachError>::Err(e)
                &&& post.registry@ == pre.registry@
            },
        }
    }
}

/// Session-gated registration: the acting DID comes from the session,
/// never from the body; the body supplies endpoint and ttl. The
/// endpoint must be non-empty; the entry's window is `[now, now + ttl]`.
pub fn register(state: &mut AppState, auth: Option<&str>, req: &RegisterRequest, now: i64) -> (r:
    Result<RegisterResponse, ReachError>)
    requires
        old(state).wf(),
        0 <= now,
        now + req.ttl <= i64::MAX,
    ensures
        final(state).wf(),
        final(state).handshake.pending_challenges@ == old(state).handshake.pending_challenges@,
        final(state).handshake.sessions@ == old(state).handshake.sessions@,
        register_session_post(*old(state), *final(state), auth, *req, now as int, r),
{
    if req.endpoint.as_str().is_empty() {
        return Err(ReachError::InvalidEndpoint);
    }
    let session = match get_session(&state.handshake, auth, now) {
        Ok(s) => s,
        Err(e) => return Err(e),
    };
    let expires_at = now + (req.ttl as i64);
    let entry = RegistryEntry {
        did: session.did.clone(),
        endpoint: req.endpoint.clone(),
        registered_at: now,
        expires_at,
    };
    state.registry.register(entry);
    Ok(RegisterResponse { ok: true, did: session.did, expires_at })
}

/// Lookup with the DID still URL-encoded, as it arrives in a path
/// segment: decode, then resolve as [`lookup_decoded`].
pub fn lookup(state: &AppState, did_encoded: &str, now: i64) -> (r: Result<
    LookupResponse,
    ReachError,
>)
    ensures
        match url_decoded(did_encoded@) {
            Option::None => r == Result::<LookupResponse, ReachError>::Err(ReachError::InvalidDid),
            Option::Some(did) => lookup_matches(state.registry@, did, now as int, r),
        },
{
    let did = match url_decode(did_encoded) {
        Ok(d) => d,
        Err(_) => return Err(ReachError::InvalidDid),
    };
    lookup_decoded(state, did.as_str(), now)
}

/// What a lookup result must look like: exactly the entry and status
/// that [`lookup_outcome`] owes, with the stored fields verbatim.
pub open spec fn lookup_matches(
    registry: Map<Seq<char>, EntryV>,
    did: Seq<char>,
    now: int,
    r: Result<LookupResponse, ReachError>,
) -> bool {
    match r {
        Result::Ok(resp) => {
            let o = lookup_outcome(registry, did, now);
            &&& o is Ok
            &&& resp.did@ == o->Ok_0.did
            &&& resp.endpoint@ == o->Ok_0.endpoint
            &&& resp.status == AgentStatus::Online
            &&& resp.registered_at == o->Ok_0.registered_at
            &&& resp.expires_at == o->Ok_0.expires_at
        },
        Result::Err(e) => lookup_outcome(registry, did, now) == Result::<EntryV, ReachError>::Err(
            e,
        ),
    }
}

/// Resolve a DID to its registered endpoint. Needs no credential. An
/// entry whose window has passed is reported `Expired`, never returned
/// as live data, though it physically remains stored.
pub fn lookup_decoded(state: &AppState, did: &str, now: i64) -> (r: Result<
    LookupResponse,
    ReachError,
>)
    ensures
        lookup_matches(state.registry@, did@, now as int, r),
{
    let entry = match state.registry.lookup(did) {
        Some(e) => e,
        None => return Err(ReachError::NotFound),
    };
    let status = entry.status(now);
    if status == AgentStatus::Expired {
        return Err(ReachError::Expired);
    }
    Ok(
        LookupResponse {
            did: entry.did,
            endpoint: entry.endpoint,
            status,
            registered_at: entry.registered_at,
            expires_at: entry.expires_at,
        },
    )
}

/// What the session-gated deregister path must leave behind: the
/// outcome follows the session resolution; success removes the entry
/// for the session's DID and reports whether one existed.
pub open spec fn deregister_session_post(
    pre: AppState,
    post: AppState,
    auth: Option<&str>,
    now: int,
    r: Result<DeregisterResponse, ReachError>,
) -> bool {
    let o = session_outcome(pre.handshake.sessions@, auth_view(auth), now);
    match r {
        Result::Ok(resp) => {
            &&& o is Ok
            &&& resp.ok == pre.registry@.contains_key(o->Ok_0.did)
            &&& post.registry@ == pre.registry@.remove(o->Ok_0.did)
        },
        Result::Err(e) => {
            &&& o == Result::<SessionV, ReachError>::Err(e)
            &&& post.registry@ == pre.registry@
        },
    }
}

/// Session-gated deregistration: removes the entry for the session's
/// DID, reporting whether one existed. Idempotent on the registry; the
/// session itself is left in place.
pub fn deregister(state: &mut AppState, auth: Option<&str>, now: i64) -> (r: Result<
    DeregisterResponse,
    ReachError,
>)
    requires
        old(state).wf(),
        0 <= now,
    ensures
        final(state).wf(),
        final(state).handshake.pending_challenges@ == old(state).handshake.pending_challenges@,
        final(state).handshake.sessions@ == old(state).handshake.sessions@,
        deregister_session_post(*old(state), *final(state), auth, now as int, r),
{
    let session = match get_session(&state.handshake, auth, now) {
        Ok(s) => s,
        Err(e) => return Err(e),
    };
    let existed = state.registry.deregister(session.did.as_str());
    Ok(DeregisterResponse { ok: existed })
}

/// What the signed-body register path must leave behind: an empty
/// endpoint is refused outright; then an unparseable DID, then a
/// signature that does not cover `did:endpoint:ttl`; success upserts
/// the entry with window `[now, now + ttl]`.
pub open spec fn register_signed_post(
    pre: AppState,
    post: AppState,
    req: RegisterRequest,
    now: int,
    r: Result<RegisterResponse, ReachError>,
) -> bool {
    let m = register_message(req.did@, req.endpoint@, req.ttl);
    if req.endpoint@.len() == 0 {
        &&& r == Result::<RegisterResponse, ReachError>::Err(ReachError::InvalidEndpoint)
        &&& post.registry@ == pre.registry@
    } else {
        match r {
            Result::Ok(resp) => {
                &&& did_ok(req.did@)
                &&& sig_ok(req.did@, m, req.signature@)
                &&& resp.ok == true
                &&& resp.did@ == req.did@
                &&& resp.expires_at == now + req.ttl
                &&& post.registry@ == pre.registry@.insert(
                    req.did@,
                    EntryV {
                        did: req.did@,
                        endpoint: req.endpoint@,
                        registered_at: now,
                        expires_at: now + req.ttl,
                    },
                )
            },
            Result::Err(e) => {
                &&& post.registry@ == pre.registry@
                &&& match e {
                    ReachError::InvalidDid => !did_ok(req.did@),
                    ReachError::InvalidSignature => did_ok(req.did@) && !sig_ok(
                        req.did@,
                        m,
                        req.signature@,
                    ),
                    _ => false,
                }
            },
        }
    }
}

/// Signed-body registration, the sessionless variant: the caller signs
/// the fixed message `did:endpoint:ttl` with the DID's own key. The
/// endpoint and DID are validated before any cryptographic work; on
/// failure the registry is untouched.
pub fn register_signed(state: &mut AppState, req: &RegisterRequest, now: i64) -> (r: Result<
    RegisterResponse,
    ReachError,
>)
    requires
        old(state).wf(),
        0 <= now,
        now + req.ttl <= i64::MAX,
    ensures
        final(state).wf(),
        final(state).handshake.pending_challenges@ == old(state).handshake.pending_challenges@,
        final(state).handshake.sessions@ == old(state).handshake.sessions@,
        register_signed_post(*old(state), *final(state), *req, now as int, r),
{
    if req.endpoint.as_str().is_empty() {
        return Err(ReachError::InvalidEndpoint);
    }
    if !did_is_valid(req.did.as_str()) {
        return Err(ReachError::InvalidDid);
    }
    let msg = build_register_message(req.did.as_str(), req.endpoint.as_str(), req.ttl);
    if !verify_signature(req.did.as_str(), msg.as_str(), req.signature.as_str()) {
        return Err(ReachError::InvalidSignature);
    }
    let expires_at = now + (req.ttl as i64);
    let entry = RegistryEntry {
        did: req.did.clone(),
        endpoint: req.endpoint.clone(),
        registered_at: now,
        expires_at,
    };
    state.registry.register(entry);
    Ok(RegisterResponse { ok: true, did: req.did.clone(), expires_at })
}

/// What the signed-body deregister path must leave behind: an
/// unparseable DID, then a signature that does not cover the DID
/// string; success removes the entry and reports whether one existed.
pub open spec fn deregister_signed_post(
    pre: AppState,
    post: AppState,
    req: DeregisterRequest,
    r: Result<DeregisterResponse, ReachError>,
) -> bool {
    match r {
        Result::Ok(resp) => {
            &&& did_ok(req.did@)
            &&& sig_ok(req.did@, req.did@, req.signature@)
            &&& resp.ok == pre.registry@.contains_key(req.did@)
            &&& post.registry@ == pre.registry@.remove(req.did@)
        },
        Result::Err(e) => {
            &&& post.registry@ == pre.registry@
            &&& match e {
                ReachError::InvalidDid => !did_ok(req.did@),
                ReachError::InvalidSignature => did_ok(req.did@) && !sig_ok(
                    req.did@,
                    req.did@,
                    req.signature@,
                ),
                _ => false,
            }
        },
    }
}

/// Signed-body deregistration: the caller signs the DID string alone.
pub fn deregister_signed(state: &mut AppState, req: &DeregisterRequest) -> (r: Result<
    DeregisterResponse,
    ReachError,
>)
    requires
        old(state).wf(),
    ensures
        final(state).wf(),
        final(state).handshake.pending_challenges@ == old(state).handshake.pending_challenges@,
        final(state).handshake.sessions@ == old(state).handshake.sessions@,
        deregister_signed_post(*old(state), *final(state), *req, r),
{
    if !did_is_valid(req.did.as_str()) {
        return Err(ReachError::InvalidDid);
    }
    if !verify_signature(req.did.as_str(), req.did.as_str(), req.signature.as_str()) {
        return Err(ReachError::InvalidSignature);
    }
    let existed = state.registry.deregister(req.did.as_str());
    Ok(DeregisterResponse { ok: existed })
}

/// Which authentication path a request takes: any `Authorization`
/// header selects the bearer-session path; with none, a non-empty
/// `signature` in the body selects the signed variant; a bare request
/// goes to the session path, which owes it `Unauthorized`.
pub open spec fn uses_signed_path(auth: Option<&str>, signature: Seq<char>) -> bool {
    auth is None && signature.len() > 0
}

/// Registration through whichever authentication the request carries.
pub fn register_any(state: &mut AppState, auth: Option<&str>, req: &RegisterRequest, now: i64) -> (
    r: Result<RegisterResponse, ReachError>)
    requires
        old(state).wf(),
        0 <= now,
        now + req.ttl <= i64::MAX,
    ensures
        final(state).wf(),
        final(state).handshake.pending_challenges@ == old(state).handshake.pending_challenges@,
        final(state).handshake.sessions@ == old(state).handshake.sessions@,
        if uses_signed_path(auth, req.signature@) {
            register_signed_post(*old(state), *final(state), *req, now as int, r)
        } else {
            register_session_post(*old(state), *final(state), auth, *req, now as int, r)
        },
{
    match auth {
        Some(_) => register(state, auth, req, now),
        None => {
            if !req.signature.as_str().is_empty() {
                register_signed(state, req, now)
            } else {
                register(state, None, req, now)
            }
        },
    }
}

/// Deregistration through whichever authentication the request carries.
pub fn deregister_any(
    state: &mut AppState,
    auth: Option<&str>,
    req: &DeregisterRequest,
    now: i64,
) -> (r: Result<DeregisterResponse, ReachError>)
    requires
        old(state).wf(),
        0 <= now,
    ensures
        final(state).wf(),
        final(state).handshake.pending_challenges@ == old(state).handshake.pending_challenges@,
        final(state).handshake.sessions@ == old(state).handshake.sessions@,
        if uses_signed_path(auth, req.signature@) {
            deregister_signed_post(*old(state), *final(state), *req, r)
        } else {
            deregister_session_post(*old(state), *final(state), auth, now as int, r)
        },
{
    match auth {
        Some(_) => deregister(state, auth, now),
        None => {
            if !req.signature.as_str().is_empty() {
                deregister_signed(state, req)
            } else {
                deregister(state, None, now)
            }
        },
    }
}

} // verus!
