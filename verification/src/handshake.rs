use vstd::prelude::*;

use crate::messages::Challenge;
use crate::messages::ChallengeV;
use vstd::hash_map::StringHashMap;

verus! {

/// The mathematical value of an [`AuthenticatedSession`].
pub ghost struct SessionV {
    pub did: Seq<char>,
    pub created_at: int,
}

/// A short-lived bearer credential issued after a successful handshake,
/// bound to one DID. Valid while `now - created_at <= SESSION_TTL`;
/// never renewed, never swept — validity is checked at use time.
pub struct AuthenticatedSession {
    /// The DID the handshake authenticated.
    pub did: String,
    /// Issuance time, in seconds since the epoch.
    pub created_at: i64,
}

impl View for AuthenticatedSession {
    type V = SessionV;

    open spec fn view(&self) -> SessionV {
        SessionV { did: self.did@, created_at: self.created_at as int }
    }
}

impl Clone for AuthenticatedSession {
    fn clone(&self) -> (r: Self)
        ensures
            r == *self,
    {
        AuthenticatedSession { did: self.did.clone(), created_at: self.created_at }
    }
}

/// How long a session stays usable after issuance, in seconds.
pub const SESSION_TTL: i64 = 300;

/// Outstanding single-use challenges, keyed by the deterministic hash
/// of their canonical serialization. A challenge never expires by time:
/// it expires by consumption, exactly once, when a proof references it.
pub struct ChallengeStore {
    m: StringHashMap<Challenge>,
}

impl View for ChallengeStore {
    type V = Map<Seq<char>, ChallengeV>;

    closed spec fn view(&self) -> Map<Seq<char>, ChallengeV> {
        self.m@.map_values(|c: Challenge| c@)
    }
}

impl ChallengeStore {
    pub fn new() -> (r: Self)
        ensures
            r@ == Map::<Seq<char>, ChallengeV>::empty(),
    {
        let r = ChallengeStore { m: StringHashMap::new() };
        proof {
            assert(r@ =~= Map::<Seq<char>, ChallengeV>::empty());
        }
        r
    }

    /// File a freshly issued challenge under its hash.
    pub fn insert(&mut self, hash: String, c: Challenge)
        ensures
            final(self)@ == old(self)@.insert(hash@, c@),
    {
        self.m.insert(hash, c);
        proof {
            assert(self@ =~= old(self)@.insert(hash@, c@));
        }
    }

    /// Atomically remove and return the challenge stored under `hash`,
    /// if any: the single-use consumption step.
    pub fn take(&mut self, hash: &str) -> (r: Option<Challenge>)
        ensures
            match r {
                Some(c) => old(self)@.contains_key(hash@) && c@ == old(self)@[hash@],
                None => !old(self)@.contains_key(hash@),
            },
            final(self)@ == old(self)@.remove(hash@),
    {
        let r = match self.m.get(hash) {
            Some(c) => Some(c.clone()),
            None => None,
        };
        self.m.remove(hash);
        proof {
            assert(self@ =~= old(self)@.remove(hash@));
        }
        r
    }
}

/// Sessions issued by successful handshakes, keyed by session id.
pub struct SessionStore {
    m: StringHashMap<AuthenticatedSession>,
}

impl View for SessionStore {
    type V = Map<Seq<char>, SessionV>;

    closed spec fn view(&self) -> Map<Seq<char>, SessionV> {
        self.m@.map_values(|s: AuthenticatedSession| s@)
    }
}

impl SessionStore {
    pub fn new() -> (r: Self)
        ensures
            r@ == Map::<Seq<char>, SessionV>::empty(),
    {
        let r = SessionStore { m: StringHashMap::new() };
        proof {
            assert(r@ =~= Map::<Seq<char>, SessionV>::empty());
        }
        r
    }

    pub fn insert(&mut self, id: String, s: AuthenticatedSession)
        ensures
            final(self)@ == old(self)@.insert(id@, s@),
    {
        self.m.insert(id, s);
        proof {
            assert(self@ =~= old(self)@.insert(id@, s@));
        }
    }

    /// Resolve a bearer credential; the session stays in the store.
    pub fn get(&self, id: &str) -> (r: Option<AuthenticatedSession>)
        ensures
            match r {
                Some(s) => self@.contains_key(id@) && s@ == self@[id@],
                None => !self@.contains_key(id@),
            },
    {
        match self.m.get(id) {
            Some(s) => Some(s.clone()),
            None => None,
        }
    }
}

/// Shared state of the handshake engine: outstanding challenges and
/// issued sessions. All protocol state lives here; the engine itself is
/// stateless.
pub struct HandshakeState {
    /// Pending challenges (challenge hash -> challenge).
    pub pending_challenges: ChallengeStore,
    /// Authenticated sessions (session id -> session).
    pub sessions: SessionStore,
}

impl HandshakeState {
    /// Every issued session was created at a non-negative time (so
    /// expiry arithmetic against a non-negative clock cannot overflow)
    /// and is bound to a DID that parses: a session only ever comes out
    /// of a proof whose signature verified against that DID's key.
    pub open spec fn wf(&self) -> bool {
        forall|k: Seq<char>| #[trigger] self.sessions@.contains_key(k)
            ==> 0 <= self.sessions@[k].created_at && crate::crypto::did_ok(self.sessions@[k].did)
    }

    pub fn new() -> (r: Self)
        ensures
            r.pending_challenges@ == Map::<Seq<char>, ChallengeV>::empty(),
            r.sessions@ == Map::<Seq<char>, SessionV>::empty(),
            r.wf(),
    {
        HandshakeState { pending_challenges: ChallengeStore::new(), sessions: SessionStore::new() }
    }
}

} // verus!
