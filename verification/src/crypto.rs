use vstd::prelude::*;

use agent_id_handshake::Challenge as HandshakeChallenge;

use crate::messages::Challenge;
use crate::messages::ChallengeV;
use crate::messages::Hello;
use crate::messages::Proof;
use crate::messages::ProofV;

verus! {

/// Whether a string parses as a `did:key` identifier encoding a valid
/// Ed25519 public key. Decided by `agent_id`'s DID parser; a pure
/// function of the string.
pub uninterp spec fn did_ok(s: Seq<char>) -> bool;

/// The canonical rendering of the DID parsed from `s` (meaningful when
/// `did_ok(s)` holds): `agent_id`'s display form of the parsed DID.
pub uninterp spec fn did_canon(s: Seq<char>) -> Seq<char>;

/// The deterministic hash under which a challenge is stored and by
/// which a proof references it: `sha256:` followed by the hex digest of
/// the challenge's canonical JSON serialization, or nothing where that
/// serialization fails. A pure function of the challenge's fields.
pub uninterp spec fn challenge_digest(c: ChallengeV) -> Option<Seq<char>>;

/// Whether a proof's signature verifies against the challenge it
/// answers: the proof's hash must equal the challenge's digest and the
/// signature must check out against the key encoded in the proof's
/// responder DID. A pure function of the two messages.
pub uninterp spec fn proof_sig_ok(p: ProofV, c: ChallengeV) -> bool;

/// Whether `sig` (base64) is a valid signature by the key encoded in
/// DID `did` over the byte serialization of message `msg`. A pure
/// function of its three arguments.
pub uninterp spec fn sig_ok(did: Seq<char>, msg: Seq<char>, sig: Seq<char>) -> bool;

/// What percent-decoding yields on `s`, or nothing where the decoded
/// bytes are not UTF-8. A pure function of the string.
pub uninterp spec fn url_decoded(s: Seq<char>) -> Option<Seq<char>>;

/// Relies on `agent_id::Did`'s `FromStr`: parsing succeeds exactly on
/// well-formed `did:key` strings that encode a valid Ed25519 key, and
/// depends on the string alone.
#[verifier::external_body]
pub(crate) fn did_is_valid(s: &str) -> (r: bool)
    ensures
        r == did_ok(s@),
{
    s.parse::<agent_id::Did>().is_ok()
}

/// Relies on `agent_id_handshake::protocol::Verifier::handle_hello`
/// (with `agent_id::Did`'s `FromStr` and `Display`): on success it
/// returns `Challenge::new(my_did.to_string(), hello.did.clone())`,
/// whose tag is `"Challenge"`, version `"1.0"`, a fresh random nonce,
/// the current time, `hello.did` verbatim as audience and the parsed
/// DID's canonical form as issuer; it rejects a version other than
/// `"1.0"` and a timestamp too far from the verifier's clock. The nonce
/// and timestamp depend on randomness and the clock, so nothing more is
/// promised of them.
#[verifier::external_body]
pub(crate) fn make_challenge(hello: &Hello) -> (r: Result<Challenge, String>)
    requires
        did_ok(hello.did@),
    ensures
        r is Ok ==> {
            let c = r->Ok_0;
            &&& c.type_@ == "Challenge"@
            &&& c.version@ == "1.0"@
            &&& c.audience@ == hello.did@
            &&& c.issuer@ == did_canon(hello.did@)
            &&& hello.version@ == "1.0"@
        },
{
    let did: agent_id::Did = match hello.did.parse() {
        Ok(d) => d,
        Err(e) => return Err(format!("{}", e)),
    };
    let mut h = agent_id_handshake::messages::Hello::new(hello.did.clone());
    h.version = hello.version.clone();
    h.protocols = hello.protocols.clone();
    h.timestamp = hello.timestamp;
    match agent_id_handshake::protocol::Verifier::new(did).handle_hello(&h) {
        Ok(c) => Ok(from_external(c)),
        Err(e) => Err(format!("{}", e)),
    }
}

/// Declares `agent_id_handshake::Challenge` (the protocol crate's own
/// challenge type) so the conversion helpers below can pass it through;
/// it stays opaque to the verifier.
#[verifier::external_type_specification]
#[verifier::external_body]
pub struct ExChallenge(HandshakeChallenge);

/// Field-for-field conversion into `agent_id_handshake::Challenge`,
/// with no domain, session key or delegation — every challenge this
/// service issues has none.
#[verifier::external_body]
fn to_external(c: &Challenge) -> HandshakeChallenge {
    HandshakeChallenge {
        type_: c.type_.clone(),
        version: c.version.clone(),
        nonce: c.nonce.clone(),
        timestamp: c.timestamp,
        audience: c.audience.clone(),
        issuer: c.issuer.clone(),
        domain: None,
        session_pubkey: None,
        delegation: None,
    }
}

/// Field-for-field conversion from `agent_id_handshake::Challenge`,
/// dropping the optional fields the issuing path never sets.
#[verifier::external_body]
fn from_external(c: HandshakeChallenge) -> Challenge {
    Challenge {
        type_: c.type_,
        version: c.version,
        nonce: c.nonce,
        timestamp: c.timestamp,
        audience: c.audience,
        issuer: c.issuer,
    }
}

/// Relies on `agent_id_handshake::protocol::hash_challenge`: the
/// `sha256:`-prefixed hex digest of the challenge's canonical JSON,
/// a deterministic function of the challenge's fields.
#[verifier::external_body]
pub(crate) fn hash_challenge_str(c: &Challenge) -> (r: Result<String, String>)
    ensures
        match r {
            Ok(h) => challenge_digest(c@) == Some(h@),
            Err(_) => challenge_digest(c@) is None,
        },
{
    agent_id_handshake::protocol::hash_challenge(&to_external(c)).map_err(|e| format!("{}", e))
}

/// Relies on `agent_id_handshake::protocol::Verifier::verify_proof`
/// (called with no counter-challenge, so its result is a deterministic
/// function of the proof and the challenge): it succeeds exactly when
/// the proof's hash equals the challenge's digest, the responder DID
/// parses, and the base64 signature verifies over the hash bytes
/// against the key that DID encodes. In particular a proof can only
/// verify for a responder DID that parses, which the second clause
/// records.
#[verifier::external_body]
pub(crate) fn verify_proof_sig(p: &Proof, c: &Challenge) -> (r: bool)
    ensures
        r == proof_sig_ok(p@, c@),
        r ==> did_ok(p.responder_did@),
{
    let did: agent_id::Did = match p.responder_did.parse() {
        Ok(d) => d,
        Err(_) => return false,
    };
    let mut ep = agent_id_handshake::Proof::new(
        p.challenge_hash.clone(),
        p.responder_did.clone(),
        p.signing_key.clone(),
    );
    ep.type_ = p.type_.clone();
    ep.version = p.version.clone();
    ep.signature = p.signature.clone();
    agent_id_handshake::protocol::Verifier::new(did).verify_proof(&ep, &to_external(c)).is_ok()
}

/// Relies on `agent_id::Did` (`FromStr`, `public_key`), base64
/// decoding, and `agent_id::core::keys::verify` (Ed25519): true exactly
/// when `did` parses, `sig` decodes to a 64-byte signature, and that
/// signature verifies over `msg`'s bytes against the DID's key — a
/// deterministic function of the three strings.
#[verifier::external_body]
pub(crate) fn verify_signature(did: &str, msg: &str, sig_b64: &str) -> (r: bool)
    ensures
        r == sig_ok(did@, msg@, sig_b64@),
{
    let parsed: agent_id::Did = match did.parse() {
        Ok(d) => d,
        Err(_) => return false,
    };
    let bytes = base64::Engine::decode(&base64::engine::general_purpose::STANDARD, sig_b64);
    match (parsed.public_key(), bytes) {
        (Ok(key), Ok(b)) => match b.as_slice().try_into() {
            Ok(sig) => agent_id::core::keys::verify(&key, msg.as_bytes(), &sig).is_ok(),
            Err(_) => false,
        },
        _ => false,
    }
}

/// Relies on `urlencoding::decode`: percent-decoding is a deterministic
/// function of the string, fails only where the decoded bytes are not
/// UTF-8, and returns a string with no `%` unchanged.
#[verifier::external_body]
pub(crate) fn url_decode(s: &str) -> (r: Result<String, ()>)
    ensures
        match r {
            Ok(d) => url_decoded(s@) == Some(d@),
            Err(_) => url_decoded(s@) is None,
        },
        (forall|i: int| 0 <= i < s@.len() ==> s@[i] != '%') ==> (r is Ok && r->Ok_0@ == s@),
{
    match urlencoding::decode(s) {
        Ok(d) => Ok(d.into_owned()),
        Err(_) => Err(()),
    }
}

/// Relies on `uuid::Uuid::new_v4`: a fresh random identifier. Nothing
/// is promised of the value.
#[verifier::external_body]
pub(crate) fn fresh_session_id() -> (r: String) {
    uuid::Uuid::new_v4().to_string()
}

} // verus!
