use vstd::prelude::*;

verus! {

/// First handshake message: a caller claims a DID and asks for a
/// challenge.
pub struct Hello {
    /// Protocol tag, `"Hello"`.
    pub type_: String,
    /// Protocol version; the handshake accepts `"1.0"` only.
    pub version: String,
    /// The DID the caller claims.
    pub did: String,
    /// Protocols the caller speaks.
    pub protocols: Vec<String>,
    /// Caller's clock, in milliseconds since the epoch.
    pub timestamp: i64,
}

/// The mathematical value of a [`Challenge`].
pub ghost struct ChallengeV {
    pub type_: Seq<char>,
    pub version: Seq<char>,
    pub nonce: Seq<char>,
    pub timestamp: int,
    pub audience: Seq<char>,
    pub issuer: Seq<char>,
}

/// Second handshake message: the single-use structure the prover must
/// sign over. Kept by the challenge store until a proof consumes it.
pub struct Challenge {
    /// Protocol tag, `"Challenge"`.
    pub type_: String,
    /// Protocol version.
    pub version: String,
    /// Fresh unpredictable value, unique per issuance.
    pub nonce: String,
    /// Issuance time, in milliseconds since the epoch.
    pub timestamp: i64,
    /// Whom the challenge addresses.
    pub audience: String,
    /// The DID the challenge was issued for, in canonical form.
    pub issuer: String,
}

impl View for Challenge {
    type V = ChallengeV;

    open spec fn view(&self) -> ChallengeV {
        ChallengeV {
            type_: self.type_@,
            version: self.version@,
            nonce: self.nonce@,
            timestamp: self.timestamp as int,
            audience: self.audience@,
            issuer: self.issuer@,
        }
    }
}

impl Clone for Challenge {
    fn clone(&self) -> (r: Self)
        ensures
            r == *self,
    {
        Challenge {
            type_: self.type_.clone(),
            version: self.version.clone(),
            nonce: self.nonce.clone(),
            timestamp: self.timestamp,
            audience: self.audience.clone(),
            issuer: self.issuer.clone(),
        }
    }
}

/// The mathematical value of a [`Proof`].
pub ghost struct ProofV {
    pub type_: Seq<char>,
    pub version: Seq<char>,
    pub challenge_hash: Seq<char>,
    pub responder_did: Seq<char>,
    pub signing_key: Seq<char>,
    pub signature: Seq<char>,
}

/// Third handshake message: references a pending challenge by hash and
/// carries a signature over that hash.
pub struct Proof {
    /// Protocol tag, `"Proof"`.
    pub type_: String,
    /// Protocol version.
    pub version: String,
    /// Deterministic hash of the challenge being answered.
    pub challenge_hash: String,
    /// The DID the prover claims; the signature must verify against
    /// the key this DID encodes.
    pub responder_did: String,
    /// Identifier of the key used to sign.
    pub signing_key: String,
    /// Signature over the challenge hash, base64-encoded.
    pub signature: String,
}

impl View for Proof {
    type V = ProofV;

    open spec fn view(&self) -> ProofV {
        ProofV {
            type_: self.type_@,
            version: self.version@,
            challenge_hash: self.challenge_hash@,
            responder_did: self.responder_did@,
            signing_key: self.signing_key@,
            signature: self.signature@,
        }
    }
}

/// Counter-proof by which a service would prove its own identity back
/// to the caller. This registry never produces one.
pub struct CounterProof {
    pub challenge_hash: String,
    pub responder_did: String,
    pub signing_key: String,
    pub signature: String,
}

/// Final handshake message: the bearer credential minted after a
/// successful proof.
pub struct ProofAccepted {
    /// The session identifier the caller presents as `Bearer` token.
    pub session_id: String,
    /// Always absent: the registry does not authenticate itself back.
    pub counter_proof: Option<CounterProof>,
}

} // verus!
