use agent_id::RootKey;
use agent_reach::error::ReachError;
use agent_reach::handlers::hello;
use agent_reach::handlers::lookup_decoded;
use agent_reach::handlers::register;
use agent_reach::handlers::deregister;
use agent_reach::handlers::submit_proof;
use agent_reach::handlers::AppState;
use agent_reach::messages::Challenge;
use agent_reach::messages::Hello;
use agent_reach::messages::Proof;
use agent_reach::types::AgentStatus;
use agent_reach::types::RegisterRequest;

fn hello_msg(did: &str) -> Hello {
    Hello {
        type_: "Hello".to_string(),
        version: "1.0".to_string(),
        did: did.to_string(),
        protocols: Vec::new(),
        timestamp: chrono::Utc::now().timestamp_millis(),
    }
}

fn to_external(c: &Challenge) -> agent_id_handshake::Challenge {
    agent_id_handshake::Challenge {
        type_: c.type_.clone(),
        version: c.version.clone(),
        nonce: c.nonce.clone(),
        timestamp: c.timestamp,
        audience: c.audience.clone(),
        issuer: c.issuer.clone(),
        domain: None,
        session_pubkey: None,
        delegation: None,
    }
}

/// Sign the challenge with `key`, as a real client would.
fn proof_for(c: &Challenge, key: &RootKey) -> Proof {
    let ext = agent_id_handshake::protocol::sign_proof(&to_external(c), &key.did(), key, None)
        .expect("signing must succeed");
    Proof {
        type_: ext.type_,
        version: ext.version,
        challenge_hash: ext.challenge_hash,
        responder_did: ext.responder_did,
        signing_key: ext.signing_key,
        signature: ext.signature,
    }
}

fn register_req(endpoint: &str, ttl: u64) -> RegisterRequest {
    RegisterRequest {
        did: String::new(),
        endpoint: endpoint.to_string(),
        ttl,
        signature: String::new(),
    }
}

fn bearer(session_id: &str) -> String {
    format!("Bearer {}", session_id)
}

#[test]
fn full_handshake_register_and_lookup() {
    let key = RootKey::generate();
    let did = key.did().to_string();
    let now = chrono::Utc::now().timestamp();
    let mut st = AppState::new();

    // Hello -> Challenge
    let challenge = hello(&mut st, &hello_msg(&did)).expect("hello must yield a challenge");
    assert_eq!(challenge.type_, "Challenge");
    assert_eq!(challenge.version, "1.0");
    assert_eq!(challenge.audience, did);
    assert_eq!(challenge.issuer, did);
    assert!(!challenge.nonce.is_empty());

    // Proof -> session
    let accepted = submit_proof(&mut st, &proof_for(&challenge, &key), now)
        .expect("a correctly signed proof must be accepted");
    assert!(accepted.counter_proof.is_none());
    assert!(!accepted.session_id.is_empty());

    // Bearer-authorized register
    let auth = bearer(&accepted.session_id);
    let resp = register(&mut st, Some(auth.as_str()), &register_req("https://a.example/inbox", 60), now)
        .expect("register with a fresh session must succeed");
    assert!(resp.ok);
    assert_eq!(resp.did, did);
    assert_eq!(resp.expires_at, now + 60);

    // Public lookup
    let found = lookup_decoded(&st, &did, now).expect("the registered DID must resolve");
    assert_eq!(found.endpoint, "https://a.example/inbox");
    assert_eq!(found.status, AgentStatus::Online);

    // Bearer-authorized deregister, then the entry is gone
    let gone = deregister(&mut st, Some(auth.as_str()), now).expect("deregister must succeed");
    assert!(gone.ok);
    assert!(matches!(lookup_decoded(&st, &did, now), Err(ReachError::NotFound)));
    let again = deregister(&mut st, Some(auth.as_str()), now).expect("deregister is idempotent");
    assert!(!again.ok);
}

#[test]
fn replayed_proof_is_rejected() {
    let key = RootKey::generate();
    let did = key.did().to_string();
    let now = chrono::Utc::now().timestamp();
    let mut st = AppState::new();

    let challenge = hello(&mut st, &hello_msg(&did)).unwrap();
    let proof = proof_for(&challenge, &key);
    assert!(submit_proof(&mut st, &proof, now).is_ok());
    // the same proof again: the challenge was consumed
    let second = submit_proof(&mut st, &proof, now);
    assert!(matches!(second, Err(ReachError::InvalidChallenge)));
}

#[test]
fn tampered_proof_is_rejected_and_mints_no_session() {
    let key = RootKey::generate();
    let intruder = RootKey::generate();
    let did = key.did().to_string();
    let now = chrono::Utc::now().timestamp();
    let mut st = AppState::new();

    let challenge = hello(&mut st, &hello_msg(&did)).unwrap();
    // signed by the intruder's key, but claiming the honest DID
    let mut forged = proof_for(&challenge, &intruder);
    forged.responder_did = did.clone();
    let r = submit_proof(&mut st, &forged, now);
    assert!(matches!(r, Err(ReachError::InvalidSignature)));

    // the challenge was consumed and is not restored: a retry with the
    // genuine key now fails too, costing a fresh handshake
    let genuine = proof_for(&challenge, &key);
    assert!(matches!(
        submit_proof(&mut st, &genuine, now),
        Err(ReachError::InvalidChallenge)
    ));
}

#[test]
fn session_expires_after_300_seconds() {
    let key = RootKey::generate();
    let did = key.did().to_string();
    let now = chrono::Utc::now().timestamp();
    let mut st = AppState::new();

    let challenge = hello(&mut st, &hello_msg(&did)).unwrap();
    let accepted = submit_proof(&mut st, &proof_for(&challenge, &key), now).unwrap();
    let auth = bearer(&accepted.session_id);

    // at the boundary the session still works
    let ok = register(&mut st, Some(auth.as_str()), &register_req("https://a.example", 60), now + 300);
    assert!(ok.is_ok());

    // beyond it the credential still exists but is refused
    let r = register(&mut st, Some(auth.as_str()), &register_req("https://a.example", 60), now + 301);
    assert!(matches!(r, Err(ReachError::SessionExpired)));
    let r = deregister(&mut st, Some(auth.as_str()), now + 301);
    assert!(matches!(r, Err(ReachError::SessionExpired)));
}

#[test]
fn hello_with_invalid_did_is_rejected() {
    let mut st = AppState::new();
    let r = hello(&mut st, &hello_msg("not-a-did"));
    match r {
        Err(e) => {
            assert!(matches!(e, ReachError::InvalidDid));
            assert_eq!(e.status_code(), 400);
        }
        Ok(_) => panic!("an unparseable DID must not yield a challenge"),
    }
}

#[test]
fn proof_with_unparseable_responder_did_is_an_invalid_signature() {
    let key = RootKey::generate();
    let did = key.did().to_string();
    let now = chrono::Utc::now().timestamp();
    let mut st = AppState::new();

    let challenge = hello(&mut st, &hello_msg(&did)).unwrap();
    // the signature is genuine, but the claimed responder DID does not
    // parse: every verification failure is one InvalidSignature
    let mut forged = proof_for(&challenge, &key);
    forged.responder_did = "not-a-did".to_string();
    let r = submit_proof(&mut st, &forged, now);
    assert!(matches!(r, Err(ReachError::InvalidSignature)));
}

#[test]
fn register_with_empty_endpoint_is_rejected() {
    let key = RootKey::generate();
    let did = key.did().to_string();
    let now = chrono::Utc::now().timestamp();
    let mut st = AppState::new();

    let challenge = hello(&mut st, &hello_msg(&did)).unwrap();
    let accepted = submit_proof(&mut st, &proof_for(&challenge, &key), now).unwrap();
    let auth = bearer(&accepted.session_id);

    let r = register(&mut st, Some(auth.as_str()), &register_req("", 60), now);
    match r {
        Err(e) => {
            assert!(matches!(e, ReachError::InvalidEndpoint));
            assert_eq!(e.status_code(), 400);
            assert_eq!(e.message(), "invalid endpoint");
        }
        Ok(_) => panic!("an empty endpoint must be rejected"),
    }
    // nothing was stored
    assert!(matches!(lookup_decoded(&st, &did, now), Err(ReachError::NotFound)));
}

#[test]
fn hello_with_unsupported_version_is_a_handshake_error() {
    let key = RootKey::generate();
    let mut st = AppState::new();
    let mut msg = hello_msg(&key.did().to_string());
    msg.version = "2.0".to_string();
    let r = hello(&mut st, &msg);
    assert!(matches!(r, Err(ReachError::HandshakeError(_))));
}

#[test]
fn hello_with_stale_timestamp_is_a_handshake_error() {
    let key = RootKey::generate();
    let mut st = AppState::new();
    let mut msg = hello_msg(&key.did().to_string());
    // ten minutes in the past: outside the protocol's freshness window
    msg.timestamp -= 10 * 60 * 1000;
    let r = hello(&mut st, &msg);
    assert!(matches!(r, Err(ReachError::HandshakeError(_))));
}

#[test]
fn proof_for_unknown_challenge_is_rejected() {
    let key = RootKey::generate();
    let now = chrono::Utc::now().timestamp();
    let mut st = AppState::new();
    let forged = Proof {
        type_: "Proof".to_string(),
        version: "1.0".to_string(),
        challenge_hash: "sha256:0000".to_string(),
        responder_did: key.did().to_string(),
        signing_key: format!("{}#root", key.did()),
        signature: String::new(),
    };
    assert!(matches!(
        submit_proof(&mut st, &forged, now),
        Err(ReachError::InvalidChallenge)
    ));
}

#[test]
fn register_without_usable_credential_is_unauthorized() {
    let now = 1_700_000_000;
    let mut st = AppState::new();
    let req = register_req("https://a.example", 60);
    assert!(matches!(
        register(&mut st, None, &req, now),
        Err(ReachError::Unauthorized)
    ));
    assert!(matches!(
        register(&mut st, Some("Basic abc"), &req, now),
        Err(ReachError::Unauthorized)
    ));
    assert!(matches!(
        register(&mut st, Some("Bearer unknown-session"), &req, now),
        Err(ReachError::Unauthorized)
    ));
    // nothing was registered along the way
    assert!(matches!(
        lookup_decoded(&st, "https://a.example", now),
        Err(ReachError::NotFound)
    ));
}

#[test]
fn every_hello_yields_an_independent_challenge() {
    let key = RootKey::generate();
    let did = key.did().to_string();
    let now = chrono::Utc::now().timestamp();
    let mut st = AppState::new();

    let c1 = hello(&mut st, &hello_msg(&did)).unwrap();
    let c2 = hello(&mut st, &hello_msg(&did)).unwrap();
    assert_ne!(c1.nonce, c2.nonce);

    // both outstanding challenges can be answered, each exactly once
    let a1 = submit_proof(&mut st, &proof_for(&c1, &key), now).unwrap();
    let a2 = submit_proof(&mut st, &proof_for(&c2, &key), now).unwrap();
    assert_ne!(a1.session_id, a2.session_id);
}
