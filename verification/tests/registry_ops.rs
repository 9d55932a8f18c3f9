use agent_reach::default_ttl;
use agent_reach::error::ReachError;
use agent_reach::handlers::lookup;
use agent_reach::handlers::lookup_decoded;
use agent_reach::handlers::AppState;
use agent_reach::types::AgentStatus;
use agent_reach::types::RegistryEntry;

const NOW: i64 = 1_700_000_000;

fn entry(did: &str, endpoint: &str, now: i64, ttl: i64) -> RegistryEntry {
    RegistryEntry {
        did: did.to_string(),
        endpoint: endpoint.to_string(),
        registered_at: now,
        expires_at: now + ttl,
    }
}

#[test]
fn register_then_lookup_is_online() {
    let mut st = AppState::new();
    st.registry.register(entry("did:key:zABC", "https://a.example/inbox", NOW, 60));
    let resp = lookup_decoded(&st, "did:key:zABC", NOW).unwrap();
    assert_eq!(resp.did, "did:key:zABC");
    assert_eq!(resp.endpoint, "https://a.example/inbox");
    assert_eq!(resp.status, AgentStatus::Online);
    assert_eq!(resp.registered_at, NOW);
    assert_eq!(resp.expires_at, resp.registered_at + 60);
}

#[test]
fn lookup_after_ttl_elapsed_is_expired() {
    let mut st = AppState::new();
    st.registry.register(entry("did:key:zABC", "wss://a.example", NOW, 1));
    // more than one second later, with no deregister in between
    let r = lookup_decoded(&st, "did:key:zABC", NOW + 2);
    assert!(matches!(r, Err(ReachError::Expired)));
    // still within the window it is online, boundary included
    let r = lookup_decoded(&st, "did:key:zABC", NOW + 1);
    assert!(r.is_ok());
}

#[test]
fn deregister_then_lookup_is_not_found() {
    let mut st = AppState::new();
    st.registry.register(entry("did:key:zABC", "https://a.example", NOW, 60));
    assert!(st.registry.deregister("did:key:zABC"));
    let r = lookup_decoded(&st, "did:key:zABC", NOW);
    assert!(matches!(r, Err(ReachError::NotFound)));
}

#[test]
fn deregister_absent_returns_false_without_error() {
    let mut st = AppState::new();
    assert!(!st.registry.deregister("did:key:zNobody"));
}

#[test]
fn lookup_unknown_did_is_not_found_404() {
    let st = AppState::new();
    let r = lookup_decoded(&st, "did:key:zNobody", NOW);
    match r {
        Err(e) => {
            assert!(matches!(e, ReachError::NotFound));
            assert_eq!(e.status_code(), 404);
            assert_eq!(e.message(), "agent not found");
        }
        Ok(_) => panic!("unknown DID must not resolve"),
    }
}

#[test]
fn register_overwrites_previous_entry() {
    let mut st = AppState::new();
    st.registry.register(entry("did:key:zABC", "https://old.example", NOW, 1));
    st.registry.register(entry("did:key:zABC", "https://new.example", NOW + 5, 60));
    let resp = lookup_decoded(&st, "did:key:zABC", NOW + 6).unwrap();
    assert_eq!(resp.endpoint, "https://new.example");
    assert_eq!(resp.status, AgentStatus::Online);
}

#[test]
fn expired_entry_stays_until_overwritten() {
    let mut st = AppState::new();
    st.registry.register(entry("did:key:zABC", "https://a.example", NOW, 1));
    assert!(matches!(
        lookup_decoded(&st, "did:key:zABC", NOW + 10),
        Err(ReachError::Expired)
    ));
    // the stale record is still there: a fresh registration replaces it
    st.registry.register(entry("did:key:zABC", "https://a.example", NOW + 10, 60));
    assert!(lookup_decoded(&st, "did:key:zABC", NOW + 11).is_ok());
}

#[test]
fn lookup_decodes_percent_encoded_did() {
    let mut st = AppState::new();
    st.registry.register(entry("did:key:zABC", "https://a.example", NOW, 60));
    let resp = lookup(&st, "did%3Akey%3AzABC", NOW).unwrap();
    assert_eq!(resp.did, "did:key:zABC");
    let resp = lookup(&st, "did:key:zABC", NOW).unwrap();
    assert_eq!(resp.endpoint, "https://a.example");
}

#[test]
fn lookup_with_undecodable_path_is_invalid_did() {
    let st = AppState::new();
    // %FF decodes to a byte that is not UTF-8
    let r = lookup(&st, "did%FFkey", NOW);
    assert!(matches!(r, Err(ReachError::InvalidDid)));
}

#[test]
fn entry_status_derivation() {
    let e = entry("did:key:zABC", "https://a.example", NOW, 60);
    assert_eq!(e.status(NOW), AgentStatus::Online);
    assert_eq!(e.status(NOW + 60), AgentStatus::Online);
    assert_eq!(e.status(NOW + 61), AgentStatus::Expired);
}

#[test]
fn default_ttl_is_one_hour() {
    assert_eq!(default_ttl(), 3600);
}

#[test]
fn error_status_codes_are_stable() {
    assert_eq!(ReachError::InvalidDid.status_code(), 400);
    assert_eq!(ReachError::InvalidSignature.status_code(), 401);
    assert_eq!(ReachError::InvalidChallenge.status_code(), 400);
    assert_eq!(ReachError::InvalidEndpoint.status_code(), 400);
    assert_eq!(ReachError::NotFound.status_code(), 404);
    assert_eq!(ReachError::Expired.status_code(), 410);
    assert_eq!(ReachError::Unauthorized.status_code(), 401);
    assert_eq!(ReachError::SessionExpired.status_code(), 401);
    assert_eq!(ReachError::HandshakeError("x".to_string()).status_code(), 400);
    assert_eq!(ReachError::Internal("x".to_string()).status_code(), 500);
}

#[test]
fn error_messages() {
    assert_eq!(ReachError::InvalidDid.message(), "invalid DID");
    assert_eq!(ReachError::SessionExpired.message(), "session expired");
    assert_eq!(ReachError::HandshakeError("detail".to_string()).message(), "detail");
}

#[test]
fn decimal_rendering_is_exact() {
    assert_eq!(agent_reach::decimal::u64_to_string(0), "0");
    assert_eq!(agent_reach::decimal::u64_to_string(7), "7");
    assert_eq!(agent_reach::decimal::u64_to_string(10), "10");
    assert_eq!(agent_reach::decimal::u64_to_string(3600), "3600");
    assert_eq!(
        agent_reach::decimal::u64_to_string(u64::MAX),
        "18446744073709551615"
    );
}
