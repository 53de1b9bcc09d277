use glitch_guardian::broker::lookup_installation;
use glitch_guardian::broker::mint_assertion;
use glitch_guardian::broker::AppIdentity;
use glitch_guardian::broker::BrokerError;
use glitch_guardian::broker::CredentialBroker;
use glitch_guardian::broker::InstallationSummary;
use glitch_guardian::broker::ResolveStep;
use glitch_guardian::broker::TokenGrant;

#[test]
fn test_resolve_cache_hit_before_expiry() {
    let mut broker = CredentialBroker::new();
    assert!(matches!(broker.begin_resolve(42, 100), ResolveStep::Exchange));
    match broker.finish_resolve(
        42,
        Ok(TokenGrant { token: "tok-1".to_string(), expires_at: 1000 }),
    ) {
        Ok(cred) => {
            assert_eq!(cred.installation_id, 42);
            assert_eq!(cred.access_token, "tok-1");
            assert_eq!(cred.expires_at, 1000);
        }
        Err(_) => panic!("a granted exchange must yield the credential"),
    }
    // A second resolution before expiry returns the identical token with no
    // second exchange.
    match broker.begin_resolve(42, 999) {
        ResolveStep::Ready(cred) => {
            assert_eq!(cred.access_token, "tok-1");
            assert_eq!(cred.expires_at, 1000);
        }
        _ => panic!("expected the cached credential"),
    }
    // A resolution at expiry finds no live entry and triggers exactly one
    // new exchange.
    assert!(matches!(broker.begin_resolve(42, 1000), ResolveStep::Exchange));
    assert!(matches!(broker.begin_resolve(42, 1000), ResolveStep::Busy));
}

#[test]
fn test_single_flight_under_cold_cache() {
    let mut broker = CredentialBroker::new();
    assert!(matches!(broker.begin_resolve(7, 0), ResolveStep::Exchange));
    // Concurrent resolutions for the same id wait instead of exchanging.
    assert!(matches!(broker.begin_resolve(7, 0), ResolveStep::Busy));
    assert!(matches!(broker.begin_resolve(7, 5), ResolveStep::Busy));
    // A different installation is not serialized behind it.
    assert!(matches!(broker.begin_resolve(8, 0), ResolveStep::Exchange));
    // Once the winner reports, the id is free again.
    match broker.finish_resolve(7, Err(BrokerError::Network)) {
        Err(e) => assert_eq!(e, BrokerError::Network),
        Ok(_) => panic!("the failure must pass through"),
    }
    assert!(matches!(broker.begin_resolve(7, 5), ResolveStep::Exchange));
}

#[test]
fn test_failed_exchange_keeps_previous_credential() {
    let mut broker = CredentialBroker::new();
    assert!(matches!(broker.begin_resolve(1, 0), ResolveStep::Exchange));
    assert!(broker
        .finish_resolve(1, Ok(TokenGrant { token: "alive".to_string(), expires_at: 500 }))
        .is_ok());
    assert!(matches!(broker.begin_resolve(2, 0), ResolveStep::Exchange));
    assert!(broker.finish_resolve(2, Err(BrokerError::Unauthorized)).is_err());
    match broker.begin_resolve(1, 100) {
        ResolveStep::Ready(cred) => assert_eq!(cred.access_token, "alive"),
        _ => panic!("the stored credential must survive an unrelated failure"),
    }
}

#[test]
fn test_lookup_installation_finds_matching_id() {
    let rows = vec![
        InstallationSummary {
            id: 10,
            access_tokens_url: "https://api.github.com/app/installations/10/access_tokens"
                .to_string(),
        },
        InstallationSummary {
            id: 22,
            access_tokens_url: "https://api.github.com/app/installations/22/access_tokens"
                .to_string(),
        },
    ];
    assert_eq!(lookup_installation(&rows, 22), Ok(1));
    assert_eq!(lookup_installation(&rows, 10), Ok(0));
}

#[test]
fn test_lookup_installation_unknown_id_is_not_found() {
    let rows = vec![InstallationSummary { id: 10, access_tokens_url: "u".to_string() }];
    assert_eq!(lookup_installation(&rows, 99), Err(BrokerError::InstallationNotFound));
    assert_eq!(lookup_installation(&Vec::new(), 99), Err(BrokerError::InstallationNotFound));
}

#[test]
fn test_mint_assertion_with_invalid_key_fails() {
    let identity = AppIdentity { app_id: 1, private_key: "not a pem key".to_string() };
    assert!(mint_assertion(&identity, 1_700_000_000).is_none());
}

