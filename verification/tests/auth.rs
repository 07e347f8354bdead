use pocket_oid::auth::{
    AuthContext, AuthStore, ConsumePendingReauth, DownstreamAuthorizationRequest, NewAuthorizationCode,
    NewPendingReauthConsent, NewPendingReauthTransaction,
};
use pocket_oid::config::ReAuthConsent;
use pocket_oid::time::UtcTime;
use pocket_oid::upstream::DiscoveredOidcProvider;

fn pending_transaction(state: &str) -> NewPendingReauthTransaction {
    NewPendingReauthTransaction {
        downstream: DownstreamAuthorizationRequest {
            client_id: "svc-reauth".to_string(),
            redirect_uri: "https://app.example.local/callback".to_string(),
            scope: Some("openid".to_string()),
            state: Some("downstream-state".to_string()),
            nonce: None,
            code_challenge: None,
            code_challenge_method: None,
        },
        provider_id: "partner".to_string(),
        consent: ReAuthConsent::Local,
        upstream_state: state.to_string(),
        upstream_nonce: "upstream-nonce".to_string(),
        pkce_verifier: Some("upstream-verifier".to_string()),
        provider_metadata: DiscoveredOidcProvider {
            issuer: "https://partner.example.test".to_string(),
            authorization_endpoint: "https://partner.example.test/authorize".to_string(),
            token_endpoint: "https://partner.example.test/oauth/token".to_string(),
            jwks_uri: "https://partner.example.test/jwks.json".to_string(),
        },
    }
}

#[test]
fn pending_reauth_transactions_are_provider_bound_and_single_use() {
    let mut store = AuthStore::default();
    store
        .create_pending_reauth(pending_transaction("upstream-state"), 60)
        .expect("transaction should be created");

    assert!(matches!(
        store.consume_pending_reauth("upstream-state", "other-provider"),
        ConsumePendingReauth::ProviderMismatch
    ));
    assert!(matches!(
        store.consume_pending_reauth("upstream-state", "partner"),
        ConsumePendingReauth::Found(_)
    ));
    assert!(matches!(
        store.consume_pending_reauth("upstream-state", "partner"),
        ConsumePendingReauth::NotFound
    ));
}

#[test]
fn expired_pending_reauth_transactions_are_not_consumed() {
    let mut store = AuthStore::default();
    store
        .create_pending_reauth(pending_transaction("expired-state"), -1)
        .expect("transaction should be created");

    assert!(matches!(
        store.consume_pending_reauth("expired-state", "partner"),
        ConsumePendingReauth::NotFound
    ));
}

fn new_code() -> NewAuthorizationCode {
    NewAuthorizationCode {
        client_id: "svc-a".to_string(),
        user_id: "user-alice".to_string(),
        redirect_uri: "https://app.example.local/callback".to_string(),
        scope: Some("openid default".to_string()),
        nonce: Some("nonce-1".to_string()),
        code_challenge: None,
        code_challenge_method: None,
        auth_context: AuthContext::Local,
    }
}

#[test]
fn authorization_codes_are_single_use() {
    let mut store = AuthStore::default();
    let code = store.issue_authorization_code(new_code(), 120).expect("code should be issued");
    let record = store.consume_authorization_code(&code).expect("code should be found once");
    assert_eq!(record.client_id, "svc-a");
    assert_eq!(record.user_id, "user-alice");
    assert_eq!(record.nonce.as_deref(), Some("nonce-1"));
    assert!(store.consume_authorization_code(&code).is_none());
}

#[test]
fn expired_authorization_codes_are_not_returned() {
    let mut store = AuthStore::default();
    let now = UtcTime { secs: 1_700_000_000, nanos: 0 };
    store
        .issue_authorization_code_at(now, "fixed-code".to_string(), new_code(), 120)
        .expect("code should be issued");
    let later = UtcTime { secs: 1_700_000_121, nanos: 0 };
    assert!(store.consume_authorization_code_at(later, "fixed-code").is_none());
}

#[test]
fn created_sessions_are_found_until_they_expire() {
    let mut store = AuthStore::default();
    let now = UtcTime { secs: 1_700_000_000, nanos: 5 };
    let session = store
        .create_session_at(now, "session-1".to_string(), "user-alice".to_string(), "alice".to_string(), 3600)
        .expect("session should be created");
    assert_eq!(session.expires_at, UtcTime { secs: 1_700_003_600, nanos: 5 });
    let found = store.get_session_at(now, "session-1").expect("session should be found");
    assert_eq!(found.username, "alice");
    let at_expiry = UtcTime { secs: 1_700_003_600, nanos: 5 };
    assert!(store.get_session_at(at_expiry, "session-1").is_none());
}

#[test]
fn random_sessions_can_be_read_back() {
    let mut store = AuthStore::default();
    let session = store
        .create_session("user-bob".to_string(), "bob".to_string(), 3600)
        .expect("session should be created");
    assert_eq!(session.session_id.len(), 36);
    let found = store.get_session(&session.session_id).expect("session should be found");
    assert_eq!(found.user_id, "user-bob");
}

#[test]
fn pending_reauth_consents_are_single_use() {
    let mut store = AuthStore::default();
    let payload = NewPendingReauthConsent {
        downstream: pending_transaction("s").downstream,
        user_id: "partner:user-123".to_string(),
        auth_context: AuthContext::ReAuth {
            provider_id: "partner".to_string(),
            upstream_issuer: "https://partner.example.test".to_string(),
        },
    };
    let id = store.create_pending_reauth_consent(payload, 300).expect("consent should be stored");
    assert!(store.get_pending_reauth_consent(&id).is_some());
    assert!(store.consume_pending_reauth_consent(&id).is_some());
    assert!(store.consume_pending_reauth_consent(&id).is_none());
}
