use pocket_oid::config::{
    SigningAlgorithm, TokenEndpointAuthMethod, TrustedProviderConfig, TrustedProviderType,
};
use pocket_oid::time::UtcTime;
use pocket_oid::upstream::{
    build_authorization_url, check_discovery, check_token_status, upstream_id_token, upstream_token_form, check_upstream_claims, constant_time_eq, discovery_url,
    pkce_challenge, validate_endpoint, DiscoveredOidcProvider, DiscoveryResponse, UpstreamAuthorizationRequest,
    UpstreamClaims,
};

fn partner() -> TrustedProviderConfig {
    TrustedProviderConfig {
        provider_id: "partner".to_string(),
        provider_type: TrustedProviderType::Oidc,
        issuer: "https://partner.example.test".to_string(),
        client_id: "proxy".to_string(),
        client_secret: "secret".to_string(),
        redirect_uri: "https://pocket.example.test/reauth/callback/partner".to_string(),
        token_endpoint_auth_method: TokenEndpointAuthMethod::ClientSecretPost,
        require_pkce: true,
        allowed_signing_algorithms: vec![SigningAlgorithm::RS256],
    }
}

fn metadata(provider: &TrustedProviderConfig) -> DiscoveredOidcProvider {
    DiscoveredOidcProvider {
        issuer: provider.issuer.clone(),
        authorization_endpoint: "https://partner.example.test/authorize".to_string(),
        token_endpoint: "https://partner.example.test/oauth/token".to_string(),
        jwks_uri: "https://partner.example.test/jwks.json".to_string(),
    }
}

#[test]
fn authorization_url_contains_oidc_and_pkce_parameters() {
    let provider = partner();
    let metadata = metadata(&provider);
    let scopes = ["openid".to_string(), "email".to_string()];

    let url = build_authorization_url(UpstreamAuthorizationRequest {
        provider: &provider,
        metadata: &metadata,
        upstream_scopes: &scopes,
        state: "upstream-state",
        nonce: "upstream-nonce",
        pkce_verifier: Some("test-verifier"),
        prompt_login: true,
    })
    .expect("authorization URL should build");

    assert!(url.contains("response_type=code"));
    assert!(url.contains("client_id=proxy"));
    assert!(url.contains("state=upstream-state"));
    assert!(url.contains("nonce=upstream-nonce"));
    assert!(url.contains("code_challenge_method=S256"));
    assert!(url.contains("prompt=login"));
}

#[test]
fn authorization_url_without_pkce_or_prompt() {
    let provider = partner();
    let metadata = metadata(&provider);
    let scopes = ["openid".to_string()];
    let url = build_authorization_url(UpstreamAuthorizationRequest {
        provider: &provider,
        metadata: &metadata,
        upstream_scopes: &scopes,
        state: "s",
        nonce: "n",
        pkce_verifier: None,
        prompt_login: false,
    })
    .unwrap();
    assert!(url.starts_with("https://partner.example.test/authorize?"));
    assert!(!url.contains("code_challenge"));
    assert!(!url.contains("prompt=login"));
}

#[test]
fn authorization_url_needs_a_valid_endpoint() {
    let provider = partner();
    let mut metadata = metadata(&provider);
    metadata.authorization_endpoint = "not a url".to_string();
    let scopes = ["openid".to_string()];
    let error = build_authorization_url(UpstreamAuthorizationRequest {
        provider: &provider,
        metadata: &metadata,
        upstream_scopes: &scopes,
        state: "s",
        nonce: "n",
        pkce_verifier: None,
        prompt_login: false,
    })
    .unwrap_err();
    assert_eq!(error, "discovered authorization_endpoint must be a valid URL");
}

#[test]
fn pkce_challenge_follows_rfc_7636() {
    // The example of RFC 7636, appendix B.
    assert_eq!(
        pkce_challenge("dBjftJeZ4CVP-mB92K27uhbUJU1p1r_wW1gFWFOEjXk"),
        "E9Melhoa2OwvFrEMTJguCHaoeK1t8URWbuGJSstw-cM"
    );
}

#[test]
fn discovery_url_trims_trailing_slashes() {
    assert_eq!(
        discovery_url("https://partner.example.test/").unwrap(),
        "https://partner.example.test/.well-known/openid-configuration"
    );
    assert_eq!(discovery_url("not a url").unwrap_err(), "issuer is not a valid URL");
    assert_eq!(
        validate_endpoint("https://partner.example.test/#frag", "jwks_uri").unwrap_err(),
        "jwks_uri must be an absolute URL without a fragment"
    );
}

#[test]
fn discovery_requires_the_exact_issuer() {
    let provider = partner();
    let document = DiscoveryResponse {
        issuer: "https://partner.example.test/".to_string(),
        authorization_endpoint: "https://partner.example.test/authorize".to_string(),
        token_endpoint: "https://partner.example.test/oauth/token".to_string(),
        jwks_uri: "https://partner.example.test/jwks.json".to_string(),
    };
    assert!(check_discovery(&provider, document).is_err());
    let document = DiscoveryResponse {
        issuer: "https://partner.example.test".to_string(),
        authorization_endpoint: "https://partner.example.test/authorize".to_string(),
        token_endpoint: "https://partner.example.test/oauth/token".to_string(),
        jwks_uri: "https://partner.example.test/jwks.json".to_string(),
    };
    let discovered = check_discovery(&provider, document).unwrap();
    assert_eq!(discovered.jwks_uri, "https://partner.example.test/jwks.json");
}

#[test]
fn upstream_claims_are_checked() {
    let now = UtcTime { secs: 1_700_000_000, nanos: 0 };
    let good = |iat: i64, nonce: &str, sub: &str| UpstreamClaims {
        iat: Some(iat),
        nonce: Some(nonce.to_string()),
        sub: Some(sub.to_string()),
    };
    let id = check_upstream_claims(good(1_700_000_000, "n", "user-123"), now, "n", "https://partner.example.test")
        .unwrap();
    assert_eq!(id.subject, "user-123");
    assert_eq!(id.issuer, "https://partner.example.test");
    assert_eq!(
        check_upstream_claims(good(1_700_000_061, "n", "u"), now, "n", "i").unwrap_err(),
        "upstream id_token iat is in the future"
    );
    assert!(check_upstream_claims(good(1_700_000_060, "n", "u"), now, "n", "i").is_ok());
    assert_eq!(
        check_upstream_claims(good(1, "other", "u"), now, "n", "i").unwrap_err(),
        "upstream id_token nonce does not match"
    );
    assert_eq!(
        check_upstream_claims(good(1, "n", ""), now, "n", "i").unwrap_err(),
        "upstream id_token is missing a non-empty sub claim"
    );
    let missing = UpstreamClaims { iat: None, nonce: None, sub: None };
    assert_eq!(
        check_upstream_claims(missing, now, "n", "i").unwrap_err(),
        "upstream id_token is missing a numeric iat claim"
    );
}

#[test]
fn constant_time_comparison_is_equality() {
    assert!(constant_time_eq("secret", "secret"));
    assert!(!constant_time_eq("secret", "secreT"));
    assert!(!constant_time_eq("secret", "secret!"));
    assert!(constant_time_eq("", ""));
}

#[test]
fn the_code_exchange_posts_the_client_credentials_and_verifier() {
    let provider = partner();
    let form = upstream_token_form(&provider, "upstream-code", Some("verifier-123"));
    let expected: Vec<(String, String)> = [
        ("grant_type", "authorization_code"),
        ("code", "upstream-code"),
        ("redirect_uri", "https://pocket.example.test/reauth/callback/partner"),
        ("client_id", "proxy"),
        ("client_secret", "secret"),
        ("code_verifier", "verifier-123"),
    ]
    .iter()
    .map(|(k, v)| (k.to_string(), v.to_string()))
    .collect();
    assert_eq!(form, expected);
    let without = upstream_token_form(&provider, "c", None);
    assert_eq!(without.len(), 5);
    assert!(without.iter().all(|(k, _)| k != "code_verifier"));
}

#[test]
fn token_responses_need_success_and_an_id_token() {
    assert!(check_token_status(200, "200 OK").is_ok());
    assert!(check_token_status(204, "204 No Content").is_ok());
    assert_eq!(
        check_token_status(401, "401 Unauthorized").unwrap_err(),
        "upstream token endpoint returned HTTP 401 Unauthorized"
    );
    assert!(check_token_status(302, "302 Found").is_err());
    assert_eq!(upstream_id_token(Some("header.payload.sig".to_string())).unwrap(), "header.payload.sig");
    assert_eq!(
        upstream_id_token(Some(String::new())).unwrap_err(),
        "upstream token response did not include an id_token"
    );
    assert_eq!(upstream_id_token(None).unwrap_err(), "upstream token response did not include an id_token");
}
