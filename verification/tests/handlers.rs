use pocket_oid::config::{
    build_clients, default_response_types, Client, ClientAuthMode, ClientConfig, ConsentMode,
};
use pocket_oid::error::ApiError;
use pocket_oid::handlers::{
    authorization_error_redirect, build_authorize_return, decode_uri_component, encode_uri_component,
    extract_session_id, map_upstream_authorization_error, parse_authorize_return, random_url_safe_token, readyz,
    requests_fresh_authentication, scope_includes_openid, validate_scopes, AuthorizeRequest, Reply,
};

fn client(scopes: &[&str]) -> Client {
    let config = ClientConfig {
        client_id: "svc-a".to_string(),
        client_secret: "supersecret".to_string(),
        signing_algorithm: None,
        audience: None,
        scopes: scopes.iter().map(|s| s.to_string()).collect(),
        metadata: Vec::new(),
        enabled: true,
        token_ttl_seconds: None,
        redirect_uris: vec!["https://app.example.local/callback".to_string()],
        response_types: default_response_types(),
        require_pkce: false,
        consent_mode: ConsentMode::Always,
        auth_mode: ClientAuthMode::Local,
        re_auth: None,
    };
    build_clients(vec![config]).unwrap().remove(0)
}

#[test]
fn uri_components_encode_spaces_only() {
    assert_eq!(encode_uri_component("openid default"), "openid%20default");
    assert_eq!(encode_uri_component("a&b=c"), "a&b=c");
    assert_eq!(decode_uri_component("openid%20default"), "openid default");
    assert_eq!(decode_uri_component(&encode_uri_component("x y  z")), "x y  z");
}

fn request() -> AuthorizeRequest {
    AuthorizeRequest {
        response_type: "code".to_string(),
        client_id: "svc-a".to_string(),
        redirect_uri: "https://app.example.local/callback".to_string(),
        scope: Some("openid default".to_string()),
        state: Some("abc".to_string()),
        nonce: None,
        code_challenge: Some("challenge".to_string()),
        code_challenge_method: Some("S256".to_string()),
        prompt: Some("login".to_string()),
    }
}

#[test]
fn authorize_return_round_trips() {
    let text = build_authorize_return(&request());
    assert_eq!(
        text,
        "/authorize?response_type=code&client_id=svc-a&redirect_uri=https://app.example.local/callback&scope=openid%20default&state=abc&code_challenge=challenge&code_challenge_method=S256&prompt=login"
    );
    let parsed = parse_authorize_return(&text);
    let expected = request();
    assert_eq!(parsed.response_type, expected.response_type);
    assert_eq!(parsed.client_id, expected.client_id);
    assert_eq!(parsed.redirect_uri, expected.redirect_uri);
    assert_eq!(parsed.scope, expected.scope);
    assert_eq!(parsed.state, expected.state);
    assert_eq!(parsed.nonce, expected.nonce);
    assert_eq!(parsed.code_challenge, expected.code_challenge);
    assert_eq!(parsed.code_challenge_method, expected.code_challenge_method);
    assert_eq!(parsed.prompt, expected.prompt);
}

#[test]
fn authorize_return_ignores_unknown_and_malformed_pairs() {
    let parsed = parse_authorize_return("/authorize?foo=bar&client_id=svc-b&novalue&state=a%20b");
    assert_eq!(parsed.client_id, "svc-b");
    assert_eq!(parsed.state.as_deref(), Some("a b"));
    assert_eq!(parsed.response_type, "");
    let empty = parse_authorize_return("no-query");
    assert_eq!(empty.client_id, "");
    assert!(empty.scope.is_none());
}

#[test]
fn scopes_are_checked_against_the_client() {
    let c = client(&["openid", "default", "custom"]);
    assert_eq!(validate_scopes(Some("openid  default"), &c).unwrap().as_deref(), Some("openid default"));
    assert_eq!(validate_scopes(None, &c).unwrap().as_deref(), Some("custom default openid"));
    match validate_scopes(Some("   "), &c) {
        Err(ApiError::InvalidScope(m)) => assert_eq!(m, "scope cannot be empty"),
        other => panic!("unexpected {:?}", other),
    }
    match validate_scopes(Some("openid admin"), &c) {
        Err(ApiError::InvalidScope(m)) => assert_eq!(m, "requested scope 'admin' is not permitted"),
        other => panic!("unexpected {:?}", other),
    }
    let none = client(&[]);
    assert_eq!(validate_scopes(None, &none).unwrap(), None);
}

#[test]
fn scope_and_prompt_words() {
    assert!(scope_includes_openid(Some("profile openid")));
    assert!(!scope_includes_openid(Some("openidx")));
    assert!(!scope_includes_openid(None));
    assert!(requests_fresh_authentication(Some("consent login")));
    assert!(!requests_fresh_authentication(Some("none")));
    assert_eq!(map_upstream_authorization_error("access_denied"), "access_denied");
    assert_eq!(map_upstream_authorization_error("server_error"), "temporarily_unavailable");
}

#[test]
fn error_redirects_carry_the_state() {
    match authorization_error_redirect("https://app.example.local/callback", "access_denied", &Some("downstream state".to_string())) {
        Reply::Redirect(url) => assert_eq!(
            url,
            "https://app.example.local/callback?error=access_denied&state=downstream%20state"
        ),
        other => panic!("unexpected {:?}", other),
    }
    match authorization_error_redirect("https://app.example.local/callback", "server_error", &None) {
        Reply::Redirect(url) => assert_eq!(url, "https://app.example.local/callback?error=server_error"),
        other => panic!("unexpected {:?}", other),
    }
}

#[test]
fn session_cookies_are_found() {
    assert_eq!(extract_session_id(Some("a=b; session_id = abc ; c=d")).as_deref(), Some("abc"));
    assert_eq!(extract_session_id(Some("a=b")), None);
    assert_eq!(extract_session_id(None), None);
}

#[test]
fn readiness_needs_a_client() {
    assert_eq!(readyz(&Vec::new()), 503);
    assert_eq!(readyz(&vec![client(&["default"])]), 200);
}

#[test]
fn random_tokens_are_hex() {
    let a = random_url_safe_token().expect("random source");
    let b = random_url_safe_token().expect("random source");
    assert_eq!(a.len(), 96);
    assert!(a.chars().all(|c| c.is_ascii_hexdigit() && !c.is_ascii_uppercase()));
    assert_ne!(a, b);
}
