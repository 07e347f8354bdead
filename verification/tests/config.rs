use pocket_oid::config::{
    build_clients, check_token_template, resolve_config_path, LoadedConfig, default_allowed_signing_algorithms, default_enabled, default_pkce_required,
    default_response_types, default_upstream_pkce_required, empty_metadata, validate_reauth_clients,
    validate_trusted_provider, ClientAuthMode, ClientConfig, ConsentMode, ReAuthClientConfig,
    SigningAlgorithm, TokenEndpointAuthMethod, TrustedProviderConfig, TrustedProviderType,
};
use pocket_oid::config::{load_config, schema_verdict, validate_json};
use pocket_oid::error::AppError;
use pocket_oid::json::JsonValue;

/// A client as `clients.json` gives it when only the id and secret are set.
fn minimal_client(id: &str, secret: &str) -> ClientConfig {
    ClientConfig {
        client_id: id.to_string(),
        client_secret: secret.to_string(),
        signing_algorithm: None,
        audience: None,
        scopes: Vec::new(),
        metadata: empty_metadata(),
        enabled: default_enabled(),
        token_ttl_seconds: None,
        redirect_uris: Vec::new(),
        response_types: default_response_types(),
        require_pkce: default_pkce_required(),
        consent_mode: ConsentMode::Always,
        auth_mode: ClientAuthMode::Local,
        re_auth: None,
    }
}

fn partner(algorithms: Vec<SigningAlgorithm>) -> TrustedProviderConfig {
    TrustedProviderConfig {
        provider_id: "partner".to_string(),
        provider_type: TrustedProviderType::Oidc,
        issuer: "https://partner.example.test".to_string(),
        client_id: "proxy".to_string(),
        client_secret: "secret".to_string(),
        redirect_uri: "https://pocket.example.test/reauth/callback/partner".to_string(),
        token_endpoint_auth_method: TokenEndpointAuthMethod::ClientSecretPost,
        require_pkce: default_upstream_pkce_required(),
        allowed_signing_algorithms: algorithms,
    }
}

#[test]
fn client_signing_override_is_optional_and_only_accepts_supported_algorithms() {
    let client = minimal_client("client", "secret");
    assert!(client.signing_algorithm.is_none());
    let built = build_clients(vec![client]).unwrap();
    assert!(built[0].signing_algorithm.is_none());
    for algorithm in [SigningAlgorithm::RS256, SigningAlgorithm::ES256, SigningAlgorithm::PS256] {
        let parsed = SigningAlgorithm::from_name(algorithm.as_str());
        assert_eq!(parsed, Some(algorithm));
        let mut client = minimal_client("client", "secret");
        client.signing_algorithm = parsed;
        let built = build_clients(vec![client]).unwrap();
        assert_eq!(built[0].signing_algorithm, Some(algorithm));
    }
    for algorithm in ["HS256", "PS384", "none", "rs256"] {
        assert!(SigningAlgorithm::from_name(algorithm).is_none());
    }
}

#[test]
fn upstream_signing_algorithms_default_to_rs256_and_require_a_nonempty_supported_list() {
    let provider = partner(default_allowed_signing_algorithms());
    assert_eq!(provider.allowed_signing_algorithms, vec![SigningAlgorithm::RS256]);

    let names = ["RS256", "ES256", "PS256"];
    let algorithms: Vec<SigningAlgorithm> =
        names.iter().map(|n| SigningAlgorithm::from_name(n).unwrap()).collect();
    validate_trusted_provider(&partner(algorithms)).unwrap();

    let error = validate_trusted_provider(&partner(Vec::new())).unwrap_err();
    assert!(error.message().contains("must not be empty"));

    for algorithm in ["HS256", "ES384", "none"] {
        assert!(SigningAlgorithm::from_name(algorithm).is_none());
    }
}

#[test]
fn client_auth_mode_defaults_to_local() {
    let client = minimal_client("svc-a", "supersecret");
    assert_eq!(client.auth_mode, ClientAuthMode::Local);
    assert!(client.re_auth.is_none());
    assert!(client.enabled);
    assert!(!client.require_pkce);
    assert_eq!(client.response_types, vec!["token".to_string(), "code".to_string()]);
}

#[test]
fn reauth_client_requires_a_known_trusted_provider() {
    let mut client = minimal_client("svc-reauth", "supersecret");
    client.auth_mode = ClientAuthMode::ReAuth;
    client.re_auth = Some(ReAuthClientConfig {
        provider_id: "missing-provider".to_string(),
        upstream_scopes: vec!["openid".to_string()],
        consent: pocket_oid::config::ReAuthConsent::Local,
    });
    let clients = build_clients(vec![client]).expect("client config should build");

    let error = validate_reauth_clients(&clients, &Vec::new()).expect_err("missing provider should fail validation");
    assert!(error.message().contains("unknown provider_id 'missing-provider'"));
}

#[test]
fn reauth_client_with_a_known_provider_is_accepted() {
    let mut client = minimal_client("svc-reauth", "supersecret");
    client.auth_mode = ClientAuthMode::ReAuth;
    client.re_auth = Some(ReAuthClientConfig {
        provider_id: "partner".to_string(),
        upstream_scopes: vec!["openid".to_string(), "email".to_string()],
        consent: pocket_oid::config::ReAuthConsent::Skip,
    });
    let clients = build_clients(vec![client]).expect("client config should build");
    validate_reauth_clients(&clients, &vec![partner(default_allowed_signing_algorithms())]).unwrap();
}

#[test]
fn disabled_clients_are_left_out() {
    let mut disabled = minimal_client("disabled", "secret");
    disabled.enabled = false;
    let clients = build_clients(vec![minimal_client("svc-a", "secret"), disabled]).unwrap();
    assert_eq!(clients.len(), 1);
    assert_eq!(clients[0].client_id, "svc-a");
}

#[test]
fn algorithm_names_round_trip() {
    for algorithm in [SigningAlgorithm::RS256, SigningAlgorithm::ES256, SigningAlgorithm::PS256] {
        assert_eq!(SigningAlgorithm::from_name(algorithm.as_str()), Some(algorithm));
    }
    assert_eq!(SigningAlgorithm::default(), SigningAlgorithm::RS256);
}

fn provider_settings() -> pocket_oid::config::ProviderSettings {
    pocket_oid::config::ProviderSettings {
        name: "Pocket-OID".to_string(),
        issuer: "https://pocket-oid.local".to_string(),
        token_ttl_seconds: 3600,
        listen: "127.0.0.1:8080".to_string(),
        log_dir: None,
        signing_algorithm: SigningAlgorithm::RS256,
        signing_key_paths: vec![(SigningAlgorithm::PS256, "keys/ps256.pem".to_string())],
        login_background_color: Some("#1a2b3c".to_string()),
    }
}

#[test]
fn key_paths_resolve_against_the_configuration_directory() {
    let loaded = LoadedConfig::new("config".to_string(), provider_settings(), vec![minimal_client("svc-a", "s")])
        .unwrap()
        .with_trusted_providers(Vec::new())
        .unwrap();
    assert_eq!(loaded.key_path(), "config/keys/signing-key.pem");
    assert_eq!(loaded.key_path_for(SigningAlgorithm::RS256).unwrap(), "config/keys/signing-key.pem");
    assert_eq!(loaded.key_path_for(SigningAlgorithm::PS256).unwrap(), "config/keys/ps256.pem");
    let error = loaded.key_path_for(SigningAlgorithm::ES256).unwrap_err();
    assert_eq!(
        error.message(),
        "configuration error: signing_key_paths must configure a key for client signing algorithm ES256"
    );
}

#[test]
fn loading_needs_an_enabled_client_and_a_valid_provider() {
    let mut disabled = minimal_client("svc-a", "s");
    disabled.enabled = false;
    let error = LoadedConfig::new("config".to_string(), provider_settings(), vec![disabled]).unwrap_err();
    assert!(error.message().contains("no active clients configured"));
    let mut bad = provider_settings();
    bad.login_background_color = Some("blue".to_string());
    let error = LoadedConfig::new("config".to_string(), bad, vec![minimal_client("svc-a", "s")]).unwrap_err();
    assert!(error.message().contains("login_background_color"));
    let error = LoadedConfig::new(
        "config".to_string(),
        provider_settings(),
        vec![minimal_client("svc-a", "s"), minimal_client("svc-a", "t")],
    )
    .unwrap_err();
    assert!(error.message().contains("duplicate active client_id 'svc-a'"));
}

#[test]
fn token_templates_must_be_objects() {
    assert!(check_token_template(&JsonValue::Object(Vec::new())).is_ok());
    assert_eq!(
        check_token_template(&JsonValue::Array(Vec::new())).unwrap_err().message(),
        "configuration error: token template must be a JSON object"
    );
}

fn with_algorithm(id: &str, algorithm: Option<SigningAlgorithm>) -> ClientConfig {
    let mut client = minimal_client(id, "s");
    client.signing_algorithm = algorithm;
    client
}

#[test]
fn disabled_clients_and_unused_key_paths_do_not_enable_algorithms() {
    let mut provider = provider_settings();
    provider.signing_key_paths = vec![
        (SigningAlgorithm::ES256, "missing-ec-key.pem".to_string()),
        (SigningAlgorithm::PS256, "missing-rsa-key.pem".to_string()),
    ];
    let mut disabled = with_algorithm("disabled", Some(SigningAlgorithm::ES256));
    disabled.enabled = false;
    let loaded = LoadedConfig::new("config".to_string(), provider, vec![with_algorithm("inherited", None), disabled])
        .unwrap();
    assert_eq!(loaded.clients.len(), 1);
    assert_eq!(
        pocket_oid::app::signing_algorithms(&loaded.provider, &loaded.clients),
        vec![SigningAlgorithm::RS256]
    );
}

#[test]
fn clients_use_independent_algorithms_in_a_fixed_order() {
    let mut provider = provider_settings();
    provider.signing_algorithm = SigningAlgorithm::ES256;
    let clients = build_clients(vec![
        with_algorithm("pss-client", Some(SigningAlgorithm::PS256)),
        with_algorithm("inherited", None),
        with_algorithm("rsa-client", Some(SigningAlgorithm::RS256)),
    ])
    .unwrap();
    assert_eq!(
        pocket_oid::app::signing_algorithms(&provider, &clients),
        vec![SigningAlgorithm::RS256, SigningAlgorithm::ES256, SigningAlgorithm::PS256]
    );
    let inherited = build_clients(vec![with_algorithm("inherited", None)]).unwrap();
    assert_eq!(pocket_oid::app::signing_algorithms(&provider, &inherited), vec![SigningAlgorithm::ES256]);
}

#[test]
fn absolute_key_paths_are_used_as_written() {
    let mut provider = provider_settings();
    provider.signing_key_paths = vec![(SigningAlgorithm::PS256, "/etc/pocket-oid/ps256.pem".to_string())];
    let loaded = LoadedConfig::new("config".to_string(), provider, vec![minimal_client("svc-a", "s")]).unwrap();
    assert_eq!(loaded.key_path_for(SigningAlgorithm::PS256).unwrap(), "/etc/pocket-oid/ps256.pem");
    assert_eq!(loaded.key_path_for(SigningAlgorithm::RS256).unwrap(), "config/keys/signing-key.pem");
}

#[test]
fn configured_paths_resolve_against_the_configuration_directory() {
    assert_eq!(resolve_config_path("config", "users.sqlite3"), "config/users.sqlite3");
    assert_eq!(resolve_config_path("config", "data/admins.sqlite3"), "config/data/admins.sqlite3");
    assert_eq!(resolve_config_path("config", "/var/lib/pocket-oid/users.sqlite3"), "/var/lib/pocket-oid/users.sqlite3");
}

fn text(s: &str) -> JsonValue {
    JsonValue::String(s.to_string())
}

fn object(members: Vec<(&str, JsonValue)>) -> JsonValue {
    JsonValue::Object(members.into_iter().map(|(k, v)| (k.to_string(), v)).collect())
}

/// An array of objects that each need a string `client_id`.
fn entries_schema() -> JsonValue {
    object(vec![
        ("type", text("array")),
        (
            "items",
            object(vec![
                ("type", text("object")),
                ("required", JsonValue::Array(vec![text("client_id")])),
                ("properties", object(vec![("client_id", object(vec![("type", text("string"))]))])),
            ]),
        ),
    ])
}

fn client_document(id: &str) -> JsonValue {
    JsonValue::Array(vec![object(vec![("client_id", text(id)), ("client_secret", text("s"))])])
}

#[test]
fn schema_verdicts_join_the_validation_errors() {
    assert!(schema_verdict(Ok(Vec::new())).is_ok());
    let error = schema_verdict(Ok(vec!["first".to_string(), "second".to_string()])).unwrap_err();
    assert_eq!(error.message(), "schema validation error: first, second");
    let error = schema_verdict(Err("bad keyword".to_string())).unwrap_err();
    assert_eq!(error.message(), "schema validation error: schema compilation failed: bad keyword");
}

#[test]
fn documents_are_checked_against_their_schema() {
    assert!(validate_json(&entries_schema(), &client_document("svc-a")).is_ok());
    assert!(validate_json(&entries_schema(), &JsonValue::Array(Vec::new())).is_ok());
    let missing = JsonValue::Array(vec![object(vec![("client_secret", text("s"))])]);
    let error = validate_json(&entries_schema(), &missing).unwrap_err();
    assert!(matches!(error, AppError::Schema(_)));
    assert!(error.message().contains("client_id"), "{}", error.message());
    let error = validate_json(&entries_schema(), &text("not an array")).unwrap_err();
    assert!(error.message().starts_with("schema validation error: "));
    let broken = object(vec![("type", JsonValue::Number("5".to_string()))]);
    let error = validate_json(&broken, &JsonValue::Null).unwrap_err();
    assert!(error.message().starts_with("schema validation error: schema compilation failed: "), "{}", error.message());
}

fn load(
    provider: Result<pocket_oid::config::ProviderSettings, AppError>,
    raw_clients: JsonValue,
    clients: Vec<ClientConfig>,
    raw_trusted: Option<JsonValue>,
    trusted: Vec<TrustedProviderConfig>,
) -> Result<LoadedConfig, AppError> {
    load_config(
        "config".to_string(),
        provider,
        &entries_schema(),
        Ok(raw_clients),
        Ok(clients),
        &JsonValue::Object(Vec::new()),
        Ok(raw_trusted),
        Ok(trusted),
    )
}

#[test]
fn loading_checks_each_file_in_order() {
    let loaded = load(Ok(provider_settings()), client_document("svc-a"), vec![minimal_client("svc-a", "s")], None, Vec::new())
        .unwrap();
    assert_eq!(loaded.clients.len(), 1);
    assert!(loaded.trusted_providers.is_empty());
    assert_eq!(loaded.config_root, "config");

    let error = load(Err(AppError::Io("provider.json is missing".to_string())), client_document("svc-a"), Vec::new(), None, Vec::new())
        .unwrap_err();
    assert_eq!(error.message(), AppError::Io("provider.json is missing".to_string()).message());

    let mut bad = provider_settings();
    bad.login_background_color = Some("blue".to_string());
    let error = load(Ok(bad), JsonValue::Null, Vec::new(), None, Vec::new()).unwrap_err();
    assert!(error.message().contains("login_background_color"));

    let error = load(Ok(provider_settings()), JsonValue::Null, vec![minimal_client("svc-a", "s")], None, Vec::new())
        .unwrap_err();
    assert!(matches!(error, AppError::Schema(_)));

    let error = load(Ok(provider_settings()), client_document("svc-a"), Vec::new(), None, Vec::new()).unwrap_err();
    assert!(error.message().contains("no active clients configured"));

    let mut reauth = minimal_client("svc-a", "s");
    reauth.auth_mode = ClientAuthMode::ReAuth;
    reauth.re_auth = Some(ReAuthClientConfig {
        provider_id: "partner".to_string(),
        upstream_scopes: vec!["openid".to_string()],
        consent: pocket_oid::config::ReAuthConsent::Local,
    });
    let error = load(Ok(provider_settings()), client_document("svc-a"), vec![reauth], None, Vec::new()).unwrap_err();
    assert!(error.message().contains("references unknown provider_id 'partner'"), "{}", error.message());

    let mut reauth = minimal_client("svc-a", "s");
    reauth.auth_mode = ClientAuthMode::ReAuth;
    reauth.re_auth = Some(ReAuthClientConfig {
        provider_id: "partner".to_string(),
        upstream_scopes: vec!["openid".to_string()],
        consent: pocket_oid::config::ReAuthConsent::Local,
    });
    let trusted_doc = JsonValue::Array(Vec::new());
    let loaded = load(
        Ok(provider_settings()),
        client_document("svc-a"),
        vec![reauth],
        Some(trusted_doc),
        vec![partner(vec![SigningAlgorithm::RS256])],
    )
    .unwrap();
    assert_eq!(loaded.trusted_providers.len(), 1);
}

#[test]
fn a_missing_trusted_providers_file_is_checked_as_an_empty_array() {
    let error = load_config(
        "config".to_string(),
        Ok(provider_settings()),
        &entries_schema(),
        Ok(client_document("svc-a")),
        Ok(vec![minimal_client("svc-a", "s")]),
        &object(vec![("type", text("object"))]),
        Ok(None),
        Ok(Vec::new()),
    )
    .unwrap_err();
    assert!(matches!(error, AppError::Schema(_)));
    assert!(error.message().contains("object"), "{}", error.message());
}
