use argon2::password_hash::{PasswordHash, PasswordHasher, PasswordVerifier, SaltString};
use argon2::Argon2;
use pocket_oid::admin_console::{
    admin_cookie, application_count, asset, client_search_text, cookie, effective_token_settings, find_id,
    search_listing, user_search_text, csrf_matches, duration, random_token, selected_url, selection_status,
    Access, AdminConsole, ClientSummary, ConsoleReply, LoginStart, Selection,
};
use pocket_oid::console_pages::{admin_login_page, clients_page, provider_page, users_page, UserRow};
use pocket_oid::admins::{
    admin_exists_message, admin_sign_in, hash_password, hash_password_with_salt, prepare_admin, schema_step,
    unsupported_schema_message, validate_password, validate_username, AdminRecord, SchemaStep,
};
use pocket_oid::cli::{admin_table, confirm_password, created_message, resolve_log_dir, run_command, AdminCommand, Command};
use pocket_oid::config::{
    ClientAuthMode, ClientConfig, ConsentMode, ReAuthClientConfig, ReAuthConsent, SigningAlgorithm,
};
use pocket_oid::time::UtcTime;

#[test]
fn duration_uses_actual_values() {
    assert_eq!(duration(3600), "3,600 seconds (1 hour)");
    assert_eq!(duration(900), "900 seconds (15 minutes)");
    assert_eq!(duration(61), "61 seconds (61 seconds)");
}

#[test]
fn duration_groups_long_numbers_and_handles_zero() {
    assert_eq!(duration(0), "0 seconds (0 seconds)");
    assert_eq!(duration(1), "1 seconds (1 second)");
    assert_eq!(duration(60), "60 seconds (1 minute)");
    assert_eq!(duration(86400), "86,400 seconds (24 hours)");
    assert_eq!(duration(1234567), "1,234,567 seconds (1234567 seconds)");
}

#[test]
fn usernames_are_validated() {
    assert!(validate_username("alice").is_ok());
    assert_eq!(validate_username("   ").unwrap_err(), "administrator username must not be empty");
    assert_eq!(validate_username("").unwrap_err(), "administrator username must not be empty");
    assert_eq!(
        validate_username(" alice").unwrap_err(),
        "administrator username must not start or end with whitespace"
    );
    assert_eq!(
        validate_username("al\u{7}ice").unwrap_err(),
        "administrator username must not contain control characters"
    );
    assert_eq!(
        validate_username(&"a".repeat(129)).unwrap_err(),
        "administrator username must not exceed 128 characters"
    );
    assert!(validate_username(&"é".repeat(128)).is_ok());
}

#[test]
fn passwords_must_not_be_empty() {
    assert!(validate_password("x").is_ok());
    assert_eq!(validate_password("").unwrap_err(), "administrator password must not be empty");
}

#[test]
fn hashed_passwords_verify_with_argon2id() {
    let hash = hash_password("correct horse battery staple").unwrap();
    assert!(hash.starts_with("$argon2id$"));
    let parsed = PasswordHash::new(&hash).unwrap();
    assert!(Argon2::default().verify_password(b"correct horse battery staple", &parsed).is_ok());
    let again = hash_password("correct horse battery staple").unwrap();
    assert_ne!(hash, again);
}

#[test]
fn hashing_with_a_given_salt_is_deterministic() {
    let a = hash_password_with_salt("pw", b"0123456789abcdef").unwrap();
    let b = hash_password_with_salt("pw", b"0123456789abcdef").unwrap();
    assert_eq!(a, b);
    // Too short a salt is refused by the hasher.
    let error = hash_password_with_salt("pw", b"").unwrap_err();
    assert!(error.starts_with("failed to encode password salt: ") || error.starts_with("failed to hash administrator password: "));
}

fn record(enabled: bool) -> AdminRecord {
    AdminRecord {
        id: "admin-1".to_string(),
        username: "operator".to_string(),
        enabled,
        created_at: "2024-01-01 00:00:00".to_string(),
    }
}

#[test]
fn sign_in_needs_an_enabled_account_and_the_right_password() {
    let hash = hash_password("test-admin-password").unwrap();
    let dummy = hash_password("not-an-administrator-password").unwrap();
    let admin = admin_sign_in(Some((record(true), hash.clone())), &dummy, "test-admin-password");
    assert_eq!(admin.map(|a| a.id), Some("admin-1".to_string()));
    assert!(admin_sign_in(Some((record(true), hash.clone())), &dummy, "wrong").is_none());
    assert!(admin_sign_in(Some((record(false), hash)), &dummy, "test-admin-password").is_none());
    assert!(admin_sign_in(None, &dummy, "not-an-administrator-password").is_none());
}

#[test]
fn sign_in_refuses_hashes_of_other_algorithms() {
    let salt = SaltString::encode_b64(b"unique-test-salt").unwrap();
    let argon2i = Argon2::new(argon2::Algorithm::Argon2i, argon2::Version::V0x13, argon2::Params::default());
    let hash = argon2i.hash_password(b"pw", &salt).unwrap().to_string();
    assert!(hash.starts_with("$argon2i$"));
    let dummy = hash_password("dummy").unwrap();
    assert!(admin_sign_in(Some((record(true), hash)), &dummy, "pw").is_none());
}

#[test]
fn new_administrators_are_validated_and_hashed() {
    let admin = prepare_admin("alice", "correct horse battery staple").unwrap();
    assert_eq!(admin.username, "alice");
    assert_eq!(admin.id.len(), 36);
    assert!(admin.password_hash.contains("argon2id"));
    assert_eq!(prepare_admin(" alice", "pw").err().unwrap(), "administrator username must not start or end with whitespace");
    assert_eq!(prepare_admin("alice", "").err().unwrap(), "administrator password must not be empty");
    assert_eq!(admin_exists_message("alice"), "administrator 'alice' already exists");
}

#[test]
fn schema_versions_are_checked() {
    assert!(matches!(schema_step(0), SchemaStep::Initialize));
    assert!(matches!(schema_step(1), SchemaStep::Validate));
    assert!(matches!(schema_step(2), SchemaStep::Unsupported));
    assert!(matches!(schema_step(-1), SchemaStep::Unsupported));
    assert_eq!(
        unsupported_schema_message("administrator database", "/tmp/admins.sqlite3", 2),
        "administrator database '/tmp/admins.sqlite3' has unsupported schema version 2; supported version: 1"
    );
}

fn client(id: &str, mode: ClientAuthMode) -> ClientConfig {
    ClientConfig {
        client_id: id.to_string(),
        client_secret: "never-render-this-client-secret".to_string(),
        signing_algorithm: None,
        audience: None,
        scopes: vec!["openid".to_string()],
        metadata: Vec::new(),
        enabled: true,
        token_ttl_seconds: None,
        redirect_uris: vec!["https://app.example.local/callback".to_string()],
        response_types: vec!["code".to_string()],
        require_pkce: false,
        consent_mode: ConsentMode::Skip,
        auth_mode: mode,
        re_auth: None,
    }
}

#[test]
fn client_summaries_show_modes_and_overrides() {
    let local = ClientSummary::from(&client("svc-a", ClientAuthMode::Local));
    assert_eq!(local.mode, "Local");
    assert_eq!(local.consent, "Skip consent");
    assert!(local.trusted.is_none());
    assert!(local.algorithm.is_none());

    let mut upstream = client("svc-reauth", ClientAuthMode::ReAuth);
    upstream.re_auth = Some(ReAuthClientConfig {
        provider_id: "partner".to_string(),
        upstream_scopes: vec!["openid".to_string(), "email".to_string()],
        consent: ReAuthConsent::Skip,
    });
    upstream.signing_algorithm = Some(SigningAlgorithm::ES256);
    upstream.token_ttl_seconds = Some(900);
    let summary = ClientSummary::from(&upstream);
    assert_eq!(summary.mode, "Upstream");
    assert_eq!(summary.consent, "Skip local consent");
    assert_eq!(summary.trusted.as_deref(), Some("partner"));
    assert_eq!(summary.upstream_scopes, vec!["openid".to_string(), "email".to_string()]);
    assert_eq!(summary.algorithm.as_deref(), Some("ES256"));
    assert_eq!(summary.lifetime, Some(900));
    assert_eq!(duration(summary.lifetime.unwrap()), "900 seconds (15 minutes)");
}

#[test]
fn the_console_cookie_is_read_and_written() {
    assert_eq!(cookie(Some("a=1; pocket_oid_admin=tok; b=2")).as_deref(), Some("tok"));
    assert_eq!(cookie(Some("pocket_oid_session=ordinary-session")), None);
    assert_eq!(cookie(None), None);
    assert_eq!(
        admin_cookie("tok", "https://pocket.example.test", false),
        "pocket_oid_admin=tok; Path=/admin; HttpOnly; SameSite=Strict; Max-Age=3600; Secure"
    );
    assert_eq!(
        admin_cookie("", "http://localhost:8080", true),
        "pocket_oid_admin=; Path=/admin; HttpOnly; SameSite=Strict; Max-Age=0"
    );
}

#[test]
fn csrf_tokens_compare_exactly() {
    assert!(csrf_matches("abc", "abc"));
    assert!(!csrf_matches("abc", "abd"));
    assert!(!csrf_matches("abc", "ab"));
    assert!(!csrf_matches("abc", ""));
}

#[test]
fn random_tokens_are_43_url_safe_characters() {
    let a = random_token().unwrap();
    let b = random_token().unwrap();
    assert_eq!(a.len(), 43);
    assert!(a.chars().all(|c| c.is_ascii_alphanumeric() || c == '-' || c == '_'));
    assert_ne!(a, b);
}

#[test]
fn links_carry_the_selection() {
    assert_eq!(selected_url("clients", None, ""), "/admin/clients");
    assert_eq!(selected_url("clients", Some("svc a"), ""), "/admin/clients?id=svc+a");
    assert_eq!(selected_url("users", Some("u1"), "ali&ce"), "/admin/users?id=u1&q=ali%26ce");
    assert_eq!(selected_url("users", None, "x"), "/admin/users?q=x");
    assert!(pocket_oid::admin_console::matches("Client-A openid", "  client-a "));
    assert!(!pocket_oid::admin_console::matches("svc-b", "svc-a"));
    assert!(pocket_oid::admin_console::matches("anything", ""));
    let ids = vec!["svc-a".to_string()];
    assert_eq!(selection_status(&ids, Some("svc-a")), 200);
    assert_eq!(selection_status(&ids, Some("missing")), 404);
    assert_eq!(selection_status(&ids, None), 200);
}

fn at(secs: i64) -> UtcTime {
    UtcTime { secs, nanos: 0 }
}

fn tokens(token: &str, csrf: &str) -> Option<(String, String)> {
    Some((token.to_string(), csrf.to_string()))
}

#[test]
fn console_requires_a_separate_administrator_session() {
    let mut console = AdminConsole::load(true, &[client("svc-a", ClientAuthMode::Local)]);
    let issuer = "https://pocket.example.test";
    // An ordinary provider session gives no console access.
    assert!(matches!(console.access_at(at(100), Some("pocket_oid_session=ordinary-session")), Access::SignIn));

    // The sign-in page starts a sign-in session.
    let page = console.login_page_at(at(100), None, false, tokens("pre", "form"), issuer);
    match page {
        ConsoleReply::LoginPage { status, csrf, message, set_cookie } => {
            assert_eq!(status, 200);
            assert_eq!(csrf, "form");
            assert!(message.is_none());
            assert!(set_cookie.unwrap().starts_with("pocket_oid_admin=pre;"));
        }
        _ => panic!("expected the sign-in page"),
    }
    // A sign-in session is not an administrator session.
    assert!(matches!(console.access_at(at(101), Some("pocket_oid_admin=pre")), Access::SignIn));
    // The page reuses the browser's sign-in session.
    match console.login_page_at(at(101), Some("pocket_oid_admin=pre"), false, tokens("x", "y"), issuer) {
        ConsoleReply::LoginPage { csrf, set_cookie, .. } => {
            assert_eq!(csrf, "form");
            assert!(set_cookie.is_none());
        }
        _ => panic!("expected the sign-in page"),
    }

    // A wrong form token is refused.
    match console.begin_login_at(at(102), Some("pocket_oid_admin=pre"), "wrong", true) {
        LoginStart::Reply(ConsoleReply::LoginPage { status, message, .. }) => {
            assert_eq!(status, 403);
            assert_eq!(message.unwrap(), "This sign-in form expired. Reload the page and try again.");
        }
        _ => panic!("expected a refusal"),
    }
    // The right one proceeds to verification.
    let csrf = match console.begin_login_at(at(102), Some("pocket_oid_admin=pre"), "form", true) {
        LoginStart::Verify { csrf } => csrf,
        _ => panic!("expected verification"),
    };
    // A wrong password shows the form again.
    match console.finish_login_at(at(103), Some("pocket_oid_admin=pre"), csrf.clone(), Some(None), None, issuer) {
        ConsoleReply::LoginPage { status, message, .. } => {
            assert_eq!(status, 401);
            assert_eq!(message.unwrap(), "Invalid administrator username or password.");
        }
        _ => panic!("expected the sign-in page"),
    }
    // A right one replaces the sign-in session with an administrator session.
    match console.finish_login_at(at(103), Some("pocket_oid_admin=pre"), csrf, Some(Some(record(true))), tokens("admin-token", "admin-form"), issuer) {
        ConsoleReply::Redirect { location, set_cookie } => {
            assert_eq!(location, "/admin/clients");
            assert!(set_cookie.unwrap().starts_with("pocket_oid_admin=admin-token;"));
        }
        _ => panic!("expected a redirect"),
    }
    assert!(console.session_at(at(104), "pre").is_none());
    match console.access_at(at(104), Some("pocket_oid_admin=admin-token")) {
        Access::Check { admin_id, csrf } => {
            assert_eq!(admin_id, "admin-1");
            assert_eq!(csrf, "admin-form");
        }
        _ => panic!("expected access"),
    }
    // The session lasts an hour.
    assert!(matches!(console.access_at(at(103 + 3600), Some("pocket_oid_admin=admin-token")), Access::SignIn));
}

#[test]
fn logout_checks_csrf_and_invalidates_the_session() {
    let mut console = AdminConsole::load(true, &[]);
    let issuer = "http://localhost";
    console.new_session_at(at(10), Some("admin-1".to_string()), tokens("t", "c")).unwrap();
    assert!(matches!(console.logout_at(at(11), Some("pocket_oid_admin=t"), "wrong", issuer), ConsoleReply::Forbidden));
    match console.logout_at(at(11), Some("pocket_oid_admin=t"), "c", issuer) {
        ConsoleReply::Redirect { location, set_cookie } => {
            assert_eq!(location, "/admin/login");
            assert!(set_cookie.unwrap().contains("Max-Age=0"));
        }
        _ => panic!("expected a redirect"),
    }
    assert!(matches!(console.access_at(at(12), Some("pocket_oid_admin=t")), Access::SignIn));
    match console.logout_at(at(12), Some("pocket_oid_admin=t"), "c", issuer) {
        ConsoleReply::Redirect { set_cookie, .. } => assert!(set_cookie.is_none()),
        _ => panic!("expected a redirect"),
    }
}

#[test]
fn sign_in_attempts_are_limited_per_minute() {
    let mut console = AdminConsole::load(true, &[]);
    for i in 0..30 {
        assert!(console.sign_in_allowed_at(UtcTime { secs: 1000, nanos: i }));
    }
    assert!(!console.sign_in_allowed_at(at(1001)));
    assert!(!console.sign_in_allowed_at(at(1059)));
    assert!(console.sign_in_allowed_at(UtcTime { secs: 1060, nanos: 0 }));
}

#[test]
fn sessions_are_capped() {
    let mut console = AdminConsole::load(true, &[]);
    for i in 0..4096 {
        console.new_session_at(at(0), None, tokens(&format!("t{i}"), "c")).unwrap();
    }
    assert_eq!(
        console.new_session_at(at(1), None, tokens("one-more", "c")).unwrap_err(),
        "administrator session capacity reached"
    );
    // Sign-in sessions last ten minutes; once they expire there is room again.
    assert!(console.new_session_at(at(600), None, tokens("later", "c")).is_ok());
}

#[test]
fn unconfigured_console_says_so() {
    let mut console = AdminConsole::load(false, &[]);
    match console.login_page_at(at(0), None, false, tokens("a", "b"), "https://x") {
        ConsoleReply::LoginPage { status, message, .. } => {
            assert_eq!(status, 503);
            assert!(message.unwrap().contains("Administrator access is not configured"));
        }
        _ => panic!("expected the sign-in page"),
    }
}

#[test]
fn command_line_helpers() {
    assert!(matches!(
        run_command(Command::Admin { command: AdminCommand::Create { username: "alice".to_string() } }),
        AdminCommand::Create { username } if username == "alice"
    ));
    assert!(matches!(run_command(Command::Admin { command: AdminCommand::List }), AdminCommand::List));
    assert!(confirm_password("a", "a").is_ok());
    assert_eq!(confirm_password("a", "b").unwrap_err(), "passwords do not match");
    assert_eq!(created_message("alice"), "Created administrator 'alice'.");
    assert_eq!(resolve_log_dir("config", "/var/log/pocket"), "/var/log/pocket");
    assert_eq!(resolve_log_dir("config", "logs"), "config/logs");
}

#[test]
fn administrators_are_listed_in_aligned_columns() {
    assert_eq!(admin_table(&[]), vec!["No administrator accounts found.".to_string()]);
    let admins = vec![
        AdminRecord { id: "1".into(), username: "al".into(), enabled: true, created_at: "2024-01-01".into() },
        AdminRecord { id: "2".into(), username: "administrator".into(), enabled: false, created_at: "2024-02-02".into() },
    ];
    assert_eq!(
        admin_table(&admins),
        vec![
            "USERNAME       STATUS    CREATED_AT".to_string(),
            "al             enabled   2024-01-01".to_string(),
            "administrator  disabled  2024-02-02".to_string(),
        ]
    );
}

#[test]
fn console_assets_have_their_content_types() {
    let css = asset("console.css").expect("stylesheet");
    assert_eq!(css.content_type, "text/css; charset=utf-8");
    assert_eq!(css.path, "assets/admin/console.css");
    let logo = asset("logo.svg").expect("logo");
    assert_eq!(logo.content_type, "image/svg+xml");
    assert_eq!(logo.path, "assets/pocket-oid-logo.svg");
    let font = asset("inter-600.woff2").expect("font");
    assert_eq!(font.content_type, "font/woff2");
    assert!(asset("../config.json").is_none());
    assert!(asset("console.CSS").is_none());
    assert!(asset("").is_none());
}

#[test]
fn searches_show_matching_rows_and_count_them() {
    let mut with_scopes = client("svc-a", ClientAuthMode::Local);
    with_scopes.scopes = vec!["openid".to_string(), "Profile".to_string()];
    let first = ClientSummary::from(&with_scopes);
    let second = ClientSummary::from(&client("billing", ClientAuthMode::Local));
    let texts = vec![client_search_text(&first), client_search_text(&second)];
    assert_eq!(texts[0], "svc-a openid Profile");
    assert_eq!(texts[1], "billing openid");

    let all = search_listing(&texts, "");
    assert_eq!(all.shown, vec![true, true]);
    assert_eq!(all.count, 2);
    let profile = search_listing(&texts, "  PROFILE ");
    assert_eq!(profile.shown, vec![true, false]);
    assert_eq!(profile.count, 1);
    let none = search_listing(&texts, "missing");
    assert_eq!(none.shown, vec![false, false]);
    assert_eq!(none.count, 0);

    assert_eq!(application_count(1), "1 application · includes disabled clients");
    assert_eq!(application_count(2), "2 applications · includes disabled clients");
    assert_eq!(application_count(0), "0 applications · includes disabled clients");
    assert_eq!(user_search_text("alice", "u-1"), "alice u-1");
}

#[test]
fn selected_items_are_found_by_id() {
    let ids = vec!["a".to_string(), "b".to_string(), "b".to_string()];
    assert_eq!(find_id(&ids, "a"), Some(0));
    assert_eq!(find_id(&ids, "b"), Some(1));
    assert_eq!(find_id(&ids, "c"), None);
    assert_eq!(find_id(&Vec::new(), "a"), None);
}

#[test]
fn client_token_settings_fall_back_to_the_provider() {
    let plain = ClientSummary::from(&client("svc-a", ClientAuthMode::Local));
    let (algorithm, lifetime) = effective_token_settings(&plain, SigningAlgorithm::RS256, 3600);
    assert_eq!(algorithm, "RS256");
    assert_eq!(lifetime, 3600);

    let mut custom = client("svc-b", ClientAuthMode::Local);
    custom.signing_algorithm = Some(SigningAlgorithm::ES256);
    custom.token_ttl_seconds = Some(900);
    let summary = ClientSummary::from(&custom);
    let (algorithm, lifetime) = effective_token_settings(&summary, SigningAlgorithm::RS256, 3600);
    assert_eq!(algorithm, "ES256");
    assert_eq!(lifetime, 900);
}

fn provider_settings() -> pocket_oid::config::ProviderSettings {
    pocket_oid::config::ProviderSettings {
        name: "Pocket-OID".to_string(),
        issuer: "https://pocket.example.test".to_string(),
        token_ttl_seconds: 3600,
        listen: "127.0.0.1:8080".to_string(),
        log_dir: None,
        signing_algorithm: SigningAlgorithm::RS256,
        signing_key_paths: Vec::new(),
        login_background_color: None,
    }
}

fn selection(q: &str, id: Option<&str>) -> Selection {
    Selection { q: q.to_string(), id: id.map(str::to_string) }
}

#[test]
fn client_pages_show_the_list_states_and_escape_values() {
    let mut tricky = client("<svc>", ClientAuthMode::Local);
    tricky.enabled = false;
    let clients = vec![ClientSummary::from(&client("svc-a", ClientAuthMode::Local)), ClientSummary::from(&tricky)];
    let page = clients_page("admin", "tok", &clients, &provider_settings(), &selection("", None));
    assert!(page.contains("2 applications · includes disabled clients"));
    assert!(page.contains("&lt;svc&gt;") && !page.contains("<svc>"));
    assert!(page.contains("Disabled"));
    assert!(!page.contains("never-render-this-client-secret"));
    assert!(page.contains("<div class=\"state\" role=\"status\" hidden><h2>No client applications configured."));
    assert!(page.contains("<div class=\"state\" data-no-results hidden role=\"status\">"));

    let none = clients_page("admin", "tok", &clients, &provider_settings(), &selection("zzz", None));
    assert!(none.contains("<div class=\"state\" data-no-results role=\"status\">"));
    assert!(none.contains("<table data-filter-table hidden>"));

    let empty = clients_page("admin", "tok", &Vec::new(), &provider_settings(), &selection("", None));
    assert!(empty.contains("<div class=\"state\" role=\"status\"><h2>No client applications configured."));

    let missing = clients_page("admin", "tok", &clients, &provider_settings(), &selection("", Some("nope")));
    assert!(missing.contains("<h1>Client not found</h1>"));

    let detail = clients_page("admin", "tok", &clients, &provider_settings(), &selection("", Some("svc-a")));
    assert!(detail.contains("<h1>svc-a</h1>"));
    assert!(detail.contains("Redirect URL 1"));
    assert!(detail.contains("Inherited from provider"));
    assert!(detail.contains("3,600 seconds (1 hour)"));
}

#[test]
fn user_pages_show_the_error_empty_and_selection_states() {
    let users = Some(vec![
        UserRow { id: "u-1".to_string(), username: "alice".to_string(), enabled: true },
        UserRow { id: "u-2".to_string(), username: "bob".to_string(), enabled: false },
    ]);
    let page = users_page("admin", "tok", &users, "SQLite", &selection("", Some("u-2")));
    assert!(page.contains("2 users found"));
    assert!(page.contains("class=\"selected\""));
    assert!(page.contains("<aside class=\"user-detail\""));
    assert!(page.contains("<div class=\"state error\" role=\"alert\" hidden>"));

    let failed = users_page("admin", "tok", &None, "SQLite", &selection("", None));
    assert!(failed.contains("<div class=\"state error\" role=\"alert\"><h2>Could not load users."));

    let empty = users_page("admin", "tok", &Some(Vec::new()), "JSON", &selection("", None));
    assert!(empty.contains("<div class=\"state\" role=\"status\"><h2>No local users available."));
    assert!(empty.contains("All configured JSON users are enabled."));

    let unknown = users_page("admin", "tok", &users, "SQLite", &selection("", Some("u-9")));
    assert!(unknown.contains("This user is not available."));

    let nomatch = users_page("admin", "tok", &users, "SQLite", &selection("carol", None));
    assert!(nomatch.contains("<div class=\"state\" data-no-results role=\"status\">"));
    assert!(nomatch.contains("0 users found"));
}

#[test]
fn provider_and_sign_in_pages_escape_and_show_their_states() {
    let mut provider = provider_settings();
    provider.login_background_color = Some("#1a2b3c".to_string());
    provider.name = "<Pocket>".to_string();
    let page = provider_page("admin", "tok", &provider);
    assert!(page.contains("&lt;Pocket&gt;") && !page.contains("<Pocket>"));
    assert!(page.contains("<span class=\"swatch\" style=\"background: #1a2b3c\" aria-hidden=\"true\"></span>"));
    assert!(page.contains("3,600 seconds (1 hour)"));
    provider.login_background_color = None;
    assert!(provider_page("admin", "tok", &provider).contains("Default background"));

    let ready = admin_login_page("form-token", None);
    assert!(ready.contains("value=\"form-token\""));
    assert!(!ready.contains("Reload sign in"));
    let closed = admin_login_page("", Some("Administrator access is not configured."));
    assert!(closed.contains("<form method=\"post\" action=\"/admin/login\" hidden>"));
    assert!(closed.contains("Reload sign in"));
    assert!(closed.contains("<p class=\"login-error\" role=\"alert\">Administrator access is not configured.</p>"));
}
