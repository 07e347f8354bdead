use argon2::password_hash::{PasswordHasher, SaltString};
use argon2::Argon2;
use pocket_oid::users::{
    authenticate_user, copy_user, create_dummy_credential, find_user, load_file_users, sha256_hex, sqlite_user,
    PasswordCredential, UserConfig, UsersConfig, ARGON2_MIN_M_COST, ARGON2_MIN_OUTPUT_LEN, ARGON2_MIN_T_COST,
};

fn argon2id_hash(password: &str) -> String {
    let salt = SaltString::encode_b64(b"unique-test-salt").unwrap();
    Argon2::default().hash_password(password.as_bytes(), &salt).unwrap().to_string()
}

fn authenticate(users: &Vec<pocket_oid::users::User>, username: &str, password: &str) -> bool {
    let dummy = create_dummy_credential().unwrap();
    let found = find_user(users, username).map(copy_user);
    authenticate_user(found, &dummy, password).is_some()
}

#[test]
fn authenticates_argon2id_file_user() {
    let users = load_file_users(vec![UserConfig {
        id: "user-alice".to_string(),
        username: "alice".to_string(),
        password_hash: Some(argon2id_hash("password123")),
        password_plain: None,
    }])
    .unwrap();

    assert!(authenticate(&users, "alice", "password123"));
    assert!(!authenticate(&users, "alice", "wrong"));
}

#[test]
fn legacy_file_password_formats_remain_supported() {
    let users = load_file_users(vec![
        UserConfig {
            id: "user-alice".to_string(),
            username: "alice".to_string(),
            password_hash: Some(
                "sha256:ef92b778bafe771e89245b89ecbc08a44a4e166c06659911881f383d4473e94f".to_string(),
            ),
            password_plain: None,
        },
        UserConfig {
            id: "user-bob".to_string(),
            username: "bob".to_string(),
            password_hash: None,
            password_plain: Some("password456".to_string()),
        },
    ])
    .unwrap();

    assert!(authenticate(&users, "alice", "password123"));
    assert!(authenticate(&users, "bob", "password456"));
}

#[test]
fn users_config_selects_a_sqlite_provider_with_a_path() {
    let config = UsersConfig::Sqlite { path: "data/users.sqlite3".to_string() };
    assert!(matches!(config, UsersConfig::Sqlite { path } if path == "data/users.sqlite3"));
}

#[test]
fn rejects_legacy_password_key_without_supported_password_fields() {
    let error = load_file_users(vec![UserConfig {
        id: "user-alice".to_string(),
        username: "alice".to_string(),
        password_hash: None,
        password_plain: None,
    }])
    .err()
    .expect("legacy password key should be rejected");
    assert!(error.message().contains("must set password_hash or password_plain"));
}

#[test]
fn sqlite_requires_argon2id_password_hashes() {
    let error = sqlite_user(
        "user-alice".to_string(),
        "alice".to_string(),
        "sha256:ef92b778bafe771e89245b89ecbc08a44a4e166c06659911881f383d4473e94f".to_string(),
    )
    .err()
    .expect("legacy SHA-256 should be rejected for sqlite users");
    assert!(error.message().contains("Argon2id PHC"));
}

#[test]
fn sqlite_users_need_an_id_and_a_name() {
    let hash = argon2id_hash("password123");
    let error = sqlite_user(" ".to_string(), "alice".to_string(), hash.clone()).err().unwrap();
    assert!(error.message().contains("sqlite user id must not be empty"));
    let error = sqlite_user("user-1".to_string(), "".to_string(), hash.clone()).err().unwrap();
    assert!(error.message().contains("sqlite username must not be empty"));
    let user = sqlite_user("user-1".to_string(), "alice".to_string(), hash).unwrap();
    assert!(user.credential.verify_password("password123"));
    assert!(!user.credential.verify_password("password124"));
}

#[test]
fn no_configured_users_is_an_error() {
    let error = load_file_users(Vec::new()).err().unwrap();
    assert!(error.message().contains("no users configured"));
}

#[test]
fn unknown_users_are_refused() {
    let users = load_file_users(vec![UserConfig {
        id: "user-bob".to_string(),
        username: "bob".to_string(),
        password_hash: None,
        password_plain: Some("password456".to_string()),
    }])
    .unwrap();
    assert!(!authenticate(&users, "mallory", "password456"));
}

#[test]
fn sha256_hex_is_the_lowercase_digest() {
    assert_eq!(
        sha256_hex("password123"),
        "ef92b778bafe771e89245b89ecbc08a44a4e166c06659911881f383d4473e94f"
    );
    let credential = PasswordCredential::Sha256 {
        hex: "ef92b778bafe771e89245b89ecbc08a44a4e166c06659911881f383d4473e94f".to_string(),
    };
    assert!(credential.verify_password("password123"));
}

#[test]
fn argon2_minimums_are_the_crate_defaults() {
    let params = argon2::Params::default();
    assert_eq!(params.m_cost(), ARGON2_MIN_M_COST);
    assert_eq!(params.t_cost(), ARGON2_MIN_T_COST);
    assert_eq!(argon2::Params::DEFAULT_OUTPUT_LEN, ARGON2_MIN_OUTPUT_LEN);
}

#[test]
fn dummy_credential_is_an_argon2id_hash() {
    match create_dummy_credential().unwrap() {
        PasswordCredential::Argon2id { phc } => assert!(phc.starts_with("$argon2id$")),
        _ => panic!("dummy credential must be Argon2id"),
    }
}
