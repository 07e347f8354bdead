//! Local users: their password credentials, how a configured credential is
//! accepted, and how a login is checked.

use vstd::prelude::*;

use crate::bindings::{
    argon2_accepts, argon2_costs, argon2_hash, argon2_hash_password, argon2_params, argon2_verify,
    encode_salt, parse_phc, phc_fields, salt_b64, sha256, sha256_digest,
};
use crate::error::AppError;
use crate::json::hex_digit;
use crate::text::{blank, concat, concat3, is_blank, push_char, starts_with, str_chars, str_eq, string_from_chars};
use crate::upstream::constant_time_eq;
use vstd::utf8::encode_utf8;

verus! {

/// The least Argon2 memory cost accepted, in KiB (argon2's default).
pub const ARGON2_MIN_M_COST: u32 = 19456;

/// The least Argon2 time cost accepted (argon2's default).
pub const ARGON2_MIN_T_COST: u32 = 2;

/// The least Argon2 output length accepted, in bytes (argon2's default).
pub const ARGON2_MIN_OUTPUT_LEN: usize = 32;

/// The fields of a parsed PHC string that the checks read.
#[derive(Debug)]
pub struct PhcSummary {
    pub algorithm: String,
    pub has_salt: bool,
    pub output_len: Option<usize>,
    pub version: Option<u32>,
}

/// A stored password credential.
#[derive(Debug)]
pub enum PasswordCredential {
    Argon2id { phc: String },
    Sha256 { hex: String },
    Plain { value: String },
}

/// A credential with its texts as character sequences.
pub enum CredentialView {
    Argon2id(Seq<char>),
    Sha256(Seq<char>),
    Plain(Seq<char>),
}

impl View for PasswordCredential {
    type V = CredentialView;

    open spec fn view(&self) -> CredentialView {
        match self {
            PasswordCredential::Argon2id { phc } => CredentialView::Argon2id(phc@),
            PasswordCredential::Sha256 { hex } => CredentialView::Sha256(hex@),
            PasswordCredential::Plain { value } => CredentialView::Plain(value@),
        }
    }
}

/// A user entry of `users.json`.
#[derive(Debug)]
pub struct UserConfig {
    pub id: String,
    pub username: String,
    pub password_hash: Option<String>,
    pub password_plain: Option<String>,
}

/// Where users are kept.
#[derive(Debug)]
pub enum UsersConfig {
    File { users: Vec<UserConfig> },
    Sqlite { path: String },
}

/// A user who can sign in.
#[derive(Debug)]
pub struct User {
    pub id: String,
    pub username: String,
    pub credential: PasswordCredential,
}

// ---------------------------------------------------------------------------
// Verifying passwords
// ---------------------------------------------------------------------------

/// The lowercase hexadecimal text of bytes.
pub open spec fn hex_text(bytes: Seq<u8>) -> Seq<char>
    decreases bytes.len(),
{
    if bytes.len() == 0 {
        Seq::empty()
    } else {
        hex_text(bytes.drop_last()) + seq![
            hex_digit((bytes.last() / 16) as u32),
            hex_digit((bytes.last() % 16) as u32),
        ]
    }
}

/// The lowercase hexadecimal SHA-256 digest of a password's UTF-8 bytes.
pub open spec fn sha256_hex_of(value: Seq<char>) -> Seq<char> {
    hex_text(sha256(encode_utf8(value)))
}

fn hex_char(n: u8) -> (c: char)
    requires
        n < 16,
    ensures
        c == hex_digit(n as u32),
{
    match n {
        0 => '0',
        1 => '1',
        2 => '2',
        3 => '3',
        4 => '4',
        5 => '5',
        6 => '6',
        7 => '7',
        8 => '8',
        9 => '9',
        10 => 'a',
        11 => 'b',
        12 => 'c',
        13 => 'd',
        14 => 'e',
        _ => 'f',
    }
}

/// The lowercase hexadecimal SHA-256 digest of `value`.
pub fn sha256_hex(value: &str) -> (r: String)
    ensures
        r@ == sha256_hex_of(value@),
{
    let digest = sha256_digest(value.as_bytes());
    let mut r = String::new();
    for i in 0..digest.len()
        invariant
            r@ == hex_text(digest@.take(i as int)),
    {
        let b = digest[i];
        proof {
            assert(digest@.take(i + 1).drop_last() =~= digest@.take(i as int));
            assert(digest@.take(i + 1).last() == b);
        }
        push_char(&mut r, hex_char(b / 16));
        push_char(&mut r, hex_char(b % 16));
        assert(r@ =~= hex_text(digest@.take(i + 1)));
    }
    assert(digest@.take(digest@.len() as int) =~= digest@);
    r
}

/// Whether a credential accepts a password.
pub open spec fn accepts(c: CredentialView, password: Seq<char>) -> bool {
    match c {
        CredentialView::Argon2id(phc) => argon2_accepts(phc, encode_utf8(password)),
        CredentialView::Sha256(hex) => hex == sha256_hex_of(password),
        CredentialView::Plain(value) => value == password,
    }
}

impl PasswordCredential {
    /// Whether this credential accepts `password`; digests and plain values
    /// are compared in constant time.
    pub fn verify_password(&self, password: &str) -> (r: bool)
        ensures
            r == accepts(self@, password@),
    {
        match self {
            PasswordCredential::Argon2id { phc } => argon2_verify(phc.as_str(), password.as_bytes()),
            PasswordCredential::Sha256 { hex } => {
                let computed = sha256_hex(password);
                constant_time_eq(hex.as_str(), computed.as_str())
            },
            PasswordCredential::Plain { value } => constant_time_eq(value.as_str(), password),
        }
    }
}

/// The user a login yields: the user found under the name, when its
/// credential accepts the password. A name that is not found is checked
/// against `dummy` all the same, so that both cases cost the same work.
pub fn authenticate_user(found: Option<User>, dummy: &PasswordCredential, password: &str) -> (r: Option<User>)
    ensures
        match found {
            Some(u) => if accepts(u.credential@, password@) {
                r == Some(u)
            } else {
                r is None
            },
            None => r is None,
        },
{
    let valid = match &found {
        Some(user) => user.credential.verify_password(password),
        None => dummy.verify_password(password),
    };
    if valid {
        found
    } else {
        None
    }
}

/// The dummy password a missing user's login is checked against.
pub open spec fn dummy_credential_outcome() -> Result<Seq<char>, Seq<char>> {
    match salt_b64("pocket-oid-dummy-salt"@.map_values(|c: char| c as u8)) {
        Err(e) => Err("failed to create password verification salt: "@ + e),
        Ok(salt) => match argon2_hash(encode_utf8("not-a-user-password"@), salt) {
            Err(e) => Err("failed to initialize password verification: "@ + e),
            Ok(phc) => Ok(phc),
        },
    }
}

/// Builds the Argon2id credential that stands in for missing users: a fixed
/// password hashed with a fixed salt.
pub fn create_dummy_credential() -> (r: Result<PasswordCredential, AppError>)
    ensures
        match r {
            Ok(PasswordCredential::Argon2id { phc }) => dummy_credential_outcome() == Ok::<
                Seq<char>,
                Seq<char>,
            >(phc@),
            Ok(_) => false,
            Err(AppError::Config(m)) => dummy_credential_outcome() == Err::<Seq<char>, Seq<char>>(m@),
            Err(_) => false,
        },
{
    let salt_text = "pocket-oid-dummy-salt";
    proof {
        reveal_strlit("pocket-oid-dummy-salt");
        vstd::string::is_ascii_spec_bytes(salt_text);
    }
    let salt_bytes = salt_text.as_bytes();
    assert(salt_bytes@ =~= "pocket-oid-dummy-salt"@.map_values(|c: char| c as u8));
    let salt = match encode_salt(salt_bytes) {
        Ok(s) => s,
        Err(error) => {
            return Err(AppError::Config(concat("failed to create password verification salt: ", error.as_str())));
        },
    };
    let phc = match argon2_hash_password("not-a-user-password".as_bytes(), salt.as_str()) {
        Ok(p) => p,
        Err(error) => {
            return Err(AppError::Config(concat("failed to initialize password verification: ", error.as_str())));
        },
    };
    Ok(PasswordCredential::Argon2id { phc })
}

// ---------------------------------------------------------------------------
// Accepting configured credentials
// ---------------------------------------------------------------------------

pub open spec fn is_ascii_hex(c: char) -> bool {
    ('0' <= c <= '9') || ('a' <= c <= 'f') || ('A' <= c <= 'F')
}

pub open spec fn to_lower_ascii(c: char) -> char {
    if 'A' <= c <= 'Z' {
        ((c as u32) + 32) as char
    } else {
        c
    }
}

pub open spec fn user_prefix(username: Seq<char>) -> Seq<char> {
    "user '"@ + username
}

/// The credential a legacy `sha256:<hex>` hash gives, or why it is refused.
pub open spec fn legacy_credential(username: Seq<char>, hash: Seq<char>) -> Result<CredentialView, Seq<char>> {
    if !starts_with(hash, "sha256:"@) {
        Err(user_prefix(username) + "' password_hash must use an Argon2id PHC string or legacy sha256:<hex>"@)
    } else {
        let hex = hash.skip(7);
        if hex.len() != 64 || !(forall|i: int| 0 <= i < hex.len() ==> is_ascii_hex(#[trigger] hex[i])) {
            Err(user_prefix(username) + "' password_hash must contain a 64-character sha256 hex digest"@)
        } else {
            Ok(CredentialView::Sha256(hex.map_values(|c: char| to_lower_ascii(c))))
        }
    }
}

pub open spec fn credential_result(r: Result<PasswordCredential, AppError>) -> Result<CredentialView, Seq<char>> {
    match r {
        Ok(c) => Ok(c@),
        Err(AppError::Config(m)) => Err(m@),
        Err(_) => Err(Seq::empty()),
    }
}

fn user_error(username: &str, rest: &str) -> (r: AppError)
    ensures
        r matches AppError::Config(m) && m@ == user_prefix(username@) + rest@,
{
    AppError::Config(concat3("user '", username, rest))
}

/// Accepts a legacy `sha256:<hex>` password hash: 64 hexadecimal digits,
/// kept in lowercase.
pub fn parse_legacy_sha256_hash(username: &str, password_hash: &str) -> (r: Result<PasswordCredential, AppError>)
    ensures
        credential_result(r) == legacy_credential(username@, password_hash@),
        r is Err ==> r->Err_0 is Config,
{
    proof {
        reveal_strlit("sha256:");
    }
    if !crate::text::str_starts_with(password_hash, "sha256:") {
        return Err(user_error(username, "' password_hash must use an Argon2id PHC string or legacy sha256:<hex>"));
    }
    let v = str_chars(password_hash);
    let ghost hex = password_hash@.skip(7);
    let mut ok = v.len() - 7 == 64;
    let mut lower = String::new();
    let mut i: usize = 7;
    while ok && i < v.len()
        invariant
            v@ == password_hash@,
            7 <= i <= v@.len(),
            hex == v@.skip(7),
            ok ==> hex.len() == 64,
            ok ==> forall|j: int| 0 <= j < i - 7 ==> is_ascii_hex(#[trigger] hex[j]),
            ok ==> lower@ == hex.take(i - 7).map_values(|c: char| to_lower_ascii(c)),
            !ok ==> (hex.len() != 64 || exists|j: int| 0 <= j < hex.len() && !is_ascii_hex(#[trigger] hex[j])),
        decreases v@.len() - i,
    {
        let c = v[i];
        assert(hex[i - 7] == c);
        if ('0' <= c && c <= '9') || ('a' <= c && c <= 'f') {
            push_char(&mut lower, c);
        } else if 'A' <= c && c <= 'F' {
            let l = match c {
                'A' => 'a',
                'B' => 'b',
                'C' => 'c',
                'D' => 'd',
                'E' => 'e',
                _ => 'f',
            };
            push_char(&mut lower, l);
        } else {
            ok = false;
        }
        proof {
            if ok {
                assert(hex.take(i + 1 - 7) =~= hex.take(i - 7).push(c));
                assert(lower@ =~= hex.take(i + 1 - 7).map_values(|c: char| to_lower_ascii(c)));
            }
        }
        i = i + 1;
    }
    if !ok {
        return Err(user_error(username, "' password_hash must contain a 64-character sha256 hex digest"));
    }
    assert(hex.take(hex.len() as int) =~= hex);
    Ok(PasswordCredential::Sha256 { hex: lower })
}

/// The credential an Argon2id PHC hash gives, or why it is refused: it must
/// be a complete `argon2id` string of version 19 with at least argon2's
/// default costs and output length.
pub open spec fn argon2_credential(username: Seq<char>, hash: Seq<char>) -> Result<CredentialView, Seq<char>> {
    match phc_fields(hash) {
        Err(e) => Err(user_prefix(username) + "' has an invalid Argon2id PHC password hash: "@ + e),
        Ok((alg, salt, output, version)) => if alg != "argon2id"@ || !salt || output is None {
            Err(user_prefix(username) + "' password_hash must be a complete Argon2id PHC string"@)
        } else if version != Some(19u32) {
            Err(user_prefix(username) + "' password_hash must use Argon2 version 19"@)
        } else {
            match argon2_costs(hash) {
                Err(e) => Err(user_prefix(username) + "' has invalid Argon2id parameters: "@ + e),
                Ok((m, t)) => if m < ARGON2_MIN_M_COST || t < ARGON2_MIN_T_COST || output->0 < ARGON2_MIN_OUTPUT_LEN {
                    Err(user_prefix(username)
                        + "' Argon2id hash must use at least m=19456, t=2, and a 32-byte output"@)
                } else {
                    Ok(CredentialView::Argon2id(hash))
                },
            }
        },
    }
}

/// Accepts an Argon2id PHC password hash.
pub fn parse_argon2id_hash(username: &str, password_hash: &str) -> (r: Result<PasswordCredential, AppError>)
    ensures
        credential_result(r) == argon2_credential(username@, password_hash@),
        r is Err ==> r->Err_0 is Config,
{
    let parsed = match parse_phc(password_hash) {
        Ok(p) => p,
        Err(error) => {
            let mut message = concat3("user '", username, "' has an invalid Argon2id PHC password hash: ");
            message.append(error.as_str());
            return Err(AppError::Config(message));
        },
    };
    if !str_eq(parsed.algorithm.as_str(), "argon2id") || !parsed.has_salt || parsed.output_len.is_none() {
        return Err(user_error(username, "' password_hash must be a complete Argon2id PHC string"));
    }
    match parsed.version {
        Some(v) => {
            if v != 19 {
                return Err(user_error(username, "' password_hash must use Argon2 version 19"));
            }
        },
        None => {
            return Err(user_error(username, "' password_hash must use Argon2 version 19"));
        },
    }
    let (m_cost, t_cost) = match argon2_params(password_hash) {
        Ok(costs) => costs,
        Err(error) => {
            let mut message = concat3("user '", username, "' has invalid Argon2id parameters: ");
            message.append(error.as_str());
            return Err(AppError::Config(message));
        },
    };
    let output_len = match parsed.output_len {
        Some(n) => n,
        None => 0,
    };
    if m_cost < ARGON2_MIN_M_COST || t_cost < ARGON2_MIN_T_COST || output_len < ARGON2_MIN_OUTPUT_LEN {
        return Err(user_error(username, "' Argon2id hash must use at least m=19456, t=2, and a 32-byte output"));
    }
    Ok(PasswordCredential::Argon2id { phc: password_hash.to_owned() })
}

pub open spec fn opt_text(o: Option<String>) -> Option<Seq<char>> {
    match o {
        Some(s) => Some(s@),
        None => None,
    }
}

/// The credential a `users.json` entry gives, or why it is refused.
pub open spec fn file_credential(u: UserConfig) -> Result<CredentialView, Seq<char>> {
    match (opt_text(u.password_hash), opt_text(u.password_plain)) {
        (Some(_), Some(_)) => Err(user_prefix(u.username@) + "' must set only one of password_hash or password_plain"@),
        (Some(h), None) => if starts_with(h, "$argon2id$"@) {
            argon2_credential(u.username@, h)
        } else {
            legacy_credential(u.username@, h)
        },
        (None, Some(p)) => Ok(CredentialView::Plain(p)),
        (None, None) => Err(user_prefix(u.username@) + "' must set password_hash or password_plain"@),
    }
}

/// The credential of a `users.json` entry: an Argon2id hash, a legacy
/// SHA-256 hash, or a plain password, exactly one of them.
pub fn file_user_credential(user: &UserConfig) -> (r: Result<PasswordCredential, AppError>)
    ensures
        credential_result(r) == file_credential(*user),
        r is Err ==> r->Err_0 is Config,
{
    let name = user.username.as_str();
    match (&user.password_hash, &user.password_plain) {
        (Some(_), Some(_)) => Err(user_error(name, "' must set only one of password_hash or password_plain")),
        (Some(hash), None) => {
            if crate::text::str_starts_with(hash.as_str(), "$argon2id$") {
                parse_argon2id_hash(name, hash.as_str())
            } else {
                parse_legacy_sha256_hash(name, hash.as_str())
            }
        },
        (None, Some(password)) => Ok(PasswordCredential::Plain { value: password.clone() }),
        (None, None) => Err(user_error(name, "' must set password_hash or password_plain")),
    }
}

/// A user of the SQLite store, or why its row is refused: a nonblank id
/// and username and an Argon2id hash.
pub fn sqlite_user(id: String, username: String, password_hash: String) -> (r: Result<User, AppError>)
    ensures
        match r {
            Ok(u) => !is_blank(id@) && !is_blank(username@) && u.id == id && u.username == username
                && argon2_credential(username@, password_hash@) == Ok::<CredentialView, Seq<char>>(u.credential@),
            Err(AppError::Config(m)) => if is_blank(id@) {
                m@ == "sqlite user id must not be empty"@
            } else if is_blank(username@) {
                m@ == "sqlite username must not be empty"@
            } else {
                argon2_credential(username@, password_hash@) == Err::<CredentialView, Seq<char>>(m@)
            },
            Err(_) => false,
        },
{
    if blank(id.as_str()) {
        return Err(AppError::Config("sqlite user id must not be empty".to_owned()));
    }
    if blank(username.as_str()) {
        return Err(AppError::Config("sqlite username must not be empty".to_owned()));
    }
    let credential = parse_argon2id_hash(username.as_str(), password_hash.as_str())?;
    Ok(User { id, username, credential })
}

// ---------------------------------------------------------------------------
// The file store
// ---------------------------------------------------------------------------

pub open spec fn user_ids(us: Seq<UserConfig>) -> Seq<Seq<char>> {
    us.map_values(|u: UserConfig| u.id@)
}

pub open spec fn user_names(us: Seq<UserConfig>) -> Seq<Seq<char>> {
    us.map_values(|u: UserConfig| u.username@)
}

/// What is wrong with adding the entry `u` after the entries `earlier`.
pub open spec fn user_entry_problem(u: UserConfig, earlier: Seq<UserConfig>) -> Option<Seq<char>> {
    if is_blank(u.id@) {
        Some("file user id must not be empty"@)
    } else if is_blank(u.username@) {
        Some("file username must not be empty"@)
    } else if user_ids(earlier).contains(u.id@) {
        Some("duplicate file user id '"@ + u.id@ + "'"@)
    } else if user_names(earlier).contains(u.username@) {
        Some("duplicate file username '"@ + u.username@ + "'"@)
    } else {
        match file_credential(u) {
            Err(e) => Some(e),
            Ok(_) => None,
        }
    }
}

/// The first problem among `users.json` entries, if any.
pub open spec fn users_problem(us: Seq<UserConfig>) -> Option<Seq<char>>
    decreases us.len(),
{
    if us.len() == 0 {
        None
    } else {
        match users_problem(us.drop_last()) {
            Some(m) => Some(m),
            None => user_entry_problem(us.last(), us.drop_last()),
        }
    }
}

/// `u` is the user built from the entry `c`.
pub open spec fn user_from(u: User, c: UserConfig) -> bool {
    u.id == c.id && u.username == c.username && file_credential(c) == Ok::<CredentialView, Seq<char>>(
        u.credential@,
    )
}

proof fn lemma_users_prefix(us: Seq<UserConfig>, k: int)
    requires
        0 <= k <= us.len(),
        users_problem(us.take(k)) is Some,
    ensures
        users_problem(us) == users_problem(us.take(k)),
    decreases us.len() - k,
{
    if k < us.len() {
        assert(us.take(k + 1).drop_last() =~= us.take(k));
        lemma_users_prefix(us, k + 1);
    } else {
        assert(us.take(k) =~= us);
    }
}

fn id_taken(users: &Vec<User>, done: Ghost<Seq<UserConfig>>, id: &str) -> (r: bool)
    requires
        users@.len() == done@.len(),
        forall|i: int| 0 <= i < done@.len() ==> user_from(#[trigger] users@[i], done@[i]),
    ensures
        r == user_ids(done@).contains(id@),
{
    for i in 0..users.len()
        invariant
            users@.len() == done@.len(),
            forall|i: int| 0 <= i < done@.len() ==> user_from(#[trigger] users@[i], done@[i]),
            forall|j: int| 0 <= j < i ==> #[trigger] done@[j].id@ != id@,
    {
        assert(user_from(users@[i as int], done@[i as int]));
        if str_eq(users[i].id.as_str(), id) {
            assert(user_ids(done@)[i as int] == id@);
            return true;
        }
    }
    assert forall|j: int| 0 <= j < user_ids(done@).len() implies #[trigger] user_ids(done@)[j] != id@ by {
        assert(user_ids(done@)[j] == done@[j].id@);
    }
    false
}

fn name_taken(users: &Vec<User>, done: Ghost<Seq<UserConfig>>, name: &str) -> (r: bool)
    requires
        users@.len() == done@.len(),
        forall|i: int| 0 <= i < done@.len() ==> user_from(#[trigger] users@[i], done@[i]),
    ensures
        r == user_names(done@).contains(name@),
{
    for i in 0..users.len()
        invariant
            users@.len() == done@.len(),
            forall|i: int| 0 <= i < done@.len() ==> user_from(#[trigger] users@[i], done@[i]),
            forall|j: int| 0 <= j < i ==> #[trigger] done@[j].username@ != name@,
    {
        assert(user_from(users@[i as int], done@[i as int]));
        if str_eq(users[i].username.as_str(), name) {
            assert(user_names(done@)[i as int] == name@);
            return true;
        }
    }
    assert forall|j: int| 0 <= j < user_names(done@).len() implies #[trigger] user_names(done@)[j] != name@ by {
        assert(user_names(done@)[j] == done@[j].username@);
    }
    false
}

/// Builds the users of `users.json`, in order: each with a nonblank id and
/// username, both unique, and exactly one acceptable credential.
pub fn build_file_users(users: Vec<UserConfig>) -> (r: Result<Vec<User>, AppError>)
    ensures
        match r {
            Ok(v) => users_problem(users@) is None && v@.len() == users@.len() && forall|i: int|
                0 <= i < v@.len() ==> user_from(#[trigger] v@[i], users@[i]),
            Err(AppError::Config(m)) => users_problem(users@) == Some(m@),
            Err(_) => false,
        },
{
    let mut result: Vec<User> = Vec::new();
    let mut rest = users;
    let ghost orig = rest@;
    while rest.len() > 0
        invariant
            orig == users@,
            rest@.len() <= orig.len(),
            rest@ == orig.skip(orig.len() - rest@.len()),
            result@.len() == orig.len() - rest@.len(),
            forall|i: int| 0 <= i < result@.len() ==> user_from(#[trigger] result@[i], orig[i]),
            users_problem(orig.take(orig.len() - rest@.len())) is None,
        decreases rest@.len(),
    {
        let ghost i = orig.len() - rest@.len();
        let entry = rest.remove(0);
        proof {
            assert(entry == orig[i]);
            assert(rest@ =~= orig.skip(i + 1));
            assert(orig.take(i + 1).drop_last() =~= orig.take(i));
            assert(orig.take(i + 1).last() == orig[i]);
            assert forall|j: int| 0 <= j < result@.len() implies user_from(#[trigger] result@[j], orig.take(i)[j]) by {
                assert(orig.take(i)[j] == orig[j]);
            }
        }
        let problem: Option<AppError> = if blank(entry.id.as_str()) {
            Some(AppError::Config("file user id must not be empty".to_owned()))
        } else if blank(entry.username.as_str()) {
            Some(AppError::Config("file username must not be empty".to_owned()))
        } else if id_taken(&result, Ghost(orig.take(i)), entry.id.as_str()) {
            Some(AppError::Config(concat3("duplicate file user id '", entry.id.as_str(), "'")))
        } else if name_taken(&result, Ghost(orig.take(i)), entry.username.as_str()) {
            Some(AppError::Config(concat3("duplicate file username '", entry.username.as_str(), "'")))
        } else {
            match file_user_credential(&entry) {
                Ok(credential) => {
                    let ghost before = result@;
                    result.push(User { id: entry.id, username: entry.username, credential });
                    proof {
                        assert forall|j: int| 0 <= j < result@.len() implies user_from(#[trigger] result@[j], orig[j]) by {
                            if j < before.len() {
                                assert(result@[j] == before[j]);
                            }
                        }
                    }
                    None
                },
                Err(e) => Some(e),
            }
        };
        if let Some(e) = problem {
            proof {
                lemma_users_prefix(orig, i + 1);
            }
            return Err(e);
        }
    }
    assert(orig.take(orig.len() as int) =~= orig);
    Ok(result)
}

/// The users of the file store; there must be at least one.
pub fn load_file_users(users: Vec<UserConfig>) -> (r: Result<Vec<User>, AppError>)
    ensures
        match r {
            Ok(v) => users_problem(users@) is None && users@.len() > 0 && v@.len() == users@.len() && forall|
                i: int,
            | 0 <= i < v@.len() ==> user_from(#[trigger] v@[i], users@[i]),
            Err(AppError::Config(m)) => if users_problem(users@) is Some {
                users_problem(users@) == Some(m@)
            } else {
                users@.len() == 0 && m@ == "no users configured"@
            },
            Err(_) => false,
        },
{
    let built = build_file_users(users)?;
    if built.len() == 0 {
        return Err(AppError::Config("no users configured".to_owned()));
    }
    Ok(built)
}

/// The user with this name.
pub fn find_user<'a>(users: &'a Vec<User>, username: &str) -> (r: Option<&'a User>)
    ensures
        match r {
            Some(u) => u.username@ == username@ && users@.contains(*u),
            None => forall|i: int| 0 <= i < users@.len() ==> (#[trigger] users@[i]).username@ != username@,
        },
{
    for i in 0..users.len()
        invariant
            forall|j: int| 0 <= j < i ==> (#[trigger] users@[j]).username@ != username@,
    {
        if str_eq(users[i].username.as_str(), username) {
            return Some(&users[i]);
        }
    }
    None
}

/// A copy of a user.
pub fn copy_user(u: &User) -> (r: User)
    ensures
        r == *u,
{
    User {
        id: u.id.clone(),
        username: u.username.clone(),
        credential: match &u.credential {
            PasswordCredential::Argon2id { phc } => PasswordCredential::Argon2id { phc: phc.clone() },
            PasswordCredential::Sha256 { hex } => PasswordCredential::Sha256 { hex: hex.clone() },
            PasswordCredential::Plain { value } => PasswordCredential::Plain { value: value.clone() },
        },
    }
}

} // verus!
