//! Administrator accounts: what a valid name and password are, how a password
//! is hashed, how a new account is prepared and how a sign-in is decided. The
//! rows themselves live in a SQLite database that the server opens.

use vstd::prelude::*;

use crate::bindings::{
    argon2_accepts, argon2_hash, argon2_hash_password, argon2_verify, encode_salt, parse_phc,
    phc_fields, random_bytes, salt_b64,
};
use crate::text::{blank, concat, concat3, is_blank, str_chars, str_eq, trim, trim_str};
use crate::token::{i64_text, int_text};
use vstd::utf8::encode_utf8;

verus! {

/// The longest administrator name accepted, in characters.
pub const ADMIN_USERNAME_MAX_CHARS: usize = 128;

/// The length of a password salt, in bytes.
pub const SALT_LEN: usize = 16;

/// The schema version of the administrator database.
pub const ADMIN_SCHEMA_VERSION: i64 = 1;

/// Where administrator accounts are kept (`admins.json`).
#[derive(Debug)]
pub enum AdminsConfig {
    Sqlite { path: String },
}

/// An administrator account as the console shows it.
#[derive(Debug)]
pub struct AdminRecord {
    pub id: String,
    pub username: String,
    pub enabled: bool,
    pub created_at: String,
}

impl AdminRecord {
    pub fn duplicate(&self) -> (r: Self)
        ensures
            r == *self,
    {
        AdminRecord {
            id: self.id.clone(),
            username: self.username.clone(),
            enabled: self.enabled,
            created_at: self.created_at.clone(),
        }
    }
}

// ---------------------------------------------------------------------------
// Names and passwords
// ---------------------------------------------------------------------------

/// A control character (`char::is_control`: general category Cc).
pub open spec fn is_control(c: char) -> bool {
    (c as u32) <= 0x1f || (0x7f <= (c as u32) && (c as u32) <= 0x9f)
}

/// Why `username` cannot name an administrator, if it cannot.
pub open spec fn username_problem(username: Seq<char>) -> Option<Seq<char>> {
    if is_blank(username) {
        Some("administrator username must not be empty"@)
    } else if trim(username) != username {
        Some("administrator username must not start or end with whitespace"@)
    } else if exists|i: int| 0 <= i < username.len() && is_control(#[trigger] username[i]) {
        Some("administrator username must not contain control characters"@)
    } else if username.len() > ADMIN_USERNAME_MAX_CHARS {
        Some("administrator username must not exceed 128 characters"@)
    } else {
        None
    }
}

fn has_control(s: &str) -> (r: bool)
    ensures
        r == exists|i: int| 0 <= i < s@.len() && is_control(#[trigger] s@[i]),
{
    let v = str_chars(s);
    for i in 0..v.len()
        invariant
            v@ == s@,
            forall|j: int| 0 <= j < i ==> !is_control(#[trigger] s@[j]),
    {
        let u = v[i] as u32;
        if u <= 0x1f || (0x7f <= u && u <= 0x9f) {
            assert(is_control(s@[i as int]));
            return true;
        }
    }
    false
}

/// Checks an administrator name: not blank, no surrounding whitespace, no
/// control characters, at most 128 characters.
pub fn validate_username(username: &str) -> (r: Result<(), String>)
    ensures
        match r {
            Ok(()) => username_problem(username@) is None,
            Err(m) => username_problem(username@) == Some(m@),
        },
{
    if blank(username) {
        return Err("administrator username must not be empty".to_owned());
    }
    let trimmed = trim_str(username);
    if !str_eq(trimmed.as_str(), username) {
        return Err("administrator username must not start or end with whitespace".to_owned());
    }
    if has_control(username) {
        return Err("administrator username must not contain control characters".to_owned());
    }
    if username.unicode_len() > ADMIN_USERNAME_MAX_CHARS {
        return Err("administrator username must not exceed 128 characters".to_owned());
    }
    Ok(())
}

/// Checks an administrator password: it must not be empty.
pub fn validate_password(password: &str) -> (r: Result<(), String>)
    ensures
        match r {
            Ok(()) => password@.len() > 0,
            Err(m) => password@.len() == 0 && m@ == "administrator password must not be empty"@,
        },
{
    if password.unicode_len() == 0 {
        return Err("administrator password must not be empty".to_owned());
    }
    Ok(())
}

// ---------------------------------------------------------------------------
// Hashing
// ---------------------------------------------------------------------------

/// The PHC string a password hashes to with these salt bytes (Argon2id with
/// the default parameters), or the message of the step that failed.
pub open spec fn password_hash_from(password: Seq<char>, salt: Seq<u8>) -> Result<Seq<char>, Seq<char>> {
    match salt_b64(salt) {
        Err(e) => Err("failed to encode password salt: "@ + e),
        Ok(encoded) => match argon2_hash(encode_utf8(password), encoded) {
            Err(e) => Err("failed to hash administrator password: "@ + e),
            Ok(phc) => Ok(phc),
        },
    }
}

pub open spec fn text_result(r: Result<String, String>) -> Result<Seq<char>, Seq<char>> {
    match r {
        Ok(s) => Ok(s@),
        Err(m) => Err(m@),
    }
}

/// Hashes a password with the given salt bytes.
pub fn hash_password_with_salt(password: &str, salt: &[u8]) -> (r: Result<String, String>)
    ensures
        text_result(r) == password_hash_from(password@, salt@),
{
    let encoded = match encode_salt(salt) {
        Ok(s) => s,
        Err(error) => return Err(concat("failed to encode password salt: ", error.as_str())),
    };
    match argon2_hash_password(password.as_bytes(), encoded.as_str()) {
        Ok(phc) => Ok(phc),
        Err(error) => Err(concat("failed to hash administrator password: ", error.as_str())),
    }
}

/// What hashing a password with a fresh random salt may give: the hash, or
/// the failure, for some salt of `SALT_LEN` bytes; or the failure to draw
/// the salt.
pub open spec fn fresh_hash_of(password: Seq<char>, r: Result<Seq<char>, Seq<char>>) -> bool {
    ||| exists|salt: Seq<u8>| salt.len() == SALT_LEN && #[trigger] password_hash_from(password, salt) == r
    ||| r == Err::<Seq<char>, Seq<char>>("failed to generate a password salt"@)
}

/// Hashes a password with a fresh random 16-byte salt.
pub fn hash_password(password: &str) -> (r: Result<String, String>)
    ensures
        fresh_hash_of(password@, text_result(r)),
{
    let salt = match random_bytes(SALT_LEN) {
        Some(bytes) => bytes,
        None => return Err("failed to generate a password salt".to_owned()),
    };
    let r = hash_password_with_salt(password, salt.as_slice());
    assert(password_hash_from(password@, salt@) == text_result(r));
    r
}

// ---------------------------------------------------------------------------
// New accounts
// ---------------------------------------------------------------------------

/// A validated account ready to be stored.
#[derive(Debug)]
pub struct NewAdmin {
    pub id: String,
    pub username: String,
    pub password_hash: String,
}

/// Validates a new account and hashes its password; the id is a fresh
/// random UUID. The name is checked first, then the password.
pub fn prepare_admin(username: &str, password: &str) -> (r: Result<NewAdmin, String>)
    ensures
        match username_problem(username@) {
            Some(p) => r matches Err(m) && m@ == p,
            None => if password@.len() == 0 {
                r matches Err(m) && m@ == "administrator password must not be empty"@
            } else {
                match r {
                    Ok(a) => a.username@ == username@ && a.id@.len() == 36 && fresh_hash_of(
                        password@,
                        Ok(a.password_hash@),
                    ),
                    Err(m) => fresh_hash_of(password@, Err(m@)) || m@ == "random number generation failed"@,
                }
            },
        },
{
    validate_username(username)?;
    validate_password(password)?;
    let password_hash = match hash_password(password) {
        Ok(h) => h,
        Err(m) => return Err(m),
    };
    let id = match crate::auth::fresh_id() {
        Some(id) => id,
        None => return Err("random number generation failed".to_owned()),
    };
    Ok(NewAdmin { id, username: username.to_owned(), password_hash })
}

/// The message for a name that is already taken.
pub fn admin_exists_message(username: &str) -> (r: String)
    ensures
        r@ == "administrator '"@ + username@ + "' already exists"@,
{
    concat3("administrator '", username, "' already exists")
}

// ---------------------------------------------------------------------------
// Signing in
// ---------------------------------------------------------------------------

/// Whether a stored hash accepts a password: it must parse as an Argon2id
/// PHC string and verify.
pub open spec fn admin_accepts(hash: Seq<char>, password: Seq<char>) -> bool {
    &&& phc_fields(hash) matches Ok(f) && f.0 == "argon2id"@
    &&& argon2_accepts(hash, encode_utf8(password))
}

/// The account a sign-in yields from the row found under the name: the
/// account, when it is enabled and its hash accepts the password. A missing
/// or disabled account is checked against `dummy_hash` all the same, so that
/// every attempt costs one verification.
pub fn admin_sign_in(row: Option<(AdminRecord, String)>, dummy_hash: &str, password: &str) -> (r:
    Option<AdminRecord>)
    ensures
        match row {
            Some((admin, hash)) => if admin.enabled && admin_accepts(hash@, password@) {
                r == Some(admin)
            } else {
                r is None
            },
            None => r is None,
        },
{
    let enabled = match &row {
        Some((admin, _)) => admin.enabled,
        None => false,
    };
    let hash: &str = match &row {
        Some((admin, h)) => if admin.enabled {
            h.as_str()
        } else {
            dummy_hash
        },
        None => dummy_hash,
    };
    let argon2id = match parse_phc(hash) {
        Ok(parsed) => str_eq(parsed.algorithm.as_str(), "argon2id"),
        Err(_) => false,
    };
    let valid = argon2id && argon2_verify(hash, password.as_bytes());
    if valid && enabled {
        match row {
            Some((admin, _)) => Some(admin),
            None => None,
        }
    } else {
        None
    }
}

// ---------------------------------------------------------------------------
// Database schema
// ---------------------------------------------------------------------------

/// What opening a database does with its schema version.
#[derive(Debug)]
pub enum SchemaStep {
    /// A new database: create the tables.
    Initialize,
    /// The supported version: check the tables.
    Validate,
    /// Any other version: refuse the database.
    Unsupported,
}

/// The step for a database whose `user_version` is `version`.
pub fn schema_step(version: i64) -> (r: SchemaStep)
    ensures
        version == 0 ==> r is Initialize,
        version == ADMIN_SCHEMA_VERSION ==> r is Validate,
        version != 0 && version != ADMIN_SCHEMA_VERSION ==> r is Unsupported,
{
    if version == 0 {
        SchemaStep::Initialize
    } else if version == ADMIN_SCHEMA_VERSION {
        SchemaStep::Validate
    } else {
        SchemaStep::Unsupported
    }
}

/// The message that refuses a database of another schema version; `what`
/// names the database and `path` is where it is.
pub fn unsupported_schema_message(what: &str, path: &str, version: i64) -> (r: String)
    ensures
        r@ == what@ + " '"@ + path@ + "' has unsupported schema version "@ + int_text(version as int)
            + "; supported version: 1"@,
{
    let head = concat3(what, " '", path);
    let middle = concat(head.as_str(), "' has unsupported schema version ");
    let number = i64_text(version);
    let with_number = concat(middle.as_str(), number.as_str());
    let r = concat(with_number.as_str(), "; supported version: 1");
    r
}

} // verus!
