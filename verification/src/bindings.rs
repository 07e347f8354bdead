//! Calls into other crates and into parts of std that have no specification
//! here. Each item below is trusted: its contract is what the called code's
//! documentation and source promise, and nothing here proves it.

use argon2::password_hash::{PasswordHasher, PasswordVerifier};
use base64::Engine;
use jsonwebtoken::{Algorithm, DecodingKey, Validation};
use pkcs8::DecodePrivateKey;
use ring::rand::SecureRandom;
use ring::signature::KeyPair;
use rsa::traits::PublicKeyParts;
use sha2::Digest;
use subtle::ConstantTimeEq;
use vstd::prelude::*;

use crate::config::SigningAlgorithm;
use crate::users::PhcSummary;
use crate::text::{opt_seq, views};
use crate::time::{UtcTime, MAX_TIMESTAMP};

verus! {

/// What `url::Url::parse` makes of `input`: on success the scheme, whether the
/// URL has a host and whether it has a fragment; on failure the error's text.
pub uninterp spec fn url_parse(input: Seq<char>) -> Result<(Seq<char>, bool, bool), Seq<char>>;

/// Calls `url::Url::parse` and reads `scheme()`, `host_str().is_some()` and
/// `fragment().is_some()` of the result. The contract only ties the result to
/// the name `url_parse`: the parsing rules of the WHATWG URL standard that the
/// crate implements are not restated.
#[verifier::external_body]
pub(crate) fn parse_url(input: &str) -> (r: Result<(String, bool, bool), String>)
    ensures
        match r {
            Ok((scheme, host, fragment)) => url_parse(input@) == Ok::<
                (Seq<char>, bool, bool),
                Seq<char>,
            >((scheme@, host, fragment)),
            Err(e) => url_parse(input@) == Err::<(Seq<char>, bool, bool), Seq<char>>(e@),
        },
{
    match url::Url::parse(input) {
        Ok(url) => Ok((url.scheme().to_string(), url.host_str().is_some(), url.fragment().is_some())),
        Err(error) => Err(error.to_string()),
    }
}

/// What `std::path::Path::join` gives for `base` and `path`.
pub uninterp spec fn path_join(base: Seq<char>, path: Seq<char>) -> Seq<char>;

/// Calls `Path::new(base).join(path)` and returns it as text. The result is
/// named; the one fact stated is the one std documents for `PathBuf::push`:
/// an absolute `path` replaces `base`. How a relative `path` is appended is
/// left to the name.
#[verifier::external_body]
pub(crate) fn join_path(base: &str, path: &str) -> (r: String)
    ensures
        r@ == path_join(base@, path@),
        path_is_absolute(path@) ==> r@ == path@,
{
    std::path::Path::new(base).join(path).to_string_lossy().into_owned()
}

/// A lowercase hexadecimal digit.
pub open spec fn is_lower_hex(c: char) -> bool {
    ('0' <= c <= '9') || ('a' <= c <= 'f')
}

/// Reads the clock: `std::time::SystemTime::now()` measured from
/// `UNIX_EPOCH` with `duration_since`, then chrono's
/// `DateTime::from_timestamp`. `None` when the system time is before the
/// epoch or beyond chrono's range; otherwise an instant not before the epoch,
/// representable, with its sub-second nanoseconds below one billion. Which
/// instant comes back is not stated.
#[verifier::external_body]
pub(crate) fn utc_now() -> (r: Option<UtcTime>)
    ensures
        r matches Some(t) ==> 0 <= t.secs <= MAX_TIMESTAMP && t.nanos < 1_000_000_000,
{
    let elapsed = std::time::SystemTime::now().duration_since(std::time::UNIX_EPOCH).ok()?;
    let secs = i64::try_from(elapsed.as_secs()).ok()?;
    let instant = chrono::DateTime::from_timestamp(secs, elapsed.subsec_nanos())?;
    Some(UtcTime { secs: instant.timestamp(), nanos: instant.timestamp_subsec_nanos() })
}

/// The hyphenated lowercase text of the version-4 UUID that
/// `uuid::Builder::from_random_bytes` makes of 16 random bytes.
pub uninterp spec fn uuid_text(bytes: Seq<u8>) -> Seq<char>;

/// The same UUID in its `simple` form.
pub uninterp spec fn uuid_simple_text(bytes: Seq<u8>) -> Seq<char>;

/// Builds a version-4 UUID from 16 random bytes with
/// `uuid::Builder::from_random_bytes(..).into_uuid()` and writes it
/// hyphenated: 36 characters.
#[verifier::external_body]
pub(crate) fn uuid_hyphenated(bytes: &[u8]) -> (r: String)
    requires
        bytes@.len() == 16,
    ensures
        r@ == uuid_text(bytes@),
        r@.len() == 36,
{
    let array: [u8; 16] = bytes.try_into().unwrap();
    uuid::Builder::from_random_bytes(array).into_uuid().hyphenated().to_string()
}

/// Builds a version-4 UUID from 16 random bytes as `uuid_hyphenated` does and
/// writes it in the `simple` form: 32 lowercase hexadecimal digits.
#[verifier::external_body]
pub(crate) fn uuid_simple(bytes: &[u8]) -> (r: String)
    requires
        bytes@.len() == 16,
    ensures
        r@ == uuid_simple_text(bytes@),
        r@.len() == 32,
        forall|i: int| 0 <= i < 32 ==> is_lower_hex(#[trigger] r@[i]),
{
    let array: [u8; 16] = bytes.try_into().unwrap();
    uuid::Builder::from_random_bytes(array).into_uuid().simple().to_string()
}

/// The SHA-256 digest of `data`.
pub uninterp spec fn sha256(data: Seq<u8>) -> Seq<u8>;

/// Hashes `data` with `sha2::Sha256::digest`. The digest is named, not
/// computed here; FIPS 180-4 fixes its length at 32 bytes.
#[verifier::external_body]
pub(crate) fn sha256_digest(data: &[u8]) -> (r: Vec<u8>)
    ensures
        r@ == sha256(data@),
        r@.len() == 32,
{
    sha2::Sha256::digest(data).to_vec()
}

/// The character of the base64url alphabet (RFC 4648, table 2) for a
/// six-bit value.
pub open spec fn base64url_digit(v: int) -> char {
    if v < 26 {
        (65 + v) as char
    } else if v < 52 {
        (97 + v - 26) as char
    } else if v < 62 {
        (48 + v - 52) as char
    } else if v == 62 {
        '-'
    } else {
        '_'
    }
}

/// The unpadded base64url text (RFC 4648, section 5) of `data`: each group
/// of three bytes becomes four characters, a last group of two bytes three
/// characters and a last single byte two, with no `=` padding.
pub open spec fn base64url(data: Seq<u8>) -> Seq<char>
    decreases data.len(),
{
    if data.len() == 0 {
        Seq::empty()
    } else if data.len() == 1 {
        let a = data[0] as int;
        seq![base64url_digit(a / 4), base64url_digit((a % 4) * 16)]
    } else if data.len() == 2 {
        let a = data[0] as int;
        let b = data[1] as int;
        seq![base64url_digit(a / 4), base64url_digit((a % 4) * 16 + b / 16), base64url_digit((b % 16) * 4)]
    } else {
        let a = data[0] as int;
        let b = data[1] as int;
        let c = data[2] as int;
        seq![
            base64url_digit(a / 4),
            base64url_digit((a % 4) * 16 + b / 16),
            base64url_digit((b % 16) * 4 + c / 64),
            base64url_digit(c % 64),
        ] + base64url(data.skip(3))
    }
}

/// Encodes `data` with `base64`'s `URL_SAFE_NO_PAD` engine: the unpadded
/// base64url text stated by `base64url`.
#[verifier::external_body]
pub(crate) fn base64url_encode(data: &[u8]) -> (r: String)
    ensures
        r@ == base64url(data@),
{
    base64::engine::general_purpose::URL_SAFE_NO_PAD.encode(data)
}

/// Compares two byte strings with `subtle`'s `ConstantTimeEq` for slices,
/// which answers 0 for slices of different lengths and otherwise 1 exactly
/// when every byte pair is equal; the `Choice` converts to `bool`.
#[verifier::external_body]
pub(crate) fn ct_eq_bytes(a: &[u8], b: &[u8]) -> (r: bool)
    ensures
        r == (a@ == b@),
{
    a.ct_eq(b).into()
}

/// The URL that `url::Url` serializes after parsing `url` and appending each
/// pair of `pairs`, in order, to its query in
/// `application/x-www-form-urlencoded` form; `None` when `url` does not parse.
pub uninterp spec fn url_with_query_pairs(url: Seq<char>, pairs: Seq<(Seq<char>, Seq<char>)>) -> Option<
    Seq<char>,
>;

pub open spec fn pair_views(pairs: Seq<(String, String)>) -> Seq<(Seq<char>, Seq<char>)> {
    pairs.map_values(|p: (String, String)| (p.0@, p.1@))
}

/// Parses `url` with `url::Url::parse` and appends `pairs` with
/// `query_pairs_mut().extend_pairs(..)`. The serialized URL is named; the
/// source returns `None` only where `Url::parse` fails.
#[verifier::external_body]
pub(crate) fn append_query_pairs(url: &str, pairs: &Vec<(String, String)>) -> (r: Option<String>)
    ensures
        opt_seq(r) == url_with_query_pairs(url@, pair_views(pairs@)),
        r is None <==> url_parse(url@) is Err,
{
    let mut parsed = match url::Url::parse(url) {
        Ok(parsed) => parsed,
        Err(_) => return None,
    };
    parsed.query_pairs_mut().extend_pairs(pairs.iter().map(|(k, v)| (k.as_str(), v.as_str())));
    Some(parsed.into())
}

/// What `jsonwebtoken::decode_header` reads from a compact JWT: its `alg`
/// when it is one of the three algorithms of `SigningAlgorithm` (`None` for
/// any other), and its `kid`; `None` when the header does not decode.
pub uninterp spec fn jwt_header(token: Seq<char>) -> Option<(Option<SigningAlgorithm>, Option<Seq<char>>)>;

/// Decodes a JWT's header with `jsonwebtoken::decode_header`. The result is
/// named, not described: it depends on the token text alone.
#[verifier::external_body]
pub(crate) fn decode_jwt_header(token: &str) -> (r: Option<(Option<SigningAlgorithm>, Option<String>)>)
    ensures
        match r {
            Some((alg, kid)) => jwt_header(token@) == Some((alg, opt_seq(kid))),
            None => jwt_header(token@) is None,
        },
{
    match jsonwebtoken::decode_header(token) {
        Ok(header) => {
            let alg = match header.alg {
                jsonwebtoken::Algorithm::RS256 => Some(SigningAlgorithm::RS256),
                jsonwebtoken::Algorithm::ES256 => Some(SigningAlgorithm::ES256),
                jsonwebtoken::Algorithm::PS256 => Some(SigningAlgorithm::PS256),
                _ => None,
            };
            Some((alg, header.kid))
        },
        Err(_) => None,
    }
}

/// Whether `jsonwebtoken::DecodingKey` builds from these components for
/// `alg`: `from_ec_components(x, y)` for ES256, `from_rsa_components(n, e)`
/// otherwise (both base64url-decode their arguments).
pub uninterp spec fn decoding_key_builds(alg: SigningAlgorithm, a: Seq<char>, b: Seq<char>) -> bool;

/// Builds the verification key of `alg` from its two components and reports
/// whether it built; the key itself is not kept.
#[verifier::external_body]
pub(crate) fn decoding_key_valid(alg: SigningAlgorithm, a: &str, b: &str) -> (r: bool)
    ensures
        r == decoding_key_builds(alg, a@, b@),
{
    match alg {
        SigningAlgorithm::ES256 => DecodingKey::from_ec_components(a, b).is_ok(),
        _ => DecodingKey::from_rsa_components(a, b).is_ok(),
    }
}

/// The `iat` (when an integer that fits `i64`), `nonce` and `sub` (when
/// strings) members of the payload of the compact JWT `token`: a function of
/// the token text alone, read as `serde_json` reads the decoded payload.
pub uninterp spec fn jwt_claim_fields(token: Seq<char>) -> (Option<i64>, Option<Seq<char>>, Option<Seq<char>>);

/// Whether `jsonwebtoken::decode` accepts `token`, at the clock reading
/// `now_secs`, under the key of `alg` built from the components `a` and `b`:
/// the signature verifies, every claim of `required` is present, `exp` has
/// not passed (allowing `leeway` seconds), `iss` is `issuer` and `aud`
/// names `audience`.
pub uninterp spec fn jwt_accepted(
    token: Seq<char>,
    alg: SigningAlgorithm,
    a: Seq<char>,
    b: Seq<char>,
    issuer: Seq<char>,
    audience: Seq<char>,
    leeway: u64,
    required: Seq<Seq<char>>,
    now_secs: int,
) -> bool;

/// Verifies a JWT with `jsonwebtoken::decode`, under the key of `algorithm`
/// built from the components `a` and `b`, requiring the claims `required`,
/// the issuer `issuer`, the audience `audience` and allowing
/// `leeway_seconds`; the clock is read inside the crate. On acceptance it
/// returns the payload's `iat`, `nonce` and `sub` members.
#[verifier::external_body]
pub(crate) fn decode_verified_claims(
    token: &str,
    algorithm: SigningAlgorithm,
    a: &str,
    b: &str,
    issuer: &str,
    audience: &str,
    leeway_seconds: u64,
    required: &Vec<String>,
) -> (r: Option<(Option<i64>, Option<String>, Option<String>)>)
    ensures
        r matches Some((iat, nonce, sub)) ==> (iat, opt_seq(nonce), opt_seq(sub)) == jwt_claim_fields(token@),
        r is Some ==> exists|t: int|
            #[trigger] jwt_accepted(token@, algorithm, a@, b@, issuer@, audience@, leeway_seconds, views(required@), t),
{
    let (alg, key) = match algorithm {
        SigningAlgorithm::RS256 => (Algorithm::RS256, DecodingKey::from_rsa_components(a, b)),
        SigningAlgorithm::PS256 => (Algorithm::PS256, DecodingKey::from_rsa_components(a, b)),
        SigningAlgorithm::ES256 => (Algorithm::ES256, DecodingKey::from_ec_components(a, b)),
    };
    let mut v = Validation::new(alg);
    v.leeway = leeway_seconds;
    v.set_required_spec_claims(required);
    v.set_issuer(&[issuer]);
    v.set_audience(&[audience]);
    let c = jsonwebtoken::decode::<serde_json::Value>(token, &key.ok()?, &v).ok()?.claims;
    Some((c["iat"].as_i64(), c["nonce"].as_str().map(String::from), c["sub"].as_str().map(String::from)))
}

/// What `rsa::RsaPrivateKey::from_pkcs8_pem` makes of a PEM text: the
/// big-endian bytes of the public modulus and exponent and the modulus
/// length in bits, or the error's text.
pub uninterp spec fn rsa_pkcs8_public(pem: Seq<char>) -> Result<(Seq<u8>, Seq<u8>, nat), Seq<char>>;

/// Parses an RSA private key with `rsa::RsaPrivateKey::from_pkcs8_pem` and
/// reads `n().to_bytes_be()`, `e().to_bytes_be()` and `n().bits()`. The
/// result is named: it depends on the text alone.
#[verifier::external_body]
pub(crate) fn rsa_public_parts(pem: &str) -> (r: Result<(Vec<u8>, Vec<u8>, usize), String>)
    ensures
        match r {
            Ok((n, e, bits)) => rsa_pkcs8_public(pem@) == Ok::<(Seq<u8>, Seq<u8>, nat), Seq<char>>((n@, e@, bits as nat)),
            Err(m) => rsa_pkcs8_public(pem@) == Err::<(Seq<u8>, Seq<u8>, nat), Seq<char>>(m@),
        },
{
    match rsa::RsaPrivateKey::from_pkcs8_pem(pem) {
        Ok(key) => Ok((key.n().to_bytes_be(), key.e().to_bytes_be(), key.n().bits())),
        Err(error) => Err(error.to_string()),
    }
}

/// Whether `jsonwebtoken::EncodingKey::from_rsa_pem` accepts the PEM bytes.
pub uninterp spec fn rsa_pem_accepted(pem: Seq<u8>) -> bool;

/// Checks that `jsonwebtoken::EncodingKey::from_rsa_pem` accepts `pem`; on
/// failure, the error's text. Whether it succeeds is named: it depends on
/// the bytes alone.
#[verifier::external_body]
pub(crate) fn rsa_encoding_key(pem: &[u8]) -> (r: Result<(), String>)
    ensures
        r is Ok <==> rsa_pem_accepted(pem@),
{
    jsonwebtoken::EncodingKey::from_rsa_pem(pem).map(|_| ()).map_err(|error| error.to_string())
}

/// What `pkcs8::SecretDocument::from_pem` makes of a PEM text: its label
/// and DER bytes, or the error's text.
pub uninterp spec fn pem_document(pem: Seq<char>) -> Result<(Seq<char>, Seq<u8>), Seq<char>>;

/// Decodes a PEM block with `pkcs8::SecretDocument::from_pem`. The result is
/// named: it depends on the text alone.
#[verifier::external_body]
pub(crate) fn decode_pem_document(pem: &str) -> (r: Result<(String, Vec<u8>), String>)
    ensures
        match r {
            Ok((label, der)) => pem_document(pem@) == Ok::<(Seq<char>, Seq<u8>), Seq<char>>((label@, der@)),
            Err(m) => pem_document(pem@) == Err::<(Seq<char>, Seq<u8>), Seq<char>>(m@),
        },
{
    match pkcs8::SecretDocument::from_pem(pem) {
        Ok((label, document)) => Ok((label.to_string(), document.as_bytes().to_vec())),
        Err(error) => Err(error.to_string()),
    }
}

/// The public key of the P-256 key pair a PKCS#8 document holds, as an
/// uncompressed point.
pub uninterp spec fn p256_point(der: Seq<u8>) -> Seq<u8>;

/// Loads a P-256 key pair with `ring::signature::EcdsaKeyPair::from_pkcs8`
/// (fixed-length signatures) and returns its public key, an uncompressed
/// point of 65 bytes (`0x04`, then x and y); on failure, the error's text.
/// The point is named: it is fixed by the document. Loading also draws on
/// the system's random source, so whether it fails is not stated.
#[verifier::external_body]
pub(crate) fn p256_public_key(der: &[u8]) -> (r: Result<Vec<u8>, String>)
    ensures
        r matches Ok(k) ==> k@ == p256_point(der@) && k@.len() == 65,
{
    match ring::signature::EcdsaKeyPair::from_pkcs8(
        &ring::signature::ECDSA_P256_SHA256_FIXED_SIGNING,
        der,
        &ring::rand::SystemRandom::new(),
    ) {
        Ok(pair) => Ok(pair.public_key().as_ref().to_vec()),
        Err(error) => Err(error.to_string()),
    }
}

/// Whether `jsonwebtoken::crypto::verify` accepts the base64url `signature`
/// over `message` under `alg` with the public key that belongs to the
/// private key `private_key` (PKCS#8 PEM text for RS256 and PS256, PKCS#8
/// DER for ES256).
pub uninterp spec fn jws_verifies(message: Seq<u8>, alg: SigningAlgorithm, private_key: Seq<u8>, signature: Seq<char>) -> bool;

/// Signs `message` with `jsonwebtoken::crypto::sign` under `algorithm`, with
/// the key built by `EncodingKey::from_rsa_pem` (RS256, PS256) or
/// `EncodingKey::from_ec_der` (ES256) from `private_key`, and returns the
/// base64url signature; on failure, the error's text. RSA-PSS and ECDSA
/// signatures are randomized, so the signature is not named; what holds of
/// every one is that it verifies under the matching public key, which is
/// what a signature of these schemes is.
#[verifier::external_body]
pub(crate) fn jws_signature(message: &[u8], private_key: &[u8], algorithm: SigningAlgorithm) -> (r: Result<
    String,
    String,
>)
    ensures
        r matches Ok(s) ==> jws_verifies(message@, algorithm, private_key@, s@),
{
    let (alg, key) = match algorithm {
        SigningAlgorithm::RS256 => (Algorithm::RS256, jsonwebtoken::EncodingKey::from_rsa_pem(private_key)),
        SigningAlgorithm::PS256 => (Algorithm::PS256, jsonwebtoken::EncodingKey::from_rsa_pem(private_key)),
        SigningAlgorithm::ES256 => (Algorithm::ES256, Ok(jsonwebtoken::EncodingKey::from_ec_der(private_key))),
    };
    let key = key.map_err(|error| error.to_string())?;
    jsonwebtoken::crypto::sign(message, &key, alg).map_err(|error| error.to_string())
}

/// The fields `password_hash::PasswordHash::new` parses from a PHC string:
/// the algorithm identifier, whether a salt and an output are present, the
/// output length and the version; or the error's text.
pub uninterp spec fn phc_fields(hash: Seq<char>) -> Result<(Seq<char>, bool, Option<nat>, Option<u32>), Seq<char>>;

/// Parses a PHC string with `password_hash::PasswordHash::new`. The result
/// is named: it depends on the text alone.
#[verifier::external_body]
pub(crate) fn parse_phc(hash: &str) -> (r: Result<PhcSummary, String>)
    ensures
        match r {
            Ok(p) => phc_fields(hash@) == Ok::<(Seq<char>, bool, Option<nat>, Option<u32>), Seq<char>>((
                p.algorithm@,
                p.has_salt,
                match p.output_len { Some(n) => Some(n as nat), None => None },
                p.version,
            )),
            Err(m) => phc_fields(hash@) == Err::<(Seq<char>, bool, Option<nat>, Option<u32>), Seq<char>>(m@),
        },
{
    match argon2::password_hash::PasswordHash::new(hash) {
        Ok(parsed) => Ok(PhcSummary {
            algorithm: parsed.algorithm.as_str().to_string(),
            has_salt: parsed.salt.is_some(),
            output_len: parsed.hash.map(|output| output.len()),
            version: parsed.version,
        }),
        Err(error) => Err(error.to_string()),
    }
}

/// The memory and time costs `argon2::Params::try_from` reads from a parsed
/// PHC string, or the error's text.
pub uninterp spec fn argon2_costs(hash: Seq<char>) -> Result<(u32, u32), Seq<char>>;

/// Reads the Argon2 parameters of a PHC string: parses it with
/// `PasswordHash::new`, then `argon2::Params::try_from`, and returns
/// `m_cost()` and `t_cost()`. The result is named: it depends on the text
/// alone.
#[verifier::external_body]
pub(crate) fn argon2_params(hash: &str) -> (r: Result<(u32, u32), String>)
    ensures
        match r {
            Ok(costs) => argon2_costs(hash@) == Ok::<(u32, u32), Seq<char>>(costs),
            Err(m) => argon2_costs(hash@) == Err::<(u32, u32), Seq<char>>(m@),
        },
{
    let parsed = argon2::password_hash::PasswordHash::new(hash).map_err(|error| error.to_string())?;
    let params = argon2::Params::try_from(&parsed).map_err(|error| error.to_string())?;
    Ok((params.m_cost(), params.t_cost()))
}

/// Whether `argon2::Argon2::default().verify_password` accepts `password`
/// for the PHC string `phc` (false when the string does not parse).
pub uninterp spec fn argon2_accepts(phc: Seq<char>, password: Seq<u8>) -> bool;

/// Verifies a password against an Argon2 PHC string. The answer is named: it
/// depends on the two arguments alone.
#[verifier::external_body]
pub(crate) fn argon2_verify(phc: &str, password: &[u8]) -> (r: bool)
    ensures
        r == argon2_accepts(phc@, password@),
{
    argon2::password_hash::PasswordHash::new(phc).is_ok_and(|parsed| {
        argon2::Argon2::default().verify_password(password, &parsed).is_ok()
    })
}

/// The salt text `password_hash::SaltString::encode_b64` makes of `bytes`,
/// or the error's text.
pub uninterp spec fn salt_b64(bytes: Seq<u8>) -> Result<Seq<char>, Seq<char>>;

/// Encodes salt bytes with `SaltString::encode_b64`. The result is named.
#[verifier::external_body]
pub(crate) fn encode_salt(bytes: &[u8]) -> (r: Result<String, String>)
    ensures
        match r {
            Ok(s) => salt_b64(bytes@) == Ok::<Seq<char>, Seq<char>>(s@),
            Err(m) => salt_b64(bytes@) == Err::<Seq<char>, Seq<char>>(m@),
        },
{
    argon2::password_hash::SaltString::encode_b64(bytes)
        .map(|salt| salt.as_str().to_string())
        .map_err(|error| error.to_string())
}

/// The PHC string `argon2::Argon2::default().hash_password` makes of a
/// password and a salt, or the error's text.
pub uninterp spec fn argon2_hash(password: Seq<u8>, salt: Seq<char>) -> Result<Seq<char>, Seq<char>>;

/// Hashes a password with the default Argon2id parameters and the salt
/// `salt` (`SaltString::from_b64`). The result is named: with the salt
/// given, it depends on the arguments alone.
#[verifier::external_body]
pub(crate) fn argon2_hash_password(password: &[u8], salt: &str) -> (r: Result<String, String>)
    ensures
        match r {
            Ok(s) => argon2_hash(password@, salt@) == Ok::<Seq<char>, Seq<char>>(s@),
            Err(m) => argon2_hash(password@, salt@) == Err::<Seq<char>, Seq<char>>(m@),
        },
{
    let salt = argon2::password_hash::SaltString::from_b64(salt).map_err(|error| error.to_string())?;
    argon2::Argon2::default()
        .hash_password(password, &salt)
        .map(|hash| hash.to_string())
        .map_err(|error| error.to_string())
}

/// Draws `n` bytes from `ring::rand::SystemRandom` with `SecureRandom::fill`,
/// which fills the whole buffer from the operating system's generator or
/// reports `Unspecified`; then `None` comes back. Which bytes come back is
/// not stated.
#[verifier::external_body]
pub(crate) fn random_bytes(n: usize) -> (r: Option<Vec<u8>>)
    ensures
        r matches Some(v) ==> v@.len() == n,
{
    let mut bytes = vec![0u8; n];
    ring::rand::SystemRandom::new().fill(&mut bytes).ok().map(|()| bytes)
}

/// Whether `std::path::Path::is_absolute` holds of `path`.
pub uninterp spec fn path_is_absolute(path: Seq<char>) -> bool;

/// Calls `Path::new(path).is_absolute()`. The answer is named, not
/// described: std documents it per platform (on Unix, a path that starts
/// with the root).
#[verifier::external_body]
pub(crate) fn is_absolute_path(path: &str) -> (r: bool)
    ensures
        r == path_is_absolute(path@),
{
    std::path::Path::new(path).is_absolute()
}

/// The `application/x-www-form-urlencoded` text that
/// `url::form_urlencoded::Serializer` makes of `pairs`, in order.
pub uninterp spec fn form_urlencoded(pairs: Seq<(Seq<char>, Seq<char>)>) -> Seq<char>;

/// Serializes `pairs` with `form_urlencoded::Serializer::append_pair` and
/// `finish`. The text is named; the crate's `append_pair` always writes the
/// encoded name and an `=`, so the text is empty exactly when there are no
/// pairs.
#[verifier::external_body]
pub(crate) fn form_urlencode(pairs: &Vec<(String, String)>) -> (r: String)
    ensures
        r@ == form_urlencoded(pair_views(pairs@)),
        (r@.len() == 0) == (pairs@.len() == 0),
{
    let mut serializer = url::form_urlencoded::Serializer::new(String::new());
    for (name, value) in pairs {
        serializer.append_pair(name, value);
    }
    serializer.finish()
}

/// What `str::to_lowercase` makes of `s` (the Unicode lowercase mapping).
pub uninterp spec fn lowercase(s: Seq<char>) -> Seq<char>;

/// Calls `str::to_lowercase`. The text is named.
#[verifier::external_body]
pub(crate) fn to_lowercase(s: &str) -> (r: String)
    ensures
        r@ == lowercase(s@),
{
    s.to_lowercase()
}

/// What checking the JSON text `value` against the JSON Schema text
/// `schema` with `jsonschema` gives: the text of each validation error, in
/// the order the validator reports them (none when the value is valid), or
/// the text of the error that stopped it, from parsing either text or from
/// compiling the schema.
pub uninterp spec fn schema_outcome(schema: Seq<char>, value: Seq<char>) -> Result<Seq<Seq<char>>, Seq<char>>;

/// Parses both texts with `serde_json::from_str`, compiles the schema with
/// `jsonschema::JSONSchema::compile` and validates the value with
/// `JSONSchema::validate`, turning each error into its text. The outcome is
/// named: it depends on the two texts alone.
#[verifier::external_body]
pub(crate) fn schema_errors(schema: &str, value: &str) -> (r: Result<Vec<String>, String>)
    ensures
        match r {
            Ok(errors) => schema_outcome(schema@, value@) == Ok::<Seq<Seq<char>>, Seq<char>>(views(errors@)),
            Err(m) => schema_outcome(schema@, value@) == Err::<Seq<Seq<char>>, Seq<char>>(m@),
        },
{
    let schema: serde_json::Value = serde_json::from_str(schema).map_err(|error| error.to_string())?;
    let value: serde_json::Value = serde_json::from_str(value).map_err(|error| error.to_string())?;
    let compiled = jsonschema::JSONSchema::compile(&schema).map_err(|error| error.to_string())?;
    let errors = match compiled.validate(&value) {
        Ok(()) => Vec::new(),
        Err(errors) => errors.map(|error| error.to_string()).collect(),
    };
    Ok(errors)
}

} // verus!
