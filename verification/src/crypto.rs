//! Signing keys: what is read from a private-key file, the public JWK that
//! is published for it, and the compact JWS tokens it signs.

use vstd::prelude::*;

use crate::bindings::{
    base64url, base64url_encode, decode_pem_document, jws_signature, jws_verifies, p256_point, p256_public_key,
    pem_document, rsa_encoding_key, rsa_pem_accepted, rsa_public_parts, rsa_pkcs8_public, sha256, sha256_digest,
};
use crate::config::SigningAlgorithm;
use crate::error::AppError;
use crate::json::{json_text, to_json_text, JsonValue, JsonView};
use crate::text::{concat, concat3, starts_with, str_eq};
use vstd::utf8::encode_utf8;

verus! {

/// The public half of a signing key, as a JWK publishes it.
#[derive(Debug)]
pub enum JwkPublicKey {
    Rsa { n: String, e: String },
    Ec { crv: String, x: String, y: String },
}

/// A published verification key.
#[derive(Debug)]
pub struct Jwk {
    pub key_use: String,
    pub alg: String,
    pub kid: String,
    pub public_key: JwkPublicKey,
}

/// The published verification keys.
#[derive(Debug)]
pub struct JwkSet {
    pub keys: Vec<Jwk>,
}

/// An RSA verification key in flat form: key type, id, use, algorithm,
/// modulus and exponent.
#[derive(Debug)]
pub struct JsonWebKey {
    pub kty: String,
    pub kid: String,
    pub usage: String,
    pub alg: String,
    pub n: String,
    pub e: String,
}

/// RSA verification keys in flat form.
#[derive(Debug)]
pub struct JsonWebKeySet {
    pub keys: Vec<JsonWebKey>,
}

impl JsonWebKey {
    /// The flat form of a published RSA key; an EC key has none.
    pub fn from_jwk(jwk: &Jwk) -> (r: Option<JsonWebKey>)
        ensures
            match jwk.public_key {
                JwkPublicKey::Rsa { n, e } => r matches Some(k) && {
                    &&& k.kty@ == "RSA"@
                    &&& k.kid@ == jwk.kid@
                    &&& k.usage@ == jwk.key_use@
                    &&& k.alg@ == jwk.alg@
                    &&& k.n@ == n@
                    &&& k.e@ == e@
                },
                JwkPublicKey::Ec { .. } => r is None,
            },
    {
        match &jwk.public_key {
            JwkPublicKey::Rsa { n, e } => Some(
                JsonWebKey {
                    kty: "RSA".to_owned(),
                    kid: jwk.kid.clone(),
                    usage: jwk.key_use.clone(),
                    alg: jwk.alg.clone(),
                    n: n.clone(),
                    e: e.clone(),
                },
            ),
            JwkPublicKey::Ec { .. } => None,
        }
    }
}

/// A loaded signing key: its private key (PKCS#8 PEM text for RS256 and
/// PS256, PKCS#8 DER for ES256), algorithm and published JWK.
pub struct KeyMaterial {
    pub kid: String,
    pub private_key: Vec<u8>,
    pub algorithm: SigningAlgorithm,
    pub jwk: Jwk,
}

/// The key id of a public key: the unpadded base64url SHA-256 digest of its bytes.
pub open spec fn kid_of(public_key: Seq<u8>) -> Seq<char> {
    base64url(sha256(public_key))
}

/// The key id of a public key.
pub fn build_kid(public_key: &[u8]) -> (r: String)
    ensures
        r@ == kid_of(public_key@),
{
    let digest = sha256_digest(public_key);
    base64url_encode(digest.as_slice())
}

/// A JWK for an RSA key.
pub open spec fn rsa_jwk_is(j: Jwk, alg: SigningAlgorithm, n: Seq<u8>, e: Seq<u8>) -> bool {
    &&& j.key_use@ == "sig"@
    &&& j.alg@ == alg.name()
    &&& j.kid@ == kid_of(n)
    &&& j.public_key matches JwkPublicKey::Rsa { n: jn, e: je }
    &&& jn@ == base64url(n)
    &&& je@ == base64url(e)
}

/// A JWK for a P-256 key with the uncompressed point `point`.
pub open spec fn ec_jwk_is(j: Jwk, point: Seq<u8>) -> bool {
    &&& j.key_use@ == "sig"@
    &&& j.alg@ == "ES256"@
    &&& j.kid@ == kid_of(point)
    &&& j.public_key matches JwkPublicKey::Ec { crv, x, y }
    &&& crv@ == "P-256"@
    &&& x@ == base64url(point.subrange(1, 33))
    &&& y@ == base64url(point.subrange(33, point.len() as int))
}

pub open spec fn crypto_error(r: Result<KeyMaterial, AppError>, message: Seq<char>) -> bool {
    r matches Err(AppError::Crypto(m)) && m@ == message
}

/// What loading an RSA key (RS256 or PS256) from PEM text gives: the
/// public parts of the PKCS#8 key, which for PS256 must have at least 2048
/// bits, published as a JWK whose kid is derived from the modulus; the key
/// loads exactly when the signer also accepts its PEM bytes.
pub open spec fn rsa_key_loaded(pem: Seq<char>, algorithm: SigningAlgorithm, r: Result<KeyMaterial, AppError>) -> bool {
    match rsa_pkcs8_public(pem) {
        Err(m) => crypto_error(r, algorithm.name() + " requires a PKCS#8 RSA private key: "@ + m),
        Ok((n, e, bits)) => if algorithm == SigningAlgorithm::PS256 && bits < 2048 {
            crypto_error(r, "PS256 requires an RSA key of at least 2048 bits"@)
        } else {
            if rsa_pem_accepted(encode_utf8(pem)) {
                r matches Ok(k) && k.algorithm == algorithm && k.kid@ == kid_of(n) && rsa_jwk_is(k.jwk, algorithm, n, e)
                    && k.private_key@ == encode_utf8(pem)
            } else {
                r matches Err(AppError::Crypto(m)) && starts_with(m@, "failed to load encoding key: "@)
            }
        },
    }
}

/// What loading an ES256 key from PEM text gives: a `PRIVATE KEY` block
/// holding a P-256 key, published as a JWK whose kid is derived from the
/// public point.
pub open spec fn ec_key_loaded(pem: Seq<char>, r: Result<KeyMaterial, AppError>) -> bool {
    match pem_document(pem) {
        Err(m) => crypto_error(r, "ES256 requires a PKCS#8 P-256 private key: "@ + m),
        Ok((label, der)) => if label != "PRIVATE KEY"@ {
            crypto_error(r, "ES256 requires a PKCS#8 P-256 private key (PRIVATE KEY PEM block)"@)
        } else {
            match r {
                Ok(k) => {
                    &&& k.algorithm == SigningAlgorithm::ES256
                    &&& p256_point(der).len() == 65
                    &&& k.kid@ == kid_of(p256_point(der))
                    &&& ec_jwk_is(k.jwk, p256_point(der))
                    &&& k.private_key@ == der
                },
                Err(AppError::Crypto(m)) => starts_with(m@, "ES256 requires a PKCS#8 P-256 private key: "@),
                Err(_) => false,
            }
        },
    }
}

/// Loads an RSA signing key (RS256 or PS256) from PKCS#8 PEM text. PS256
/// keys need a modulus of at least 2048 bits. The kid is derived from the
/// modulus.
pub fn load_rsa_key(pem: &str, algorithm: SigningAlgorithm) -> (r: Result<KeyMaterial, AppError>)
    ensures
        rsa_key_loaded(pem@, algorithm, r),
{
    let (modulus, exponent, bits) = match rsa_public_parts(pem) {
        Ok(parts) => parts,
        Err(error) => {
            let mut message = concat(algorithm.as_str(), " requires a PKCS#8 RSA private key: ");
            message.append(error.as_str());
            return Err(AppError::Crypto(message));
        },
    };
    if algorithm == SigningAlgorithm::PS256 && bits < 2048 {
        return Err(AppError::Crypto("PS256 requires an RSA key of at least 2048 bits".to_owned()));
    }
    match rsa_encoding_key(pem.as_bytes()) {
        Ok(()) => {},
        Err(error) => {
            let message = concat("failed to load encoding key: ", error.as_str());
            assert(message@.take("failed to load encoding key: "@.len() as int) =~= "failed to load encoding key: "@);
            return Err(AppError::Crypto(message));
        },
    };
    let kid = build_kid(modulus.as_slice());
    let jwk = Jwk {
        key_use: "sig".to_owned(),
        alg: algorithm.as_str().to_owned(),
        kid: kid.clone(),
        public_key: JwkPublicKey::Rsa {
            n: base64url_encode(modulus.as_slice()),
            e: base64url_encode(exponent.as_slice()),
        },
    };
    Ok(KeyMaterial { kid, private_key: pem.as_bytes_vec(), algorithm, jwk })
}

/// Loads an ES256 signing key from a PKCS#8 `PRIVATE KEY` PEM block holding
/// a P-256 key. The kid is derived from the uncompressed public point.
pub fn load_ec_key(pem: &str) -> (r: Result<KeyMaterial, AppError>)
    ensures
        ec_key_loaded(pem@, r),
{
    let (label, der) = match decode_pem_document(pem) {
        Ok(d) => d,
        Err(error) => {
            return Err(AppError::Crypto(concat("ES256 requires a PKCS#8 P-256 private key: ", error.as_str())));
        },
    };
    if !str_eq(label.as_str(), "PRIVATE KEY") {
        return Err(
            AppError::Crypto(
                "ES256 requires a PKCS#8 P-256 private key (PRIVATE KEY PEM block)".to_owned(),
            ),
        );
    }
    let point = match p256_public_key(der.as_slice()) {
        Ok(p) => p,
        Err(error) => {
            let message = concat("ES256 requires a PKCS#8 P-256 private key: ", error.as_str());
            assert(message@.take("ES256 requires a PKCS#8 P-256 private key: "@.len() as int)
                =~= "ES256 requires a PKCS#8 P-256 private key: "@);
            return Err(AppError::Crypto(message));
        },
    };
    let kid = build_kid(point.as_slice());
    let x = slice_to_vec(&point, 1, 33);
    let y = slice_to_vec(&point, 33, point.len());
    let jwk = Jwk {
        key_use: "sig".to_owned(),
        alg: "ES256".to_owned(),
        kid: kid.clone(),
        public_key: JwkPublicKey::Ec {
            crv: "P-256".to_owned(),
            x: base64url_encode(x.as_slice()),
            y: base64url_encode(y.as_slice()),
        },
    };
    Ok(KeyMaterial { kid, private_key: der, algorithm: SigningAlgorithm::ES256, jwk })
}

fn slice_to_vec(v: &Vec<u8>, start: usize, end: usize) -> (r: Vec<u8>)
    requires
        start <= end <= v@.len(),
    ensures
        r@ == v@.subrange(start as int, end as int),
{
    let mut r: Vec<u8> = Vec::new();
    for i in start..end
        invariant
            start <= end <= v@.len(),
            r@ == v@.subrange(start as int, i as int),
    {
        r.push(v[i]);
        assert(r@ =~= v@.subrange(start as int, i + 1));
    }
    r
}

/// Loads a signing key of `algorithm` from PEM text.
pub fn key_material_from_pem(pem: &str, algorithm: SigningAlgorithm) -> (r: Result<KeyMaterial, AppError>)
    ensures
        if algorithm == SigningAlgorithm::ES256 {
            ec_key_loaded(pem@, r)
        } else {
            rsa_key_loaded(pem@, algorithm, r)
        },
        r matches Ok(k) ==> k.algorithm == algorithm && k.kid@ == k.jwk.kid@,
{
    match algorithm {
        SigningAlgorithm::ES256 => load_ec_key(pem),
        _ => load_rsa_key(pem, algorithm),
    }
}

// ---------------------------------------------------------------------------
// Compact JWS
// ---------------------------------------------------------------------------

/// The JOSE header of a token signed by `alg` with the key `kid`.
pub open spec fn jws_header(alg: SigningAlgorithm, kid: Seq<char>) -> JsonView {
    JsonView::Object(
        seq![("typ"@, JsonView::Str("JWT"@)), ("alg"@, JsonView::Str(alg.name())), ("kid"@, JsonView::Str(kid))],
    )
}

/// The signing input of a compact JWS: the base64url header and claims texts.
pub open spec fn jws_signing_input(header: JsonView, claims: JsonView) -> Seq<char> {
    base64url(encode_utf8(json_text(header))) + "."@ + base64url(encode_utf8(json_text(claims)))
}

fn header_value(alg: SigningAlgorithm, kid: &str) -> (r: JsonValue)
    ensures
        r@ == jws_header(alg, kid@),
{
    let mut members: Vec<(String, JsonValue)> = Vec::new();
    members.push(("typ".to_owned(), JsonValue::String("JWT".to_owned())));
    members.push(("alg".to_owned(), JsonValue::String(alg.as_str().to_owned())));
    members.push(("kid".to_owned(), JsonValue::String(kid.to_owned())));
    let r = JsonValue::Object(members);
    proof {
        let m = members@;
        let rest1 = m.subrange(1, 3);
        let rest2 = rest1.subrange(1, 2);
        let rest3 = rest2.subrange(1, 1);
        assert(rest3 =~= Seq::<(String, JsonValue)>::empty());
        assert(crate::json::view_members(rest3) =~= Seq::<(Seq<char>, JsonView)>::empty());
        assert(rest2[0] == m[2]);
        assert(rest1[0] == m[1]);
        assert(rest2.len() == 1 && rest1.len() == 2 && m.len() == 3);
        assert(m[2].0@ == "kid"@ && m[1].0@ == "alg"@ && m[0].0@ == "typ"@);
        assert(crate::json::view_of(m[2].1) == JsonView::Str(kid@));
        assert(crate::json::view_of(m[1].1) == JsonView::Str(alg.name()));
        assert(crate::json::view_of(m[0].1) == JsonView::Str("JWT"@));
        assert(crate::json::view_members(rest2) =~= seq![("kid"@, JsonView::Str(kid@))]);
        assert(crate::json::view_members(rest1) =~= seq![
            ("alg"@, JsonView::Str(alg.name())),
            ("kid"@, JsonView::Str(kid@)),
        ]);
        assert(crate::json::view_members(m) =~= seq![
            ("typ"@, JsonView::Str("JWT"@)),
            ("alg"@, JsonView::Str(alg.name())),
            ("kid"@, JsonView::Str(kid@)),
        ]);
    }
    r
}

/// Whether `t` is the compact JWS with signing input `input` and a
/// signature that verifies over that input under `key`.
pub open spec fn signed_token_is(t: Seq<char>, input: Seq<char>, key: KeyMaterial) -> bool {
    exists|signature: Seq<char>|
        t == input + "."@ + signature && #[trigger] jws_verifies(
            encode_utf8(input),
            key.algorithm,
            key.private_key@,
            signature,
        )
}

/// Completes a compact JWS from its signing input and what signing gave:
/// the input, a dot and the signature; a signing failure passes through.
pub fn compact_jws(input: &str, signature: Result<String, String>) -> (r: Result<String, String>)
    ensures
        match signature {
            Ok(s) => r matches Ok(t) && t@ == input@ + "."@ + s@,
            Err(m) => r == Err::<String, String>(m),
        },
{
    match signature {
        Ok(s) => Ok(concat3(input, ".", s.as_str())),
        Err(m) => Err(m),
    }
}

/// Signs `claims` as a compact JWS with `key`: the base64url header and
/// claims, and a signature over both that verifies under the key.
pub fn sign_claims(key: &KeyMaterial, claims: &JsonValue) -> (r: Result<String, String>)
    ensures
        r matches Ok(t) ==> signed_token_is(t@, jws_signing_input(jws_header(key.algorithm, key.kid@), claims@), *key),
{
    let header = header_value(key.algorithm, key.kid.as_str());
    let header_text = to_json_text(&header);
    let claims_text = to_json_text(claims);
    let encoded_header = base64url_encode(header_text.as_str().as_bytes());
    let encoded_claims = base64url_encode(claims_text.as_str().as_bytes());
    let message = concat3(encoded_header.as_str(), ".", encoded_claims.as_str());
    let signature = jws_signature(message.as_str().as_bytes(), key.private_key.as_slice(), key.algorithm);
    let ghost sig = signature;
    let r = compact_jws(message.as_str(), signature);
    assert(message@ == jws_signing_input(jws_header(key.algorithm, key.kid@), claims@));
    proof {
        if r is Ok {
            let s = sig->Ok_0;
            assert(jws_verifies(encode_utf8(message@), key.algorithm, key.private_key@, s@));
        }
    }
    r
}

} // verus!
