//! The checks a re-authentication makes on a trusted upstream OpenID provider:
//! its discovery document, the authorization URL sent to it, and the ID token
//! it returns.

use vstd::prelude::*;

use crate::bindings::{
    append_query_pairs, base64url, base64url_encode, ct_eq_bytes, decode_jwt_header,
    decode_verified_claims, decoding_key_builds, decoding_key_valid, jwt_accepted, jwt_claim_fields, jwt_header,
    pair_views, parse_url, sha256, sha256_digest, url_parse, url_with_query_pairs,
};
use crate::config::{SigningAlgorithm, TrustedProviderConfig};
use crate::text::{concat, concat3, join, join_strings, opt_seq, str_eq, trim_end_char, trim_end_matches_char, views};
use crate::time::UtcTime;
use crate::auth::clock_reading;
use vstd::utf8::encode_utf8;

verus! {

/// The endpoints an upstream provider published in its discovery document.
#[derive(Debug)]
pub struct DiscoveredOidcProvider {
    pub issuer: String,
    pub authorization_endpoint: String,
    pub token_endpoint: String,
    pub jwks_uri: String,
}

impl DiscoveredOidcProvider {
    pub fn duplicate(&self) -> (r: Self)
        ensures
            r == *self,
    {
        DiscoveredOidcProvider {
            issuer: self.issuer.clone(),
            authorization_endpoint: self.authorization_endpoint.clone(),
            token_endpoint: self.token_endpoint.clone(),
            jwks_uri: self.jwks_uri.clone(),
        }
    }
}

/// The upstream account an ID token vouched for.
#[derive(Debug)]
pub struct ValidatedUpstreamIdentity {
    pub subject: String,
    pub issuer: String,
}

/// How far in the future an upstream `iat` may lie, in seconds.
pub const CLOCK_SKEW_SECONDS: i64 = 60;

/// What the authorization URL sent upstream is built from.
pub struct UpstreamAuthorizationRequest<'a> {
    pub provider: &'a TrustedProviderConfig,
    pub metadata: &'a DiscoveredOidcProvider,
    pub upstream_scopes: &'a [String],
    pub state: &'a str,
    pub nonce: &'a str,
    pub pkce_verifier: Option<&'a str>,
    pub prompt_login: bool,
}

/// The members of an upstream discovery document that are used.
#[derive(Debug)]
pub struct DiscoveryResponse {
    pub issuer: String,
    pub authorization_endpoint: String,
    pub token_endpoint: String,
    pub jwks_uri: String,
}

/// A key of an upstream JWKS document.
#[derive(Debug)]
pub struct RemoteJwk {
    pub kty: Option<String>,
    pub key_use: Option<String>,
    pub alg: Option<String>,
    pub kid: Option<String>,
    pub n: Option<String>,
    pub e: Option<String>,
    pub crv: Option<String>,
    pub x: Option<String>,
    pub y: Option<String>,
}

/// The claims of a verified upstream ID token that the checks read.
#[derive(Debug)]
pub struct UpstreamClaims {
    pub iat: Option<i64>,
    pub nonce: Option<String>,
    pub sub: Option<String>,
}

// ---------------------------------------------------------------------------
// Discovery
// ---------------------------------------------------------------------------

/// Why `value` cannot serve as the endpoint `field`, if it cannot.
pub open spec fn endpoint_problem(value: Seq<char>, field: Seq<char>) -> Option<Seq<char>> {
    match url_parse(value) {
        Err(_) => Some(field + " is not a valid URL"@),
        Ok((_, host, fragment)) => if !host || fragment {
            Some(field + " must be an absolute URL without a fragment"@)
        } else {
            None
        },
    }
}

pub open spec fn unit_result(r: Result<(), String>) -> Option<Seq<char>> {
    match r {
        Ok(_) => None,
        Err(e) => Some(e@),
    }
}

pub open spec fn string_result(r: Result<String, String>) -> Result<Seq<char>, Seq<char>> {
    match r {
        Ok(s) => Ok(s@),
        Err(e) => Err(e@),
    }
}

/// Checks that `value` is an absolute URL without a fragment.
pub fn validate_endpoint(value: &str, field: &str) -> (r: Result<(), String>)
    ensures
        unit_result(r) == endpoint_problem(value@, field@),
{
    match parse_url(value) {
        Err(_) => Err(concat(field, " is not a valid URL")),
        Ok((_, host, fragment)) => {
            if !host || fragment {
                Err(concat(field, " must be an absolute URL without a fragment"))
            } else {
                Ok(())
            }
        },
    }
}

/// The discovery document URL of an issuer, or why the issuer is unusable.
pub open spec fn discovery_url_of(issuer: Seq<char>) -> Result<Seq<char>, Seq<char>> {
    match endpoint_problem(issuer, "issuer"@) {
        Some(problem) => Err(problem),
        None => Ok(trim_end_char(issuer, '/') + "/.well-known/openid-configuration"@),
    }
}

/// `{issuer}/.well-known/openid-configuration`, with trailing slashes of the
/// issuer removed.
pub fn discovery_url(issuer: &str) -> (r: Result<String, String>)
    ensures
        string_result(r) == discovery_url_of(issuer@),
{
    validate_endpoint(issuer, "issuer")?;
    let mut url = trim_end_matches_char(issuer, '/');
    url.append("/.well-known/openid-configuration");
    Ok(url)
}

/// The provider description a discovery document gives, or why it is refused.
pub open spec fn discovery_outcome(configured_issuer: Seq<char>, d: DiscoveryResponse) -> Result<
    (Seq<char>, Seq<char>, Seq<char>, Seq<char>),
    Seq<char>,
> {
    if d.issuer@ != configured_issuer {
        Err("OIDC discovery issuer '"@ + d.issuer@ + "' does not exactly match configured issuer '"@
            + configured_issuer + "'"@)
    } else if endpoint_problem(d.authorization_endpoint@, "authorization_endpoint"@) is Some {
        Err(endpoint_problem(d.authorization_endpoint@, "authorization_endpoint"@)->0)
    } else if endpoint_problem(d.token_endpoint@, "token_endpoint"@) is Some {
        Err(endpoint_problem(d.token_endpoint@, "token_endpoint"@)->0)
    } else if endpoint_problem(d.jwks_uri@, "jwks_uri"@) is Some {
        Err(endpoint_problem(d.jwks_uri@, "jwks_uri"@)->0)
    } else {
        Ok((d.issuer@, d.authorization_endpoint@, d.token_endpoint@, d.jwks_uri@))
    }
}

pub open spec fn provider_result(r: Result<DiscoveredOidcProvider, String>) -> Result<
    (Seq<char>, Seq<char>, Seq<char>, Seq<char>),
    Seq<char>,
> {
    match r {
        Ok(p) => Ok((p.issuer@, p.authorization_endpoint@, p.token_endpoint@, p.jwks_uri@)),
        Err(e) => Err(e@),
    }
}

/// Accepts a fetched discovery document: its issuer must equal the
/// configured issuer exactly, and its three endpoints must be absolute URLs
/// without fragments.
pub fn check_discovery(provider: &TrustedProviderConfig, document: DiscoveryResponse) -> (r: Result<
    DiscoveredOidcProvider,
    String,
>)
    ensures
        provider_result(r) == discovery_outcome(provider.issuer@, document),
{
    if !str_eq(document.issuer.as_str(), provider.issuer.as_str()) {
        let mut message = concat3("OIDC discovery issuer '", document.issuer.as_str(), "' does not exactly match configured issuer '");
        message.append(provider.issuer.as_str());
        message.append("'");
        return Err(message);
    }
    validate_endpoint(document.authorization_endpoint.as_str(), "authorization_endpoint")?;
    validate_endpoint(document.token_endpoint.as_str(), "token_endpoint")?;
    validate_endpoint(document.jwks_uri.as_str(), "jwks_uri")?;
    Ok(
        DiscoveredOidcProvider {
            issuer: document.issuer,
            authorization_endpoint: document.authorization_endpoint,
            token_endpoint: document.token_endpoint,
            jwks_uri: document.jwks_uri,
        },
    )
}

// ---------------------------------------------------------------------------
// Authorization URL
// ---------------------------------------------------------------------------

/// The PKCE `S256` challenge of a verifier.
pub open spec fn s256_challenge(verifier: Seq<char>) -> Seq<char> {
    base64url(sha256(encode_utf8(verifier)))
}

/// The PKCE `S256` challenge of a verifier: the unpadded base64url SHA-256
/// digest of its UTF-8 bytes.
pub fn pkce_challenge(verifier: &str) -> (r: String)
    ensures
        r@ == s256_challenge(verifier@),
{
    let digest = sha256_digest(verifier.as_bytes());
    base64url_encode(digest.as_slice())
}

pub open spec fn opt_str(o: Option<&str>) -> Option<Seq<char>> {
    match o {
        Some(s) => Some(s@),
        None => None,
    }
}

/// The query parameters of an upstream authorization request, in order.
pub open spec fn authorization_pairs(
    client_id: Seq<char>,
    redirect_uri: Seq<char>,
    scopes: Seq<Seq<char>>,
    state: Seq<char>,
    nonce: Seq<char>,
    pkce_verifier: Option<Seq<char>>,
    prompt_login: bool,
) -> Seq<(Seq<char>, Seq<char>)> {
    let base = seq![
        ("response_type"@, "code"@),
        ("client_id"@, client_id),
        ("redirect_uri"@, redirect_uri),
        ("scope"@, join(scopes, " "@)),
        ("state"@, state),
        ("nonce"@, nonce),
    ];
    let with_pkce = match pkce_verifier {
        Some(v) => base + seq![
            ("code_challenge"@, s256_challenge(v)),
            ("code_challenge_method"@, "S256"@),
        ],
        None => base,
    };
    if prompt_login {
        with_pkce.push(("prompt"@, "login"@))
    } else {
        with_pkce
    }
}

pub open spec fn request_pairs(request: UpstreamAuthorizationRequest) -> Seq<(Seq<char>, Seq<char>)> {
    authorization_pairs(
        request.provider.client_id@,
        request.provider.redirect_uri@,
        views(request.upstream_scopes@),
        request.state@,
        request.nonce@,
        opt_str(request.pkce_verifier),
        request.prompt_login,
    )
}

fn pair(key: &str, value: String) -> (r: (String, String))
    ensures
        r.0@ == key@,
        r.1 == value,
{
    (key.to_owned(), value)
}

/// The upstream authorization URL: the discovered authorization endpoint
/// with the OIDC code-flow parameters appended, the PKCE challenge when a
/// verifier is given, and `prompt=login` when fresh authentication is
/// requested.
pub fn build_authorization_url(request: UpstreamAuthorizationRequest) -> (r: Result<String, String>)
    ensures
        match r {
            Ok(url) => url_with_query_pairs(
                request.metadata.authorization_endpoint@,
                request_pairs(request),
            ) == Some(url@),
            Err(e) => url_parse(request.metadata.authorization_endpoint@) is Err && url_with_query_pairs(
                request.metadata.authorization_endpoint@,
                request_pairs(request),
            ) is None && e@ == "discovered authorization_endpoint must be a valid URL"@,
        },
{
    let mut pairs: Vec<(String, String)> = Vec::new();
    pairs.push(pair("response_type", "code".to_owned()));
    pairs.push(pair("client_id", request.provider.client_id.clone()));
    pairs.push(pair("redirect_uri", request.provider.redirect_uri.clone()));
    pairs.push(pair("scope", join_strings(request.upstream_scopes, " ")));
    pairs.push(pair("state", request.state.to_owned()));
    pairs.push(pair("nonce", request.nonce.to_owned()));
    let ghost base = pair_views(pairs@);
    if let Some(verifier) = request.pkce_verifier {
        pairs.push(pair("code_challenge", pkce_challenge(verifier)));
        pairs.push(pair("code_challenge_method", "S256".to_owned()));
    }
    if request.prompt_login {
        pairs.push(pair("prompt", "login".to_owned()));
    }
    proof {
        reveal_strlit("code");
        reveal_strlit("S256");
        reveal_strlit("login");
        assert(pair_views(pairs@) =~= request_pairs(request));
    }
    match append_query_pairs(request.metadata.authorization_endpoint.as_str(), &pairs) {
        Some(url) => Ok(url),
        None => Err("discovered authorization_endpoint must be a valid URL".to_owned()),
    }
}

// ---------------------------------------------------------------------------
// ID token
// ---------------------------------------------------------------------------

/// Whether two strings are equal, compared in time independent of where
/// they differ.
pub fn constant_time_eq(left: &str, right: &str) -> (r: bool)
    ensures
        r == (left@ == right@),
{
    if left.len() != right.len() {
        proof {
            vstd::utf8::encode_utf8_decode_utf8(left@);
            vstd::utf8::encode_utf8_decode_utf8(right@);
        }
        return false;
    }
    let r = ct_eq_bytes(left.as_bytes(), right.as_bytes());
    proof {
        vstd::utf8::encode_utf8_decode_utf8(left@);
        vstd::utf8::encode_utf8_decode_utf8(right@);
    }
    r
}

/// Whether a JWKS key may verify a token signed with `alg`: its key type
/// (and, for EC keys, its curve) fits the algorithm, and any declared use or
/// algorithm agrees.
pub open spec fn key_fits(k: RemoteJwk, alg: SigningAlgorithm) -> bool {
    &&& match alg {
        SigningAlgorithm::ES256 => opt_seq(k.kty) == Some("EC"@) && opt_seq(k.crv) == Some("P-256"@),
        _ => opt_seq(k.kty) == Some("RSA"@),
    }
    &&& (k.key_use is None || opt_seq(k.key_use) == Some("sig"@))
    &&& (k.alg is None || opt_seq(k.alg) == Some(alg.name()))
}

fn opt_is(o: &Option<String>, s: &str) -> (r: bool)
    ensures
        r == (opt_seq(*o) == Some(s@)),
{
    match o {
        Some(v) => str_eq(v.as_str(), s),
        None => false,
    }
}

pub fn key_fits_algorithm(k: &RemoteJwk, alg: SigningAlgorithm) -> (r: bool)
    ensures
        r == key_fits(*k, alg),
{
    let kind = match alg {
        SigningAlgorithm::ES256 => opt_is(&k.kty, "EC") && opt_is(&k.crv, "P-256"),
        _ => opt_is(&k.kty, "RSA"),
    };
    let usage = k.key_use.is_none() || opt_is(&k.key_use, "sig");
    let declared = k.alg.is_none() || opt_is(&k.alg, alg.as_str());
    kind && usage && declared
}

/// The index of the first key with this `kid`, or the number of keys.
pub open spec fn first_with_kid(keys: Seq<RemoteJwk>, kid: Seq<char>) -> int
    decreases keys.len(),
{
    if keys.len() == 0 {
        0
    } else if opt_seq(keys[0].kid) == Some(kid) {
        0
    } else {
        1 + first_with_kid(keys.drop_first(), kid)
    }
}

pub proof fn lemma_first_with_kid(keys: Seq<RemoteJwk>, kid: Seq<char>)
    ensures
        0 <= first_with_kid(keys, kid) <= keys.len(),
        first_with_kid(keys, kid) < keys.len() ==> opt_seq(keys[first_with_kid(keys, kid)].kid)
            == Some(kid),
        forall|j: int| 0 <= j < first_with_kid(keys, kid) ==> opt_seq(#[trigger] keys[j].kid) != Some(kid),
    decreases keys.len(),
{
    if keys.len() > 0 && opt_seq(keys[0].kid) != Some(kid) {
        lemma_first_with_kid(keys.drop_first(), kid);
        assert forall|j: int| 0 <= j < first_with_kid(keys, kid) implies opt_seq(#[trigger] keys[j].kid) != Some(kid) by {
            if j > 0 {
                assert(keys[j] == keys.drop_first()[j - 1]);
            }
        }
    }
}

/// The first key with this `kid`.
pub fn find_key<'a>(keys: &'a Vec<RemoteJwk>, kid: &str) -> (r: Option<&'a RemoteJwk>)
    ensures
        match r {
            Some(k) => first_with_kid(keys@, kid@) < keys@.len() && *k == keys@[first_with_kid(keys@, kid@)],
            None => first_with_kid(keys@, kid@) == keys@.len(),
        },
{
    proof {
        lemma_first_with_kid(keys@, kid@);
    }
    for i in 0..keys.len()
        invariant
            forall|j: int| 0 <= j < i ==> opt_seq(#[trigger] keys@[j].kid) != Some(kid@),
            0 <= first_with_kid(keys@, kid@) <= keys@.len(),
            first_with_kid(keys@, kid@) < keys@.len() ==> opt_seq(keys@[first_with_kid(keys@, kid@)].kid)
                == Some(kid@),
            forall|j: int| 0 <= j < first_with_kid(keys@, kid@) ==> opt_seq(#[trigger] keys@[j].kid) != Some(kid@),
    {
        if opt_is(&keys[i].kid, kid) {
            return Some(&keys[i]);
        }
    }
    None
}

/// What the claim checks make of verified claims at `now`: the subject, or
/// why the token is refused.
pub open spec fn claims_outcome(c: UpstreamClaims, now: UtcTime, expected_nonce: Seq<char>) -> Result<
    Seq<char>,
    Seq<char>,
> {
    match c.iat {
        None => Err("upstream id_token is missing a numeric iat claim"@),
        Some(iat) => if iat > now.secs + CLOCK_SKEW_SECONDS {
            Err("upstream id_token iat is in the future"@)
        } else {
            match c.nonce {
                None => Err("upstream id_token is missing nonce"@),
                Some(nonce) => if nonce@ != expected_nonce {
                    Err("upstream id_token nonce does not match"@)
                } else {
                    match c.sub {
                        Some(sub) => if sub@.len() > 0 {
                            Ok(sub@)
                        } else {
                            Err("upstream id_token is missing a non-empty sub claim"@)
                        },
                        None => Err("upstream id_token is missing a non-empty sub claim"@),
                    }
                },
            }
        },
    }
}

pub open spec fn identity_result(r: Result<ValidatedUpstreamIdentity, String>, issuer: Seq<char>) -> Result<
    Seq<char>,
    Seq<char>,
> {
    match r {
        Ok(id) => if id.issuer@ == issuer {
            Ok(id.subject@)
        } else {
            Err(Seq::empty())
        },
        Err(e) => Err(e@),
    }
}

/// Checks the claims of a verified upstream ID token at `now`: a numeric
/// `iat` no more than the clock skew in the future, the expected nonce, and
/// a nonempty subject. The identity carries the discovered issuer.
pub fn check_upstream_claims(claims: UpstreamClaims, now: UtcTime, expected_nonce: &str, issuer: &str) -> (r:
    Result<ValidatedUpstreamIdentity, String>)
    ensures
        identity_result(r, issuer@) == claims_outcome(claims, now, expected_nonce@),
        r matches Ok(id) ==> id.issuer@ == issuer@,
{
    let issued_at = match claims.iat {
        Some(iat) => iat,
        None => return Err("upstream id_token is missing a numeric iat claim".to_owned()),
    };
    if issued_at as i128 > now.secs as i128 + CLOCK_SKEW_SECONDS as i128 {
        return Err("upstream id_token iat is in the future".to_owned());
    }
    let nonce = match claims.nonce {
        Some(n) => n,
        None => return Err("upstream id_token is missing nonce".to_owned()),
    };
    if !constant_time_eq(nonce.as_str(), expected_nonce) {
        return Err("upstream id_token nonce does not match".to_owned());
    }
    match claims.sub {
        Some(sub) => {
            if sub.as_str().is_empty() {
                Err("upstream id_token is missing a non-empty sub claim".to_owned())
            } else {
                Ok(ValidatedUpstreamIdentity { subject: sub, issuer: issuer.to_owned() })
            }
        },
        None => Err("upstream id_token is missing a non-empty sub claim".to_owned()),
    }
}

/// What the header checks make of an ID token for a provider that allows
/// `allowed`: its algorithm and key id, or why it is refused.
pub open spec fn header_check(allowed: Seq<SigningAlgorithm>, token: Seq<char>) -> Result<
    (SigningAlgorithm, Seq<char>),
    Seq<char>,
> {
    match jwt_header(token) {
        None => Err("upstream id_token has an invalid header"@),
        Some((alg, kid)) => match alg {
            None => Err("upstream id_token algorithm is not allowed for this provider"@),
            Some(a) => if !allowed.contains(a) {
                Err("upstream id_token algorithm is not allowed for this provider"@)
            } else {
                match kid {
                    None => Err("upstream id_token header is missing kid"@),
                    Some(k) => Ok((a, k)),
                }
            },
        },
    }
}

/// What the header and key checks make of an ID token and a JWKS document:
/// the algorithm and the index of the key to verify with, or why the token
/// is refused before its signature is checked.
pub open spec fn key_selection(allowed: Seq<SigningAlgorithm>, token: Seq<char>, keys: Seq<RemoteJwk>) -> Result<
    (SigningAlgorithm, int),
    Seq<char>,
> {
    match header_check(allowed, token) {
        Err(e) => Err(e),
        Ok((a, k)) => if first_with_kid(keys, k) >= keys.len() {
            Err("upstream id_token kid was not found in JWKS"@)
        } else if !key_fits(keys[first_with_kid(keys, k)], a) {
            Err("upstream JWKS key does not match the id_token algorithm"@)
        } else {
            Ok((a, first_with_kid(keys, k)))
        },
    }
}

fn algorithm_allowed(allowed: &Vec<SigningAlgorithm>, alg: SigningAlgorithm) -> (r: bool)
    ensures
        r == allowed@.contains(alg),
{
    for i in 0..allowed.len()
        invariant
            forall|j: int| 0 <= j < i ==> allowed@[j] != alg,
    {
        if allowed[i] == alg {
            return true;
        }
    }
    false
}

/// The header checks of an upstream ID token: a decodable header whose
/// algorithm the provider allows, and a key id.
pub fn check_id_token_header(provider: &TrustedProviderConfig, id_token: &str) -> (r: Result<
    (SigningAlgorithm, String),
    String,
>)
    ensures
        match r {
            Ok((alg, kid)) => header_check(provider.allowed_signing_algorithms@, id_token@) == Ok::<
                (SigningAlgorithm, Seq<char>),
                Seq<char>,
            >((alg, kid@)),
            Err(e) => header_check(provider.allowed_signing_algorithms@, id_token@) == Err::<
                (SigningAlgorithm, Seq<char>),
                Seq<char>,
            >(e@),
        },
{
    let (alg, kid) = match decode_jwt_header(id_token) {
        Some(h) => h,
        None => return Err("upstream id_token has an invalid header".to_owned()),
    };
    let alg = match alg {
        Some(a) => a,
        None => return Err("upstream id_token algorithm is not allowed for this provider".to_owned()),
    };
    if !algorithm_allowed(&provider.allowed_signing_algorithms, alg) {
        return Err("upstream id_token algorithm is not allowed for this provider".to_owned());
    }
    match kid {
        Some(kid) => Ok((alg, kid)),
        None => Err("upstream id_token header is missing kid".to_owned()),
    }
}

/// Chooses the JWKS key for an upstream ID token: the first key with the
/// token's `kid`, which must fit the token's algorithm.
pub fn select_verification_key<'a>(
    provider: &TrustedProviderConfig,
    id_token: &str,
    keys: &'a Vec<RemoteJwk>,
) -> (r: Result<(SigningAlgorithm, &'a RemoteJwk), String>)
    ensures
        match r {
            Ok((alg, k)) => key_selection(provider.allowed_signing_algorithms@, id_token@, keys@)
                matches Ok((a, i)) && a == alg && *k == keys@[i],
            Err(e) => key_selection(provider.allowed_signing_algorithms@, id_token@, keys@) == Err::<
                (SigningAlgorithm, int),
                Seq<char>,
            >(e@),
        },
{
    let (alg, kid) = check_id_token_header(provider, id_token)?;
    let key = match find_key(keys, kid.as_str()) {
        Some(k) => k,
        None => return Err("upstream id_token kid was not found in JWKS".to_owned()),
    };
    if !key_fits_algorithm(key, alg) {
        return Err("upstream JWKS key does not match the id_token algorithm".to_owned());
    }
    Ok((alg, key))
}

/// The two components of the JWKS key `k` that build a key of `alg`: `x`
/// and `y` for ES256, `n` and `e` otherwise; or the error for a missing one.
pub open spec fn key_components(k: RemoteJwk, alg: SigningAlgorithm) -> Result<(Seq<char>, Seq<char>), Seq<char>> {
    match alg {
        SigningAlgorithm::ES256 => match (k.x, k.y) {
            (None, _) => Err("upstream JWKS key is missing x coordinate"@),
            (Some(_), None) => Err("upstream JWKS key is missing y coordinate"@),
            (Some(x), Some(y)) => Ok((x@, y@)),
        },
        _ => match (k.n, k.e) {
            (None, _) => Err("upstream JWKS key is missing modulus"@),
            (Some(_), None) => Err("upstream JWKS key is missing exponent"@),
            (Some(n), Some(e)) => Ok((n@, e@)),
        },
    }
}

/// The claims an upstream ID token must carry.
pub open spec fn required_id_token_claims() -> Seq<Seq<char>> {
    seq!["exp"@, "iss"@, "aud"@, "sub"@]
}

/// The claim values the checks read, as plain values.
pub open spec fn claim_fields(c: UpstreamClaims) -> (Option<i64>, Option<Seq<char>>, Option<Seq<char>>) {
    (c.iat, opt_seq(c.nonce), opt_seq(c.sub))
}

/// What validating the upstream ID token `token` answers: the errors of the
/// header, key and component checks; then a refusal by the signature and
/// standard-claim check, or, once that check accepted the token at some
/// clock reading, the outcome of the claim checks on the token's own claims
/// at the current time.
pub open spec fn id_token_validated(
    metadata: DiscoveredOidcProvider,
    provider: TrustedProviderConfig,
    token: Seq<char>,
    nonce: Seq<char>,
    keys: Seq<RemoteJwk>,
    r: Result<ValidatedUpstreamIdentity, String>,
) -> bool {
    match key_selection(provider.allowed_signing_algorithms@, token, keys) {
        Err(e) => r matches Err(m) && m@ == e,
        Ok((a, i)) => match key_components(keys[i], a) {
            Err(e) => r matches Err(m) && m@ == e,
            Ok((ka, kb)) => if !decoding_key_builds(a, ka, kb) {
                r matches Err(m) && m@ == "upstream JWKS key is invalid"@
            } else {
                ||| r matches Err(m) && m@ == "upstream id_token failed signature or standard-claim validation"@
                ||| {
                    &&& exists|t: int|
                        #[trigger] jwt_accepted(
                            token,
                            a,
                            ka,
                            kb,
                            metadata.issuer@,
                            provider.client_id@,
                            CLOCK_SKEW_SECONDS as u64,
                            required_id_token_claims(),
                            t,
                        )
                    &&& {
                        ||| r matches Err(m) && m@ == "system clock unavailable"@
                        ||| exists|c: UpstreamClaims, now: UtcTime|
                            claim_fields(c) == jwt_claim_fields(token) && clock_reading(now) && identity_result(
                                r,
                                metadata.issuer@,
                            ) == #[trigger] claims_outcome(c, now, nonce)
                    }
                }
            },
        },
    }
}

fn component(o: &Option<String>, missing: &str) -> (r: Result<String, String>)
    ensures
        match *o {
            Some(v) => r == Ok::<String, String>(v),
            None => r matches Err(m) && m@ == missing@,
        },
{
    match o {
        Some(v) => Ok(v.clone()),
        None => Err(missing.to_owned()),
    }
}

/// Validates an upstream ID token against the provider's JWKS document: the
/// header and key checks, the signature and the standard claims (`exp`,
/// `iss` equal to the discovered issuer, `aud` naming the upstream client
/// id, `sub`, with the clock skew allowed), then the `iat`, nonce and
/// subject checks at the current time. The subject comes from the token's
/// own `sub` claim.
pub fn validate_id_token(
    metadata: &DiscoveredOidcProvider,
    provider: &TrustedProviderConfig,
    id_token: &str,
    expected_nonce: &str,
    keys: &Vec<RemoteJwk>,
) -> (r: Result<ValidatedUpstreamIdentity, String>)
    ensures
        id_token_validated(*metadata, *provider, id_token@, expected_nonce@, keys@, r),
        r matches Ok(id) ==> {
            &&& jwt_claim_fields(id_token@).2 == Some(id.subject@)
            &&& id.issuer@ == metadata.issuer@
            &&& id.subject@.len() > 0
        },
{
    let (alg, key) = select_verification_key(provider, id_token, keys)?;
    let (a, b) = match alg {
        SigningAlgorithm::ES256 => (
            component(&key.x, "upstream JWKS key is missing x coordinate")?,
            component(&key.y, "upstream JWKS key is missing y coordinate")?,
        ),
        _ => (
            component(&key.n, "upstream JWKS key is missing modulus")?,
            component(&key.e, "upstream JWKS key is missing exponent")?,
        ),
    };
    if !decoding_key_valid(alg, a.as_str(), b.as_str()) {
        return Err("upstream JWKS key is invalid".to_owned());
    }
    let mut required: Vec<String> = Vec::new();
    required.push("exp".to_owned());
    required.push("iss".to_owned());
    required.push("aud".to_owned());
    required.push("sub".to_owned());
    assert(views(required@) =~= required_id_token_claims());
    let (iat, nonce, sub) = match decode_verified_claims(
        id_token,
        alg,
        a.as_str(),
        b.as_str(),
        metadata.issuer.as_str(),
        provider.client_id.as_str(),
        CLOCK_SKEW_SECONDS as u64,
        &required,
    ) {
        Some(c) => c,
        None => return Err("upstream id_token failed signature or standard-claim validation".to_owned()),
    };
    let now = match crate::bindings::utc_now() {
        Some(t) => t,
        None => return Err("system clock unavailable".to_owned()),
    };
    let claims = UpstreamClaims { iat, nonce, sub };
    let ghost c = claims;
    let r = check_upstream_claims(claims, now, expected_nonce, metadata.issuer.as_str());
    assert(claims_outcome(c, now, expected_nonce@) == claims_outcome(c, now, expected_nonce@));
    r
}

// ---------------------------------------------------------------------------
// Exchanging the upstream code
// ---------------------------------------------------------------------------

/// The form posted to the upstream token endpoint to exchange `code`.
pub open spec fn token_form(
    provider: TrustedProviderConfig,
    code: Seq<char>,
    pkce_verifier: Option<Seq<char>>,
) -> Seq<(Seq<char>, Seq<char>)> {
    seq![
        ("grant_type"@, "authorization_code"@),
        ("code"@, code),
        ("redirect_uri"@, provider.redirect_uri@),
        ("client_id"@, provider.client_id@),
        ("client_secret"@, provider.client_secret@),
    ] + match pkce_verifier {
        Some(v) => seq![("code_verifier"@, v)],
        None => Seq::empty(),
    }
}

/// Builds the form that exchanges an upstream authorization code, with the
/// PKCE verifier when the transaction holds one.
pub fn upstream_token_form(provider: &TrustedProviderConfig, code: &str, pkce_verifier: Option<&str>) -> (r: Vec<
    (String, String),
>)
    ensures
        pair_views(r@) == token_form(*provider, code@, opt_str(pkce_verifier)),
{
    let mut form: Vec<(String, String)> = Vec::new();
    form.push(("grant_type".to_owned(), "authorization_code".to_owned()));
    form.push(("code".to_owned(), code.to_owned()));
    form.push(("redirect_uri".to_owned(), provider.redirect_uri.clone()));
    form.push(("client_id".to_owned(), provider.client_id.clone()));
    form.push(("client_secret".to_owned(), provider.client_secret.clone()));
    match pkce_verifier {
        Some(v) => form.push(("code_verifier".to_owned(), v.to_owned())),
        None => {},
    }
    assert(pair_views(form@) =~= token_form(*provider, code@, opt_str(pkce_verifier)));
    form
}

/// Whether the upstream token endpoint answered with success: a `2xx`
/// status; otherwise the error names the status as `status_text`.
pub fn check_token_status(status: u16, status_text: &str) -> (r: Result<(), String>)
    ensures
        200 <= status < 300 ==> r is Ok,
        !(200 <= status < 300) ==> (r matches Err(m) && m@ == "upstream token endpoint returned HTTP "@
            + status_text@),
{
    if 200 <= status && status < 300 {
        Ok(())
    } else {
        Err(concat("upstream token endpoint returned HTTP ", status_text))
    }
}

/// The ID token of an upstream token response, which must be present and
/// not empty.
pub fn upstream_id_token(id_token: Option<String>) -> (r: Result<String, String>)
    ensures
        match id_token {
            Some(t) if t@.len() > 0 => r == Ok::<String, String>(t),
            _ => r matches Err(m) && m@ == "upstream token response did not include an id_token"@,
        },
{
    match id_token {
        Some(t) => if t.unicode_len() > 0 {
            Ok(t)
        } else {
            Err("upstream token response did not include an id_token".to_owned())
        },
        None => Err("upstream token response did not include an id_token".to_owned()),
    }
}

} // verus!
