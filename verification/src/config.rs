//! Provider, client and trusted-provider configuration, and the checks that
//! the loader applies to it.

use vstd::prelude::*;

use crate::bindings::{
    is_absolute_path, join_path, parse_url, path_is_absolute, path_join, schema_errors, schema_outcome, url_parse,
};
use crate::error::AppError;
use crate::json::{json_text, to_json_text, JsonValue, JsonView};
use crate::order::{sorted_set, sorted_strict};
use crate::text::{
    blank, concat, concat3, concat5, first_index, is_blank, join, join_strings, str_eq, vec_contains, views,
};

verus! {

/// A JWT signature algorithm that the provider can use.
#[derive(Clone, Copy, Debug, PartialEq, Eq, Structural)]
pub enum SigningAlgorithm {
    RS256,
    ES256,
    PS256,
}

impl SigningAlgorithm {
    pub open spec fn name(self) -> Seq<char> {
        match self {
            SigningAlgorithm::RS256 => "RS256"@,
            SigningAlgorithm::ES256 => "ES256"@,
            SigningAlgorithm::PS256 => "PS256"@,
        }
    }

    /// The JOSE name of the algorithm.
    pub fn as_str(self) -> (r: &'static str)
        ensures
            r@ == self.name(),
    {
        match self {
            SigningAlgorithm::RS256 => "RS256",
            SigningAlgorithm::ES256 => "ES256",
            SigningAlgorithm::PS256 => "PS256",
        }
    }

    /// The algorithm with this JOSE name; names are case-sensitive.
    pub fn from_name(name: &str) -> (r: Option<SigningAlgorithm>)
        ensures
            match r {
                Some(a) => a.name() == name@,
                None => name@ != "RS256"@ && name@ != "ES256"@ && name@ != "PS256"@,
            },
    {
        if crate::text::str_eq(name, "RS256") {
            Some(SigningAlgorithm::RS256)
        } else if crate::text::str_eq(name, "ES256") {
            Some(SigningAlgorithm::ES256)
        } else if crate::text::str_eq(name, "PS256") {
            Some(SigningAlgorithm::PS256)
        } else {
            None
        }
    }
}

impl Default for SigningAlgorithm {
    fn default() -> (r: Self)
        ensures
            r == SigningAlgorithm::RS256,
    {
        SigningAlgorithm::RS256
    }
}

/// Provider-wide settings (`provider.json`).
#[derive(Debug)]
pub struct ProviderSettings {
    pub name: String,
    pub issuer: String,
    pub token_ttl_seconds: u64,
    pub listen: String,
    pub log_dir: Option<String>,
    pub signing_algorithm: SigningAlgorithm,
    /// Private-key files by algorithm, in algorithm order, each algorithm once.
    pub signing_key_paths: Vec<(SigningAlgorithm, String)>,
    pub login_background_color: Option<String>,
}

/// How a client's users authenticate.
#[derive(Clone, Copy, Debug, PartialEq, Eq, Structural)]
pub enum ClientAuthMode {
    Local,
    ReAuth,
}

/// Whether local consent follows upstream re-authentication.
#[derive(Clone, Copy, Debug, PartialEq, Eq, Structural)]
pub enum ReAuthConsent {
    Local,
    Skip,
}

/// Whether local authentication asks for consent.
#[derive(Clone, Copy, Debug, PartialEq, Eq, Structural)]
pub enum ConsentMode {
    Always,
    Skip,
}

#[derive(Clone, Copy, Debug, PartialEq, Eq, Structural)]
pub enum TrustedProviderType {
    Oidc,
}

#[derive(Clone, Copy, Debug, PartialEq, Eq, Structural)]
pub enum TokenEndpointAuthMethod {
    ClientSecretPost,
}

/// The upstream provider a re-authentication client uses.
#[derive(Debug)]
pub struct ReAuthClientConfig {
    pub provider_id: String,
    pub upstream_scopes: Vec<String>,
    pub consent: ReAuthConsent,
}

/// A client entry of `clients.json`.
#[derive(Debug)]
pub struct ClientConfig {
    pub client_id: String,
    pub client_secret: String,
    pub signing_algorithm: Option<SigningAlgorithm>,
    pub audience: Option<String>,
    pub scopes: Vec<String>,
    pub metadata: Vec<(String, JsonValue)>,
    pub enabled: bool,
    pub token_ttl_seconds: Option<u64>,
    pub redirect_uris: Vec<String>,
    pub response_types: Vec<String>,
    pub require_pkce: bool,
    pub consent_mode: ConsentMode,
    pub auth_mode: ClientAuthMode,
    pub re_auth: Option<ReAuthClientConfig>,
}

/// An upstream OpenID provider trusted for re-authentication.
#[derive(Debug)]
pub struct TrustedProviderConfig {
    pub provider_id: String,
    pub provider_type: TrustedProviderType,
    pub issuer: String,
    pub client_id: String,
    pub client_secret: String,
    pub redirect_uri: String,
    pub token_endpoint_auth_method: TokenEndpointAuthMethod,
    pub require_pkce: bool,
    pub allowed_signing_algorithms: Vec<SigningAlgorithm>,
}

/// An active client, as the endpoints see it. The three string sets are
/// strictly increasing.
#[derive(Debug)]
pub struct Client {
    pub client_id: String,
    pub client_secret: String,
    pub signing_algorithm: Option<SigningAlgorithm>,
    pub audience: Option<String>,
    pub allowed_scopes: Vec<String>,
    pub metadata: Vec<(String, JsonValue)>,
    pub token_ttl_seconds: Option<u64>,
    pub redirect_uris: Vec<String>,
    pub response_types: Vec<String>,
    pub require_pkce: bool,
    pub consent_mode: ConsentMode,
    pub auth_mode: ClientAuthMode,
    pub re_auth: Option<ReAuthClientConfig>,
}

impl Client {
    /// Well-formed: the allowed scopes, redirect URIs and response types are
    /// each strictly increasing, so each holds a value at most once.
    pub open spec fn wf(&self) -> bool {
        &&& sorted_strict(views(self.allowed_scopes@))
        &&& sorted_strict(views(self.redirect_uris@))
        &&& sorted_strict(views(self.response_types@))
    }
}

pub fn default_enabled() -> (r: bool)
    ensures
        r,
{
    true
}

pub fn empty_metadata() -> (r: Vec<(String, JsonValue)>)
    ensures
        r@.len() == 0,
{
    Vec::new()
}

pub fn default_response_types() -> (r: Vec<String>)
    ensures
        views(r@) == seq!["token"@, "code"@],
{
    let mut r = Vec::new();
    r.push("token".to_owned());
    r.push("code".to_owned());
    assert(views(r@) =~= seq!["token"@, "code"@]);
    r
}

pub fn default_pkce_required() -> (r: bool)
    ensures
        !r,
{
    false
}

pub fn default_upstream_pkce_required() -> (r: bool)
    ensures
        r,
{
    true
}

pub fn default_allowed_signing_algorithms() -> (r: Vec<SigningAlgorithm>)
    ensures
        r@ == seq![SigningAlgorithm::RS256],
{
    let mut r = Vec::new();
    r.push(SigningAlgorithm::RS256);
    assert(r@ =~= seq![SigningAlgorithm::RS256]);
    r
}

// ---------------------------------------------------------------------------
// Provider settings
// ---------------------------------------------------------------------------

pub open spec fn is_ascii_hex(c: char) -> bool {
    ('0' <= c && c <= '9') || ('a' <= c && c <= 'f') || ('A' <= c && c <= 'F')
}

/// `#RGB`, `#RGBA`, `#RRGGBB` or `#RRGGBBAA`.
pub open spec fn valid_background_color(c: Seq<char>) -> bool {
    &&& (c.len() == 4 || c.len() == 5 || c.len() == 7 || c.len() == 9)
    &&& c[0] == '#'
    &&& forall|i: int| 1 <= i < c.len() ==> is_ascii_hex(#[trigger] c[i])
}

pub open spec fn first_empty_path(paths: Seq<(SigningAlgorithm, String)>, i: int) -> int
    decreases paths.len() - i,
{
    if i < 0 || i >= paths.len() {
        paths.len() as int
    } else if paths[i].1@.len() == 0 {
        i
    } else {
        first_empty_path(paths, i + 1)
    }
}

pub open spec fn color_error() -> Seq<char> {
    "login_background_color must be a #RGB, #RGBA, #RRGGBB, or #RRGGBBAA hex color"@
}

/// What is wrong with the provider settings, if anything.
pub open spec fn provider_settings_problem(p: ProviderSettings) -> Option<Seq<char>> {
    let k = first_empty_path(p.signing_key_paths@, 0);
    if p.log_dir matches Some(d) && d@.len() == 0 {
        Some("log_dir must not be empty"@)
    } else if k < p.signing_key_paths@.len() {
        Some("signing_key_paths."@ + p.signing_key_paths@[k].0.name() + " must not be empty"@)
    } else if p.login_background_color matches Some(c) && !valid_background_color(c@) {
        Some(color_error())
    } else {
        None
    }
}

pub open spec fn config_error_is(r: Result<(), AppError>, problem: Option<Seq<char>>) -> bool {
    match r {
        Ok(_) => problem is None,
        Err(e) => e matches AppError::Config(m) && problem == Some(m@),
    }
}

fn is_hex_digit(c: char) -> (r: bool)
    ensures
        r == is_ascii_hex(c),
{
    ('0' <= c && c <= '9') || ('a' <= c && c <= 'f') || ('A' <= c && c <= 'F')
}

/// Whether `color` is a hex color the login page accepts.
pub fn is_valid_background_color(color: &str) -> (r: bool)
    ensures
        r == valid_background_color(color@),
{
    let v = crate::text::str_chars(color);
    let n = v.len();
    if !(n == 4 || n == 5 || n == 7 || n == 9) {
        return false;
    }
    if v[0] != '#' {
        return false;
    }
    for i in 1..n
        invariant
            v@ == color@,
            n == v@.len(),
            forall|j: int| 1 <= j < i ==> is_ascii_hex(#[trigger] color@[j]),
    {
        if !is_hex_digit(v[i]) {
            return false;
        }
    }
    true
}

/// Checks `provider.json`: no empty `log_dir` or key path, and a valid
/// background color when one is set.
pub fn validate_provider_settings(provider: &ProviderSettings) -> (r: Result<(), AppError>)
    ensures
        config_error_is(r, provider_settings_problem(*provider)),
{
    if let Some(dir) = &provider.log_dir {
        if dir.as_str().is_empty() {
            return Err(AppError::Config("log_dir must not be empty".to_owned()));
        }
    }
    let paths = &provider.signing_key_paths;
    for i in 0..paths.len()
        invariant
            paths@ == provider.signing_key_paths@,
            !(provider.log_dir matches Some(d) && d@.len() == 0),
            first_empty_path(paths@, i as int) == first_empty_path(paths@, 0),
            forall|j: int| 0 <= j < i ==> paths@[j].1@.len() != 0,
    {
        if paths[i].1.as_str().is_empty() {
            assert(first_empty_path(paths@, i as int) == i);
            let message = concat3("signing_key_paths.", paths[i].0.as_str(), " must not be empty");
            return Err(AppError::Config(message));
        }
    }
    match &provider.login_background_color {
        Some(color) => {
            if !is_valid_background_color(color.as_str()) {
                return Err(
                    AppError::Config(
                        "login_background_color must be a #RGB, #RGBA, #RRGGBB, or #RRGGBBAA hex color".to_owned(),
                    ),
                );
            }
        },
        None => {},
    }
    Ok(())
}

// ---------------------------------------------------------------------------
// Trusted providers
// ---------------------------------------------------------------------------

/// Why `value` is not an absolute URL, if it is not one.
pub open spec fn url_problem(value: Seq<char>, field: Seq<char>) -> Option<Seq<char>> {
    match url_parse(value) {
        Err(e) => Some("trusted provider "@ + field + " must be a valid URL: "@ + e),
        Ok((scheme, host, _)) => if scheme.len() == 0 || !host {
            Some("trusted provider "@ + field + " must be an absolute URL"@)
        } else {
            None
        },
    }
}

/// What is wrong with a trusted provider's own settings, if anything.
pub open spec fn trusted_provider_problem(p: TrustedProviderConfig) -> Option<Seq<char>> {
    let prefix = "trusted provider '"@ + p.provider_id@;
    if p.allowed_signing_algorithms@.len() == 0 {
        Some(prefix + "' allowed_signing_algorithms must not be empty"@)
    } else if url_problem(p.issuer@, "issuer"@) is Some {
        url_problem(p.issuer@, "issuer"@)
    } else if url_problem(p.redirect_uri@, "redirect_uri"@) is Some {
        url_problem(p.redirect_uri@, "redirect_uri"@)
    } else if is_blank(p.client_id@) {
        Some(prefix + "' client_id must not be empty"@)
    } else if p.client_secret@.len() == 0 {
        Some(prefix + "' client_secret must not be empty"@)
    } else {
        None
    }
}

pub fn validate_absolute_url(value: &str, field_name: &str) -> (r: Result<(), AppError>)
    ensures
        config_error_is(r, url_problem(value@, field_name@)),
{
    match parse_url(value) {
        Err(error) => {
            let mut message = concat3("trusted provider ", field_name, " must be a valid URL: ");
            message.append(error.as_str());
            Err(AppError::Config(message))
        },
        Ok((scheme, host, _)) => {
            if scheme.as_str().is_empty() || !host {
                Err(AppError::Config(concat3("trusted provider ", field_name, " must be an absolute URL")))
            } else {
                Ok(())
            }
        },
    }
}

/// Checks a trusted provider: a nonempty algorithm list, absolute issuer and
/// callback URLs, and upstream client credentials.
pub fn validate_trusted_provider(provider: &TrustedProviderConfig) -> (r: Result<(), AppError>)
    ensures
        config_error_is(r, trusted_provider_problem(*provider)),
{
    let id = provider.provider_id.as_str();
    if provider.allowed_signing_algorithms.len() == 0 {
        return Err(AppError::Config(concat3("trusted provider '", id, "' allowed_signing_algorithms must not be empty")));
    }
    validate_absolute_url(provider.issuer.as_str(), "issuer")?;
    validate_absolute_url(provider.redirect_uri.as_str(), "redirect_uri")?;
    if blank(provider.client_id.as_str()) {
        return Err(AppError::Config(concat3("trusted provider '", id, "' client_id must not be empty")));
    }
    if provider.client_secret.as_str().is_empty() {
        return Err(AppError::Config(concat3("trusted provider '", id, "' client_secret must not be empty")));
    }
    Ok(())
}

pub open spec fn provider_ids(ps: Seq<TrustedProviderConfig>) -> Seq<Seq<char>> {
    ps.map_values(|p: TrustedProviderConfig| p.provider_id@)
}

/// What is wrong with adding `p` after providers with the ids `earlier`.
pub open spec fn provider_entry_problem(p: TrustedProviderConfig, earlier: Seq<Seq<char>>) -> Option<
    Seq<char>,
> {
    let id = p.provider_id@;
    if is_blank(id) {
        Some("trusted provider_id must not be empty"@)
    } else if first_index(id, ':') < id.len() {
        Some("trusted provider_id '"@ + id
            + "' must not contain ':' because it prefixes local subjects"@)
    } else if earlier.contains(id) {
        Some("duplicate trusted provider_id '"@ + id + "'"@)
    } else {
        trusted_provider_problem(p)
    }
}

/// The first problem in a list of trusted providers, if any.
pub open spec fn providers_problem(ps: Seq<TrustedProviderConfig>) -> Option<Seq<char>>
    decreases ps.len(),
{
    if ps.len() == 0 {
        None
    } else {
        match providers_problem(ps.drop_last()) {
            Some(m) => Some(m),
            None => provider_entry_problem(ps.last(), provider_ids(ps.drop_last())),
        }
    }
}

fn contains_colon(s: &str) -> (r: bool)
    ensures
        r == (first_index(s@, ':') < s@.len()),
{
    let v = crate::text::str_chars(s);
    let mut i: usize = 0;
    while i < v.len() && v[i] != ':'
        invariant
            v@ == s@,
            i <= v@.len(),
            crate::text::index_from(s@, ':', i as int) == first_index(s@, ':'),
        decreases v@.len() - i,
    {
        i = i + 1;
    }
    i < v.len()
}

fn id_in_providers(ps: &Vec<TrustedProviderConfig>, id: &str) -> (r: bool)
    ensures
        r == provider_ids(ps@).contains(id@),
{
    for i in 0..ps.len()
        invariant
            forall|j: int| 0 <= j < i ==> #[trigger] ps@[j].provider_id@ != id@,
    {
        if str_eq(ps[i].provider_id.as_str(), id) {
            assert(provider_ids(ps@)[i as int] == id@);
            return true;
        }
    }
    assert forall|j: int| 0 <= j < provider_ids(ps@).len() implies #[trigger] provider_ids(ps@)[j]
        != id@ by {
        assert(provider_ids(ps@)[j] == ps@[j].provider_id@);
    }
    false
}

/// Validates the trusted providers and keeps them in order. Their ids are
/// nonblank, contain no `:` (so `{provider_id}:{subject}` is unambiguous) and
/// are distinct.
pub fn build_trusted_providers(providers: Vec<TrustedProviderConfig>) -> (r: Result<
    Vec<TrustedProviderConfig>,
    AppError,
>)
    ensures
        match r {
            Ok(v) => providers_problem(providers@) is None && v@ == providers@,
            Err(e) => e matches AppError::Config(m) && providers_problem(providers@) == Some(m@),
        },
{
    let mut result: Vec<TrustedProviderConfig> = Vec::new();
    let mut rest = providers;
    let ghost orig = rest@;
    while rest.len() > 0
        invariant
            orig == providers@,
            rest@.len() <= orig.len(),
            result@ == orig.take(orig.len() - rest@.len()),
            rest@ == orig.skip(orig.len() - rest@.len()),
            providers_problem(result@) is None,
        decreases rest@.len(),
    {
        let ghost i = orig.len() - rest@.len();
        let provider = rest.remove(0);
        proof {
            assert(provider == orig[i]);
            assert(rest@ =~= orig.skip(i + 1));
            assert(orig.take(i + 1).drop_last() =~= orig.take(i));
            assert(orig.take(i + 1).last() == orig[i]);
        }
        let id = provider.provider_id.as_str();
        let problem: Option<AppError> = if blank(id) {
            Some(AppError::Config("trusted provider_id must not be empty".to_owned()))
        } else if contains_colon(id) {
            Some(AppError::Config(concat3("trusted provider_id '", id, "' must not contain ':' because it prefixes local subjects")))
        } else if id_in_providers(&result, id) {
            Some(AppError::Config(concat3("duplicate trusted provider_id '", id, "'")))
        } else {
            match validate_trusted_provider(&provider) {
                Ok(()) => None,
                Err(e) => Some(e),
            }
        };
        if let Some(e) = problem {
            proof {
                assert(providers_problem(orig.take(i + 1)) is Some);
                lemma_providers_prefix(orig, i + 1);
            }
            return Err(e);
        }
        result.push(provider);
        assert(result@ =~= orig.take(i + 1));
    }
    assert(orig.take(orig.len() as int) =~= orig);
    Ok(result)
}

/// The index of the first trusted provider with this id, or their number.
pub open spec fn provider_index(ps: Seq<TrustedProviderConfig>, id: Seq<char>) -> int
    decreases ps.len(),
{
    if ps.len() == 0 {
        0
    } else if ps[0].provider_id@ == id {
        0
    } else {
        1 + provider_index(ps.drop_first(), id)
    }
}

/// The trusted provider with this id, if any.
pub open spec fn lookup_provider(ps: Seq<TrustedProviderConfig>, id: Seq<char>) -> Option<TrustedProviderConfig> {
    if provider_index(ps, id) < ps.len() {
        Some(ps[provider_index(ps, id)])
    } else {
        None
    }
}

pub proof fn lemma_provider_index(ps: Seq<TrustedProviderConfig>, id: Seq<char>)
    ensures
        0 <= provider_index(ps, id) <= ps.len(),
        provider_index(ps, id) < ps.len() ==> ps[provider_index(ps, id)].provider_id@ == id,
        forall|j: int| 0 <= j < provider_index(ps, id) ==> (#[trigger] ps[j]).provider_id@ != id,
    decreases ps.len(),
{
    if ps.len() > 0 && ps[0].provider_id@ != id {
        lemma_provider_index(ps.drop_first(), id);
        assert forall|j: int| 0 <= j < provider_index(ps, id) implies (#[trigger] ps[j]).provider_id@ != id by {
            if j > 0 {
                assert(ps[j] == ps.drop_first()[j - 1]);
            }
        }
    }
}

/// The trusted provider with this id.
pub fn find_trusted_provider<'a>(providers: &'a Vec<TrustedProviderConfig>, provider_id: &str) -> (r: Option<
    &'a TrustedProviderConfig,
>)
    ensures
        match r {
            Some(p) => lookup_provider(providers@, provider_id@) == Some(*p),
            None => lookup_provider(providers@, provider_id@) is None,
        },
{
    proof {
        lemma_provider_index(providers@, provider_id@);
    }
    for i in 0..providers.len()
        invariant
            forall|j: int| 0 <= j < i ==> (#[trigger] providers@[j]).provider_id@ != provider_id@,
            0 <= provider_index(providers@, provider_id@) <= providers@.len(),
            provider_index(providers@, provider_id@) < providers@.len() ==> providers@[provider_index(
                providers@,
                provider_id@,
            )].provider_id@ == provider_id@,
            forall|j: int|
                0 <= j < provider_index(providers@, provider_id@) ==> (#[trigger] providers@[j]).provider_id@
                    != provider_id@,
    {
        if str_eq(providers[i].provider_id.as_str(), provider_id) {
            return Some(&providers[i]);
        }
    }
    None
}

/// Once a prefix has a problem, the whole list reports that problem.
proof fn lemma_providers_prefix(ps: Seq<TrustedProviderConfig>, k: int)
    requires
        0 <= k <= ps.len(),
        providers_problem(ps.take(k)) is Some,
    ensures
        providers_problem(ps) == providers_problem(ps.take(k)),
    decreases ps.len() - k,
{
    if k < ps.len() {
        assert(ps.take(k + 1).drop_last() =~= ps.take(k));
        lemma_providers_prefix(ps, k + 1);
    } else {
        assert(ps.take(k) =~= ps);
    }
}

// ---------------------------------------------------------------------------
// Clients
// ---------------------------------------------------------------------------

pub open spec fn client_ids(cs: Seq<ClientConfig>) -> Seq<Seq<char>> {
    cs.map_values(|c: ClientConfig| c.client_id@)
}

/// The first repeated id among enabled clients, as an error message.
pub open spec fn duplicate_client_problem(cs: Seq<ClientConfig>) -> Option<Seq<char>>
    decreases cs.len(),
{
    if cs.len() == 0 {
        None
    } else {
        match duplicate_client_problem(cs.drop_last()) {
            Some(m) => Some(m),
            None => if client_ids(cs.drop_last()).contains(cs.last().client_id@) {
                Some("duplicate active client_id '"@ + cs.last().client_id@ + "'"@)
            } else {
                None
            },
        }
    }
}

pub open spec fn is_enabled(c: ClientConfig) -> bool {
    c.enabled
}

pub open spec fn enabled_pred() -> spec_fn(ClientConfig) -> bool {
    |c: ClientConfig| c.enabled
}

/// The enabled client entries, in order.
pub open spec fn enabled_clients(cs: Seq<ClientConfig>) -> Seq<ClientConfig> {
    cs.filter(enabled_pred())
}

/// `items` as a set: strictly increasing, holding exactly the strings of `from`.
pub open spec fn set_of(items: Seq<String>, from: Seq<String>) -> bool {
    sorted_strict(views(items)) && views(items).to_set() == views(from).to_set()
}

/// `c` is the active client built from the entry `e`.
pub open spec fn client_from(c: Client, e: ClientConfig) -> bool {
    &&& c.client_id == e.client_id
    &&& c.client_secret == e.client_secret
    &&& c.signing_algorithm == e.signing_algorithm
    &&& c.audience == e.audience
    &&& set_of(c.allowed_scopes@, e.scopes@)
    &&& c.metadata == e.metadata
    &&& c.token_ttl_seconds == e.token_ttl_seconds
    &&& set_of(c.redirect_uris@, e.redirect_uris@)
    &&& set_of(c.response_types@, e.response_types@)
    &&& c.require_pkce == e.require_pkce
    &&& c.consent_mode == e.consent_mode
    &&& c.auth_mode == e.auth_mode
    &&& c.re_auth == e.re_auth
}

pub open spec fn active_ids(cs: Seq<Client>) -> Seq<Seq<char>> {
    cs.map_values(|c: Client| c.client_id@)
}

fn id_in_clients(cs: &Vec<Client>, id: &str) -> (r: bool)
    ensures
        r == active_ids(cs@).contains(id@),
{
    for i in 0..cs.len()
        invariant
            forall|j: int| 0 <= j < i ==> #[trigger] cs@[j].client_id@ != id@,
    {
        if str_eq(cs[i].client_id.as_str(), id) {
            assert(active_ids(cs@)[i as int] == id@);
            return true;
        }
    }
    assert forall|j: int| 0 <= j < active_ids(cs@).len() implies #[trigger] active_ids(cs@)[j] != id@ by {
        assert(active_ids(cs@)[j] == cs@[j].client_id@);
    }
    false
}

/// Keeps the enabled clients, rejecting a repeated `client_id` among them.
pub fn build_clients(clients: Vec<ClientConfig>) -> (r: Result<Vec<Client>, AppError>)
    ensures
        match r {
            Ok(v) => {
                &&& duplicate_client_problem(enabled_clients(clients@)) is None
                &&& v@.len() == enabled_clients(clients@).len()
                &&& forall|i: int|
                    0 <= i < v@.len() ==> client_from(#[trigger] v@[i], enabled_clients(clients@)[i])
                &&& forall|i: int| 0 <= i < v@.len() ==> (#[trigger] v@[i]).wf()
            },
            Err(e) => e matches AppError::Config(m) && duplicate_client_problem(
                enabled_clients(clients@),
            ) == Some(m@),
        },
{
    let mut map: Vec<Client> = Vec::new();
    let mut rest = clients;
    let ghost orig = rest@;
    let ghost mut n: int = 0;
    assert(orig.take(0) =~= Seq::<ClientConfig>::empty());
    reveal(Seq::filter);
    assert(enabled_clients(orig.take(0)) =~= Seq::<ClientConfig>::empty());
    while rest.len() > 0
        invariant
            orig == clients@,
            0 <= n <= orig.len(),
            rest@ == orig.skip(n),
            map@.len() == enabled_clients(orig.take(n)).len(),
            forall|i: int|
                0 <= i < map@.len() ==> client_from(#[trigger] map@[i], enabled_clients(orig.take(n))[i]),
            active_ids(map@) == client_ids(enabled_clients(orig.take(n))),
            duplicate_client_problem(enabled_clients(orig.take(n))) is None,
        decreases rest@.len(),
    {
        let client = rest.remove(0);
        let ghost prev = enabled_clients(orig.take(n));
        proof {
            assert(client == orig[n]);
            assert(rest@ =~= orig.skip(n + 1));
            assert(orig.take(n + 1) =~= orig.take(n).push(orig[n]));
            assert(orig.take(n + 1).drop_last() =~= orig.take(n));
            assert(orig.take(n + 1).last() == orig[n]);
            orig.take(n).lemma_filter_push(orig[n], enabled_pred());
            assert(enabled_clients(orig.take(n + 1)) == (if orig[n].enabled {
                enabled_clients(orig.take(n)).push(orig[n])
            } else {
                enabled_clients(orig.take(n))
            }));
        }
        if client.enabled {
            proof {
                assert(enabled_clients(orig.take(n + 1)) =~= prev.push(client));
                assert(enabled_clients(orig.take(n + 1)).drop_last() =~= prev);
            }
            if id_in_clients(&map, client.client_id.as_str()) {
                proof {
                    let a = orig.take(n + 1);
                    let b = orig.skip(n + 1);
                    assert(orig =~= a + b);
                    Seq::filter_distributes_over_add(a, b, enabled_pred());
                    lemma_duplicate_prefix(enabled_clients(a), enabled_clients(b));
                }
                return Err(AppError::Config(concat3("duplicate active client_id '", client.client_id.as_str(), "'")));
            }
            let ghost entry = client;
            let ClientConfig {
                client_id,
                client_secret,
                signing_algorithm,
                audience,
                scopes,
                metadata,
                enabled: _,
                token_ttl_seconds,
                redirect_uris,
                response_types,
                require_pkce,
                consent_mode,
                auth_mode,
                re_auth,
            } = client;
            let built = Client {
                client_id,
                client_secret,
                signing_algorithm,
                audience,
                allowed_scopes: sorted_set(scopes),
                metadata,
                token_ttl_seconds,
                redirect_uris: sorted_set(redirect_uris),
                response_types: sorted_set(response_types),
                require_pkce,
                consent_mode,
                auth_mode,
                re_auth,
            };
            let ghost before = map@;
            map.push(built);
            proof {
                assert forall|i: int| 0 <= i < map@.len() implies client_from(
                    #[trigger] map@[i],
                    enabled_clients(orig.take(n + 1))[i],
                ) by {
                    if i < before.len() {
                        assert(map@[i] == before[i]);
                    }
                }
                assert(active_ids(map@) =~= client_ids(enabled_clients(orig.take(n + 1))));
            }
        } else {
            proof {
                assert(enabled_clients(orig.take(n + 1)) =~= prev);
            }
        }
        proof {
            n = n + 1;
        }
    }
    assert(orig.take(n) =~= orig);
    Ok(map)
}

/// Once a prefix repeats an id, the whole list reports that repetition.
proof fn lemma_duplicate_prefix(p: Seq<ClientConfig>, q: Seq<ClientConfig>)
    requires
        duplicate_client_problem(p) is Some,
    ensures
        duplicate_client_problem(p + q) == duplicate_client_problem(p),
    decreases q.len(),
{
    if q.len() > 0 {
        lemma_duplicate_prefix(p, q.drop_last());
        assert((p + q).drop_last() =~= p + q.drop_last());
    } else {
        assert(p + q =~= p);
    }
}

/// The index of the first client with this id, or the number of clients.
pub open spec fn client_index(cs: Seq<Client>, id: Seq<char>) -> int
    decreases cs.len(),
{
    if cs.len() == 0 {
        0
    } else if cs[0].client_id@ == id {
        0
    } else {
        1 + client_index(cs.drop_first(), id)
    }
}

/// The client with this id, if any.
pub open spec fn lookup_client(cs: Seq<Client>, id: Seq<char>) -> Option<Client> {
    if client_index(cs, id) < cs.len() {
        Some(cs[client_index(cs, id)])
    } else {
        None
    }
}

pub proof fn lemma_client_index(cs: Seq<Client>, id: Seq<char>)
    ensures
        0 <= client_index(cs, id) <= cs.len(),
        client_index(cs, id) < cs.len() ==> cs[client_index(cs, id)].client_id@ == id,
        forall|j: int| 0 <= j < client_index(cs, id) ==> (#[trigger] cs[j]).client_id@ != id,
    decreases cs.len(),
{
    if cs.len() > 0 && cs[0].client_id@ != id {
        lemma_client_index(cs.drop_first(), id);
        assert forall|j: int| 0 <= j < client_index(cs, id) implies (#[trigger] cs[j]).client_id@ != id by {
            if j > 0 {
                assert(cs[j] == cs.drop_first()[j - 1]);
            }
        }
    }
}

/// Finds the active client with this id.
pub fn find_client<'a>(clients: &'a Vec<Client>, client_id: &str) -> (r: Option<&'a Client>)
    ensures
        match r {
            Some(c) => lookup_client(clients@, client_id@) == Some(*c) && c.client_id@ == client_id@,
            None => lookup_client(clients@, client_id@) is None,
        },
        r is Some <==> active_ids(clients@).contains(client_id@),
{
    proof {
        lemma_client_index(clients@, client_id@);
    }
    for i in 0..clients.len()
        invariant
            forall|j: int| 0 <= j < i ==> (#[trigger] clients@[j]).client_id@ != client_id@,
            0 <= client_index(clients@, client_id@) <= clients@.len(),
            client_index(clients@, client_id@) < clients@.len() ==> clients@[client_index(
                clients@,
                client_id@,
            )].client_id@ == client_id@,
            forall|j: int|
                0 <= j < client_index(clients@, client_id@) ==> (#[trigger] clients@[j]).client_id@
                    != client_id@,
    {
        if str_eq(clients[i].client_id.as_str(), client_id) {
            assert(active_ids(clients@)[i as int] == client_id@);
            return Some(&clients[i]);
        }
    }
    assert forall|j: int| 0 <= j < active_ids(clients@).len() implies #[trigger] active_ids(clients@)[j]
        != client_id@ by {
        assert(active_ids(clients@)[j] == clients@[j].client_id@);
    }
    None
}

/// What is wrong with a client's authentication mode, if anything.
pub open spec fn reauth_client_problem(c: Client, trusted: Seq<Seq<char>>) -> Option<Seq<char>> {
    let id = c.client_id@;
    match (c.auth_mode, c.re_auth) {
        (ClientAuthMode::Local, None) => None,
        (ClientAuthMode::Local, Some(_)) => Some(
            "local client '"@ + id + "' must not define re_auth settings"@,
        ),
        (ClientAuthMode::ReAuth, None) => Some(
            "re-auth client '"@ + id + "' must define re_auth settings"@,
        ),
        (ClientAuthMode::ReAuth, Some(r)) => if !trusted.contains(r.provider_id@) {
            Some(
                "re-auth client '"@ + id + "' references unknown provider_id '"@ + r.provider_id@
                    + "'"@,
            )
        } else if !views(r.upstream_scopes@).contains("openid"@) {
            Some("re-auth client '"@ + id + "' upstream_scopes must include 'openid'"@)
        } else {
            None
        },
    }
}

/// The first client, in order, whose authentication mode is inconsistent.
pub open spec fn reauth_clients_problem(cs: Seq<Client>, trusted: Seq<Seq<char>>) -> Option<
    Seq<char>,
>
    decreases cs.len(),
{
    if cs.len() == 0 {
        None
    } else {
        match reauth_clients_problem(cs.drop_last(), trusted) {
            Some(m) => Some(m),
            None => reauth_client_problem(cs.last(), trusted),
        }
    }
}

/// Checks that local clients carry no re-auth settings and that re-auth
/// clients name a trusted provider and ask it for `openid`.
pub fn validate_reauth_clients(
    clients: &Vec<Client>,
    trusted_providers: &Vec<TrustedProviderConfig>,
) -> (r: Result<(), AppError>)
    ensures
        config_error_is(r, reauth_clients_problem(clients@, provider_ids(trusted_providers@))),
{
    let ghost trusted = provider_ids(trusted_providers@);
    for i in 0..clients.len()
        invariant
            trusted == provider_ids(trusted_providers@),
            reauth_clients_problem(clients@.take(i as int), trusted) is None,
    {
        let client = &clients[i];
        proof {
            assert(clients@.take(i + 1).drop_last() =~= clients@.take(i as int));
            assert(clients@.take(i + 1).last() == clients@[i as int]);
        }
        let id = client.client_id.as_str();
        match (&client.auth_mode, &client.re_auth) {
            (ClientAuthMode::Local, None) => {},
            (ClientAuthMode::Local, Some(_)) => {
                proof { lemma_problem_prefix(clients@, trusted, i + 1); }
                return Err(AppError::Config(concat3("local client '", id, "' must not define re_auth settings")));
            },
            (ClientAuthMode::ReAuth, None) => {
                proof { lemma_problem_prefix(clients@, trusted, i + 1); }
                return Err(AppError::Config(concat3("re-auth client '", id, "' must define re_auth settings")));
            },
            (ClientAuthMode::ReAuth, Some(re_auth)) => {
                if !id_in_providers(trusted_providers, re_auth.provider_id.as_str()) {
                    proof { lemma_problem_prefix(clients@, trusted, i + 1); }
                    return Err(AppError::Config(concat5("re-auth client '", id, "' references unknown provider_id '", re_auth.provider_id.as_str(), "'")));
                }
                if !vec_contains(&re_auth.upstream_scopes, "openid") {
                    proof { lemma_problem_prefix(clients@, trusted, i + 1); }
                    return Err(AppError::Config(concat3("re-auth client '", id, "' upstream_scopes must include 'openid'")));
                }
            },
        }
    }
    assert(clients@.take(clients@.len() as int) =~= clients@);
    Ok(())
}

/// Once a prefix has a problem, the whole list reports that problem.
proof fn lemma_problem_prefix(cs: Seq<Client>, trusted: Seq<Seq<char>>, k: int)
    requires
        0 <= k <= cs.len(),
        reauth_clients_problem(cs.take(k), trusted) is Some,
    ensures
        reauth_clients_problem(cs, trusted) == reauth_clients_problem(cs.take(k), trusted),
    decreases cs.len() - k,
{
    if k < cs.len() {
        assert(cs.take(k + 1).drop_last() =~= cs.take(k));
        lemma_problem_prefix(cs, trusted, k + 1);
    } else {
        assert(cs.take(k) =~= cs);
    }
}

// ---------------------------------------------------------------------------
// Signing keys
// ---------------------------------------------------------------------------

/// The configured key path for `algorithm`: the first entry for it.
pub open spec fn key_path_entry(paths: Seq<(SigningAlgorithm, String)>, algorithm: SigningAlgorithm) -> Option<
    Seq<char>,
>
    decreases paths.len(),
{
    if paths.len() == 0 {
        None
    } else if paths[0].0 == algorithm {
        Some(paths[0].1@)
    } else {
        key_path_entry(paths.skip(1), algorithm)
    }
}

/// The private-key file for `algorithm`: its `signing_key_paths` entry
/// resolved against the configuration directory, else, for the provider
/// default only, `keys/signing-key.pem`.
pub open spec fn signing_key_path_spec(
    config_root: Seq<char>,
    provider: ProviderSettings,
    algorithm: SigningAlgorithm,
) -> Result<Seq<char>, Seq<char>> {
    match key_path_entry(provider.signing_key_paths@, algorithm) {
        Some(p) => Ok(path_join(config_root, p)),
        None => if algorithm == provider.signing_algorithm {
            Ok(path_join(path_join(config_root, "keys"@), "signing-key.pem"@))
        } else {
            Err(
                "signing_key_paths must configure a key for client signing algorithm "@
                    + algorithm.name(),
            )
        },
    }
}

/// Where a path from the configuration points: an absolute path as written,
/// a relative one under the configuration directory.
pub open spec fn config_path(config_root: Seq<char>, configured: Seq<char>) -> Seq<char> {
    if path_is_absolute(configured) {
        configured
    } else {
        path_join(config_root, configured)
    }
}

/// Resolves a path from the configuration against the configuration
/// directory.
pub fn resolve_config_path(config_root: &str, configured: &str) -> (r: String)
    ensures
        r@ == config_path(config_root@, configured@),
{
    if is_absolute_path(configured) {
        configured.to_owned()
    } else {
        join_path(config_root, configured)
    }
}

/// The default key location, `keys/signing-key.pem` under the configuration directory.
pub fn default_key_path(config_root: &str) -> (r: String)
    ensures
        r@ == path_join(path_join(config_root@, "keys"@), "signing-key.pem"@),
{
    let keys = join_path(config_root, "keys");
    join_path(keys.as_str(), "signing-key.pem")
}

/// Resolves the key file for `algorithm`.
pub fn signing_key_path(config_root: &str, provider: &ProviderSettings, algorithm: SigningAlgorithm) -> (r:
    Result<String, AppError>)
    ensures
        match r {
            Ok(p) => signing_key_path_spec(config_root@, *provider, algorithm) == Ok::<
                Seq<char>,
                Seq<char>,
            >(p@),
            Err(e) => e matches AppError::Config(m) && signing_key_path_spec(
                config_root@,
                *provider,
                algorithm,
            ) == Err::<Seq<char>, Seq<char>>(m@),
        },
        match key_path_entry(provider.signing_key_paths@, algorithm) {
            Some(p) => path_is_absolute(p) ==> (r matches Ok(q) && q@ == p),
            None => true,
        },
{
    let paths = &provider.signing_key_paths;
    assert(paths@.skip(0) =~= paths@);
    for i in 0..paths.len()
        invariant
            paths@ == provider.signing_key_paths@,
            key_path_entry(paths@.skip(i as int), algorithm) == key_path_entry(paths@, algorithm),
    {
        proof {
            assert(paths@.skip(i as int).skip(1) =~= paths@.skip(i + 1));
            assert(paths@.skip(i as int).len() > 0);
            assert(paths@.skip(i as int)[0] == paths@[i as int]);
        }
        if paths[i].0 == algorithm {
            return Ok(join_path(config_root, paths[i].1.as_str()));
        }
    }
    if algorithm == provider.signing_algorithm {
        return Ok(default_key_path(config_root));
    }
    Err(AppError::Config(concat("signing_key_paths must configure a key for client signing algorithm ", algorithm.as_str())))
}

// ---------------------------------------------------------------------------
// The loaded configuration
// ---------------------------------------------------------------------------

/// `v` is what building the clients `configs` gives: the enabled ones, in order.
pub open spec fn built_clients(v: Seq<Client>, configs: Seq<ClientConfig>) -> bool {
    &&& v.len() == enabled_clients(configs).len()
    &&& forall|i: int| 0 <= i < v.len() ==> client_from(#[trigger] v[i], enabled_clients(configs)[i])
}

/// The validated configuration: provider settings, active clients, trusted
/// providers, and the directory relative paths are resolved against.
#[derive(Debug)]
pub struct LoadedConfig {
    pub provider: ProviderSettings,
    pub clients: Vec<Client>,
    pub trusted_providers: Vec<TrustedProviderConfig>,
    pub config_root: String,
}

impl LoadedConfig {
    /// Validates the provider settings and builds the clients, of which at
    /// least one must be enabled; no trusted providers yet.
    pub fn new(config_root: String, provider: ProviderSettings, clients: Vec<ClientConfig>) -> (r: Result<
        LoadedConfig,
        AppError,
    >)
        ensures
            match r {
                Ok(c) => {
                    &&& provider_settings_problem(provider) is None
                    &&& duplicate_client_problem(enabled_clients(clients@)) is None
                    &&& enabled_clients(clients@).len() > 0
                    &&& built_clients(c.clients@, clients@)
                    &&& c.provider == provider
                    &&& c.trusted_providers@.len() == 0
                    &&& c.config_root == config_root
                },
                Err(e) => e matches AppError::Config(m) && if provider_settings_problem(provider) is Some {
                    provider_settings_problem(provider) == Some(m@)
                } else if duplicate_client_problem(enabled_clients(clients@)) is Some {
                    duplicate_client_problem(enabled_clients(clients@)) == Some(m@)
                } else {
                    enabled_clients(clients@).len() == 0 && m@ == "no active clients configured"@
                },
            },
    {
        validate_provider_settings(&provider)?;
        let ghost configs = clients@;
        let built = build_clients(clients)?;
        assert(built_clients(built@, configs));
        if built.len() == 0 {
            return Err(AppError::Config("no active clients configured".to_owned()));
        }
        Ok(LoadedConfig { provider, clients: built, trusted_providers: Vec::new(), config_root })
    }

    /// Adds the trusted providers: each must be valid, and every re-auth
    /// client must name one of them.
    pub fn with_trusted_providers(self, trusted_providers: Vec<TrustedProviderConfig>) -> (r: Result<
        LoadedConfig,
        AppError,
    >)
        ensures
            match r {
                Ok(c) => {
                    &&& providers_problem(trusted_providers@) is None
                    &&& reauth_clients_problem(self.clients@, provider_ids(trusted_providers@)) is None
                    &&& c.provider == self.provider
                    &&& c.clients@ == self.clients@
                    &&& c.trusted_providers@ == trusted_providers@
                    &&& c.config_root == self.config_root
                },
                Err(e) => e matches AppError::Config(m) && if providers_problem(trusted_providers@) is Some {
                    providers_problem(trusted_providers@) == Some(m@)
                } else {
                    reauth_clients_problem(self.clients@, provider_ids(trusted_providers@)) == Some(m@)
                },
            },
    {
        let providers = build_trusted_providers(trusted_providers)?;
        validate_reauth_clients(&self.clients, &providers)?;
        Ok(LoadedConfig {
            provider: self.provider,
            clients: self.clients,
            trusted_providers: providers,
            config_root: self.config_root,
        })
    }

    /// The default signing key file, `keys/signing-key.pem`.
    pub fn key_path(&self) -> (r: String)
        ensures
            r@ == path_join(path_join(self.config_root@, "keys"@), "signing-key.pem"@),
    {
        default_key_path(self.config_root.as_str())
    }

    /// The key file for `algorithm`; a configured absolute path is used as
    /// written.
    pub fn key_path_for(&self, algorithm: SigningAlgorithm) -> (r: Result<String, AppError>)
        ensures
            match r {
                Ok(p) => signing_key_path_spec(self.config_root@, self.provider, algorithm) == Ok::<
                    Seq<char>,
                    Seq<char>,
                >(p@),
                Err(e) => e matches AppError::Config(m) && signing_key_path_spec(
                    self.config_root@,
                    self.provider,
                    algorithm,
                ) == Err::<Seq<char>, Seq<char>>(m@),
            },
            match key_path_entry(self.provider.signing_key_paths@, algorithm) {
                Some(p) => path_is_absolute(p) ==> (r matches Ok(q) && q@ == p),
                None => true,
            },
    {
        signing_key_path(self.config_root.as_str(), &self.provider, algorithm)
    }
}

/// Checks that the token template is a JSON object.
pub fn check_token_template(template: &JsonValue) -> (r: Result<(), AppError>)
    ensures
        match r {
            Ok(()) => template is Object,
            Err(e) => {
                &&& !(template is Object)
                &&& e matches AppError::Config(m) && m@ == "token template must be a JSON object"@
            },
        },
{
    match template {
        JsonValue::Object(_) => Ok(()),
        _ => Err(AppError::Config("token template must be a JSON object".to_owned())),
    }
}

// ---------------------------------------------------------------------------
// Loading the configuration files
// ---------------------------------------------------------------------------

/// What checking a JSON value against a JSON Schema gives, from what the
/// validator reported: the validation errors joined by `", "`, or the error
/// that stopped it.
pub open spec fn schema_verdict_spec(outcome: Result<Seq<Seq<char>>, Seq<char>>) -> Result<(), Seq<char>> {
    match outcome {
        Err(m) => Err("schema compilation failed: "@ + m),
        Ok(errors) => if errors.len() == 0 {
            Ok(())
        } else {
            Err(join(errors, ", "@))
        },
    }
}

/// What checking `value` against `schema` gives.
pub open spec fn schema_check(schema: JsonView, value: JsonView) -> Result<(), Seq<char>> {
    schema_verdict_spec(schema_outcome(json_text(schema), json_text(value)))
}

pub open spec fn schema_error_is(r: Result<(), AppError>, check: Result<(), Seq<char>>) -> bool {
    match check {
        Ok(()) => r is Ok,
        Err(m) => r matches Err(AppError::Schema(e)) && e@ == m,
    }
}

/// Turns what the validator reported (each error's text, or the error that
/// stopped it) into the check's result.
pub fn schema_verdict(outcome: Result<Vec<String>, String>) -> (r: Result<(), AppError>)
    ensures
        schema_error_is(
            r,
            schema_verdict_spec(
                match outcome {
                    Ok(errors) => Ok::<Seq<Seq<char>>, Seq<char>>(views(errors@)),
                    Err(m) => Err::<Seq<Seq<char>>, Seq<char>>(m@),
                },
            ),
        ),
{
    match outcome {
        Err(error) => Err(AppError::Schema(concat("schema compilation failed: ", error.as_str()))),
        Ok(errors) => if errors.len() == 0 {
            Ok(())
        } else {
            Err(AppError::Schema(join_strings(errors.as_slice(), ", ")))
        },
    }
}

/// Checks a configuration document against the JSON Schema of its type.
pub fn validate_json(schema: &JsonValue, value: &JsonValue) -> (r: Result<(), AppError>)
    ensures
        schema_error_is(r, schema_check(schema@, value@)),
{
    let schema_text = to_json_text(schema);
    let value_text = to_json_text(value);
    schema_verdict(schema_errors(schema_text.as_str(), value_text.as_str()))
}

/// What is wrong with an entry's authentication mode, if anything: the
/// client built from it has the same problem.
pub open spec fn reauth_entry_problem(e: ClientConfig, trusted: Seq<Seq<char>>) -> Option<Seq<char>> {
    let id = e.client_id@;
    match (e.auth_mode, e.re_auth) {
        (ClientAuthMode::Local, None) => None,
        (ClientAuthMode::Local, Some(_)) => Some(
            "local client '"@ + id + "' must not define re_auth settings"@,
        ),
        (ClientAuthMode::ReAuth, None) => Some(
            "re-auth client '"@ + id + "' must define re_auth settings"@,
        ),
        (ClientAuthMode::ReAuth, Some(r)) => if !trusted.contains(r.provider_id@) {
            Some(
                "re-auth client '"@ + id + "' references unknown provider_id '"@ + r.provider_id@
                    + "'"@,
            )
        } else if !views(r.upstream_scopes@).contains("openid"@) {
            Some("re-auth client '"@ + id + "' upstream_scopes must include 'openid'"@)
        } else {
            None
        },
    }
}

/// The first entry, in order, whose authentication mode is inconsistent.
pub open spec fn reauth_entries_problem(es: Seq<ClientConfig>, trusted: Seq<Seq<char>>) -> Option<Seq<char>>
    decreases es.len(),
{
    if es.len() == 0 {
        None
    } else {
        match reauth_entries_problem(es.drop_last(), trusted) {
            Some(m) => Some(m),
            None => reauth_entry_problem(es.last(), trusted),
        }
    }
}

proof fn lemma_reauth_problem_of_built(v: Seq<Client>, es: Seq<ClientConfig>, trusted: Seq<Seq<char>>)
    requires
        v.len() == es.len(),
        forall|i: int| 0 <= i < v.len() ==> client_from(#[trigger] v[i], es[i]),
    ensures
        reauth_clients_problem(v, trusted) == reauth_entries_problem(es, trusted),
    decreases v.len(),
{
    if v.len() > 0 {
        assert(client_from(v[v.len() - 1], es[es.len() - 1]));
        lemma_reauth_problem_of_built(v.drop_last(), es.drop_last(), trusted);
    }
}

/// What is wrong with the client entries once the provider settings are
/// valid: a repeated enabled client id, or no enabled client at all.
pub open spec fn clients_problem(cs: Seq<ClientConfig>) -> Option<Seq<char>> {
    if duplicate_client_problem(enabled_clients(cs)) is Some {
        duplicate_client_problem(enabled_clients(cs))
    } else if enabled_clients(cs).len() == 0 {
        Some("no active clients configured"@)
    } else {
        None
    }
}

/// The trusted-providers document: the file's value, or an empty array
/// where there is no file.
pub open spec fn trusted_document(raw: Option<JsonValue>) -> JsonView {
    match raw {
        Some(v) => v@,
        None => JsonView::Array(Seq::empty()),
    }
}

pub open spec fn config_error_of(r: Result<LoadedConfig, AppError>, m: Seq<char>) -> bool {
    r matches Err(AppError::Config(e)) && e@ == m
}

pub open spec fn schema_error_of(r: Result<LoadedConfig, AppError>, m: Seq<char>) -> bool {
    r matches Err(AppError::Schema(e)) && e@ == m
}

/// The trusted-provider stage of loading, once the provider settings and
/// the clients `cs` have passed.
pub open spec fn trusted_stage(
    config_root: Seq<char>,
    provider: ProviderSettings,
    cs: Seq<ClientConfig>,
    trusted_schema: JsonView,
    raw_trusted: Result<Option<JsonValue>, AppError>,
    trusted: Result<Vec<TrustedProviderConfig>, AppError>,
    r: Result<LoadedConfig, AppError>,
) -> bool {
    match raw_trusted {
        Err(e) => r == Err::<LoadedConfig, AppError>(e),
        Ok(raw) => match schema_check(trusted_schema, trusted_document(raw)) {
            Err(m) => schema_error_of(r, m),
            Ok(()) => match trusted {
                Err(e) => r == Err::<LoadedConfig, AppError>(e),
                Ok(ts) => if providers_problem(ts@) is Some {
                    config_error_of(r, providers_problem(ts@)->0)
                } else if reauth_entries_problem(enabled_clients(cs), provider_ids(ts@)) is Some {
                    config_error_of(r, reauth_entries_problem(enabled_clients(cs), provider_ids(ts@))->0)
                } else {
                    r matches Ok(c) && {
                        &&& c.provider == provider
                        &&& built_clients(c.clients@, cs)
                        &&& c.trusted_providers@ == ts@
                        &&& c.config_root@ == config_root
                    }
                },
            },
        },
    }
}

/// What loading the configuration gives from what was read: the provider
/// settings, the clients document checked against its schema and then its
/// entries, and the trusted-providers document (an empty array where there
/// is no file) checked against its schema and then its entries, each
/// stage's first error ending the load.
pub open spec fn config_loaded(
    config_root: Seq<char>,
    provider: Result<ProviderSettings, AppError>,
    clients_schema: JsonView,
    raw_clients: Result<JsonValue, AppError>,
    clients: Result<Vec<ClientConfig>, AppError>,
    trusted_schema: JsonView,
    raw_trusted: Result<Option<JsonValue>, AppError>,
    trusted: Result<Vec<TrustedProviderConfig>, AppError>,
    r: Result<LoadedConfig, AppError>,
) -> bool {
    match provider {
        Err(e) => r == Err::<LoadedConfig, AppError>(e),
        Ok(p) => if provider_settings_problem(p) is Some {
            config_error_of(r, provider_settings_problem(p)->0)
        } else {
            match raw_clients {
                Err(e) => r == Err::<LoadedConfig, AppError>(e),
                Ok(raw) => match schema_check(clients_schema, raw@) {
                    Err(m) => schema_error_of(r, m),
                    Ok(()) => match clients {
                        Err(e) => r == Err::<LoadedConfig, AppError>(e),
                        Ok(cs) => if clients_problem(cs@) is Some {
                            config_error_of(r, clients_problem(cs@)->0)
                        } else {
                            trusted_stage(config_root, p, cs@, trusted_schema, raw_trusted, trusted, r)
                        },
                    },
                },
            }
        },
    }
}

/// Loads the configuration from what was read of its files: `provider.json`
/// parsed, `clients.json` as a JSON document and as entries, and
/// `trusted_providers.json` (`None` where there is no such file) as a JSON
/// document and as entries. The checks run in order and the first that
/// fails gives the error.
pub fn load_config(
    config_root: String,
    provider: Result<ProviderSettings, AppError>,
    clients_schema: &JsonValue,
    raw_clients: Result<JsonValue, AppError>,
    clients: Result<Vec<ClientConfig>, AppError>,
    trusted_schema: &JsonValue,
    raw_trusted: Result<Option<JsonValue>, AppError>,
    trusted: Result<Vec<TrustedProviderConfig>, AppError>,
) -> (r: Result<LoadedConfig, AppError>)
    ensures
        config_loaded(
            config_root@,
            provider,
            clients_schema@,
            raw_clients,
            clients,
            trusted_schema@,
            raw_trusted,
            trusted,
            r,
        ),
{
    let provider = match provider {
        Ok(p) => p,
        Err(e) => return Err(e),
    };
    validate_provider_settings(&provider)?;
    let raw_clients = match raw_clients {
        Ok(v) => v,
        Err(e) => return Err(e),
    };
    validate_json(clients_schema, &raw_clients)?;
    let clients = match clients {
        Ok(cs) => cs,
        Err(e) => return Err(e),
    };
    let ghost entries = clients@;
    let loaded = LoadedConfig::new(config_root, provider, clients)?;
    let raw_trusted = match raw_trusted {
        Ok(Some(v)) => v,
        Ok(None) => JsonValue::Array(Vec::new()),
        Err(e) => return Err(e),
    };
    validate_json(trusted_schema, &raw_trusted)?;
    let trusted = match trusted {
        Ok(ts) => ts,
        Err(e) => return Err(e),
    };
    proof {
        lemma_reauth_problem_of_built(loaded.clients@, enabled_clients(entries), provider_ids(trusted@));
    }
    loaded.with_trusted_providers(trusted)
}

} // verus!
