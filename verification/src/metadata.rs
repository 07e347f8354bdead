//! The minimal discovery document of a client-credentials provider.

use vstd::prelude::*;

use crate::text::{concat, trim_end_char, trim_end_matches_char, views};

verus! {

/// The discovery document of a provider that issues client-credentials tokens.
#[derive(Debug)]
pub struct DiscoveryDocument {
    pub issuer: String,
    pub token_endpoint: String,
    pub jwks_uri: String,
    pub grant_types_supported: Vec<String>,
    pub response_types_supported: Vec<String>,
    pub subject_types_supported: Vec<String>,
    pub token_endpoint_auth_methods_supported: Vec<String>,
    pub id_token_signing_alg_values_supported: Vec<String>,
}

fn one(s: &str) -> (r: Vec<String>)
    ensures
        views(r@) == seq![s@],
{
    let mut r: Vec<String> = Vec::new();
    r.push(s.to_owned());
    assert(views(r@) =~= seq![s@]);
    r
}

/// The discovery document for an issuer: its endpoints under the issuer
/// without trailing slashes, client credentials with `client_secret_post`,
/// and RS256 signatures.
pub fn discovery_document(base_issuer: &str) -> (r: DiscoveryDocument)
    ensures
        r.issuer@ == trim_end_char(base_issuer@, '/'),
        r.token_endpoint@ == trim_end_char(base_issuer@, '/') + "/oauth/token"@,
        r.jwks_uri@ == trim_end_char(base_issuer@, '/') + "/jwks.json"@,
        views(r.grant_types_supported@) == seq!["client_credentials"@],
        views(r.response_types_supported@) == seq!["token"@],
        views(r.subject_types_supported@) == seq!["public"@],
        views(r.token_endpoint_auth_methods_supported@) == seq!["client_secret_post"@],
        views(r.id_token_signing_alg_values_supported@) == seq!["RS256"@],
{
    let base = trim_end_matches_char(base_issuer, '/');
    DiscoveryDocument {
        token_endpoint: concat(base.as_str(), "/oauth/token"),
        jwks_uri: concat(base.as_str(), "/jwks.json"),
        issuer: base,
        grant_types_supported: one("client_credentials"),
        response_types_supported: one("token"),
        subject_types_supported: one("public"),
        token_endpoint_auth_methods_supported: one("client_secret_post"),
        id_token_signing_alg_values_supported: one("RS256"),
    }
}

} // verus!
