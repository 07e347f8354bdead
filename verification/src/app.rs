//! What the provider publishes about itself: the discovery document, the
//! scopes it knows, and the set of signing keys with their JWKS.

use vstd::prelude::*;

use crate::config::{Client, ProviderSettings, SigningAlgorithm};
use crate::crypto::{ec_key_loaded, key_material_from_pem, rsa_key_loaded, Jwk, JwkPublicKey, JwkSet, KeyMaterial};
use crate::error::AppError;
use crate::order::{insert_sorted, sorted_strict};
use crate::text::{concat, concat3, copy_strings, str_eq, trim_end_char, trim_end_matches_char, views};

verus! {

/// The OpenID discovery document.
#[derive(Debug)]
pub struct DiscoveryDocument {
    pub issuer: String,
    pub authorization_endpoint: String,
    pub token_endpoint: String,
    pub jwks_uri: String,
    pub grant_types_supported: Vec<String>,
    pub response_types_supported: Vec<String>,
    pub subject_types_supported: Vec<String>,
    pub token_endpoint_auth_methods_supported: Vec<String>,
    pub id_token_signing_alg_values_supported: Vec<String>,
    pub scopes_supported: Vec<String>,
}

pub open spec fn algorithm_names(algs: Seq<SigningAlgorithm>) -> Seq<Seq<char>> {
    algs.map_values(|a: SigningAlgorithm| a.name())
}

fn string_vec1(a: &str) -> (r: Vec<String>)
    ensures
        views(r@) == seq![a@],
{
    let mut r: Vec<String> = Vec::new();
    r.push(a.to_owned());
    assert(views(r@) =~= seq![a@]);
    r
}

fn string_vec2(a: &str, b: &str) -> (r: Vec<String>)
    ensures
        views(r@) == seq![a@, b@],
{
    let mut r: Vec<String> = Vec::new();
    r.push(a.to_owned());
    r.push(b.to_owned());
    assert(views(r@) =~= seq![a@, b@]);
    r
}

impl DiscoveryDocument {
    /// The discovery document of a provider: endpoints under the issuer
    /// (without trailing slashes), the supported grants, response types,
    /// subject type and client authentication, the signing algorithms of
    /// the loaded keys and the scopes of the clients.
    pub fn new(provider: &ProviderSettings, scopes_supported: &[String], algorithms: &[SigningAlgorithm]) -> (r:
        Self)
        ensures
            r.issuer@ == trim_end_char(provider.issuer@, '/'),
            r.authorization_endpoint@ == trim_end_char(provider.issuer@, '/') + "/authorize"@,
            r.token_endpoint@ == trim_end_char(provider.issuer@, '/') + "/oauth/token"@,
            r.jwks_uri@ == trim_end_char(provider.issuer@, '/') + "/jwks.json"@,
            views(r.grant_types_supported@) == seq!["client_credentials"@, "authorization_code"@],
            views(r.response_types_supported@) == seq!["code"@, "token"@],
            views(r.subject_types_supported@) == seq!["public"@],
            views(r.token_endpoint_auth_methods_supported@) == seq!["client_secret_post"@],
            views(r.id_token_signing_alg_values_supported@) == algorithm_names(algorithms@),
            views(r.scopes_supported@) == views(scopes_supported@),
    {
        let issuer = trim_end_matches_char(provider.issuer.as_str(), '/');
        let authorization_endpoint = concat(issuer.as_str(), "/authorize");
        let token_endpoint = concat(issuer.as_str(), "/oauth/token");
        let jwks_uri = concat(issuer.as_str(), "/jwks.json");
        let mut names: Vec<String> = Vec::new();
        for i in 0..algorithms.len()
            invariant
                views(names@) == algorithm_names(algorithms@.take(i as int)),
        {
            let ghost before = views(names@);
            names.push(algorithms[i].as_str().to_owned());
            assert(algorithms@.take(i + 1) =~= algorithms@.take(i as int).push(algorithms@[i as int]));
            assert(views(names@) =~= before.push(algorithms@[i as int].name()));
            assert(algorithm_names(algorithms@.take(i + 1)) =~= algorithm_names(algorithms@.take(i as int)).push(
                algorithms@[i as int].name(),
            ));
        }
        assert(algorithms@.take(algorithms@.len() as int) =~= algorithms@);
        DiscoveryDocument {
            issuer,
            authorization_endpoint,
            token_endpoint,
            jwks_uri,
            grant_types_supported: string_vec2("client_credentials", "authorization_code"),
            response_types_supported: string_vec2("code", "token"),
            subject_types_supported: string_vec1("public"),
            token_endpoint_auth_methods_supported: string_vec1("client_secret_post"),
            id_token_signing_alg_values_supported: names,
            scopes_supported: copy_strings(scopes_supported),
        }
    }
}

/// The scopes some client allows.
pub open spec fn all_scopes(cs: Seq<Client>) -> Set<Seq<char>>
    decreases cs.len(),
{
    if cs.len() == 0 {
        Set::empty()
    } else {
        all_scopes(cs.drop_last()).union(views(cs.last().allowed_scopes@).to_set())
    }
}

/// Every scope some client allows, once each, in increasing order.
pub fn collect_scopes(clients: &Vec<Client>) -> (r: Vec<String>)
    ensures
        sorted_strict(views(r@)),
        views(r@).to_set() == all_scopes(clients@),
{
    let mut set: Vec<String> = Vec::new();
    assert(views(set@).to_set() =~= Set::<Seq<char>>::empty());
    assert(clients@.take(0) =~= Seq::<Client>::empty());
    for i in 0..clients.len()
        invariant
            sorted_strict(views(set@)),
            views(set@).to_set() == all_scopes(clients@.take(i as int)),
    {
        let scopes = &clients[i].allowed_scopes;
        let ghost before = views(set@).to_set();
        for j in 0..scopes.len()
            invariant
                sorted_strict(views(set@)),
                views(set@).to_set() == before.union(views(scopes@.take(j as int)).to_set()),
        {
            insert_sorted(&mut set, scopes[j].clone());
            proof {
                assert(views(scopes@.take(j + 1)) =~= views(scopes@.take(j as int)).push(scopes@[j as int]@));
                views(scopes@.take(j as int)).lemma_push_to_set_commute(scopes@[j as int]@);
                assert(views(set@).to_set() =~= before.union(views(scopes@.take(j + 1)).to_set()));
            }
        }
        proof {
            assert(scopes@.take(scopes@.len() as int) =~= scopes@);
            assert(clients@.take(i + 1).drop_last() =~= clients@.take(i as int));
            assert(clients@.take(i + 1).last() == clients@[i as int]);
        }
    }
    assert(clients@.take(clients@.len() as int) =~= clients@);
    set
}

/// Whether some key must be loaded for `a`: the provider's default, or the
/// override of some client.
pub open spec fn algorithm_needed(a: SigningAlgorithm, provider: ProviderSettings, clients: Seq<Client>) -> bool {
    a == provider.signing_algorithm || exists|i: int|
        0 <= i < clients.len() && (#[trigger] clients[i]).signing_algorithm == Some(a)
}

/// The algorithms that need a key, in the order RS256, ES256, PS256.
pub open spec fn needed_algorithms(provider: ProviderSettings, clients: Seq<Client>) -> Seq<SigningAlgorithm> {
    let all = seq![SigningAlgorithm::RS256, SigningAlgorithm::ES256, SigningAlgorithm::PS256];
    all.filter(|a: SigningAlgorithm| algorithm_needed(a, provider, clients))
}

fn client_uses(clients: &Vec<Client>, a: SigningAlgorithm) -> (r: bool)
    ensures
        r == exists|i: int| 0 <= i < clients@.len() && (#[trigger] clients@[i]).signing_algorithm == Some(a),
{
    for i in 0..clients.len()
        invariant
            forall|j: int| 0 <= j < i ==> (#[trigger] clients@[j]).signing_algorithm != Some(a),
    {
        match clients[i].signing_algorithm {
            Some(b) => {
                if b == a {
                    return true;
                }
            },
            None => {},
        }
    }
    false
}

/// The algorithms for which keys are loaded: the provider's default and
/// every override of a client.
pub fn signing_algorithms(provider: &ProviderSettings, clients: &Vec<Client>) -> (r: Vec<SigningAlgorithm>)
    ensures
        r@ == needed_algorithms(*provider, clients@),
{
    let mut r: Vec<SigningAlgorithm> = Vec::new();
    let ghost all = seq![SigningAlgorithm::RS256, SigningAlgorithm::ES256, SigningAlgorithm::PS256];
    let ghost pred = |a: SigningAlgorithm| algorithm_needed(a, *provider, clients@);
    if provider.signing_algorithm == SigningAlgorithm::RS256 || client_uses(clients, SigningAlgorithm::RS256) {
        r.push(SigningAlgorithm::RS256);
    }
    if provider.signing_algorithm == SigningAlgorithm::ES256 || client_uses(clients, SigningAlgorithm::ES256) {
        r.push(SigningAlgorithm::ES256);
    }
    if provider.signing_algorithm == SigningAlgorithm::PS256 || client_uses(clients, SigningAlgorithm::PS256) {
        r.push(SigningAlgorithm::PS256);
    }
    proof {
        let e = Seq::<SigningAlgorithm>::empty();
        let a1 = e.push(SigningAlgorithm::RS256);
        let a2 = a1.push(SigningAlgorithm::ES256);
        let a3 = a2.push(SigningAlgorithm::PS256);
        assert(a3 =~= all);
        reveal(Seq::filter);
        assert(e.filter(pred) =~= e);
        e.lemma_filter_push(SigningAlgorithm::RS256, pred);
        a1.lemma_filter_push(SigningAlgorithm::ES256, pred);
        a2.lemma_filter_push(SigningAlgorithm::PS256, pred);
        assert(r@ =~= all.filter(pred));
    }
    r
}

/// The loaded signing keys: one per algorithm, no two with the same kid.
pub struct SigningKeys {
    keys: Vec<KeyMaterial>,
}

pub open spec fn distinct_keys(ks: Seq<KeyMaterial>) -> bool {
    forall|i: int, j: int|
        0 <= i < j < ks.len() ==> (#[trigger] ks[i]).kid@ != (#[trigger] ks[j]).kid@ && ks[i].algorithm
            != ks[j].algorithm
}

impl SigningKeys {
    pub closed spec fn wf(&self) -> bool {
        distinct_keys(self.keys@)
    }

    /// The keys, in the order they were added.
    pub closed spec fn keys(&self) -> Seq<KeyMaterial> {
        self.keys@
    }

    pub fn new() -> (r: Self)
        ensures
            r.wf(),
            r.keys() == Seq::<KeyMaterial>::empty(),
    {
        SigningKeys { keys: Vec::new() }
    }

    fn kid_index(&self, kid: &str) -> (r: Option<usize>)
        ensures
            match r {
                Some(i) => i < self.keys@.len() && self.keys@[i as int].kid@ == kid@,
                None => forall|j: int| 0 <= j < self.keys@.len() ==> (#[trigger] self.keys@[j]).kid@ != kid@,
            },
    {
        for i in 0..self.keys.len()
            invariant
                forall|j: int| 0 <= j < i ==> (#[trigger] self.keys@[j]).kid@ != kid@,
        {
            if str_eq(self.keys[i].kid.as_str(), kid) {
                return Some(i);
            }
        }
        None
    }

    /// Adds the key for an algorithm that has none yet. A key whose kid is
    /// already in use is refused: each public key serves one algorithm.
    pub fn add(&mut self, key: KeyMaterial) -> (r: Result<(), AppError>)
        requires
            old(self).wf(),
            forall|i: int| 0 <= i < old(self).keys().len() ==> (#[trigger] old(self).keys()[i]).algorithm != key.algorithm,
        ensures
            final(self).wf(),
            match r {
                Ok(_) => final(self).keys() == old(self).keys().push(key),
                Err(AppError::Config(m)) => {
                    &&& final(self).keys() == old(self).keys()
                    &&& m@ == key.algorithm.name()
                        + " reuses a signing key already configured for another algorithm; use distinct keys"@
                    &&& exists|i: int| 0 <= i < old(self).keys().len() && (#[trigger] old(self).keys()[i]).kid@ == key.kid@
                },
                Err(_) => false,
            },
    {
        if let Some(i) = self.kid_index(key.kid.as_str()) {
            assert(old(self).keys()[i as int].kid@ == key.kid@);
            return Err(
                AppError::Config(
                    concat(
                        key.algorithm.as_str(),
                        " reuses a signing key already configured for another algorithm; use distinct keys",
                    ),
                ),
            );
        }
        let ghost before = self.keys@;
        self.keys.push(key);
        proof {
            assert forall|i: int, j: int| 0 <= i < j < self.keys@.len() implies (#[trigger] self.keys@[i]).kid@
                != (#[trigger] self.keys@[j]).kid@ && self.keys@[i].algorithm != self.keys@[j].algorithm by {
                if j < before.len() {
                    assert(self.keys@[i] == before[i] && self.keys@[j] == before[j]);
                } else {
                    assert(self.keys@[i] == before[i]);
                    assert(self.keys@[j] == key);
                    assert(before[i].kid@ != key.kid@);
                    assert(old(self).keys()[i].algorithm != key.algorithm);
                }
            }
        }
        Ok(())
    }

    /// The key for an algorithm.
    pub fn get(&self, algorithm: SigningAlgorithm) -> (r: Option<&KeyMaterial>)
        ensures
            match r {
                Some(k) => k.algorithm == algorithm && self.keys().contains(*k),
                None => forall|i: int| 0 <= i < self.keys().len() ==> (#[trigger] self.keys()[i]).algorithm != algorithm,
            },
    {
        for i in 0..self.keys.len()
            invariant
                forall|j: int| 0 <= j < i ==> (#[trigger] self.keys@[j]).algorithm != algorithm,
        {
            if self.keys[i].algorithm == algorithm {
                return Some(&self.keys[i]);
            }
        }
        None
    }

    /// The algorithms of the keys, in the order they were added.
    pub fn algorithms(&self) -> (r: Vec<SigningAlgorithm>)
        ensures
            r@ == self.keys().map_values(|k: KeyMaterial| k.algorithm),
    {
        let mut r: Vec<SigningAlgorithm> = Vec::new();
        for i in 0..self.keys.len()
            invariant
                r@ == self.keys@.take(i as int).map_values(|k: KeyMaterial| k.algorithm),
        {
            r.push(self.keys[i].algorithm);
            assert(r@ =~= self.keys@.take(i + 1).map_values(|k: KeyMaterial| k.algorithm));
        }
        assert(self.keys@.take(self.keys@.len() as int) =~= self.keys@);
        r
    }

    /// The published keys: one JWK per signing key, in the same order.
    pub fn jwk_set(&self) -> (r: JwkSet)
        ensures
            r.keys@.len() == self.keys().len(),
            forall|i: int| 0 <= i < r.keys@.len() ==> (#[trigger] r.keys@[i]) == self.keys()[i].jwk,
    {
        let mut keys: Vec<Jwk> = Vec::new();
        for i in 0..self.keys.len()
            invariant
                keys@.len() == i,
                forall|j: int| 0 <= j < i ==> (#[trigger] keys@[j]) == self.keys@[j].jwk,
        {
            keys.push(copy_jwk(&self.keys[i].jwk));
        }
        JwkSet { keys }
    }
}

/// A copy of a JWK.
pub fn copy_jwk(j: &Jwk) -> (r: Jwk)
    ensures
        r == *j,
{
    Jwk {
        key_use: j.key_use.clone(),
        alg: j.alg.clone(),
        kid: j.kid.clone(),
        public_key: match &j.public_key {
            JwkPublicKey::Rsa { n, e } => JwkPublicKey::Rsa { n: n.clone(), e: e.clone() },
            JwkPublicKey::Ec { crv, x, y } => JwkPublicKey::Ec { crv: crv.clone(), x: x.clone(), y: y.clone() },
        },
    }
}

/// The message of a key of `algorithm` that could not be loaded from `path`.
pub open spec fn load_failure(algorithm: SigningAlgorithm, path: Seq<char>, error: AppError) -> Seq<char> {
    "failed to load "@ + algorithm.name() + " signing key from '"@ + path + "': "@ + error.prefix() + error.detail()
}

/// What loading a key of `algorithm` from PEM text may give.
pub open spec fn pem_key_loaded(pem: Seq<char>, algorithm: SigningAlgorithm, r: Result<KeyMaterial, AppError>) -> bool {
    if algorithm == SigningAlgorithm::ES256 {
        ec_key_loaded(pem, r)
    } else {
        rsa_key_loaded(pem, algorithm, r)
    }
}

/// Whether a key with this kid is among `keys`.
pub open spec fn kid_in_use(keys: Seq<KeyMaterial>, kid: Seq<char>) -> bool {
    exists|i: int| 0 <= i < keys.len() && (#[trigger] keys[i]).kid@ == kid
}

/// Adds the key of `algorithm` kept in the file at `path`, given what
/// reading the file gave: its text, or the message of the read error. A
/// read or parse failure names the algorithm and the path; a key already
/// serving another algorithm is refused; the keys change only on success.
pub fn add_key_from_file(
    keys: &mut SigningKeys,
    algorithm: SigningAlgorithm,
    path: &str,
    contents: Result<String, String>,
) -> (r: Result<(), AppError>)
    requires
        old(keys).wf(),
        forall|i: int| 0 <= i < old(keys).keys().len() ==> (#[trigger] old(keys).keys()[i]).algorithm != algorithm,
    ensures
        final(keys).wf(),
        r is Err ==> final(keys).keys() == old(keys).keys(),
        match contents {
            Err(io) => r matches Err(AppError::Config(m)) && m@ == load_failure(algorithm, path@, AppError::Io(io)),
            Ok(pem) => exists|loaded: Result<KeyMaterial, AppError>|
                #[trigger] pem_key_loaded(pem@, algorithm, loaded) && match loaded {
                    Err(e) => r matches Err(AppError::Config(m)) && m@ == load_failure(algorithm, path@, e),
                    Ok(k) => if kid_in_use(old(keys).keys(), k.kid@) {
                        r matches Err(AppError::Config(m)) && m@ == algorithm.name()
                            + " reuses a signing key already configured for another algorithm; use distinct keys"@
                    } else {
                        r is Ok && final(keys).keys() == old(keys).keys().push(k)
                    },
                },
        },
{
    let pem = match contents {
        Ok(text) => text,
        Err(io) => return Err(key_load_error(algorithm, path, &AppError::Io(io))),
    };
    let loaded = key_material_from_pem(pem.as_str(), algorithm);
    assert(pem_key_loaded(pem@, algorithm, loaded));
    match loaded {
        Err(e) => Err(key_load_error(algorithm, path, &e)),
        Ok(key) => {
            let ghost k = key;
            let added = keys.add(key);
            proof {
                if added is Ok {
                    assert forall|i: int| 0 <= i < old(keys).keys().len() implies (#[trigger] old(keys).keys()[
                        i]).kid@ != k.kid@ by {
                        assert(keys.keys()[i] == old(keys).keys()[i]);
                        assert(keys.keys()[old(keys).keys().len() as int] == k);
                    }
                }
            }
            added
        },
    }
}

/// The error for a key that could not be loaded from `path`.
pub fn key_load_error(algorithm: SigningAlgorithm, path: &str, error: &AppError) -> (r: AppError)
    ensures
        r matches AppError::Config(m) && m@ == "failed to load "@ + algorithm.name() + " signing key from '"@ + path@
            + "': "@ + error.prefix() + error.detail(),
{
    let mut message = concat3("failed to load ", algorithm.as_str(), " signing key from '");
    message.append(path);
    message.append("': ");
    let detail = error.message();
    message.append(detail.as_str());
    AppError::Config(message)
}

} // verus!
