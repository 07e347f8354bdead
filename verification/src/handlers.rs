//! The decisions of the HTTP endpoints: what the authorization, login,
//! consent, re-authentication and token endpoints answer to a request.

use vstd::prelude::*;

use crate::auth::{
    code_record_is, consent_is, live_entry, take_pending_reauth, transaction_is, ConsumePendingReauth,
    NewPendingReauthConsent, NewPendingReauthTransaction, PendingReauthTransaction, AuthContext, AuthStore, AuthorizationCodeRecord, DownstreamAuthorizationRequest,
    NewAuthorizationCode, Session,
};
use crate::app::SigningKeys;
use crate::bindings::{is_lower_hex, url_with_query_pairs, utc_now, uuid_simple};
use crate::config::{
    find_client, find_trusted_provider, lookup_client, lookup_provider, Client, ClientAuthMode, ConsentMode,
    ProviderSettings, ReAuthConsent, TrustedProviderConfig,
};
use crate::frontend::{
    consent_page, consent_page_html, login_page, login_page_html, reauth_consent_page_html,
};
use crate::crypto::{jws_header, jws_signing_input, sign_claims, KeyMaterial};
use crate::json::{JsonValue, JsonView};
use crate::store::live;
use crate::token::{claims_problem, int_text, render, ContextView, TokenContext, TokenTemplate};
use crate::time::MAX_DELTA_SECONDS;
use crate::time::UtcTime;
use crate::users::User;
use crate::error::{ApiError, ApiErrorView};
use crate::text::{
    concat, contains, contains_at, first_index, index_from, join, join_strings, lemma_index_from,
    lemma_split_nonempty, opt_seq, push_char, split_at_char, split_char, split_once, split_once_char,
    split_whitespace, str_chars, str_eq, trim, trim_str, vec_contains, views, words,
};
use crate::upstream::{
    authorization_pairs, build_authorization_url, constant_time_eq, s256_challenge, DiscoveredOidcProvider,
    UpstreamAuthorizationRequest, ValidatedUpstreamIdentity,
};

verus! {

/// The form of a token request.
#[derive(Debug)]
pub struct TokenRequest {
    pub grant_type: String,
    pub client_id: Option<String>,
    pub client_secret: Option<String>,
    pub scope: Option<String>,
    pub code: Option<String>,
    pub redirect_uri: Option<String>,
    pub code_verifier: Option<String>,
}

/// The query of an authorization request.
#[derive(Debug)]
pub struct AuthorizeRequest {
    pub response_type: String,
    pub client_id: String,
    pub redirect_uri: String,
    pub scope: Option<String>,
    pub state: Option<String>,
    pub nonce: Option<String>,
    pub code_challenge: Option<String>,
    pub code_challenge_method: Option<String>,
    pub prompt: Option<String>,
}

/// The login form.
#[derive(Debug)]
pub struct LoginForm {
    pub username: String,
    pub password: String,
    pub return_to: String,
}

/// The local consent form.
#[derive(Debug)]
pub struct ConsentForm {
    pub decision: String,
    pub return_to: String,
}

/// The query of an upstream callback.
#[derive(Debug)]
pub struct ReauthCallbackRequest {
    pub state: Option<String>,
    pub code: Option<String>,
    pub error: Option<String>,
}

/// The re-auth consent form.
#[derive(Debug)]
pub struct ReauthConsentForm {
    pub decision: String,
    pub transaction_id: String,
}

/// A successful token response.
#[derive(Debug)]
pub struct TokenResponse {
    pub access_token: String,
    pub token_type: String,
    pub expires_in: u64,
    pub id_token: Option<String>,
    pub scope: Option<String>,
}

/// An authorization request as text values.
pub struct AuthorizeView {
    pub response_type: Seq<char>,
    pub client_id: Seq<char>,
    pub redirect_uri: Seq<char>,
    pub scope: Option<Seq<char>>,
    pub state: Option<Seq<char>>,
    pub nonce: Option<Seq<char>>,
    pub code_challenge: Option<Seq<char>>,
    pub code_challenge_method: Option<Seq<char>>,
    pub prompt: Option<Seq<char>>,
}

impl View for AuthorizeRequest {
    type V = AuthorizeView;

    open spec fn view(&self) -> AuthorizeView {
        AuthorizeView {
            response_type: self.response_type@,
            client_id: self.client_id@,
            redirect_uri: self.redirect_uri@,
            scope: opt_seq(self.scope),
            state: opt_seq(self.state),
            nonce: opt_seq(self.nonce),
            code_challenge: opt_seq(self.code_challenge),
            code_challenge_method: opt_seq(self.code_challenge_method),
            prompt: opt_seq(self.prompt),
        }
    }
}

// ---------------------------------------------------------------------------
// Query values
// ---------------------------------------------------------------------------

/// `s` with every space written as `%20`.
pub open spec fn encode_uri(s: Seq<char>) -> Seq<char>
    decreases s.len(),
{
    if s.len() == 0 {
        Seq::empty()
    } else {
        (if s[0] == ' ' {
            seq!['%', '2', '0']
        } else {
            seq![s[0]]
        }) + encode_uri(s.skip(1))
    }
}

/// `s` with every `%20`, read from the left, written as a space.
pub open spec fn decode_uri(s: Seq<char>) -> Seq<char>
    decreases s.len(),
{
    if s.len() == 0 {
        Seq::empty()
    } else if s.len() >= 3 && s[0] == '%' && s[1] == '2' && s[2] == '0' {
        seq![' '] + decode_uri(s.skip(3))
    } else {
        seq![s[0]] + decode_uri(s.skip(1))
    }
}

/// Writes every space of `value` as `%20`.
pub fn encode_uri_component(value: &str) -> (r: String)
    ensures
        r@ == encode_uri(value@),
{
    let v = str_chars(value);
    let mut out = String::new();
    let mut i: usize = 0;
    assert(value@.skip(0) =~= value@);
    assert(out@ + encode_uri(value@) =~= encode_uri(value@));
    while i < v.len()
        invariant
            v@ == value@,
            i <= v.len(),
            out@ + encode_uri(value@.skip(i as int)) == encode_uri(value@),
        decreases v.len() - i,
    {
        let ghost rest = value@.skip(i as int);
        assert(rest.skip(1) =~= value@.skip(i + 1));
        assert(rest[0] == v@[i as int]);
        if v[i] == ' ' {
            push_char(&mut out, '%');
            push_char(&mut out, '2');
            push_char(&mut out, '0');
        } else {
            push_char(&mut out, v[i]);
        }
        i = i + 1;
    }
    assert(value@.skip(i as int) =~= Seq::<char>::empty());
    assert(out@ + Seq::<char>::empty() =~= out@);
    out
}

/// Reads every `%20` of `value` as a space.
pub fn decode_uri_component(value: &str) -> (r: String)
    ensures
        r@ == decode_uri(value@),
{
    let v = str_chars(value);
    let mut out = String::new();
    let mut i: usize = 0;
    assert(value@.skip(0) =~= value@);
    assert(out@ + decode_uri(value@) =~= decode_uri(value@));
    while i < v.len()
        invariant
            v@ == value@,
            i <= v.len(),
            out@ + decode_uri(value@.skip(i as int)) == decode_uri(value@),
        decreases v.len() - i,
    {
        let ghost rest = value@.skip(i as int);
        if v.len() - i > 2 && v[i] == '%' && v[i + 1] == '2' && v[i + 2] == '0' {
            assert(rest.skip(3) =~= value@.skip(i + 3));
            assert(rest[0] == '%' && rest[1] == '2' && rest[2] == '0');
            push_char(&mut out, ' ');
            i = i + 3;
        } else {
            assert(rest.skip(1) =~= value@.skip(i + 1));
            assert(rest[0] == v@[i as int]);
            assert(!(rest.len() >= 3 && rest[0] == '%' && rest[1] == '2' && rest[2] == '0'));
            push_char(&mut out, v[i]);
            i = i + 1;
        }
    }
    assert(value@.skip(i as int) =~= Seq::<char>::empty());
    assert(out@ + Seq::<char>::empty() =~= out@);
    out
}

proof fn lemma_encode_first(s: Seq<char>)
    requires
        s.len() > 0,
    ensures
        encode_uri(s).len() > 0,
        encode_uri(s)[0] == (if s[0] == ' ' { '%' } else { s[0] }),
{
}

proof fn lemma_encode_no_amp(s: Seq<char>)
    ensures
        !s.contains('&') ==> !encode_uri(s).contains('&'),
    decreases s.len(),
{
    if s.len() > 0 {
        lemma_encode_no_amp(s.skip(1));
        if !s.contains('&') {
            assert forall|i: int| 0 <= i < s.skip(1).len() implies s.skip(1)[i] != '&' by {
                assert(s.skip(1)[i] == s[i + 1]);
            }
            let head = if s[0] == ' ' {
                seq!['%', '2', '0']
            } else {
                seq![s[0]]
            };
            assert(encode_uri(s) == head + encode_uri(s.skip(1)));
            assert forall|i: int| 0 <= i < encode_uri(s).len() implies encode_uri(s)[i] != '&' by {
                if i >= head.len() {
                    assert(encode_uri(s)[i] == encode_uri(s.skip(1))[i - head.len()]);
                }
            }
        }
    }
}

/// Writing spaces as `%20` and reading them back gives the value again, for
/// every value that does not itself contain `%20`.
pub proof fn lemma_decode_encode(s: Seq<char>)
    requires
        !contains(s, "%20"@),
    ensures
        decode_uri(encode_uri(s)) == s,
    decreases s.len(),
{
    reveal_strlit("%20");
    if s.len() == 0 {
        assert(encode_uri(s) =~= Seq::<char>::empty());
    } else {
        let rest = s.skip(1);
        assert(!contains(rest, "%20"@)) by {
            if contains(rest, "%20"@) {
                let i = choose|i: int| contains_at(rest, "%20"@, i);
                assert(rest.subrange(i, i + 3) =~= s.subrange(i + 1, i + 4));
                assert(contains_at(s, "%20"@, i + 1));
            }
        }
        lemma_decode_encode(rest);
        let e = encode_uri(s);
        if s[0] == ' ' {
            assert(e == seq!['%', '2', '0'] + encode_uri(rest));
            assert(e.skip(3) =~= encode_uri(rest));
            assert(s =~= seq![' '] + rest);
        } else {
            assert(e == seq![s[0]] + encode_uri(rest));
            assert(e.skip(1) =~= encode_uri(rest));
            if e.len() >= 3 && e[0] == '%' && e[1] == '2' && e[2] == '0' {
                // then `s` would begin with `%20`
                lemma_encode_first(rest);
                assert(rest[0] == '2');
                let rest2 = rest.skip(1);
                assert(encode_uri(rest) == seq![rest[0]] + encode_uri(rest2));
                lemma_encode_first(rest2);
                assert(rest2[0] == '0');
                assert(s.subrange(0, 3) =~= "%20"@);
                assert(contains_at(s, "%20"@, 0));
                assert(false);
            }
            assert(s =~= seq![s[0]] + rest);
        }
    }
}

// ---------------------------------------------------------------------------
// The authorization request carried through the login and consent forms
// ---------------------------------------------------------------------------

/// `key=value`, with the value's spaces written as `%20`.
pub open spec fn param(key: Seq<char>, value: Seq<char>) -> Seq<char> {
    key + "="@ + encode_uri(value)
}

pub open spec fn opt_param(key: Seq<char>, value: Option<Seq<char>>) -> Seq<Seq<char>> {
    match value {
        Some(v) => seq![param(key, v)],
        None => Seq::empty(),
    }
}

/// The query parameters that carry an authorization request, in order.
pub open spec fn authorize_params(r: AuthorizeView) -> Seq<Seq<char>> {
    seq![
        param("response_type"@, r.response_type),
        param("client_id"@, r.client_id),
        param("redirect_uri"@, r.redirect_uri),
    ] + opt_param("scope"@, r.scope) + opt_param("state"@, r.state) + opt_param("nonce"@, r.nonce)
        + opt_param("code_challenge"@, r.code_challenge) + opt_param(
        "code_challenge_method"@,
        r.code_challenge_method,
    ) + opt_param("prompt"@, r.prompt)
}

/// The `/authorize` URL that carries an authorization request.
pub open spec fn authorize_return(r: AuthorizeView) -> Seq<char> {
    "/authorize?"@ + join(authorize_params(r), "&"@)
}

fn param_text(key: &str, value: &str) -> (r: String)
    ensures
        r@ == param(key@, value@),
{
    let mut r = concat(key, "=");
    let encoded = encode_uri_component(value);
    r.append(encoded.as_str());
    r
}

fn push_opt_param(params: &mut Vec<String>, key: &str, value: &Option<String>)
    ensures
        views(final(params)@) == views(old(params)@) + opt_param(key@, opt_seq(*value)),
{
    match value {
        Some(v) => {
            params.push(param_text(key, v.as_str()));
            assert(views(params@) =~= views(old(params)@) + opt_param(key@, opt_seq(*value)));
        },
        None => {
            assert(views(params@) =~= views(old(params)@) + opt_param(key@, opt_seq(*value)));
        },
    }
}

/// The `/authorize` URL that carries `request` through the login and
/// consent forms.
pub fn build_authorize_return(request: &AuthorizeRequest) -> (r: String)
    ensures
        r@ == authorize_return(request@),
{
    let mut params: Vec<String> = Vec::new();
    params.push(param_text("response_type", request.response_type.as_str()));
    params.push(param_text("client_id", request.client_id.as_str()));
    params.push(param_text("redirect_uri", request.redirect_uri.as_str()));
    push_opt_param(&mut params, "scope", &request.scope);
    push_opt_param(&mut params, "state", &request.state);
    push_opt_param(&mut params, "nonce", &request.nonce);
    push_opt_param(&mut params, "code_challenge", &request.code_challenge);
    push_opt_param(&mut params, "code_challenge_method", &request.code_challenge_method);
    push_opt_param(&mut params, "prompt", &request.prompt);
    assert(views(params@) =~= authorize_params(request@));
    let joined = join_strings(params.as_slice(), "&");
    concat("/authorize?", joined.as_str())
}

/// An authorization request with no parameters.
pub open spec fn empty_authorize() -> AuthorizeView {
    AuthorizeView {
        response_type: Seq::empty(),
        client_id: Seq::empty(),
        redirect_uri: Seq::empty(),
        scope: None,
        state: None,
        nonce: None,
        code_challenge: None,
        code_challenge_method: None,
        prompt: None,
    }
}

/// The request with the parameter `k` set to `d`; unknown keys change nothing.
pub open spec fn set_field(acc: AuthorizeView, k: Seq<char>, d: Seq<char>) -> AuthorizeView {
    if k == "response_type"@ {
        AuthorizeView { response_type: d, ..acc }
    } else if k == "client_id"@ {
        AuthorizeView { client_id: d, ..acc }
    } else if k == "redirect_uri"@ {
        AuthorizeView { redirect_uri: d, ..acc }
    } else if k == "scope"@ {
        AuthorizeView { scope: Some(d), ..acc }
    } else if k == "state"@ {
        AuthorizeView { state: Some(d), ..acc }
    } else if k == "nonce"@ {
        AuthorizeView { nonce: Some(d), ..acc }
    } else if k == "code_challenge"@ {
        AuthorizeView { code_challenge: Some(d), ..acc }
    } else if k == "code_challenge_method"@ {
        AuthorizeView { code_challenge_method: Some(d), ..acc }
    } else if k == "prompt"@ {
        AuthorizeView { prompt: Some(d), ..acc }
    } else {
        acc
    }
}

/// The request after reading one `key=value` parameter; parameters without
/// `=` change nothing.
pub open spec fn apply_param(acc: AuthorizeView, p: Seq<char>) -> AuthorizeView {
    match split_once(p, '=') {
        None => acc,
        Some((k, v)) => set_field(acc, k, decode_uri(v)),
    }
}

/// The request read from a sequence of parameters, later ones winning.
pub open spec fn parse_params(ps: Seq<Seq<char>>) -> AuthorizeView
    decreases ps.len(),
{
    if ps.len() == 0 {
        empty_authorize()
    } else {
        apply_param(parse_params(ps.drop_last()), ps.last())
    }
}

/// The query of a URL: the text after its first `?`, if any.
pub open spec fn query_of(url: Seq<char>) -> Seq<char> {
    match split_once(url, '?') {
        Some((_, q)) => q,
        None => Seq::empty(),
    }
}

/// The authorization request carried in a `return_to` URL.
pub open spec fn parse_return(return_to: Seq<char>) -> AuthorizeView {
    parse_params(split_at_char(query_of(return_to), '&'))
}

/// Reads back the authorization request carried in `return_to`.
pub fn parse_authorize_return(return_to: &str) -> (r: AuthorizeRequest)
    ensures
        r@ == parse_return(return_to@),
{
    let query = match split_once_char(return_to, '?') {
        Some((_, q)) => q,
        None => String::new(),
    };
    let pieces = split_char(query.as_str(), '&');
    let mut request = AuthorizeRequest {
        response_type: String::new(),
        client_id: String::new(),
        redirect_uri: String::new(),
        scope: None,
        state: None,
        nonce: None,
        code_challenge: None,
        code_challenge_method: None,
        prompt: None,
    };
    assert(request@ == empty_authorize());
    assert(views(pieces@).take(0) =~= Seq::<Seq<char>>::empty());
    for i in 0..pieces.len()
        invariant
            views(pieces@) == split_at_char(query_of(return_to@), '&'),
            request@ == parse_params(views(pieces@).take(i as int)),
    {
        proof {
            assert(views(pieces@).take(i + 1).drop_last() =~= views(pieces@).take(i as int));
            assert(views(pieces@).take(i + 1).last() == pieces@[i as int]@);
        }
        match split_once_char(pieces[i].as_str(), '=') {
            None => {},
            Some((key, value)) => {
                let d = decode_uri_component(value.as_str());
                let k = key.as_str();
                if str_eq(k, "response_type") {
                    request.response_type = d;
                } else if str_eq(k, "client_id") {
                    request.client_id = d;
                } else if str_eq(k, "redirect_uri") {
                    request.redirect_uri = d;
                } else if str_eq(k, "scope") {
                    request.scope = Some(d);
                } else if str_eq(k, "state") {
                    request.state = Some(d);
                } else if str_eq(k, "nonce") {
                    request.nonce = Some(d);
                } else if str_eq(k, "code_challenge") {
                    request.code_challenge = Some(d);
                } else if str_eq(k, "code_challenge_method") {
                    request.code_challenge_method = Some(d);
                } else if str_eq(k, "prompt") {
                    request.prompt = Some(d);
                }
            },
        }
    }
    assert(views(pieces@).take(pieces@.len() as int) =~= views(pieces@));
    request
}

proof fn lemma_split_once_at(a: Seq<char>, c: char, b: Seq<char>)
    requires
        !a.contains(c),
    ensures
        split_once(a + seq![c] + b, c) == Some((a, b)),
{
    let s = a + seq![c] + b;
    lemma_index_from(s, c, 0);
    let i = first_index(s, c);
    if i < a.len() {
        assert(s[i] == a[i]);
    }
    if i > a.len() {
        assert(s[a.len() as int] == c);
    }
    assert(i == a.len());
    assert(s.take(i) =~= a);
    assert(s.skip(i + 1) =~= b);
}

proof fn lemma_split_no_sep(a: Seq<char>, sep: char)
    requires
        !a.contains(sep),
    ensures
        split_at_char(a, sep) == seq![a],
    decreases a.len(),
{
    if a.len() > 0 {
        let d = a.drop_last();
        assert(!d.contains(sep)) by {
            if d.contains(sep) {
                let i = choose|i: int| 0 <= i < d.len() && d[i] == sep;
                assert(a[i] == sep);
            }
        }
        lemma_split_no_sep(d, sep);
        assert(a.last() != sep);
        assert(d.push(a.last()) =~= a);
        assert(seq![d].update(0, d.push(a.last())) =~= seq![a]);
    } else {
        assert(a =~= Seq::<char>::empty());
    }
}

proof fn lemma_split_concat(a: Seq<char>, b: Seq<char>, sep: char)
    ensures
        split_at_char(a + seq![sep] + b, sep) == split_at_char(a, sep) + split_at_char(b, sep),
    decreases b.len(),
{
    let s = a + seq![sep] + b;
    if b.len() == 0 {
        assert(s.drop_last() =~= a);
        assert(split_at_char(b, sep) =~= seq![Seq::<char>::empty()]);
        assert(split_at_char(a, sep).push(Seq::empty()) =~= split_at_char(a, sep) + seq![Seq::<char>::empty()]);
    } else {
        let b2 = b.drop_last();
        assert(s.drop_last() =~= a + seq![sep] + b2);
        assert(s.last() == b.last());
        lemma_split_concat(a, b2, sep);
        let p = split_at_char(a, sep) + split_at_char(b2, sep);
        let q = split_at_char(b2, sep);
        lemma_split_nonempty(b2, sep);
        if b.last() == sep {
            assert(p.push(Seq::empty()) =~= split_at_char(a, sep) + q.push(Seq::empty()));
        } else {
            assert(p.last() == q.last());
            assert(p.update(p.len() - 1, p.last().push(b.last())) =~= split_at_char(a, sep) + q.update(
                q.len() - 1,
                q.last().push(b.last()),
            ));
        }
    }
}

proof fn lemma_split_join(ps: Seq<Seq<char>>, sep: char)
    requires
        ps.len() >= 1,
        forall|i: int| 0 <= i < ps.len() ==> !(#[trigger] ps[i]).contains(sep),
    ensures
        split_at_char(join(ps, seq![sep]), sep) == ps,
    decreases ps.len(),
{
    if ps.len() == 1 {
        lemma_split_no_sep(ps[0], sep);
        assert(seq![ps[0]] =~= ps);
    } else {
        let d = ps.drop_last();
        assert forall|i: int| 0 <= i < d.len() implies !(#[trigger] d[i]).contains(sep) by {
            assert(d[i] == ps[i]);
        }
        lemma_split_join(d, sep);
        lemma_split_concat(join(d, seq![sep]), ps.last(), sep);
        lemma_split_no_sep(ps.last(), sep);
        assert(d + seq![ps.last()] =~= ps);
    }
}

/// A value that survives the trip through a `return_to` URL.
pub open spec fn return_safe(v: Seq<char>) -> bool {
    !v.contains('&') && !contains(v, "%20"@)
}

pub open spec fn opt_return_safe(v: Option<Seq<char>>) -> bool {
    match v {
        Some(x) => return_safe(x),
        None => true,
    }
}

proof fn lemma_param_parts(key: Seq<char>, x: Seq<char>)
    requires
        !key.contains('='),
        !key.contains('&'),
        return_safe(x),
    ensures
        split_once(param(key, x), '=') == Some((key, encode_uri(x))),
        decode_uri(encode_uri(x)) == x,
        !param(key, x).contains('&'),
{
    reveal_strlit("=");
    assert(param(key, x) =~= key + seq!['='] + encode_uri(x));
    lemma_split_once_at(key, '=', encode_uri(x));
    lemma_decode_encode(x);
    lemma_encode_no_amp(x);
    let p = param(key, x);
    assert forall|i: int| 0 <= i < p.len() implies p[i] != '&' by {
        if i < key.len() {
            assert(p[i] == key[i]);
        } else if i > key.len() {
            assert(p[i] == encode_uri(x)[i - key.len() - 1]);
        }
    }
}

proof fn lemma_parse_push(s: Seq<Seq<char>>, key: Seq<char>, v: Option<Seq<char>>)
    ensures
        parse_params(s + opt_param(key, v)) == (match v {
            Some(x) => apply_param(parse_params(s), param(key, x)),
            None => parse_params(s),
        }),
{
    match v {
        Some(x) => {
            assert((s + opt_param(key, v)).drop_last() =~= s);
        },
        None => {
            assert(s + opt_param(key, v) =~= s);
        },
    }
}

proof fn lemma_keys()
    ensures
        !"response_type"@.contains('=') && !"response_type"@.contains('&'),
        !"client_id"@.contains('=') && !"client_id"@.contains('&'),
        !"redirect_uri"@.contains('=') && !"redirect_uri"@.contains('&'),
        !"scope"@.contains('=') && !"scope"@.contains('&'),
        !"state"@.contains('=') && !"state"@.contains('&'),
        !"nonce"@.contains('=') && !"nonce"@.contains('&'),
        !"code_challenge"@.contains('=') && !"code_challenge"@.contains('&'),
        !"code_challenge_method"@.contains('=') && !"code_challenge_method"@.contains('&'),
        !"prompt"@.contains('=') && !"prompt"@.contains('&'),
        "response_type"@ != "client_id"@,
        "response_type"@ != "redirect_uri"@,
        "client_id"@ != "redirect_uri"@,
        "scope"@ != "response_type"@ && "scope"@ != "client_id"@ && "scope"@ != "redirect_uri"@,
        "state"@ != "response_type"@ && "state"@ != "client_id"@ && "state"@ != "redirect_uri"@
            && "state"@ != "scope"@,
        "nonce"@ != "response_type"@ && "nonce"@ != "client_id"@ && "nonce"@ != "redirect_uri"@
            && "nonce"@ != "scope"@ && "nonce"@ != "state"@,
        "code_challenge"@ != "response_type"@ && "code_challenge"@ != "client_id"@
            && "code_challenge"@ != "redirect_uri"@ && "code_challenge"@ != "scope"@
            && "code_challenge"@ != "state"@ && "code_challenge"@ != "nonce"@,
        "code_challenge_method"@ != "response_type"@ && "code_challenge_method"@ != "client_id"@
            && "code_challenge_method"@ != "redirect_uri"@ && "code_challenge_method"@ != "scope"@
            && "code_challenge_method"@ != "state"@ && "code_challenge_method"@ != "nonce"@
            && "code_challenge_method"@ != "code_challenge"@,
        "prompt"@ != "response_type"@ && "prompt"@ != "client_id"@ && "prompt"@ != "redirect_uri"@
            && "prompt"@ != "scope"@ && "prompt"@ != "state"@ && "prompt"@ != "nonce"@
            && "prompt"@ != "code_challenge"@ && "prompt"@ != "code_challenge_method"@,
{
    reveal_strlit("response_type");
    reveal_strlit("client_id");
    reveal_strlit("redirect_uri");
    reveal_strlit("scope");
    reveal_strlit("state");
    reveal_strlit("nonce");
    reveal_strlit("code_challenge");
    reveal_strlit("code_challenge_method");
    reveal_strlit("prompt");
    assert("response_type"@[0] != "client_id"@[0]);
    assert("response_type"@[0] != "redirect_uri"@[2]);
    assert("client_id"@[0] != "redirect_uri"@[0]);
    assert("code_challenge"@.len() != "code_challenge_method"@.len());
    assert("scope"@[1] != "state"@[1]);
    assert("prompt"@.len() == 6);
    assert("prompt"@.len() != "response_type"@.len());
    assert("prompt"@.len() != "client_id"@.len());
    assert("prompt"@.len() != "redirect_uri"@.len());
    assert("prompt"@.len() != "scope"@.len());
    assert("prompt"@.len() != "state"@.len());
    assert("prompt"@.len() != "nonce"@.len());
    assert("prompt"@.len() != "code_challenge"@.len());
    assert("prompt"@.len() != "code_challenge_method"@.len());
}

proof fn lemma_apply_known(acc: AuthorizeView, key: Seq<char>, x: Seq<char>)
    requires
        !key.contains('='),
        !key.contains('&'),
        return_safe(x),
    ensures
        apply_param(acc, param(key, x)) == set_field(acc, key, x),
{
    lemma_param_parts(key, x);
}

proof fn lemma_parse_step(s: Seq<Seq<char>>, key: Seq<char>, v: Option<Seq<char>>)
    requires
        !key.contains('='),
        !key.contains('&'),
        opt_return_safe(v),
    ensures
        parse_params(s + opt_param(key, v)) == (match v {
            Some(x) => set_field(parse_params(s), key, x),
            None => parse_params(s),
        }),
{
    lemma_parse_push(s, key, v);
    if let Some(x) = v {
        lemma_apply_known(parse_params(s), key, x);
    }
}

proof fn lemma_parse_fixed(r: AuthorizeView)
    requires
        return_safe(r.response_type),
        return_safe(r.client_id),
        return_safe(r.redirect_uri),
    ensures
        parse_params(
            seq![
                param("response_type"@, r.response_type),
                param("client_id"@, r.client_id),
                param("redirect_uri"@, r.redirect_uri),
            ],
        ) == (AuthorizeView {
            response_type: r.response_type,
            client_id: r.client_id,
            redirect_uri: r.redirect_uri,
            ..empty_authorize()
        }),
{
    lemma_keys();
    let e = Seq::<Seq<char>>::empty();
    let a = seq![param("response_type"@, r.response_type)];
    let b = seq![param("response_type"@, r.response_type), param("client_id"@, r.client_id)];
    let c = seq![
        param("response_type"@, r.response_type),
        param("client_id"@, r.client_id),
        param("redirect_uri"@, r.redirect_uri),
    ];
    assert(e + opt_param("response_type"@, Some(r.response_type)) =~= a);
    assert(a + opt_param("client_id"@, Some(r.client_id)) =~= b);
    assert(b + opt_param("redirect_uri"@, Some(r.redirect_uri)) =~= c);
    lemma_parse_step(e, "response_type"@, Some(r.response_type));
    lemma_parse_step(a, "client_id"@, Some(r.client_id));
    lemma_parse_step(b, "redirect_uri"@, Some(r.redirect_uri));
}

proof fn lemma_parse_params_of(r: AuthorizeView)
    requires
        return_safe(r.response_type),
        return_safe(r.client_id),
        return_safe(r.redirect_uri),
        opt_return_safe(r.scope),
        opt_return_safe(r.state),
        opt_return_safe(r.nonce),
        opt_return_safe(r.code_challenge),
        opt_return_safe(r.code_challenge_method),
        opt_return_safe(r.prompt),
    ensures
        parse_params(authorize_params(r)) == r,
{
    lemma_keys();
    let s0 = seq![
        param("response_type"@, r.response_type),
        param("client_id"@, r.client_id),
        param("redirect_uri"@, r.redirect_uri),
    ];
    lemma_parse_fixed(r);
    let s1 = s0 + opt_param("scope"@, r.scope);
    lemma_parse_step(s0, "scope"@, r.scope);
    let s2 = s1 + opt_param("state"@, r.state);
    lemma_parse_step(s1, "state"@, r.state);
    let s3 = s2 + opt_param("nonce"@, r.nonce);
    lemma_parse_step(s2, "nonce"@, r.nonce);
    let s4 = s3 + opt_param("code_challenge"@, r.code_challenge);
    lemma_parse_step(s3, "code_challenge"@, r.code_challenge);
    let s5 = s4 + opt_param("code_challenge_method"@, r.code_challenge_method);
    lemma_parse_step(s4, "code_challenge_method"@, r.code_challenge_method);
    lemma_parse_step(s5, "prompt"@, r.prompt);
    assert(s5 + opt_param("prompt"@, r.prompt) == authorize_params(r));
}

proof fn lemma_return_pieces(r: AuthorizeView)
    requires
        return_safe(r.response_type),
        return_safe(r.client_id),
        return_safe(r.redirect_uri),
        opt_return_safe(r.scope),
        opt_return_safe(r.state),
        opt_return_safe(r.nonce),
        opt_return_safe(r.code_challenge),
        opt_return_safe(r.code_challenge_method),
        opt_return_safe(r.prompt),
    ensures
        split_at_char(query_of(authorize_return(r)), '&') == authorize_params(r),
{
    lemma_keys();
    reveal_strlit("/authorize?");
    reveal_strlit("/authorize");
    reveal_strlit("&");
    let ps = authorize_params(r);
    let j = join(ps, "&"@);
    assert("/authorize?"@ + j =~= "/authorize"@ + seq!['?'] + j);
    assert(!"/authorize"@.contains('?'));
    lemma_split_once_at("/authorize"@, '?', j);
    lemma_param_parts("response_type"@, r.response_type);
    lemma_param_parts("client_id"@, r.client_id);
    lemma_param_parts("redirect_uri"@, r.redirect_uri);
    if let Some(x) = r.scope {
        lemma_param_parts("scope"@, x);
    }
    if let Some(x) = r.state {
        lemma_param_parts("state"@, x);
    }
    if let Some(x) = r.nonce {
        lemma_param_parts("nonce"@, x);
    }
    if let Some(x) = r.code_challenge {
        lemma_param_parts("code_challenge"@, x);
    }
    if let Some(x) = r.code_challenge_method {
        lemma_param_parts("code_challenge_method"@, x);
    }
    if let Some(x) = r.prompt {
        lemma_param_parts("prompt"@, x);
    }
    assert forall|i: int| 0 <= i < ps.len() implies !(#[trigger] ps[i]).contains('&') by {}
    assert("&"@ =~= seq!['&']);
    lemma_split_join(ps, '&');
}

/// Carrying an authorization request through a `return_to` URL and reading
/// it back gives the same request, for every request whose values contain
/// neither `&` nor `%20`.
pub proof fn lemma_authorize_return_round_trip(r: AuthorizeView)
    requires
        return_safe(r.response_type),
        return_safe(r.client_id),
        return_safe(r.redirect_uri),
        opt_return_safe(r.scope),
        opt_return_safe(r.state),
        opt_return_safe(r.nonce),
        opt_return_safe(r.code_challenge),
        opt_return_safe(r.code_challenge_method),
        opt_return_safe(r.prompt),
    ensures
        parse_return(authorize_return(r)) == r,
{
    lemma_return_pieces(r);
    lemma_parse_params_of(r);
}

// ---------------------------------------------------------------------------
// Replies
// ---------------------------------------------------------------------------

/// What an endpoint answers, before it becomes an HTTP response.
#[derive(Debug)]
pub enum Reply {
    /// `200 OK` with an HTML page.
    Html(String),
    /// A redirect to a URL.
    Redirect(String),
    /// `400 Bad Request` with an OAuth error body.
    BadRequest { error: String, description: Option<String> },
    /// `500 Internal Server Error` with an empty body.
    ServerError,
    /// A redirect that also sets a cookie.
    SignedIn { location: String, cookie: String },
}

pub enum ReplyView {
    Html(Seq<char>),
    Redirect(Seq<char>),
    BadRequest(Seq<char>, Option<Seq<char>>),
    ServerError,
    SignedIn(Seq<char>, Seq<char>),
}

impl View for Reply {
    type V = ReplyView;

    open spec fn view(&self) -> ReplyView {
        match self {
            Reply::Html(h) => ReplyView::Html(h@),
            Reply::Redirect(u) => ReplyView::Redirect(u@),
            Reply::BadRequest { error, description } => ReplyView::BadRequest(error@, opt_seq(*description)),
            Reply::ServerError => ReplyView::ServerError,
            Reply::SignedIn { location, cookie } => ReplyView::SignedIn(location@, cookie@),
        }
    }
}

/// `&name=value` for a present value, with spaces written as `%20`.
pub open spec fn opt_query(name: Seq<char>, value: Option<Seq<char>>) -> Seq<char> {
    match value {
        Some(v) => "&"@ + name + "="@ + encode_uri(v),
        None => Seq::empty(),
    }
}

/// The redirect that reports an authorization error to the client.
pub open spec fn error_redirect_url(redirect_uri: Seq<char>, error: Seq<char>, state: Option<Seq<char>>) -> Seq<
    char,
> {
    redirect_uri + "?error="@ + encode_uri(error) + opt_query("state"@, state)
}

/// The redirect that hands an authorization code to the client.
pub open spec fn code_redirect_url(redirect_uri: Seq<char>, code: Seq<char>, state: Option<Seq<char>>) -> Seq<
    char,
> {
    redirect_uri + "?code="@ + encode_uri(code) + opt_query("state"@, state)
}

fn append_opt_query(url: &mut String, name: &str, value: &Option<String>)
    ensures
        final(url)@ == old(url)@ + opt_query(name@, opt_seq(*value)),
{
    match value {
        Some(v) => {
            url.append("&");
            url.append(name);
            url.append("=");
            let e = encode_uri_component(v.as_str());
            url.append(e.as_str());
        },
        None => {
            assert(url@ + Seq::<char>::empty() =~= url@);
        },
    }
}

/// Redirects an authorization error, with the client's state, to its
/// redirect URI.
pub fn authorization_error_redirect(redirect_uri: &str, error: &str, state: &Option<String>) -> (r: Reply)
    ensures
        r@ == ReplyView::Redirect(error_redirect_url(redirect_uri@, error@, opt_seq(*state))),
{
    let mut url = concat(redirect_uri, "?error=");
    let e = encode_uri_component(error);
    url.append(e.as_str());
    append_opt_query(&mut url, "state", state);
    Reply::Redirect(url)
}

/// Answers an authorization error directly, as `400 Bad Request`.
pub fn authorization_error_response(error: &str, description: Option<&str>) -> (r: Reply)
    ensures
        r@ == ReplyView::BadRequest(error@, crate::upstream::opt_str(description)),
{
    Reply::BadRequest {
        error: error.to_owned(),
        description: match description {
            Some(d) => Some(d.to_owned()),
            None => None,
        },
    }
}

/// The redirect that hands `code` and the client's state back to its
/// redirect URI.
pub fn code_redirect(redirect_uri: &str, code: &str, state: &Option<String>) -> (r: Reply)
    ensures
        r@ == ReplyView::Redirect(code_redirect_url(redirect_uri@, code@, opt_seq(*state))),
{
    let mut url = concat(redirect_uri, "?code=");
    let e = encode_uri_component(code);
    url.append(e.as_str());
    append_opt_query(&mut url, "state", state);
    Reply::Redirect(url)
}

// ---------------------------------------------------------------------------
// Scopes and prompts
// ---------------------------------------------------------------------------

/// The index of the first word of `ws` that `allowed` does not list, or the
/// number of words.
pub open spec fn first_unlisted(ws: Seq<Seq<char>>, allowed: Seq<Seq<char>>) -> int
    decreases ws.len(),
{
    if ws.len() == 0 {
        0
    } else if !allowed.contains(ws[0]) {
        0
    } else {
        1 + first_unlisted(ws.drop_first(), allowed)
    }
}

proof fn lemma_first_unlisted(ws: Seq<Seq<char>>, allowed: Seq<Seq<char>>)
    ensures
        0 <= first_unlisted(ws, allowed) <= ws.len(),
        first_unlisted(ws, allowed) < ws.len() ==> !allowed.contains(ws[first_unlisted(ws, allowed)]),
        forall|j: int| 0 <= j < first_unlisted(ws, allowed) ==> allowed.contains(#[trigger] ws[j]),
    decreases ws.len(),
{
    if ws.len() > 0 && allowed.contains(ws[0]) {
        lemma_first_unlisted(ws.drop_first(), allowed);
        assert forall|j: int| 0 <= j < first_unlisted(ws, allowed) implies allowed.contains(#[trigger] ws[j]) by {
            if j > 0 {
                assert(ws[j] == ws.drop_first()[j - 1]);
            }
        }
    }
}

/// The granted scope text for a request, or the `invalid_scope` message.
pub open spec fn scope_outcome(requested: Option<Seq<char>>, allowed: Seq<Seq<char>>) -> Result<
    Option<Seq<char>>,
    Seq<char>,
> {
    match requested {
        Some(s) => {
            let ws = words(s);
            if ws.len() == 0 {
                Err("scope cannot be empty"@)
            } else if first_unlisted(ws, allowed) < ws.len() {
                Err("requested scope '"@ + ws[first_unlisted(ws, allowed)] + "' is not permitted"@)
            } else {
                Ok(Some(join(ws, " "@)))
            }
        },
        None => if allowed.len() == 0 {
            Ok(None)
        } else {
            Ok(Some(join(allowed, " "@)))
        },
    }
}

pub open spec fn scope_result(r: Result<Option<String>, ApiError>) -> Result<Option<Seq<char>>, Seq<char>> {
    match r {
        Ok(s) => Ok(opt_seq(s)),
        Err(e) => match e@ {
            ApiErrorView::InvalidScope(m) => Err(m),
            _ => Err(Seq::empty()),
        },
    }
}

/// The scopes a request is granted: the requested words when the client
/// allows each of them, or every allowed scope when none are requested.
pub fn validate_scopes(requested: Option<&str>, client: &Client) -> (r: Result<Option<String>, ApiError>)
    ensures
        r is Err ==> r->Err_0 is InvalidScope,
        scope_result(r) == scope_outcome(crate::upstream::opt_str(requested), views(client.allowed_scopes@)),
{
    match requested {
        Some(scopes) => {
            let parsed = split_whitespace(scopes);
            if parsed.len() == 0 {
                return Err(ApiError::invalid_scope("scope cannot be empty"));
            }
            proof {
                lemma_first_unlisted(views(parsed@), views(client.allowed_scopes@));
            }
            for i in 0..parsed.len()
                invariant
                    requested == Some(scopes),
                    views(parsed@) == words(scopes@),
                    forall|j: int| 0 <= j < i ==> views(client.allowed_scopes@).contains(#[trigger] views(parsed@)[j]),
                    0 <= first_unlisted(views(parsed@), views(client.allowed_scopes@)) <= parsed@.len(),
                    first_unlisted(views(parsed@), views(client.allowed_scopes@)) < parsed@.len()
                        ==> !views(client.allowed_scopes@).contains(
                        views(parsed@)[first_unlisted(views(parsed@), views(client.allowed_scopes@))],
                    ),
                    forall|j: int|
                        0 <= j < first_unlisted(views(parsed@), views(client.allowed_scopes@))
                            ==> views(client.allowed_scopes@).contains(#[trigger] views(parsed@)[j]),
            {
                assert(views(parsed@)[i as int] == parsed@[i as int]@);
                if !vec_contains(&client.allowed_scopes, parsed[i].as_str()) {
                    proof {
                        let f = first_unlisted(views(parsed@), views(client.allowed_scopes@));
                        if f < i {
                            assert(views(client.allowed_scopes@).contains(views(parsed@)[f]));
                        }
                        if f > i {
                            assert(views(client.allowed_scopes@).contains(views(parsed@)[i as int]));
                        }
                    }
                    let mut message = concat("requested scope '", parsed[i].as_str());
                    message.append("' is not permitted");
                    assert(first_unlisted(views(parsed@), views(client.allowed_scopes@)) == i);
                    return Err(ApiError::InvalidScope(message));
                }
            }
            Ok(Some(join_strings(parsed.as_slice(), " ")))
        },
        None => {
            if client.allowed_scopes.len() == 0 {
                Ok(None)
            } else {
                Ok(Some(join_strings(client.allowed_scopes.as_slice(), " ")))
            }
        },
    }
}

/// Every scope granted for requested scopes is one the client allows.
pub proof fn lemma_granted_scopes_are_allowed(requested: Seq<char>, allowed: Seq<Seq<char>>)
    requires
        scope_outcome(Some(requested), allowed) is Ok,
    ensures
        forall|w: Seq<char>| words(requested).contains(w) ==> allowed.contains(w),
        scope_outcome(Some(requested), allowed) == Ok::<Option<Seq<char>>, Seq<char>>(
            Some(join(words(requested), " "@)),
        ),
{
    let ws = words(requested);
    lemma_first_unlisted(ws, allowed);
    assert forall|w: Seq<char>| ws.contains(w) implies allowed.contains(w) by {
        let j = choose|j: int| 0 <= j < ws.len() && ws[j] == w;
        assert(allowed.contains(ws[j]));
    }
}

/// Whether one of the whitespace-separated words of `text` is `word`.
pub open spec fn has_word(text: Option<Seq<char>>, word: Seq<char>) -> bool {
    match text {
        Some(t) => words(t).contains(word),
        None => false,
    }
}

fn includes_word(text: Option<&str>, word: &str) -> (r: bool)
    ensures
        r == has_word(crate::upstream::opt_str(text), word@),
{
    match text {
        None => false,
        Some(t) => {
            let ws = split_whitespace(t);
            vec_contains(&ws, word)
        },
    }
}

/// Whether the granted scopes include `openid`.
pub fn scope_includes_openid(scope_text: Option<&str>) -> (r: bool)
    ensures
        r == has_word(crate::upstream::opt_str(scope_text), "openid"@),
{
    includes_word(scope_text, "openid")
}

/// Whether the `prompt` parameter asks for a fresh login.
pub fn requests_fresh_authentication(prompt: Option<&str>) -> (r: bool)
    ensures
        r == has_word(crate::upstream::opt_str(prompt), "login"@),
{
    includes_word(prompt, "login")
}

/// The error reported downstream for an upstream authorization error:
/// `access_denied` passes through, anything else is `temporarily_unavailable`.
pub fn map_upstream_authorization_error(error: &str) -> (r: &'static str)
    ensures
        r@ == (if error@ == "access_denied"@ {
            "access_denied"@
        } else {
            "temporarily_unavailable"@
        }),
{
    if str_eq(error, "access_denied") {
        "access_denied"
    } else {
        "temporarily_unavailable"
    }
}

// ---------------------------------------------------------------------------
// The session cookie
// ---------------------------------------------------------------------------

/// The value of the first `session_id` cookie among `;`-separated entries.
pub open spec fn session_cookie(entries: Seq<Seq<char>>) -> Option<Seq<char>>
    decreases entries.len(),
{
    if entries.len() == 0 {
        None
    } else {
        match split_once(trim(entries[0]), '=') {
            Some((k, v)) => if trim(k) == "session_id"@ {
                Some(trim(v))
            } else {
                session_cookie(entries.drop_first())
            },
            None => session_cookie(entries.drop_first()),
        }
    }
}

/// The session id in a `Cookie` header, if it has one.
pub fn extract_session_id(cookie_header: Option<&str>) -> (r: Option<String>)
    ensures
        opt_seq(r) == match cookie_header {
            Some(c) => session_cookie(split_at_char(c@, ';')),
            None => None,
        },
{
    let cookies = match cookie_header {
        Some(c) => c,
        None => return None,
    };
    let entries = split_char(cookies, ';');
    assert(views(entries@).skip(0) =~= views(entries@));
    for i in 0..entries.len()
        invariant
            cookie_header == Some(cookies),
            views(entries@) == split_at_char(cookies@, ';'),
            session_cookie(views(entries@).skip(i as int)) == session_cookie(views(entries@)),
    {
        let ghost rest = views(entries@).skip(i as int);
        proof {
            assert(rest[0] == entries@[i as int]@);
            assert(rest.drop_first() =~= views(entries@).skip(i + 1));
        }
        let trimmed = trim_str(entries[i].as_str());
        match split_once_char(trimmed.as_str(), '=') {
            Some((key, value)) => {
                let k = trim_str(key.as_str());
                if str_eq(k.as_str(), "session_id") {
                    let v = trim_str(value.as_str());
                    assert(split_once(trim(rest[0]), '=') == Some((key@, value@)));
                    assert(session_cookie(rest) == Some(v@));
                    return Some(v);
                }
            },
            None => {},
        }
    }
    assert(views(entries@).skip(entries@.len() as int) =~= Seq::<Seq<char>>::empty());
    None
}

// ---------------------------------------------------------------------------
// Client authentication and PKCE
// ---------------------------------------------------------------------------

pub open spec fn client_result<'a>(r: Result<&'a Client, ApiError>) -> Result<Client, ApiErrorView> {
    match r {
        Ok(c) => Ok(*c),
        Err(e) => Err(e@),
    }
}

/// The client a token request authenticates as: the client with this id,
/// when the secret is its secret; `invalid_client` otherwise.
pub open spec fn client_authentication(clients: Seq<Client>, client_id: Seq<char>, secret: Seq<char>) -> Result<
    Client,
    ApiErrorView,
> {
    match lookup_client(clients, client_id) {
        Some(c) => if c.client_secret@ == secret {
            Ok(c)
        } else {
            Err(ApiErrorView::InvalidClient)
        },
        None => Err(ApiErrorView::InvalidClient),
    }
}

/// Authenticates a client by id and secret, comparing secrets in constant time.
pub fn authenticate_client<'a>(clients: &'a Vec<Client>, client_id: &str, secret: &str) -> (r: Result<
    &'a Client,
    ApiError,
>)
    ensures
        client_result(r) == client_authentication(clients@, client_id@, secret@),
{
    let client = match find_client(clients, client_id) {
        Some(c) => c,
        None => return Err(ApiError::InvalidClient),
    };
    if !constant_time_eq(client.client_secret.as_str(), secret) {
        return Err(ApiError::InvalidClient);
    }
    Ok(client)
}

pub open spec fn unit_api_result(r: Result<(), ApiError>) -> Result<(), ApiErrorView> {
    match r {
        Ok(_) => Ok(()),
        Err(e) => Err(e@),
    }
}

/// What PKCE verification makes of a code's challenge and a token
/// request's verifier.
pub open spec fn pkce_outcome(
    require_pkce: bool,
    challenge: Option<Seq<char>>,
    method: Option<Seq<char>>,
    verifier: Option<Seq<char>>,
) -> Result<(), ApiErrorView> {
    match challenge {
        None => if require_pkce {
            Err(ApiErrorView::InvalidGrant("pkce is required for this client"@))
        } else {
            Ok(())
        },
        Some(expected) => match verifier {
            None => Err(ApiErrorView::InvalidRequest("code_verifier is required"@)),
            Some(v) => {
                let m = match method {
                    Some(m) => m,
                    None => "plain"@,
                };
                let computed = if m == "plain"@ {
                    Some(v)
                } else if m == "S256"@ {
                    Some(s256_challenge(v))
                } else {
                    None
                };
                match computed {
                    None => Err(ApiErrorView::InvalidGrant("unsupported code_challenge_method"@)),
                    Some(c) => if expected == c {
                        Ok(())
                    } else {
                        Err(ApiErrorView::InvalidGrant("pkce verification failed"@))
                    },
                }
            },
        },
    }
}

/// Checks a token request's PKCE verifier against the code's challenge,
/// with the `plain` or `S256` method.
pub fn verify_pkce(
    client: &Client,
    code_challenge: &Option<String>,
    code_challenge_method: &Option<String>,
    code_verifier: Option<&str>,
) -> (r: Result<(), ApiError>)
    ensures
        unit_api_result(r) == pkce_outcome(
            client.require_pkce,
            opt_seq(*code_challenge),
            opt_seq(*code_challenge_method),
            crate::upstream::opt_str(code_verifier),
        ),
{
    let expected = match code_challenge {
        None => {
            if client.require_pkce {
                return Err(ApiError::invalid_grant("pkce is required for this client"));
            }
            return Ok(());
        },
        Some(e) => e,
    };
    let verifier = match code_verifier {
        Some(v) => v,
        None => return Err(ApiError::invalid_request("code_verifier is required")),
    };
    let method = match code_challenge_method {
        Some(m) => m.as_str(),
        None => "plain",
    };
    let computed = if str_eq(method, "plain") {
        verifier.to_owned()
    } else if str_eq(method, "S256") {
        crate::upstream::pkce_challenge(verifier)
    } else {
        return Err(ApiError::invalid_grant("unsupported code_challenge_method"));
    };
    if !constant_time_eq(expected.as_str(), computed.as_str()) {
        return Err(ApiError::invalid_grant("pkce verification failed"));
    }
    Ok(())
}

// ---------------------------------------------------------------------------
// Authorization requests
// ---------------------------------------------------------------------------

/// What the checks of an authorization request make of it: the client and
/// the granted scope text, or the reply that refuses it.
pub open spec fn authorize_check(clients: Seq<Client>, r: AuthorizeView) -> Result<
    (Client, Option<Seq<char>>),
    ReplyView,
> {
    match lookup_client(clients, r.client_id) {
        None => Err(ReplyView::BadRequest("unauthorized_client"@, None)),
        Some(c) => if !views(c.redirect_uris@).contains(r.redirect_uri) {
            Err(ReplyView::BadRequest("invalid_request"@, Some("redirect_uri is not registered for client"@)))
        } else if r.response_type != "code"@ || !views(c.response_types@).contains("code"@) {
            Err(ReplyView::Redirect(error_redirect_url(r.redirect_uri, "unsupported_response_type"@, r.state)))
        } else {
            match scope_outcome(r.scope, views(c.allowed_scopes@)) {
                Err(_) => Err(ReplyView::Redirect(error_redirect_url(r.redirect_uri, "invalid_scope"@, r.state))),
                Ok(scope) => if c.require_pkce && r.code_challenge is None {
                    Err(ReplyView::Redirect(error_redirect_url(r.redirect_uri, "invalid_request"@, r.state)))
                } else if r.code_challenge_method matches Some(m) && m != "plain"@ && m != "S256"@ {
                    Err(ReplyView::Redirect(error_redirect_url(r.redirect_uri, "invalid_request"@, r.state)))
                } else {
                    Ok((c, scope))
                },
            }
        },
    }
}

pub open spec fn authorize_result<'a>(r: Result<(&'a Client, Option<String>), Reply>) -> Result<
    (Client, Option<Seq<char>>),
    ReplyView,
> {
    match r {
        Ok((c, s)) => Ok((*c, opt_seq(s))),
        Err(reply) => Err(reply@),
    }
}

/// Checks an authorization request against the registered client: a known
/// client, a registered redirect URI, the `code` response type, permitted
/// scopes, and the client's PKCE policy.
pub fn validate_authorize_request<'a>(clients: &'a Vec<Client>, request: &AuthorizeRequest) -> (r: Result<
    (&'a Client, Option<String>),
    Reply,
>)
    ensures
        authorize_result(r) == authorize_check(clients@, request@),
{
    let client = match find_client(clients, request.client_id.as_str()) {
        Some(c) => c,
        None => return Err(authorization_error_response("unauthorized_client", None)),
    };
    if !vec_contains(&client.redirect_uris, request.redirect_uri.as_str()) {
        return Err(
            authorization_error_response(
                "invalid_request",
                Some("redirect_uri is not registered for client"),
            ),
        );
    }
    if !str_eq(request.response_type.as_str(), "code") || !vec_contains(&client.response_types, "code") {
        return Err(
            authorization_error_redirect(
                request.redirect_uri.as_str(),
                "unsupported_response_type",
                &request.state,
            ),
        );
    }
    let scope = match validate_scopes(
        match &request.scope {
            Some(s) => Some(s.as_str()),
            None => None,
        },
        client,
    ) {
        Ok(s) => s,
        Err(_) => {
            return Err(
                authorization_error_redirect(request.redirect_uri.as_str(), "invalid_scope", &request.state),
            );
        },
    };
    if client.require_pkce && request.code_challenge.is_none() {
        return Err(
            authorization_error_redirect(request.redirect_uri.as_str(), "invalid_request", &request.state),
        );
    }
    if let Some(method) = &request.code_challenge_method {
        if !str_eq(method.as_str(), "plain") && !str_eq(method.as_str(), "S256") {
            return Err(
                authorization_error_redirect(
                    request.redirect_uri.as_str(),
                    "invalid_request",
                    &request.state,
                ),
            );
        }
    }
    Ok((client, scope))
}

// ---------------------------------------------------------------------------
// Issuing authorization codes
// ---------------------------------------------------------------------------

/// How long an authorization code lives, in seconds.
pub const CODE_TTL_SECONDS: i64 = 120;

/// The downstream request that a validated authorization request becomes.
pub open spec fn downstream_of(r: AuthorizeRequest, scope: Option<String>) -> DownstreamAuthorizationRequest {
    DownstreamAuthorizationRequest {
        client_id: r.client_id,
        redirect_uri: r.redirect_uri,
        scope,
        state: r.state,
        nonce: r.nonce,
        code_challenge: r.code_challenge,
        code_challenge_method: r.code_challenge_method,
    }
}

/// What a code is issued for.
pub open spec fn code_payload(d: DownstreamAuthorizationRequest, user_id: String, ctx: AuthContext) -> NewAuthorizationCode {
    NewAuthorizationCode {
        client_id: d.client_id,
        user_id,
        redirect_uri: d.redirect_uri,
        scope: d.scope,
        nonce: d.nonce,
        code_challenge: d.code_challenge,
        code_challenge_method: d.code_challenge_method,
        auth_context: ctx,
    }
}

/// Issuing `code` at `now` for `d` took the codes from `before` to
/// `after` and answered `reply`: the code redirect, or a server error with
/// nothing stored when the expiry is not representable.
pub open spec fn code_issued(
    before: Map<Seq<char>, AuthorizationCodeRecord>,
    after: Map<Seq<char>, AuthorizationCodeRecord>,
    now: UtcTime,
    code: Seq<char>,
    d: DownstreamAuthorizationRequest,
    user_id: String,
    ctx: AuthContext,
    reply: ReplyView,
) -> bool {
    match now.plus_seconds(CODE_TTL_SECONDS as int) {
        None => reply == ReplyView::ServerError && after == before,
        Some(expires_at) => {
            &&& reply == ReplyView::Redirect(code_redirect_url(d.redirect_uri@, code, opt_seq(d.state)))
            &&& after.contains_key(code)
            &&& code_record_is(after[code], code, code_payload(d, user_id, ctx), expires_at)
            &&& after == before.insert(code, after[code])
        },
    }
}

/// Issues the authorization code `code` for a downstream request and
/// redirects it to the client.
pub fn issue_code_redirect_at(
    store: &mut AuthStore,
    now: UtcTime,
    code: String,
    downstream: DownstreamAuthorizationRequest,
    user_id: String,
    auth_context: AuthContext,
) -> (r: Reply)
    requires
        old(store).wf(),
    ensures
        final(store).wf(),
        final(store).sessions() == old(store).sessions(),
        final(store).pending() == old(store).pending(),
        final(store).consents() == old(store).consents(),
        code_issued(old(store).codes(), final(store).codes(), now, code@, downstream, user_id, auth_context, r@),
{
    let ghost d = downstream;
    let ghost uid = user_id;
    let ghost ctx = auth_context;
    let redirect_uri = downstream.redirect_uri.clone();
    let state = crate::text::clone_opt(&downstream.state);
    let payload = NewAuthorizationCode {
        client_id: downstream.client_id,
        user_id,
        redirect_uri: downstream.redirect_uri,
        scope: downstream.scope,
        nonce: downstream.nonce,
        code_challenge: downstream.code_challenge,
        code_challenge_method: downstream.code_challenge_method,
        auth_context,
    };
    assert(payload == code_payload(d, uid, ctx));
    match store.issue_authorization_code_at(now, code, payload, CODE_TTL_SECONDS) {
        None => Reply::ServerError,
        Some(code) => code_redirect(redirect_uri.as_str(), code.as_str(), &state),
    }
}

// ---------------------------------------------------------------------------
// The authorization endpoint
// ---------------------------------------------------------------------------

/// What an authorization request leads to.
pub enum AuthorizeOutcome<'a> {
    /// The answer to send.
    Reply(Reply),
    /// The client re-authenticates upstream; the request was valid and was
    /// granted this scope text.
    BeginReauth(&'a Client, Option<String>),
}

/// The session id of a cookie header, if any.
pub open spec fn cookie_session(cookie_header: Option<&str>) -> Option<Seq<char>> {
    match cookie_header {
        Some(c) => session_cookie(split_at_char(c@, ';')),
        None => None,
    }
}

/// The session the cookie names at `now`, and the sessions left after the
/// lookup (a lookup drops expired sessions).
pub open spec fn session_lookup(sessions: Map<Seq<char>, Session>, now: UtcTime, cookie_header: Option<&str>) -> (
    Option<Session>,
    Map<Seq<char>, Session>,
) {
    match cookie_session(cookie_header) {
        Some(id) => (live_entry(sessions, now, id), live(sessions, now)),
        None => (None, sessions),
    }
}

pub open spec fn unwrap_or_empty(o: Option<Seq<char>>) -> Seq<char> {
    match o {
        Some(s) => s,
        None => Seq::empty(),
    }
}

pub open spec fn opt_string_view(o: Option<String>) -> Option<Seq<char>> {
    opt_seq(o)
}

/// The login page a provider shows for a return URL.
pub open spec fn provider_login_page(provider: ProviderSettings, return_to: Seq<char>, error: Option<Seq<char>>) -> Seq<
    char,
> {
    login_page_html(provider.name@, return_to, error, opt_seq(provider.login_background_color))
}

fn provider_login(provider: &ProviderSettings, return_to: &str, error: Option<&str>) -> (r: String)
    ensures
        r@ == provider_login_page(*provider, return_to@, crate::frontend::opt_view(error)),
{
    let background = match &provider.login_background_color {
        Some(c) => Some(c.as_str()),
        None => None,
    };
    login_page(provider.name.as_str(), return_to, error, background)
}

/// What `authorize_at` does to the store and answers.
pub open spec fn authorize_spec<'a>(
    before: AuthStore,
    after: AuthStore,
    now: UtcTime,
    code: String,
    provider: ProviderSettings,
    clients: Vec<Client>,
    request: AuthorizeRequest,
    cookie_header: Option<&str>,
    r: AuthorizeOutcome<'a>,
) -> bool {
    &&& after.pending() == before.pending()
    &&& after.consents() == before.consents()
    &&& match authorize_check(clients@, request@) {
        Err(reply) => r matches AuthorizeOutcome::Reply(x) && x@ == reply && after.sessions()
            == before.sessions() && after.codes() == before.codes(),
        Ok((client, scope)) => if client.auth_mode == ClientAuthMode::ReAuth {
            r matches AuthorizeOutcome::BeginReauth(c, s) && *c == client && opt_seq(s) == scope
                && after.sessions() == before.sessions() && after.codes()
                == before.codes()
        } else {
            let (session, sessions) = session_lookup(before.sessions(), now, cookie_header);
            let return_to = authorize_return(request@);
            &&& after.sessions() == sessions
            &&& r matches AuthorizeOutcome::Reply(x)
            &&& match session {
                Some(s) => if has_word(request@.prompt, "login"@) {
                    x@ == ReplyView::Html(provider_login_page(provider, return_to, None))
                        && after.codes() == before.codes()
                } else if client.consent_mode == ConsentMode::Always {
                    x@ == ReplyView::Html(
                        consent_page_html(return_to, request@.client_id, unwrap_or_empty(scope), s.username@),
                    ) && after.codes() == before.codes()
                } else {
                    exists|granted: Option<String>|
                        opt_seq(granted) == scope && code_issued(
                            before.codes(),
                            after.codes(),
                            now,
                            code@,
                            downstream_of(request, granted),
                            s.user_id,
                            AuthContext::Local,
                            x@,
                        )
                },
                None => x@ == ReplyView::Html(provider_login_page(provider, return_to, None))
                    && after.codes() == before.codes(),
            }
        },
    }
}

/// Answers an authorization request for a locally authenticated client at
/// `now`, issuing `code` if a code is issued: with a live session (and no
/// `prompt=login`), the consent page or, when the client skips consent, the
/// code redirect; otherwise the login page.
pub fn authorize_at<'a>(
    store: &mut AuthStore,
    now: UtcTime,
    code: String,
    provider: &ProviderSettings,
    clients: &'a Vec<Client>,
    request: AuthorizeRequest,
    cookie_header: Option<&str>,
) -> (r: AuthorizeOutcome<'a>)
    requires
        old(store).wf(),
    ensures
        final(store).wf(),
        authorize_spec(*old(store), *final(store), now, code, *provider, *clients, request, cookie_header, r),
{
    let (client, scope) = match validate_authorize_request(clients, &request) {
        Ok(v) => v,
        Err(reply) => return AuthorizeOutcome::Reply(reply),
    };
    if client.auth_mode == ClientAuthMode::ReAuth {
        return AuthorizeOutcome::BeginReauth(client, scope);
    }
    let session = match extract_session_id(cookie_header) {
        Some(id) => store.get_session_at(now, id.as_str()),
        None => None,
    };
    let return_to = build_authorize_return(&request);
    let prompt = match &request.prompt {
        Some(p) => Some(p.as_str()),
        None => None,
    };
    let fresh = requests_fresh_authentication(prompt);
    match session {
        Some(s) => {
            if !fresh {
                match client.consent_mode {
                    ConsentMode::Always => {
                        let scope_text = match &scope {
                            Some(t) => t.as_str(),
                            None => "",
                        };
                        proof {
                            reveal_strlit("");
                        }
                        assert(scope_text@ == unwrap_or_empty(opt_seq(scope)));
                        let html = consent_page(
                            return_to.as_str(),
                            request.client_id.as_str(),
                            scope_text,
                            s.username.as_str(),
                        );
                        return AuthorizeOutcome::Reply(Reply::Html(html));
                    },
                    ConsentMode::Skip => {
                        let ghost req = request;
                        let ghost granted = scope;
                        let downstream = DownstreamAuthorizationRequest {
                            client_id: request.client_id,
                            redirect_uri: request.redirect_uri,
                            scope,
                            state: request.state,
                            nonce: request.nonce,
                            code_challenge: request.code_challenge,
                            code_challenge_method: request.code_challenge_method,
                        };
                        assert(downstream == downstream_of(req, granted));
                        let reply = issue_code_redirect_at(store, now, code, downstream, s.user_id, AuthContext::Local);
                        return AuthorizeOutcome::Reply(reply);
                    },
                }
            }
        },
        None => {},
    }
    AuthorizeOutcome::Reply(Reply::Html(provider_login(provider, return_to.as_str(), None)))
}

/// Answers an authorization request now, with a fresh random code.
pub fn authorize<'a>(
    store: &mut AuthStore,
    provider: &ProviderSettings,
    clients: &'a Vec<Client>,
    request: AuthorizeRequest,
    cookie_header: Option<&str>,
) -> (r: AuthorizeOutcome<'a>)
    requires
        old(store).wf(),
    ensures
        final(store).wf(),
        (r matches AuthorizeOutcome::Reply(x) && x@ == ReplyView::ServerError && *final(store) == *old(store)) || (exists|now: UtcTime, code: String|
            code@.len() == 36 && #[trigger] authorize_spec(*old(store), *final(store), now, code, *provider, *clients, request, cookie_header, r)),
{
    let now = match utc_now() {
        Some(t) => t,
        None => return AuthorizeOutcome::Reply(Reply::ServerError),
    };
    let code = match crate::auth::fresh_id() {
        Some(id) => id,
        None => return AuthorizeOutcome::Reply(Reply::ServerError),
    };
    authorize_at(store, now, code, provider, clients, request, cookie_header)
}

// ---------------------------------------------------------------------------
// Login and local consent
// ---------------------------------------------------------------------------

/// How long a browser session lives, in seconds.
pub const SESSION_TTL_SECONDS: i64 = 3600;

/// The session cookie for a session id.
pub open spec fn session_cookie_text(session_id: Seq<char>) -> Seq<char> {
    "session_id="@ + session_id + "; HttpOnly; SameSite=Lax; Path=/; Max-Age=3600"@
}

/// Whether `target` is a path on this server: it starts with one `/` that
/// is not followed by another `/` or a `\\`, so a browser cannot read it as
/// another host.
pub open spec fn local_path(target: Seq<char>) -> bool {
    target.len() > 0 && target[0] == '/' && !(target.len() > 1 && (target[1] == '/' || target[1] == '\\'))
}

/// Decides whether a login may send the browser to `target`.
pub fn is_local_path(target: &str) -> (r: bool)
    ensures
        r == local_path(target@),
{
    let v = str_chars(target);
    v.len() > 0 && v[0] == '/' && !(v.len() > 1 && (v[1] == '/' || v[1] == '\\'))
}

/// The answer to a login whose return address leads off this server.
pub open spec fn off_site_return() -> ReplyView {
    ReplyView::BadRequest("invalid_request"@, Some("return_to must be a path on this server"@))
}

/// What `login_at` does to the store and answers.
pub open spec fn login_spec(
    before: AuthStore,
    after: AuthStore,
    now: UtcTime,
    session_id: String,
    provider: ProviderSettings,
    form: LoginForm,
    user: Option<User>,
    r: Reply,
) -> bool {
    &&& after.codes() == before.codes()
    &&& after.pending() == before.pending()
    &&& after.consents() == before.consents()
    &&& match user {
        None => r@ == ReplyView::Html(provider_login_page(provider, form.return_to@, Some("Invalid credentials"@)))
            && after.sessions() == before.sessions(),
        Some(u) => if !local_path(form.return_to@) {
            r@ == off_site_return() && after.sessions() == before.sessions()
        } else { match now.plus_seconds(SESSION_TTL_SECONDS as int) {
            None => r@ == ReplyView::ServerError && after.sessions() == before.sessions(),
            Some(expires_at) => {
                &&& r@ == ReplyView::SignedIn(form.return_to@, session_cookie_text(session_id@))
                &&& after.sessions().contains_key(session_id@)
                &&& after.sessions() == before.sessions().insert(
                    session_id@,
                    after.sessions()[session_id@],
                )
                &&& after.sessions()[session_id@].user_id@ == u.id@
                &&& after.sessions()[session_id@].username@ == u.username@
                &&& after.sessions()[session_id@].auth_time == now
                &&& after.sessions()[session_id@].expires_at == expires_at
            },
        } },
    }
}

/// Answers the login form at `now`: when the credentials named a user
/// (`user`) and `return_to` is a path on this server, a session with the id
/// `session_id`, its cookie and a redirect back to `return_to`; a return
/// address off this server is refused and starts no session; without a user,
/// the login page with an error.
pub fn login_at(
    store: &mut AuthStore,
    now: UtcTime,
    session_id: String,
    provider: &ProviderSettings,
    form: &LoginForm,
    user: Option<User>,
) -> (r: Reply)
    requires
        old(store).wf(),
    ensures
        final(store).wf(),
        login_spec(*old(store), *final(store), now, session_id, *provider, *form, user, r),
{
    let user = match user {
        Some(u) => u,
        None => {
            return Reply::Html(provider_login(provider, form.return_to.as_str(), Some("Invalid credentials")));
        },
    };
    if !is_local_path(form.return_to.as_str()) {
        return Reply::BadRequest {
            error: "invalid_request".to_owned(),
            description: Some("return_to must be a path on this server".to_owned()),
        };
    }
    let ghost id = session_id@;
    match store.create_session_at(now, session_id, user.id, user.username, SESSION_TTL_SECONDS) {
        None => Reply::ServerError,
        Some(session) => {
            let cookie = crate::text::concat3(
                "session_id=",
                session.session_id.as_str(),
                "; HttpOnly; SameSite=Lax; Path=/; Max-Age=3600",
            );
            Reply::SignedIn { location: form.return_to.clone(), cookie }
        },
    }
}

/// Answers the login form now, with a fresh random session id.
pub fn login(store: &mut AuthStore, provider: &ProviderSettings, form: &LoginForm, user: Option<User>) -> (r: Reply)
    requires
        old(store).wf(),
    ensures
        final(store).wf(),
        (r@ == ReplyView::ServerError && *final(store) == *old(store)) || (exists|now: UtcTime, session_id: String|
            session_id@.len() == 36 && #[trigger] login_spec(*old(store), *final(store), now, session_id, *provider, *form, user, r)),
{
    let now = match utc_now() {
        Some(t) => t,
        None => return Reply::ServerError,
    };
    let session_id = match crate::auth::fresh_id() {
        Some(id) => id,
        None => return Reply::ServerError,
    };
    login_at(store, now, session_id, provider, form, user)
}

/// What `consent_at` does to the store and answers.
pub open spec fn consent_spec(
    before: AuthStore,
    after: AuthStore,
    now: UtcTime,
    code: String,
    clients: Vec<Client>,
    cookie_header: Option<&str>,
    form: ConsentForm,
    r: Reply,
) -> bool {
    &&& after.pending() == before.pending()
    &&& after.consents() == before.consents()
    &&& ({
        let (session, sessions) = session_lookup(before.sessions(), now, cookie_header);
        let request = parse_return(form.return_to@);
        &&& after.sessions() == sessions
        &&& match session {
            None => r@ == ReplyView::Redirect("/authorize"@) && after.codes() == before.codes(),
            Some(s) => match authorize_check(clients@, request) {
                Err(reply) => r@ == reply && after.codes() == before.codes(),
                Ok((_, scope)) => if form.decision@ != "approve"@ {
                    r@ == ReplyView::Redirect(error_redirect_url(request.redirect_uri, "access_denied"@, request.state))
                        && after.codes() == before.codes()
                } else {
                    exists|req: AuthorizeRequest, granted: Option<String>|
                        req@ == request && opt_seq(granted) == scope && code_issued(
                            before.codes(),
                            after.codes(),
                            now,
                            code@,
                            downstream_of(req, granted),
                            s.user_id,
                            AuthContext::Local,
                            r@,
                        )
                },
            },
        }
    })
}

/// Answers the local consent form at `now`, issuing `code` if approved: the
/// session must be live, the carried request valid and the decision
/// `approve`.
pub fn consent_at(
    store: &mut AuthStore,
    now: UtcTime,
    code: String,
    clients: &Vec<Client>,
    cookie_header: Option<&str>,
    form: &ConsentForm,
) -> (r: Reply)
    requires
        old(store).wf(),
    ensures
        final(store).wf(),
        consent_spec(*old(store), *final(store), now, code, *clients, cookie_header, *form, r),
{
    let session_id = match extract_session_id(cookie_header) {
        Some(id) => id,
        None => return Reply::Redirect("/authorize".to_owned()),
    };
    let session = match store.get_session_at(now, session_id.as_str()) {
        Some(s) => s,
        None => return Reply::Redirect("/authorize".to_owned()),
    };
    let request = parse_authorize_return(form.return_to.as_str());
    let scope = match validate_authorize_request(clients, &request) {
        Ok((_, scope)) => scope,
        Err(reply) => return reply,
    };
    if !str_eq(form.decision.as_str(), "approve") {
        return authorization_error_redirect(request.redirect_uri.as_str(), "access_denied", &request.state);
    }
    let ghost req = request;
    let ghost granted = scope;
    let downstream = DownstreamAuthorizationRequest {
        client_id: request.client_id,
        redirect_uri: request.redirect_uri,
        scope,
        state: request.state,
        nonce: request.nonce,
        code_challenge: request.code_challenge,
        code_challenge_method: request.code_challenge_method,
    };
    assert(downstream == downstream_of(req, granted));
    issue_code_redirect_at(store, now, code, downstream, session.user_id, AuthContext::Local)
}

/// Answers the local consent form now, with a fresh random code.
pub fn consent(store: &mut AuthStore, clients: &Vec<Client>, cookie_header: Option<&str>, form: &ConsentForm) -> (r:
    Reply)
    requires
        old(store).wf(),
    ensures
        final(store).wf(),
        (r@ == ReplyView::ServerError && *final(store) == *old(store)) || (exists|now: UtcTime, code: String|
            code@.len() == 36 && #[trigger] consent_spec(*old(store), *final(store), now, code, *clients, cookie_header, *form, r)),
{
    let now = match utc_now() {
        Some(t) => t,
        None => return Reply::ServerError,
    };
    let code = match crate::auth::fresh_id() {
        Some(id) => id,
        None => return Reply::ServerError,
    };
    consent_at(store, now, code, clients, cookie_header, form)
}

// ---------------------------------------------------------------------------
// Re-authentication upstream
// ---------------------------------------------------------------------------

/// How long an upstream re-authentication or a pending consent lives, in seconds.
pub const REAUTH_TTL_SECONDS: i64 = 300;

/// A fresh random token for upstream `state`, `nonce` and PKCE verifiers:
/// 96 lowercase hexadecimal digits from three random UUIDs; `None` when the
/// system's random source fails.
pub fn random_url_safe_token() -> (r: Option<String>)
    ensures
        r matches Some(t) ==> t@.len() == 96 && forall|i: int| 0 <= i < 96 ==> is_lower_hex(#[trigger] t@[i]),
{
    let a = match random_simple_id() {
        Some(t) => t,
        None => return None,
    };
    let b = match random_simple_id() {
        Some(t) => t,
        None => return None,
    };
    let c = match random_simple_id() {
        Some(t) => t,
        None => return None,
    };
    let r = crate::text::concat3(a.as_str(), b.as_str(), c.as_str());
    assert forall|i: int| 0 <= i < 96 implies is_lower_hex(#[trigger] r@[i]) by {
        if i < 32 {
            assert(r@[i] == a@[i]);
        } else if i < 64 {
            assert(r@[i] == b@[i - 32]);
        } else {
            assert(r@[i] == c@[i - 64]);
        }
    }
    Some(r)
}

/// 32 lowercase hexadecimal digits of a fresh random UUID; `None` when the
/// system's random source fails.
fn random_simple_id() -> (r: Option<String>)
    ensures
        r matches Some(t) ==> t@.len() == 32 && forall|i: int| 0 <= i < 32 ==> is_lower_hex(#[trigger] t@[i]),
{
    match crate::bindings::random_bytes(16) {
        Some(bytes) => Some(uuid_simple(bytes.as_slice())),
        None => None,
    }
}

/// The upstream provider a re-authentication client uses, or the error
/// redirect when the client has none or it is not a trusted provider.
pub fn reauth_provider<'p>(client: &Client, providers: &'p Vec<TrustedProviderConfig>, request: &AuthorizeRequest) -> (r:
    Result<&'p TrustedProviderConfig, Reply>)
    ensures
        match client.re_auth {
            Some(ra) => match lookup_provider(providers@, ra.provider_id@) {
                Some(p) => r matches Ok(q) && *q == p,
                None => r matches Err(x) && x@ == ReplyView::Redirect(
                    error_redirect_url(request.redirect_uri@, "server_error"@, opt_seq(request.state)),
                ),
            },
            None => r matches Err(x) && x@ == ReplyView::Redirect(
                error_redirect_url(request.redirect_uri@, "server_error"@, opt_seq(request.state)),
            ),
        },
{
    let re_auth = match &client.re_auth {
        Some(ra) => ra,
        None => {
            return Err(authorization_error_redirect(request.redirect_uri.as_str(), "server_error", &request.state));
        },
    };
    match find_trusted_provider(providers, re_auth.provider_id.as_str()) {
        Some(p) => Ok(p),
        None => Err(authorization_error_redirect(request.redirect_uri.as_str(), "server_error", &request.state)),
    }
}

/// The URL of the upstream authorization request for a re-authentication.
pub open spec fn upstream_url(
    provider: TrustedProviderConfig,
    metadata: DiscoveredOidcProvider,
    scopes: Seq<String>,
    state: Seq<char>,
    nonce: Seq<char>,
    pkce_verifier: Option<Seq<char>>,
    prompt_login: bool,
) -> Option<Seq<char>> {
    url_with_query_pairs(
        metadata.authorization_endpoint@,
        authorization_pairs(
            provider.client_id@,
            provider.redirect_uri@,
            views(scopes),
            state,
            nonce,
            pkce_verifier,
            prompt_login,
        ),
    )
}

/// What `begin_reauth_at` does to the store and answers.
pub open spec fn begin_reauth_spec(
    before: AuthStore,
    after: AuthStore,
    now: UtcTime,
    client: Client,
    provider: TrustedProviderConfig,
    request: AuthorizeRequest,
    scope: Option<String>,
    discovery: Result<DiscoveredOidcProvider, String>,
    upstream_state: String,
    upstream_nonce: String,
    pkce_candidate: String,
    r: Reply,
) -> bool {
    &&& after.sessions() == before.sessions()
    &&& after.codes() == before.codes()
    &&& after.consents() == before.consents()
    &&& ({
        let pkce = if provider.require_pkce {
            Some(pkce_candidate)
        } else {
            None
        };
        let fail = ReplyView::Redirect(
            error_redirect_url(request.redirect_uri@, "server_error"@, opt_seq(request.state)),
        );
        match client.re_auth {
            None => r@ == fail && after.pending() == before.pending(),
            Some(ra) => match discovery {
                Err(_) => r@ == ReplyView::Redirect(
                    error_redirect_url(request.redirect_uri@, "temporarily_unavailable"@, opt_seq(request.state)),
                ) && after.pending() == before.pending(),
                Ok(metadata) => match upstream_url(
                    provider,
                    metadata,
                    ra.upstream_scopes@,
                    upstream_state@,
                    upstream_nonce@,
                    opt_seq(pkce),
                    has_word(request@.prompt, "login"@),
                ) {
                    None => r@ == fail && after.pending() == before.pending(),
                    Some(url) => match now.plus_seconds(REAUTH_TTL_SECONDS as int) {
                        None => r@ == fail && after.pending() == before.pending(),
                        Some(expires_at) => if live(before.pending(), now).contains_key(upstream_state@) {
                            r@ == fail && after.pending() == live(before.pending(), now)
                        } else {
                            &&& r@ == ReplyView::Redirect(url)
                            &&& after.pending().contains_key(upstream_state@)
                            &&& after.pending() == live(before.pending(), now).insert(
                                upstream_state@,
                                after.pending()[upstream_state@],
                            )
                            &&& exists|granted: Option<String>| opt_seq(granted) == opt_seq(scope) && transaction_is(
                                after.pending()[upstream_state@],
                                NewPendingReauthTransaction {
                                    downstream: downstream_of(request, granted),
                                    provider_id: provider.provider_id,
                                    consent: ra.consent,
                                    upstream_state,
                                    upstream_nonce,
                                    pkce_verifier: pkce,
                                    provider_metadata: metadata,
                                },
                                now,
                                expires_at,
                            )
                        },
                    },
                },
            },
        }
    })
}

/// Starts a re-authentication at `now` once the upstream provider was
/// discovered: builds the upstream authorization URL with the given
/// `state`, `nonce` and (when the provider requires PKCE) verifier, records
/// the pending transaction and redirects the browser upstream. A client
/// without re-authentication settings is `server_error` whatever discovery
/// gave; then a failed discovery is `temporarily_unavailable`; any later
/// failure is `server_error`.
pub fn begin_reauth_at(
    store: &mut AuthStore,
    now: UtcTime,
    client: &Client,
    provider: &TrustedProviderConfig,
    request: AuthorizeRequest,
    scope: Option<String>,
    discovery: Result<DiscoveredOidcProvider, String>,
    upstream_state: String,
    upstream_nonce: String,
    pkce_candidate: String,
) -> (r: Reply)
    requires
        old(store).wf(),
    ensures
        final(store).wf(),
        begin_reauth_spec(*old(store), *final(store), now, *client, *provider, request, scope, discovery, upstream_state, upstream_nonce, pkce_candidate, r),
{
    let re_auth = match &client.re_auth {
        Some(ra) => ra,
        None => {
            return authorization_error_redirect(request.redirect_uri.as_str(), "server_error", &request.state);
        },
    };
    let metadata = match discovery {
        Ok(m) => m,
        Err(_) => {
            return authorization_error_redirect(request.redirect_uri.as_str(), "temporarily_unavailable", &request.state);
        },
    };
    let pkce_verifier = if provider.require_pkce {
        Some(pkce_candidate)
    } else {
        None
    };
    let prompt = match &request.prompt {
        Some(p) => Some(p.as_str()),
        None => None,
    };
    let prompt_login = requests_fresh_authentication(prompt);
    let built = build_authorization_url(
        UpstreamAuthorizationRequest {
            provider,
            metadata: &metadata,
            upstream_scopes: re_auth.upstream_scopes.as_slice(),
            state: upstream_state.as_str(),
            nonce: upstream_nonce.as_str(),
            pkce_verifier: match &pkce_verifier {
                Some(v) => Some(v.as_str()),
                None => None,
            },
            prompt_login,
        },
    );
    let url = match built {
        Ok(url) => url,
        Err(_) => {
            return authorization_error_redirect(request.redirect_uri.as_str(), "server_error", &request.state);
        },
    };
    let redirect_uri = request.redirect_uri.clone();
    let state = crate::text::clone_opt(&request.state);
    let ghost req = request;
    let ghost granted = scope;
    let downstream = DownstreamAuthorizationRequest {
        client_id: request.client_id,
        redirect_uri: request.redirect_uri,
        scope,
        state: request.state,
        nonce: request.nonce,
        code_challenge: request.code_challenge,
        code_challenge_method: request.code_challenge_method,
    };
    assert(downstream == downstream_of(req, granted));
    let created = store.create_pending_reauth_at(
        now,
        NewPendingReauthTransaction {
            downstream,
            provider_id: provider.provider_id.clone(),
            consent: re_auth.consent,
            upstream_state,
            upstream_nonce,
            pkce_verifier,
            provider_metadata: metadata,
        },
        REAUTH_TTL_SECONDS,
    );
    if created.is_none() {
        return authorization_error_redirect(redirect_uri.as_str(), "server_error", &state);
    }
    Reply::Redirect(url)
}

/// Starts a re-authentication now, with fresh random `state`, `nonce` and
/// PKCE verifier.
pub fn begin_reauth(
    store: &mut AuthStore,
    client: &Client,
    provider: &TrustedProviderConfig,
    request: AuthorizeRequest,
    scope: Option<String>,
    discovery: Result<DiscoveredOidcProvider, String>,
) -> (r: Reply)
    requires
        old(store).wf(),
    ensures
        final(store).wf(),
        (r@ == ReplyView::ServerError && *final(store) == *old(store)) || (exists|now: UtcTime, upstream_state: String, upstream_nonce: String, pkce_candidate: String|
            upstream_state@.len() == 96 && upstream_nonce@.len() == 96 && pkce_candidate@.len() == 96
                && #[trigger] begin_reauth_spec(*old(store), *final(store), now, *client, *provider, request, scope, discovery, upstream_state, upstream_nonce, pkce_candidate, r)),
{
    let now = match utc_now() {
        Some(t) => t,
        None => return Reply::ServerError,
    };
    let upstream_state = match random_url_safe_token() {
        Some(t) => t,
        None => return Reply::ServerError,
    };
    let upstream_nonce = match random_url_safe_token() {
        Some(t) => t,
        None => return Reply::ServerError,
    };
    let pkce_candidate = match random_url_safe_token() {
        Some(t) => t,
        None => return Reply::ServerError,
    };
    begin_reauth_at(store, now, client, provider, request, scope, discovery, upstream_state, upstream_nonce, pkce_candidate)
}

/// What the first half of an upstream callback makes of it: the pending
/// transaction and the upstream code, or the answer that ends it.
pub open spec fn callback_start(
    pending: Map<Seq<char>, PendingReauthTransaction>,
    now: UtcTime,
    providers: Seq<TrustedProviderConfig>,
    provider_id: Seq<char>,
    callback: ReauthCallbackRequest,
    after: Map<Seq<char>, PendingReauthTransaction>,
    r: Result<(PendingReauthTransaction, String), Reply>,
) -> bool {
    if lookup_provider(providers, provider_id) is None {
        &&& after == pending
        &&& r matches Err(x)
        &&& x@ == ReplyView::BadRequest("invalid_request"@, Some("unknown re-auth provider"@))
    } else {
        match callback.state {
            None => {
                &&& after == pending
                &&& r matches Err(x)
                &&& x@ == ReplyView::BadRequest("invalid_request"@, Some("upstream state is required"@))
            },
            Some(state) => exists|taken: ConsumePendingReauth|
                take_pending_reauth(pending, now, state@, provider_id, after, taken) && match taken {
                    ConsumePendingReauth::NotFound => r matches Err(x) && x@ == ReplyView::BadRequest(
                        "invalid_request"@,
                        Some("upstream state is invalid or expired"@),
                    ),
                    ConsumePendingReauth::ProviderMismatch => r matches Err(x) && x@ == ReplyView::BadRequest(
                        "invalid_request"@,
                        Some("upstream state does not match provider"@),
                    ),
                    ConsumePendingReauth::Found(t) => match callback.error {
                        Some(e) => r matches Err(x) && x@ == ReplyView::Redirect(
                            error_redirect_url(
                                t.downstream.redirect_uri@,
                                if e@ == "access_denied"@ {
                                    "access_denied"@
                                } else {
                                    "temporarily_unavailable"@
                                },
                                opt_seq(t.downstream.state),
                            ),
                        ),
                        None => match callback.code {
                            None => r matches Err(x) && x@ == ReplyView::Redirect(
                                error_redirect_url(t.downstream.redirect_uri@, "server_error"@, opt_seq(t.downstream.state)),
                            ),
                            Some(code) => r matches Ok((tr, c)) && tr == *t && c == code,
                        },
                    },
                },
        }
    }
}

/// What `reauth_callback_start_at` does to the store and answers.
pub open spec fn callback_start_spec(
    before: AuthStore,
    after: AuthStore,
    now: UtcTime,
    providers: Vec<TrustedProviderConfig>,
    provider_id: &str,
    callback: ReauthCallbackRequest,
    r: Result<(PendingReauthTransaction, String), Reply>,
) -> bool {
    &&& after.sessions() == before.sessions()
    &&& after.codes() == before.codes()
    &&& after.consents() == before.consents()
    &&& callback_start(before.pending(), now, providers@, provider_id@, callback, after.pending(), r)
}

/// The first half of an upstream callback at `now`: the provider must be
/// trusted and the `state` must name a live transaction for it, which is
/// taken (a transaction serves one callback). An upstream error is passed
/// on to the client; otherwise the upstream code comes back with the
/// transaction, to be exchanged.
pub fn reauth_callback_start_at(
    store: &mut AuthStore,
    now: UtcTime,
    providers: &Vec<TrustedProviderConfig>,
    provider_id: &str,
    callback: ReauthCallbackRequest,
) -> (r: Result<(PendingReauthTransaction, String), Reply>)
    requires
        old(store).wf(),
    ensures
        final(store).wf(),
        callback_start_spec(*old(store), *final(store), now, *providers, provider_id, callback, r),
{
    if find_trusted_provider(providers, provider_id).is_none() {
        return Err(authorization_error_response("invalid_request", Some("unknown re-auth provider")));
    }
    let upstream_state = match &callback.state {
        Some(s) => s,
        None => return Err(authorization_error_response("invalid_request", Some("upstream state is required"))),
    };
    let taken = store.consume_pending_reauth_at(now, upstream_state.as_str(), provider_id);
    let ghost t0 = taken;
    let transaction = match taken {
        ConsumePendingReauth::Found(t) => *t,
        ConsumePendingReauth::NotFound => {
            return Err(authorization_error_response("invalid_request", Some("upstream state is invalid or expired")));
        },
        ConsumePendingReauth::ProviderMismatch => {
            return Err(authorization_error_response("invalid_request", Some("upstream state does not match provider")));
        },
    };
    if let Some(error) = &callback.error {
        let mapped = map_upstream_authorization_error(error.as_str());
        return Err(
            authorization_error_redirect(
                transaction.downstream.redirect_uri.as_str(),
                mapped,
                &transaction.downstream.state,
            ),
        );
    }
    match callback.code {
        None => Err(
            authorization_error_redirect(
                transaction.downstream.redirect_uri.as_str(),
                "server_error",
                &transaction.downstream.state,
            ),
        ),
        Some(code) => Ok((transaction, code)),
    }
}

/// The local subject of an upstream account: `{provider_id}:{subject}`.
pub open spec fn reauth_subject(provider_id: Seq<char>, subject: Seq<char>) -> Seq<char> {
    provider_id + ":"@ + subject
}

/// Upstream accounts map to distinct local subjects: for provider ids
/// without `:` (which configuration loading enforces), the provider id and
/// the upstream subject are recovered from the local subject.
pub proof fn lemma_reauth_subject_injective(p1: Seq<char>, s1: Seq<char>, p2: Seq<char>, s2: Seq<char>)
    requires
        !p1.contains(':'),
        !p2.contains(':'),
        reauth_subject(p1, s1) == reauth_subject(p2, s2),
    ensures
        p1 == p2,
        s1 == s2,
{
    reveal_strlit(":");
    let x = reauth_subject(p1, s1);
    assert(x[p1.len() as int] == ':');
    assert(x == reauth_subject(p2, s2));
    assert(x[p2.len() as int] == ':');
    if p1.len() < p2.len() {
        assert(x[p1.len() as int] == p2[p1.len() as int]);
        assert(p2.contains(':'));
    }
    if p2.len() < p1.len() {
        assert(x[p2.len() as int] == p1[p2.len() as int]);
        assert(p1.contains(':'));
    }
    assert(p1.len() == p2.len());
    assert(p1 =~= x.take(p1.len() as int));
    assert(p2 =~= x.take(p2.len() as int));
    assert(s1 =~= x.skip(p1.len() as int + 1));
    assert(s2 =~= x.skip(p2.len() as int + 1));
}

/// The local user id and authentication context of an upstream identity.
pub open spec fn reauth_identity(user_id: String, ctx: AuthContext, provider_id: Seq<char>, id: ValidatedUpstreamIdentity) -> bool {
    &&& user_id@ == reauth_subject(provider_id, id.subject@)
    &&& ctx matches AuthContext::ReAuth { provider_id: p, upstream_issuer: iss }
    &&& p@ == provider_id
    &&& iss == id.issuer
}

/// The registered client alone decides how a user authenticates: an
/// authorization request starts upstream re-authentication exactly when it
/// is valid and its client is registered for re-authentication; a request
/// that fails validation (an unregistered redirect URI among them) never
/// starts it.
pub proof fn lemma_registered_mode_decides<'a>(
    before: AuthStore,
    after: AuthStore,
    now: UtcTime,
    code: String,
    provider: ProviderSettings,
    clients: Vec<Client>,
    request: AuthorizeRequest,
    cookie_header: Option<&str>,
    r: AuthorizeOutcome<'a>,
)
    requires
        authorize_spec(before, after, now, code, provider, clients, request, cookie_header, r),
    ensures
        (r is BeginReauth) == (authorize_check(clients@, request@) matches Ok((c, _)) && c.auth_mode
            == ClientAuthMode::ReAuth),
        r is BeginReauth ==> authorize_check(clients@, request@) is Ok,
{
}

/// An upstream callback redirects the browser only to the redirect URI of a
/// downstream request that was validated and stored before: never to an
/// address the callback itself carries.
pub proof fn lemma_callback_redirects_to_stored_request(
    pending: Map<Seq<char>, PendingReauthTransaction>,
    now: UtcTime,
    providers: Seq<TrustedProviderConfig>,
    provider_id: Seq<char>,
    callback: ReauthCallbackRequest,
    after: Map<Seq<char>, PendingReauthTransaction>,
    r: Result<(PendingReauthTransaction, String), Reply>,
    url: Seq<char>,
)
    requires
        callback_start(pending, now, providers, provider_id, callback, after, r),
        r matches Err(x) && x@ == ReplyView::Redirect(url),
    ensures
        exists|k: Seq<char>, error: Seq<char>|
            pending.contains_key(k) && url == #[trigger] error_redirect_url(
                pending[k].downstream.redirect_uri@,
                error,
                opt_seq(pending[k].downstream.state),
            ),
{
    let state = callback.state.unwrap();
    let taken = choose|taken: ConsumePendingReauth|
        take_pending_reauth(pending, now, state@, provider_id, after, taken) && match taken {
            ConsumePendingReauth::NotFound => r matches Err(x) && x@ == ReplyView::BadRequest(
                "invalid_request"@,
                Some("upstream state is invalid or expired"@),
            ),
            ConsumePendingReauth::ProviderMismatch => r matches Err(x) && x@ == ReplyView::BadRequest(
                "invalid_request"@,
                Some("upstream state does not match provider"@),
            ),
            ConsumePendingReauth::Found(t) => match callback.error {
                Some(e) => r matches Err(x) && x@ == ReplyView::Redirect(
                    error_redirect_url(
                        t.downstream.redirect_uri@,
                        if e@ == "access_denied"@ {
                            "access_denied"@
                        } else {
                            "temporarily_unavailable"@
                        },
                        opt_seq(t.downstream.state),
                    ),
                ),
                None => match callback.code {
                    None => r matches Err(x) && x@ == ReplyView::Redirect(
                        error_redirect_url(t.downstream.redirect_uri@, "server_error"@, opt_seq(t.downstream.state)),
                    ),
                    Some(code) => r matches Ok((tr, c)) && tr == *t && c == code,
                },
            },
        };
    match taken {
        ConsumePendingReauth::Found(t) => {
            assert(live(pending, now).contains_key(state@));
            assert(pending.contains_key(state@));
            assert(*t == pending[state@]);
            match callback.error {
                Some(e) => {
                    let error = if e@ == "access_denied"@ {
                        "access_denied"@
                    } else {
                        "temporarily_unavailable"@
                    };
                    assert(url == error_redirect_url(pending[state@].downstream.redirect_uri@, error, opt_seq(pending[state@].downstream.state)));
                },
                None => {
                    assert(url == error_redirect_url(pending[state@].downstream.redirect_uri@, "server_error"@, opt_seq(pending[state@].downstream.state)));
                },
            }
        },
        _ => {},
    }
}

/// What `reauth_callback_finish_at` does to the store and answers.
pub open spec fn callback_finish_spec(
    before: AuthStore,
    after: AuthStore,
    now: UtcTime,
    transaction_id: String,
    code: String,
    provider_id: &str,
    transaction: PendingReauthTransaction,
    identity: Result<ValidatedUpstreamIdentity, String>,
    r: Reply,
) -> bool {
    &&& after.sessions() == before.sessions()
    &&& after.pending() == before.pending()
    &&& match identity {
        Err(_) => r@ == ReplyView::Redirect(
            error_redirect_url(
                transaction.downstream.redirect_uri@,
                "server_error"@,
                opt_seq(transaction.downstream.state),
            ),
        ) && after.codes() == before.codes() && after.consents() == before.consents(),
        Ok(id) => match transaction.consent {
            ReAuthConsent::Local => after.codes() == before.codes() && match now.plus_seconds(
                REAUTH_TTL_SECONDS as int,
            ) {
                None => r@ == ReplyView::BadRequest("server_error"@, None) && after.consents()
                    == before.consents(),
                Some(expires_at) => {
                    &&& r@ == ReplyView::Redirect("/reauth/consent/"@ + transaction_id@)
                    &&& after.consents().contains_key(transaction_id@)
                    &&& after.consents() == live(before.consents(), now).insert(
                        transaction_id@,
                        after.consents()[transaction_id@],
                    )
                    &&& exists|user_id: String, ctx: AuthContext|
                        #![trigger consent_is(after.consents()[transaction_id@], transaction_id@, NewPendingReauthConsent { downstream: transaction.downstream, user_id, auth_context: ctx }, expires_at)]
                        reauth_identity(user_id, ctx, provider_id@, id) && consent_is(
                            after.consents()[transaction_id@],
                            transaction_id@,
                            NewPendingReauthConsent { downstream: transaction.downstream, user_id, auth_context: ctx },
                            expires_at,
                        )
                },
            },
            ReAuthConsent::Skip => after.consents() == before.consents() && exists|
                user_id: String,
                ctx: AuthContext,
            |
                #![trigger code_issued(before.codes(), after.codes(), now, code@, transaction.downstream, user_id, ctx, r@)]
                reauth_identity(user_id, ctx, provider_id@, id) && code_issued(
                    before.codes(),
                    after.codes(),
                    now,
                    code@,
                    transaction.downstream,
                    user_id,
                    ctx,
                    r@,
                ),
        },
    }
}

/// The second half of an upstream callback at `now`, once the code was
/// exchanged and the ID token validated (`identity`; an error there is
/// `server_error`). The local subject is `{provider_id}:{upstream subject}`.
/// With local consent the identity waits under `transaction_id` and the
/// browser goes to the consent page; when the client skips consent, `code`
/// is issued at once.
pub fn reauth_callback_finish_at(
    store: &mut AuthStore,
    now: UtcTime,
    transaction_id: String,
    code: String,
    provider_id: &str,
    transaction: PendingReauthTransaction,
    identity: Result<ValidatedUpstreamIdentity, String>,
) -> (r: Reply)
    requires
        old(store).wf(),
    ensures
        final(store).wf(),
        callback_finish_spec(*old(store), *final(store), now, transaction_id, code, provider_id, transaction, identity, r),
{
    let identity = match identity {
        Ok(id) => id,
        Err(_) => {
            return authorization_error_redirect(
                transaction.downstream.redirect_uri.as_str(),
                "server_error",
                &transaction.downstream.state,
            );
        },
    };
    let user_id = crate::text::concat3(provider_id, ":", identity.subject.as_str());
    let auth_context = AuthContext::ReAuth { provider_id: provider_id.to_owned(), upstream_issuer: identity.issuer };
    match transaction.consent {
        ReAuthConsent::Skip => {
            issue_code_redirect_at(store, now, code, transaction.downstream, user_id, auth_context)
        },
        ReAuthConsent::Local => {
            let created = store.create_pending_reauth_consent_at(
                now,
                transaction_id,
                NewPendingReauthConsent { downstream: transaction.downstream, user_id, auth_context },
                REAUTH_TTL_SECONDS,
            );
            match created {
                None => authorization_error_response("server_error", None),
                Some(id) => Reply::Redirect(concat("/reauth/consent/", id.as_str())),
            }
        },
    }
}

/// The second half of an upstream callback, now, with fresh random ids.
pub fn reauth_callback_finish(
    store: &mut AuthStore,
    provider_id: &str,
    transaction: PendingReauthTransaction,
    identity: Result<ValidatedUpstreamIdentity, String>,
) -> (r: Reply)
    requires
        old(store).wf(),
    ensures
        final(store).wf(),
        (r@ == ReplyView::ServerError && *final(store) == *old(store)) || (exists|now: UtcTime, transaction_id: String, code: String|
            transaction_id@.len() == 36 && code@.len() == 36
                && #[trigger] callback_finish_spec(*old(store), *final(store), now, transaction_id, code, provider_id, transaction, identity, r)),
{
    let now = match utc_now() {
        Some(t) => t,
        None => return Reply::ServerError,
    };
    let transaction_id = match crate::auth::fresh_id() {
        Some(id) => id,
        None => return Reply::ServerError,
    };
    let code = match crate::auth::fresh_id() {
        Some(id) => id,
        None => return Reply::ServerError,
    };
    reauth_callback_finish_at(store, now, transaction_id, code, provider_id, transaction, identity)
}

/// The first half of an upstream callback, now.
pub fn reauth_callback_start(
    store: &mut AuthStore,
    providers: &Vec<TrustedProviderConfig>,
    provider_id: &str,
    callback: ReauthCallbackRequest,
) -> (r: Result<(PendingReauthTransaction, String), Reply>)
    requires
        old(store).wf(),
    ensures
        final(store).wf(),
        (r matches Err(x) && x@ == ReplyView::ServerError && *final(store) == *old(store)) || (exists|now: UtcTime| #[trigger] callback_start_spec(*old(store), *final(store), now, *providers, provider_id, callback, r)),
{
    let now = match utc_now() {
        Some(t) => t,
        None => return Err(Reply::ServerError),
    };
    reauth_callback_start_at(store, now, providers, provider_id, callback)
}

/// What `reauth_consent_page_at` does to the store and answers.
pub open spec fn reauth_consent_page_spec(
    before: AuthStore,
    after: AuthStore,
    now: UtcTime,
    transaction_id: &str,
    r: Reply,
) -> bool {
    &&& after.sessions() == before.sessions()
    &&& after.codes() == before.codes()
    &&& after.pending() == before.pending()
    &&& after.consents() == live(before.consents(), now)
    &&& match live_entry(before.consents(), now, transaction_id@) {
        None => r@ == ReplyView::BadRequest("invalid_request"@, Some("re-auth consent is invalid or expired"@)),
        Some(t) => r@ == ReplyView::Html(
            reauth_consent_page_html(
                t.transaction_id@,
                t.downstream.client_id@,
                unwrap_or_empty(opt_seq(t.downstream.scope)),
                t.user_id@,
            ),
        ),
    }
}

/// The re-auth consent page for a live pending consent at `now`.
pub fn reauth_consent_page_at(store: &mut AuthStore, now: UtcTime, transaction_id: &str) -> (r: Reply)
    requires
        old(store).wf(),
    ensures
        final(store).wf(),
        reauth_consent_page_spec(*old(store), *final(store), now, transaction_id, r),
{
    let transaction = match store.get_pending_reauth_consent_at(now, transaction_id) {
        Some(t) => t,
        None => {
            return authorization_error_response("invalid_request", Some("re-auth consent is invalid or expired"));
        },
    };
    let scope = match &transaction.downstream.scope {
        Some(s) => s.as_str(),
        None => "",
    };
    proof {
        reveal_strlit("");
    }
    assert(scope@ == unwrap_or_empty(opt_seq(transaction.downstream.scope)));
    Reply::Html(
        crate::frontend::reauth_consent_page(
            transaction.transaction_id.as_str(),
            transaction.downstream.client_id.as_str(),
            scope,
            transaction.user_id.as_str(),
        ),
    )
}

/// What `reauth_consent_at` does to the store and answers.
pub open spec fn reauth_consent_spec(
    before: AuthStore,
    after: AuthStore,
    now: UtcTime,
    code: String,
    form: ReauthConsentForm,
    r: Reply,
) -> bool {
    &&& after.sessions() == before.sessions()
    &&& after.pending() == before.pending()
    &&& after.consents() == live(before.consents(), now).remove(form.transaction_id@)
    &&& match live_entry(before.consents(), now, form.transaction_id@) {
        None => r@ == ReplyView::BadRequest("invalid_request"@, Some("re-auth consent is invalid or expired"@))
            && after.codes() == before.codes(),
        Some(t) => if form.decision@ != "approve"@ {
            r@ == ReplyView::Redirect(
                error_redirect_url(t.downstream.redirect_uri@, "access_denied"@, opt_seq(t.downstream.state)),
            ) && after.codes() == before.codes()
        } else {
            code_issued(before.codes(), after.codes(), now, code@, t.downstream, t.user_id, t.auth_context, r@)
        },
    }
}

/// Answers the re-auth consent form at `now`, issuing `code` if approved.
/// The pending consent is taken, so it answers one decision only.
pub fn reauth_consent_at(store: &mut AuthStore, now: UtcTime, code: String, form: &ReauthConsentForm) -> (r: Reply)
    requires
        old(store).wf(),
    ensures
        final(store).wf(),
        reauth_consent_spec(*old(store), *final(store), now, code, *form, r),
{
    let transaction = match store.consume_pending_reauth_consent_at(now, form.transaction_id.as_str()) {
        Some(t) => t,
        None => {
            return authorization_error_response("invalid_request", Some("re-auth consent is invalid or expired"));
        },
    };
    if !str_eq(form.decision.as_str(), "approve") {
        return authorization_error_redirect(
            transaction.downstream.redirect_uri.as_str(),
            "access_denied",
            &transaction.downstream.state,
        );
    }
    issue_code_redirect_at(store, now, code, transaction.downstream, transaction.user_id, transaction.auth_context)
}

/// Shows the re-auth consent page for a live pending consent, now.
pub fn reauth_consent_page(store: &mut AuthStore, transaction_id: &str) -> (r: Reply)
    requires
        old(store).wf(),
    ensures
        final(store).wf(),
        (r@ == ReplyView::ServerError && *final(store) == *old(store)) || (exists|now: UtcTime| #[trigger] reauth_consent_page_spec(*old(store), *final(store), now, transaction_id, r)),
{
    let now = match utc_now() {
        Some(t) => t,
        None => return Reply::ServerError,
    };
    reauth_consent_page_at(store, now, transaction_id)
}

/// Answers the re-auth consent form now, with a fresh code.
pub fn reauth_consent(store: &mut AuthStore, form: &ReauthConsentForm) -> (r: Reply)
    requires
        old(store).wf(),
    ensures
        final(store).wf(),
        (r@ == ReplyView::ServerError && *final(store) == *old(store)) || (exists|now: UtcTime, code: String|
            code@.len() == 36 && #[trigger] reauth_consent_spec(*old(store), *final(store), now, code, *form, r)),
{
    let now = match utc_now() {
        Some(t) => t,
        None => return Reply::ServerError,
    };
    let code = match crate::auth::fresh_id() {
        Some(id) => id,
        None => return Reply::ServerError,
    };
    reauth_consent_at(store, now, code, form)
}

// ---------------------------------------------------------------------------
// The token endpoint
// ---------------------------------------------------------------------------

/// The claims of an ID token, in this order: `iss`, `sub`, `aud`, `iat`,
/// `exp`, and `nonce` when the authorization request had one.
pub open spec fn id_token_claims(
    issuer: Seq<char>,
    subject: Seq<char>,
    audience: Seq<char>,
    issued_at: i64,
    expires_at: i64,
    nonce: Option<Seq<char>>,
) -> JsonView {
    JsonView::Object(
        seq![
            ("iss"@, JsonView::Str(issuer)),
            ("sub"@, JsonView::Str(subject)),
            ("aud"@, JsonView::Str(audience)),
            ("iat"@, JsonView::Number(int_text(issued_at as int))),
            ("exp"@, JsonView::Number(int_text(expires_at as int))),
        ] + match nonce {
            Some(n) => seq![("nonce"@, JsonView::Str(n))],
            None => Seq::empty(),
        },
    )
}

fn member(name: &str, value: JsonValue) -> (r: (String, JsonValue))
    ensures
        r.0@ == name@,
        r.1 == value,
{
    (name.to_owned(), value)
}

fn id_token_value(issuer: &str, subject: &str, audience: &str, issued_at: i64, expires_at: i64, nonce: Option<&str>) -> (r:
    JsonValue)
    ensures
        r@ == id_token_claims(
            issuer@,
            subject@,
            audience@,
            issued_at,
            expires_at,
            crate::upstream::opt_str(nonce),
        ),
{
    let mut members: Vec<(String, JsonValue)> = Vec::new();
    members.push(member("iss", JsonValue::String(issuer.to_owned())));
    members.push(member("sub", JsonValue::String(subject.to_owned())));
    members.push(member("aud", JsonValue::String(audience.to_owned())));
    members.push(member("iat", JsonValue::Number(crate::token::i64_text(issued_at))));
    members.push(member("exp", JsonValue::Number(crate::token::i64_text(expires_at))));
    if let Some(n) = nonce {
        members.push(member("nonce", JsonValue::String(n.to_owned())));
    }
    let ghost m = members@;
    proof {
        crate::json::lemma_view_members_index(m);
        crate::json::lemma_view_members_len(m);
        let expected = match id_token_claims(
            issuer@,
            subject@,
            audience@,
            issued_at,
            expires_at,
            crate::upstream::opt_str(nonce),
        ) {
            JsonView::Object(ms) => ms,
            _ => Seq::empty(),
        };
        assert(crate::json::view_members(m) =~= expected);
    }
    JsonValue::Object(members)
}

/// A compact JWS over `claims`, signed by `key`.
pub open spec fn signed_by(token: Seq<char>, key: KeyMaterial, claims: JsonView) -> bool {
    crate::crypto::signed_token_is(token, jws_signing_input(jws_header(key.algorithm, key.kid@), claims), key)
}

/// Signs the ID token of a code exchange.
pub fn build_id_token(
    provider: &ProviderSettings,
    client: &Client,
    subject: &str,
    nonce: Option<&str>,
    issued_at: UtcTime,
    expires_at: UtcTime,
    key: &KeyMaterial,
) -> (r: Result<String, String>)
    ensures
        match r {
            Ok(t) => signed_by(
                t@,
                *key,
                id_token_claims(
                    provider.issuer@,
                    subject@,
                    client.client_id@,
                    issued_at.secs,
                    expires_at.secs,
                    crate::upstream::opt_str(nonce),
                ),
            ),
            Err(_) => true,
        },
{
    let claims = id_token_value(
        provider.issuer.as_str(),
        subject,
        client.client_id.as_str(),
        issued_at.timestamp(),
        expires_at.timestamp(),
        nonce,
    );
    sign_claims(key, &claims)
}

/// The lifetime of a client's tokens: its own, or the provider's.
pub open spec fn effective_ttl(client: Client, provider: ProviderSettings) -> u64 {
    match client.token_ttl_seconds {
        Some(t) => t,
        None => provider.token_ttl_seconds,
    }
}

/// The algorithm a client's tokens are signed with: its own, or the provider's.
pub open spec fn effective_algorithm(client: Client, provider: ProviderSettings) -> crate::config::SigningAlgorithm {
    match client.signing_algorithm {
        Some(a) => a,
        None => provider.signing_algorithm,
    }
}

/// The placeholder values of a token.
pub open spec fn token_context(
    client: Client,
    scope: Option<Seq<char>>,
    subject: Seq<char>,
    issued_at: i64,
    expires_at: i64,
    jti: Seq<char>,
) -> ContextView {
    ContextView {
        client_id: client.client_id@,
        scope,
        subject,
        issued_at,
        expires_at,
        audience: opt_seq(client.audience),
        uuid: jti,
        metadata: crate::json::view_members(client.metadata@),
    }
}

/// What issuing a token at `now` with the token id `jti` answers.
pub open spec fn token_issued(
    r: Result<TokenResponse, ApiError>,
    now: UtcTime,
    jti: Seq<char>,
    provider: ProviderSettings,
    template: TokenTemplate,
    keys: SigningKeys,
    client: Client,
    scope: Option<String>,
    subject: Seq<char>,
    nonce: Option<Seq<char>>,
    include_id_token: bool,
) -> bool {
    let ttl = effective_ttl(client, provider);
    if ttl == 0 {
        r matches Err(e) && e@ == ApiErrorView::Internal("invalid token ttl configuration"@)
    } else {
        match now.plus_seconds(ttl as i64 as int) {
            None => r matches Err(e) && e@ == ApiErrorView::Internal("ttl overflow"@),
            Some(expires_at) => {
                let alg = effective_algorithm(client, provider);
                let ctx = token_context(client, opt_seq(scope), subject, now.secs, expires_at.secs, jti);
                if !has_key_for(keys.keys(), alg) {
                    r matches Err(e) && e@ == ApiErrorView::Internal(
                        "no signing key is loaded for the client's algorithm"@,
                    )
                } else { match rendered_claims(template.template@, ctx) {
                    Err(m) => r matches Err(e) && e@ == ApiErrorView::Internal(m),
                    Ok(_) => match r {
                    // A signing failure.
                    Err(e) => e is Internal,
                    Ok(resp) => {
                        &&& resp.token_type@ == "Bearer"@
                        &&& resp.expires_in == ttl
                        &&& resp.scope == scope
                        &&& exists|k: KeyMaterial, claims: JsonView|
                            #![trigger signed_by(resp.access_token@, k, claims)]
                            keys.keys().contains(k) && k.algorithm == alg && render(template.template@, ctx)
                                == Ok::<JsonView, Seq<char>>(claims) && claims_problem(claims) is None && signed_by(
                                resp.access_token@,
                                k,
                                claims,
                            ) && (include_id_token <==> resp.id_token is Some) && (resp.id_token matches Some(
                                t,
                            ) ==> signed_by(
                                t@,
                                k,
                                id_token_claims(
                                    provider.issuer@,
                                    subject,
                                    client.client_id@,
                                    now.secs,
                                    expires_at.secs,
                                    nonce,
                                ),
                            ))
                    },
                } } }
            },
        }
    }
}

/// Whether some key of `keys` signs with `alg`.
pub open spec fn has_key_for(keys: Seq<KeyMaterial>, alg: crate::config::SigningAlgorithm) -> bool {
    exists|i: int| 0 <= i < keys.len() && (#[trigger] keys[i]).algorithm == alg
}

/// The claims a template renders to in a context, once the required claims
/// were checked; or why it cannot.
pub open spec fn rendered_claims(template: JsonView, ctx: ContextView) -> Result<JsonView, Seq<char>> {
    match render(template, ctx) {
        Err(m) => Err(m),
        Ok(v) => match claims_problem(v) {
            Some(p) => Err(p),
            None => Ok(v),
        },
    }
}

/// The token response once signing is done: the access token and, when one
/// was asked for, the ID token; the first signing failure is an internal
/// error.
pub fn token_response(
    access_token: Result<String, String>,
    id_token: Option<Result<String, String>>,
    ttl: u64,
    scope: Option<String>,
) -> (r: Result<TokenResponse, ApiError>)
    ensures
        match access_token {
            Err(m) => r matches Err(e) && e@ == ApiErrorView::Internal(m@),
            Ok(a) => match id_token {
                Some(Err(m)) => r matches Err(e) && e@ == ApiErrorView::Internal(m@),
                _ => r matches Ok(resp) && resp.access_token == a && resp.token_type@ == "Bearer"@
                    && resp.expires_in == ttl && resp.scope == scope && resp.id_token == match id_token {
                    Some(Ok(t)) => Some(t),
                    _ => None::<String>,
                },
            },
        },
{
    let access_token = match access_token {
        Ok(a) => a,
        Err(m) => return Err(ApiError::Internal(m)),
    };
    let id_token = match id_token {
        Some(Ok(t)) => Some(t),
        Some(Err(m)) => return Err(ApiError::Internal(m)),
        None => None,
    };
    Ok(TokenResponse { access_token, token_type: "Bearer".to_owned(), expires_in: ttl, id_token, scope })
}

/// Whether the token lifetime of a client fits a signed duration.
pub open spec fn ttl_in_range(client: Client, provider: ProviderSettings) -> bool {
    -MAX_DELTA_SECONDS <= (effective_ttl(client, provider) as i64) <= MAX_DELTA_SECONDS
}

/// Issues a token at `now` with the token id `jti`: the access token from
/// the template, signed with the client's algorithm, and the ID token when
/// asked for.
pub fn issue_token_at(
    now: UtcTime,
    jti: &str,
    provider: &ProviderSettings,
    template: &TokenTemplate,
    keys: &SigningKeys,
    client: &Client,
    scope_text: Option<String>,
    subject: &str,
    nonce: Option<&str>,
    include_id_token: bool,
) -> (r: Result<TokenResponse, ApiError>)
    requires
        ttl_in_range(*client, *provider),
    ensures
        token_issued(
            r,
            now,
            jti@,
            *provider,
            *template,
            *keys,
            *client,
            scope_text,
            subject@,
            crate::upstream::opt_str(nonce),
            include_id_token,
        ),
{
    let ttl = match client.token_ttl_seconds {
        Some(t) => t,
        None => provider.token_ttl_seconds,
    };
    if ttl == 0 {
        return Err(ApiError::internal("invalid token ttl configuration"));
    }
    let delta = ttl as i64;
    let expires_at = match now.checked_add_seconds(delta) {
        Some(t) => t,
        None => return Err(ApiError::internal("ttl overflow")),
    };
    let algorithm = match client.signing_algorithm {
        Some(a) => a,
        None => provider.signing_algorithm,
    };
    let key = match keys.get(algorithm) {
        Some(k) => k,
        None => return Err(ApiError::internal("no signing key is loaded for the client's algorithm")),
    };
    let context = TokenContext {
        client,
        scope: match &scope_text {
            Some(s) => Some(s.as_str()),
            None => None,
        },
        subject,
        issued_at: now.timestamp(),
        expires_at: expires_at.timestamp(),
        audience: match &client.audience {
            Some(a) => Some(a.as_str()),
            None => None,
        },
        uuid: jti,
    };
    let claims = match template.render(&context) {
        Ok(c) => c,
        Err(e) => return Err(ApiError::Internal(e)),
    };
    let access_token = sign_claims(key, &claims);
    let id_token = if include_id_token && access_token.is_ok() {
        Some(build_id_token(provider, client, subject, nonce, now, expires_at, key))
    } else {
        None
    };
    let ghost a = access_token;
    let r = token_response(access_token, id_token, ttl, scope_text);
    proof {
        if r is Ok {
            assert(signed_by(r->Ok_0.access_token@, *key, claims@));
        }
    }
    r
}

pub open spec fn err_view(r: Result<TokenResponse, ApiError>) -> Option<ApiErrorView> {
    match r {
        Ok(_) => None,
        Err(e) => Some(e@),
    }
}

/// Whether the client a token request names, if it exists, has a token
/// lifetime that fits a signed duration.
pub open spec fn request_ttl_in_range(clients: Seq<Client>, provider: ProviderSettings, request: TokenRequest) -> bool {
    match request.client_id {
        Some(id) => match crate::config::lookup_client(clients, id@) {
            Some(c) => ttl_in_range(c, provider),
            None => true,
        },
        None => true,
    }
}

/// Checks `request_ttl_in_range` before a token request is answered.
pub fn request_ttl_fits(clients: &Vec<Client>, provider: &ProviderSettings, request: &TokenRequest) -> (r: bool)
    ensures
        r == request_ttl_in_range(clients@, *provider, *request),
{
    let id = match &request.client_id {
        Some(id) => id,
        None => return true,
    };
    match crate::config::find_client(clients, id.as_str()) {
        Some(c) => {
            let ttl: u64 = match c.token_ttl_seconds {
                Some(t) => t,
                None => provider.token_ttl_seconds,
            };
            let signed = ttl as i64;
            -MAX_DELTA_SECONDS <= signed && signed <= MAX_DELTA_SECONDS
        },
        None => true,
    }
}

/// What the token endpoint answers at `now`, and what it does to the codes.
pub open spec fn token_exchange(
    r: Result<TokenResponse, ApiError>,
    codes: Map<Seq<char>, AuthorizationCodeRecord>,
    after: Map<Seq<char>, AuthorizationCodeRecord>,
    now: UtcTime,
    jti: Seq<char>,
    provider: ProviderSettings,
    template: TokenTemplate,
    keys: SigningKeys,
    clients: Seq<Client>,
    request: TokenRequest,
) -> bool {
    match (request.client_id, request.client_secret) {
        (None, _) => err_view(r) == Some(ApiErrorView::InvalidRequest("client_id is required"@)) && after == codes,
        (Some(_), None) => err_view(r) == Some(ApiErrorView::InvalidRequest("client_secret is required"@))
            && after == codes,
        (Some(id), Some(secret)) => match client_authentication(clients, id@, secret@) {
            Err(e) => err_view(r) == Some(e) && after == codes,
            Ok(c) => if request.grant_type@ == "client_credentials"@ {
                &&& after == codes
                &&& match scope_outcome(opt_seq(request.scope), views(c.allowed_scopes@)) {
                    Err(m) => err_view(r) == Some(ApiErrorView::InvalidScope(m)),
                    Ok(st) => exists|scope: Option<String>|
                        #![trigger token_issued(r, now, jti, provider, template, keys, c, scope, c.client_id@, None, false)]
                        opt_seq(scope) == st && token_issued(r, now, jti, provider, template, keys, c, scope, c.client_id@, None, false),
                }
            } else if request.grant_type@ == "authorization_code"@ {
                match (request.code, request.redirect_uri) {
                    (None, _) => err_view(r) == Some(ApiErrorView::InvalidRequest("code is required"@)) && after == codes,
                    (Some(_), None) => err_view(r) == Some(ApiErrorView::InvalidRequest("redirect_uri is required"@))
                        && after == codes,
                    (Some(code), Some(redirect_uri)) => {
                        &&& after == live(codes, now).remove(code@)
                        &&& match live_entry(codes, now, code@) {
                            None => err_view(r) == Some(
                                ApiErrorView::InvalidGrant("authorization code is invalid or expired"@),
                            ),
                            Some(record) => if record.client_id@ != c.client_id@ {
                                err_view(r) == Some(ApiErrorView::InvalidGrant("authorization code client mismatch"@))
                            } else if record.redirect_uri@ != redirect_uri@ {
                                err_view(r) == Some(ApiErrorView::InvalidGrant("redirect_uri mismatch"@))
                            } else {
                                match pkce_outcome(
                                    c.require_pkce,
                                    opt_seq(record.code_challenge),
                                    opt_seq(record.code_challenge_method),
                                    opt_seq(request.code_verifier),
                                ) {
                                    Err(e) => err_view(r) == Some(e),
                                    Ok(_) => token_issued(
                                        r,
                                        now,
                                        jti,
                                        provider,
                                        template,
                                        keys,
                                        c,
                                        record.scope,
                                        record.user_id@,
                                        opt_seq(record.nonce),
                                        has_word(opt_seq(record.scope), "openid"@),
                                    ),
                                }
                            },
                        }
                    },
                }
            } else {
                err_view(r) == Some(ApiErrorView::UnsupportedGrantType) && after == codes
            },
        },
    }
}

fn opt_as_str(o: &Option<String>) -> (r: Option<&str>)
    ensures
        crate::upstream::opt_str(r) == opt_seq(*o),
{
    match o {
        Some(s) => Some(s.as_str()),
        None => None,
    }
}

/// Answers a token request at `now`, with `jti` as the token id: the client
/// authenticates with its secret, then the client-credentials grant issues
/// a token for the client itself, and the authorization-code grant takes
/// the code (a code is used at most once), checks that it was issued to
/// this client for this redirect URI, verifies PKCE and issues a token for
/// the user, with an ID token when `openid` was granted.
pub fn token_endpoint_at(
    store: &mut AuthStore,
    now: UtcTime,
    jti: &str,
    provider: &ProviderSettings,
    clients: &Vec<Client>,
    template: &TokenTemplate,
    keys: &SigningKeys,
    request: TokenRequest,
) -> (r: Result<TokenResponse, ApiError>)
    requires
        old(store).wf(),
        request_ttl_in_range(clients@, *provider, request),
    ensures
        final(store).wf(),
        final(store).sessions() == old(store).sessions(),
        final(store).pending() == old(store).pending(),
        final(store).consents() == old(store).consents(),
        token_exchange(
            r,
            old(store).codes(),
            final(store).codes(),
            now,
            jti@,
            *provider,
            *template,
            *keys,
            clients@,
            request,
        ),
{
    let client_id = match &request.client_id {
        Some(id) => id,
        None => return Err(ApiError::invalid_request("client_id is required")),
    };
    let client_secret = match &request.client_secret {
        Some(s) => s,
        None => return Err(ApiError::invalid_request("client_secret is required")),
    };
    let client = authenticate_client(clients, client_id.as_str(), client_secret.as_str())?;
    proof {
        crate::config::lemma_client_index(clients@, client_id@);
    }
    if str_eq(request.grant_type.as_str(), "client_credentials") {
        let scope_text = validate_scopes(opt_as_str(&request.scope), client)?;
        let r = issue_token_at(
            now,
            jti,
            provider,
            template,
            keys,
            client,
            scope_text,
            client.client_id.as_str(),
            None,
            false,
        );
        return r;
    }
    if !str_eq(request.grant_type.as_str(), "authorization_code") {
        return Err(ApiError::UnsupportedGrantType);
    }
    let code = match &request.code {
        Some(c) => c,
        None => return Err(ApiError::invalid_request("code is required")),
    };
    let redirect_uri = match &request.redirect_uri {
        Some(u) => u,
        None => return Err(ApiError::invalid_request("redirect_uri is required")),
    };
    let record = match store.consume_authorization_code_at(now, code.as_str()) {
        Some(r) => r,
        None => return Err(ApiError::invalid_grant("authorization code is invalid or expired")),
    };
    if !str_eq(record.client_id.as_str(), client.client_id.as_str()) {
        return Err(ApiError::invalid_grant("authorization code client mismatch"));
    }
    if !str_eq(record.redirect_uri.as_str(), redirect_uri.as_str()) {
        return Err(ApiError::invalid_grant("redirect_uri mismatch"));
    }
    verify_pkce(client, &record.code_challenge, &record.code_challenge_method, opt_as_str(&request.code_verifier))?;
    let include_id_token = scope_includes_openid(opt_as_str(&record.scope));
    issue_token_at(
        now,
        jti,
        provider,
        template,
        keys,
        client,
        record.scope,
        record.user_id.as_str(),
        opt_as_str(&record.nonce),
        include_id_token,
    )
}

/// Answers a token request now, with a fresh random token id.
pub fn token_endpoint(
    store: &mut AuthStore,
    provider: &ProviderSettings,
    clients: &Vec<Client>,
    template: &TokenTemplate,
    keys: &SigningKeys,
    request: TokenRequest,
) -> (r: Result<TokenResponse, ApiError>)
    requires
        old(store).wf(),
        request_ttl_in_range(clients@, *provider, request),
    ensures
        final(store).wf(),
        final(store).sessions() == old(store).sessions(),
        final(store).pending() == old(store).pending(),
        final(store).consents() == old(store).consents(),
        (r matches Err(e) && e@ == ApiErrorView::Internal("system clock or random source unavailable"@) && *final(store) == *old(store)) || (exists|now: UtcTime, jti: String|
            jti@.len() == 36 && #[trigger] token_exchange(
                r,
                old(store).codes(),
                final(store).codes(),
                now,
                jti@,
                *provider,
                *template,
                *keys,
                clients@,
                request,
            )),
{
    let now = match utc_now() {
        Some(t) => t,
        None => return Err(ApiError::internal("system clock or random source unavailable")),
    };
    let jti = match crate::auth::fresh_id() {
        Some(id) => id,
        None => return Err(ApiError::internal("system clock or random source unavailable")),
    };
    token_endpoint_at(store, now, jti.as_str(), provider, clients, template, keys, request)
}

/// The readiness probe: ready (200) when some client is active, otherwise
/// unavailable (503).
pub fn readyz(clients: &Vec<Client>) -> (r: u16)
    ensures
        r == (if clients@.len() == 0 {
            503u16
        } else {
            200u16
        }),
{
    if clients.len() == 0 {
        503
    } else {
        200
    }
}

// ---------------------------------------------------------------------------
// Laws of the endpoints
// ---------------------------------------------------------------------------

/// PKCE verification of a code's challenge `expected` against a verifier.
/// With the method `S256` it succeeds exactly when `expected` is the
/// unpadded base64url SHA-256 digest of the verifier's UTF-8 bytes; with
/// `plain`, or no method, exactly when `expected` is the verifier itself;
/// any other method fails, and such a failure is `invalid_grant`. A code
/// with a challenge needs a verifier; a code without one passes exactly
/// when the client does not require PKCE.
pub proof fn lemma_pkce_verification(require_pkce: bool, expected: Seq<char>, method: Seq<char>, verifier: Seq<char>)
    ensures
        (pkce_outcome(require_pkce, Some(expected), Some("S256"@), Some(verifier)) is Ok) <==> expected
            == crate::bindings::base64url(crate::bindings::sha256(vstd::utf8::encode_utf8(verifier))),
        (pkce_outcome(require_pkce, Some(expected), Some("plain"@), Some(verifier)) is Ok) <==> expected
            == verifier,
        (pkce_outcome(require_pkce, Some(expected), None, Some(verifier)) is Ok) <==> expected == verifier,
        method != "plain"@ && method != "S256"@ ==> pkce_outcome(
            require_pkce,
            Some(expected),
            Some(method),
            Some(verifier),
        ) is Err,
        pkce_outcome(require_pkce, Some(expected), Some(method), Some(verifier)) matches Err(e) ==> e is InvalidGrant,
        pkce_outcome(require_pkce, Some(expected), Some(method), None) is Err,
        pkce_outcome(true, None, Some(method), Some(verifier)) is Err,
        pkce_outcome(false, None, Some(method), Some(verifier)) is Ok,
{
    reveal_strlit("plain");
    reveal_strlit("S256");
    assert("plain"@ != "S256"@) by {
        assert("plain"@.len() != "S256"@.len());
    }
}

/// An authorization request with the PKCE method `S256` or `plain` is
/// judged as the same request without a method; a request with any other
/// method that would otherwise be accepted is refused with an
/// `invalid_request` redirect.
pub proof fn lemma_authorize_pkce_methods(clients: Seq<Client>, r: AuthorizeView, method: Seq<char>)
    ensures
        authorize_check(clients, AuthorizeView { code_challenge_method: Some("S256"@), ..r })
            == authorize_check(clients, AuthorizeView { code_challenge_method: None, ..r }),
        authorize_check(clients, AuthorizeView { code_challenge_method: Some("plain"@), ..r })
            == authorize_check(clients, AuthorizeView { code_challenge_method: None, ..r }),
        method != "plain"@ && method != "S256"@ && authorize_check(
            clients,
            AuthorizeView { code_challenge_method: None, ..r },
        ) is Ok ==> authorize_check(clients, AuthorizeView { code_challenge_method: Some(method), ..r })
            == Err::<(Client, Option<Seq<char>>), ReplyView>(
            ReplyView::Redirect(error_redirect_url(r.redirect_uri, "invalid_request"@, r.state)),
        ),
{
}

/// A consent decision other than `approve` issues no authorization code;
/// with a live session and a valid carried request it answers the
/// `access_denied` redirect to the client.
pub proof fn lemma_consent_denied(
    before: AuthStore,
    after: AuthStore,
    now: UtcTime,
    code: String,
    clients: Vec<Client>,
    cookie_header: Option<&str>,
    form: ConsentForm,
    r: Reply,
)
    requires
        consent_spec(before, after, now, code, clients, cookie_header, form, r),
        form.decision@ != "approve"@,
    ensures
        after.codes() == before.codes(),
        session_lookup(before.sessions(), now, cookie_header).0 is Some && authorize_check(
            clients@,
            parse_return(form.return_to@),
        ) is Ok ==> r@ == ReplyView::Redirect(
            error_redirect_url(
                parse_return(form.return_to@).redirect_uri,
                "access_denied"@,
                parse_return(form.return_to@).state,
            ),
        ),
{
}

/// A re-authentication consent decision other than `approve` issues no
/// authorization code.
pub proof fn lemma_reauth_consent_denied(
    before: AuthStore,
    after: AuthStore,
    now: UtcTime,
    code: String,
    form: ReauthConsentForm,
    r: Reply,
)
    requires
        reauth_consent_spec(before, after, now, code, form, r),
        form.decision@ != "approve"@,
    ensures
        after.codes() == before.codes(),
{
}

/// A token is signed by one of the loaded keys whose algorithm is the
/// client's own `signing_algorithm`; the provider's algorithm is used only
/// for a client that sets none. Without a loaded key for that algorithm
/// no token is issued.
pub proof fn lemma_token_signing_algorithm(
    r: Result<TokenResponse, ApiError>,
    now: UtcTime,
    jti: Seq<char>,
    provider: ProviderSettings,
    template: TokenTemplate,
    keys: SigningKeys,
    client: Client,
    scope: Option<String>,
    subject: Seq<char>,
    nonce: Option<Seq<char>>,
    include_id_token: bool,
)
    requires
        token_issued(r, now, jti, provider, template, keys, client, scope, subject, nonce, include_id_token),
    ensures
        r matches Ok(resp) ==> exists|k: KeyMaterial, claims: JsonView|
            #![trigger signed_by(resp.access_token@, k, claims)]
            keys.keys().contains(k) && signed_by(resp.access_token@, k, claims) && match client.signing_algorithm {
                Some(a) => k.algorithm == a,
                None => k.algorithm == provider.signing_algorithm,
            },
        client.signing_algorithm matches Some(a) && (forall|i: int|
            0 <= i < keys.keys().len() ==> (#[trigger] keys.keys()[i]).algorithm != a) ==> r is Err,
{
    if r is Ok {
        let resp = r->Ok_0;
        let (k, claims) = choose|k: KeyMaterial, claims: JsonView|
            #![trigger signed_by(resp.access_token@, k, claims)]
            keys.keys().contains(k) && k.algorithm == effective_algorithm(client, provider) && render(
                template.template@,
                token_context(
                    client,
                    opt_seq(scope),
                    subject,
                    now.secs,
                    now.plus_seconds(effective_ttl(client, provider) as i64 as int)->0.secs,
                    jti,
                ),
            ) == Ok::<JsonView, Seq<char>>(claims) && claims_problem(claims) is None && signed_by(
                resp.access_token@,
                k,
                claims,
            ) && (include_id_token <==> resp.id_token is Some) && (resp.id_token matches Some(t) ==> signed_by(
                t@,
                k,
                id_token_claims(
                    provider.issuer@,
                    subject,
                    client.client_id@,
                    now.secs,
                    now.plus_seconds(effective_ttl(client, provider) as i64 as int)->0.secs,
                    nonce,
                ),
            ));
        assert(signed_by(resp.access_token@, k, claims));
    }
}

/// The upstream authorization URL of a re-authentication carries a
/// `prompt` parameter exactly when the downstream request's `prompt` holds
/// the word `login`, and then it is `prompt=login`. (The transaction is
/// recorded under a fresh upstream state, which the store did not hold.)
pub proof fn lemma_reauth_prompt_login(
    before: AuthStore,
    after: AuthStore,
    now: UtcTime,
    client: Client,
    provider: TrustedProviderConfig,
    request: AuthorizeRequest,
    scope: Option<String>,
    discovery: Result<DiscoveredOidcProvider, String>,
    upstream_state: String,
    upstream_nonce: String,
    pkce_candidate: String,
    r: Reply,
)
    requires
        begin_reauth_spec(
            before,
            after,
            now,
            client,
            provider,
            request,
            scope,
            discovery,
            upstream_state,
            upstream_nonce,
            pkce_candidate,
            r,
        ),
        client.re_auth is Some,
        discovery is Ok,
        !before.pending().contains_key(upstream_state@),
        after.pending().contains_key(upstream_state@),
    ensures
        exists|pairs: Seq<(Seq<char>, Seq<char>)>|
            #![trigger url_with_query_pairs(discovery->Ok_0.authorization_endpoint@, pairs)]
            url_with_query_pairs(discovery->Ok_0.authorization_endpoint@, pairs) matches Some(url) && r@
                == ReplyView::Redirect(url) && ((exists|i: int|
                0 <= i < pairs.len() && (#[trigger] pairs[i]).0 == "prompt"@) <==> (request.prompt matches Some(
                p,
            ) && words(p@).contains("login"@))) && (pairs.contains(("prompt"@, "login"@)) <==> (
            request.prompt matches Some(p) && words(p@).contains("login"@))),
{
    let ra = client.re_auth->0;
    let metadata = discovery->Ok_0;
    let pkce = if provider.require_pkce {
        Some(pkce_candidate)
    } else {
        None
    };
    let login = has_word(request@.prompt, "login"@);
    let pairs = authorization_pairs(
        provider.client_id@,
        provider.redirect_uri@,
        views(ra.upstream_scopes@),
        upstream_state@,
        upstream_nonce@,
        opt_seq(pkce),
        login,
    );
    reveal_strlit("prompt");
    reveal_strlit("login");
    reveal_strlit("response_type");
    reveal_strlit("client_id");
    reveal_strlit("redirect_uri");
    reveal_strlit("scope");
    reveal_strlit("state");
    reveal_strlit("nonce");
    reveal_strlit("code_challenge");
    reveal_strlit("code_challenge_method");
    let base_len: int = if pkce is Some { 8 } else { 6 };
    assert forall|i: int| 0 <= i < base_len implies (#[trigger] pairs[i]).0 != "prompt"@ by {
        assert(pairs[i].0.len() != "prompt"@.len());
    }
    if login {
        assert(pairs[base_len] == ("prompt"@, "login"@));
    } else {
        assert(pairs.len() == base_len);
        if pairs.contains(("prompt"@, "login"@)) {
            let j = choose|j: int| 0 <= j < pairs.len() && pairs[j] == ("prompt"@, "login"@);
            assert(pairs[j].0 != "prompt"@);
        }
    }
    assert(has_word(request@.prompt, "login"@) == (request.prompt matches Some(p) && words(p@).contains(
        "login"@,
    )));
    assert(url_with_query_pairs(metadata.authorization_endpoint@, pairs) is Some);
}

} // verus!
