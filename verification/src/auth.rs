//! Short-lived authorization state: browser sessions, authorization codes,
//! pending upstream re-authentications and pending re-auth consents.

use vstd::prelude::*;

use crate::bindings::{random_bytes, utc_now, uuid_hyphenated};
use crate::config::ReAuthConsent;
use crate::store::{live, Expiring, ExpiringStore};
use crate::text::{clone_opt, str_eq};
use crate::time::{UtcTime, MAX_DELTA_SECONDS, MAX_TIMESTAMP};
use crate::upstream::DiscoveredOidcProvider;

verus! {

/// A signed-in browser session.
#[derive(Debug)]
pub struct Session {
    pub session_id: String,
    pub user_id: String,
    pub username: String,
    pub auth_time: UtcTime,
    pub expires_at: UtcTime,
}

/// How the user behind an authorization code was authenticated.
#[derive(Debug)]
pub enum AuthContext {
    Local,
    ReAuth { provider_id: String, upstream_issuer: String },
}

/// An issued authorization code and what it was issued for.
#[derive(Debug)]
pub struct AuthorizationCodeRecord {
    pub code: String,
    pub client_id: String,
    pub user_id: String,
    pub redirect_uri: String,
    pub scope: Option<String>,
    pub nonce: Option<String>,
    pub expires_at: UtcTime,
    pub code_challenge: Option<String>,
    pub code_challenge_method: Option<String>,
    pub auth_context: AuthContext,
}

/// What an authorization code is issued for.
#[derive(Debug)]
pub struct NewAuthorizationCode {
    pub client_id: String,
    pub user_id: String,
    pub redirect_uri: String,
    pub scope: Option<String>,
    pub nonce: Option<String>,
    pub code_challenge: Option<String>,
    pub code_challenge_method: Option<String>,
    pub auth_context: AuthContext,
}

/// The validated authorization request of the downstream application.
#[derive(Debug)]
pub struct DownstreamAuthorizationRequest {
    pub client_id: String,
    pub redirect_uri: String,
    pub scope: Option<String>,
    pub state: Option<String>,
    pub nonce: Option<String>,
    pub code_challenge: Option<String>,
    pub code_challenge_method: Option<String>,
}

/// A re-authentication sent to an upstream provider and not yet answered,
/// keyed by the upstream `state`.
#[derive(Debug)]
pub struct PendingReauthTransaction {
    pub downstream: DownstreamAuthorizationRequest,
    pub provider_id: String,
    pub consent: ReAuthConsent,
    pub upstream_state: String,
    pub upstream_nonce: String,
    pub pkce_verifier: Option<String>,
    pub provider_metadata: DiscoveredOidcProvider,
    pub created_at: UtcTime,
    pub expires_at: UtcTime,
}

#[derive(Debug)]
pub struct NewPendingReauthTransaction {
    pub downstream: DownstreamAuthorizationRequest,
    pub provider_id: String,
    pub consent: ReAuthConsent,
    pub upstream_state: String,
    pub upstream_nonce: String,
    pub pkce_verifier: Option<String>,
    pub provider_metadata: DiscoveredOidcProvider,
}

/// An upstream identity waiting for the user's local consent.
#[derive(Debug)]
pub struct PendingReauthConsent {
    pub transaction_id: String,
    pub downstream: DownstreamAuthorizationRequest,
    pub user_id: String,
    pub auth_context: AuthContext,
    pub expires_at: UtcTime,
}

#[derive(Debug)]
pub struct NewPendingReauthConsent {
    pub downstream: DownstreamAuthorizationRequest,
    pub user_id: String,
    pub auth_context: AuthContext,
}

/// The outcome of taking a pending re-authentication.
#[derive(Debug)]
pub enum ConsumePendingReauth {
    Found(Box<PendingReauthTransaction>),
    NotFound,
    ProviderMismatch,
}

impl AuthContext {
    pub fn duplicate(&self) -> (r: Self)
        ensures
            r == *self,
    {
        match self {
            AuthContext::Local => AuthContext::Local,
            AuthContext::ReAuth { provider_id, upstream_issuer } => AuthContext::ReAuth {
                provider_id: provider_id.clone(),
                upstream_issuer: upstream_issuer.clone(),
            },
        }
    }
}

impl DownstreamAuthorizationRequest {
    pub fn duplicate(&self) -> (r: Self)
        ensures
            r == *self,
    {
        DownstreamAuthorizationRequest {
            client_id: self.client_id.clone(),
            redirect_uri: self.redirect_uri.clone(),
            scope: clone_opt(&self.scope),
            state: clone_opt(&self.state),
            nonce: clone_opt(&self.nonce),
            code_challenge: clone_opt(&self.code_challenge),
            code_challenge_method: clone_opt(&self.code_challenge_method),
        }
    }
}

impl Session {
    pub fn duplicate(&self) -> (r: Self)
        ensures
            r == *self,
    {
        Session {
            session_id: self.session_id.clone(),
            user_id: self.user_id.clone(),
            username: self.username.clone(),
            auth_time: self.auth_time,
            expires_at: self.expires_at,
        }
    }
}

impl PendingReauthConsent {
    pub fn duplicate(&self) -> (r: Self)
        ensures
            r == *self,
    {
        PendingReauthConsent {
            transaction_id: self.transaction_id.clone(),
            downstream: self.downstream.duplicate(),
            user_id: self.user_id.clone(),
            auth_context: self.auth_context.duplicate(),
            expires_at: self.expires_at,
        }
    }
}

impl Expiring for Session {
    open spec fn key_view(&self) -> Seq<char> {
        self.session_id@
    }

    open spec fn expiry(&self) -> UtcTime {
        self.expires_at
    }

    fn key(&self) -> (k: &str) {
        self.session_id.as_str()
    }

    fn expires_at(&self) -> (t: UtcTime) {
        self.expires_at
    }
}

impl Expiring for AuthorizationCodeRecord {
    open spec fn key_view(&self) -> Seq<char> {
        self.code@
    }

    open spec fn expiry(&self) -> UtcTime {
        self.expires_at
    }

    fn key(&self) -> (k: &str) {
        self.code.as_str()
    }

    fn expires_at(&self) -> (t: UtcTime) {
        self.expires_at
    }
}

impl Expiring for PendingReauthTransaction {
    open spec fn key_view(&self) -> Seq<char> {
        self.upstream_state@
    }

    open spec fn expiry(&self) -> UtcTime {
        self.expires_at
    }

    fn key(&self) -> (k: &str) {
        self.upstream_state.as_str()
    }

    fn expires_at(&self) -> (t: UtcTime) {
        self.expires_at
    }
}

impl Expiring for PendingReauthConsent {
    open spec fn key_view(&self) -> Seq<char> {
        self.transaction_id@
    }

    open spec fn expiry(&self) -> UtcTime {
        self.expires_at
    }

    fn key(&self) -> (k: &str) {
        self.transaction_id.as_str()
    }

    fn expires_at(&self) -> (t: UtcTime) {
        self.expires_at
    }
}

// ---------------------------------------------------------------------------
// What each operation does, over the maps of entries by key
// ---------------------------------------------------------------------------

/// The live entry with key `k` at `now`, if any.
pub open spec fn live_entry<V: Expiring>(m: Map<Seq<char>, V>, now: UtcTime, k: Seq<char>) -> Option<V> {
    if live(m, now).contains_key(k) {
        Some(live(m, now)[k])
    } else {
        None
    }
}

/// The session created at `now` for `ttl_seconds`, if its expiry is representable.
pub open spec fn new_session(
    now: UtcTime,
    session_id: Seq<char>,
    user_id: Seq<char>,
    username: Seq<char>,
    ttl_seconds: i64,
) -> Option<(Seq<char>, Seq<char>, Seq<char>, UtcTime, UtcTime)> {
    match now.plus_seconds(ttl_seconds as int) {
        Some(expires_at) => Some((session_id, user_id, username, now, expires_at)),
        None => None,
    }
}

pub open spec fn session_is(s: Session, v: (Seq<char>, Seq<char>, Seq<char>, UtcTime, UtcTime)) -> bool {
    s.session_id@ == v.0 && s.user_id@ == v.1 && s.username@ == v.2 && s.auth_time == v.3
        && s.expires_at == v.4
}

/// The code record issued at `now` with key `code`.
pub open spec fn code_record_is(
    r: AuthorizationCodeRecord,
    code: Seq<char>,
    payload: NewAuthorizationCode,
    expires_at: UtcTime,
) -> bool {
    &&& r.code@ == code
    &&& r.client_id == payload.client_id
    &&& r.user_id == payload.user_id
    &&& r.redirect_uri == payload.redirect_uri
    &&& r.scope == payload.scope
    &&& r.nonce == payload.nonce
    &&& r.expires_at == expires_at
    &&& r.code_challenge == payload.code_challenge
    &&& r.code_challenge_method == payload.code_challenge_method
    &&& r.auth_context == payload.auth_context
}

pub open spec fn transaction_is(
    t: PendingReauthTransaction,
    payload: NewPendingReauthTransaction,
    created_at: UtcTime,
    expires_at: UtcTime,
) -> bool {
    &&& t.downstream == payload.downstream
    &&& t.provider_id == payload.provider_id
    &&& t.consent == payload.consent
    &&& t.upstream_state == payload.upstream_state
    &&& t.upstream_nonce == payload.upstream_nonce
    &&& t.pkce_verifier == payload.pkce_verifier
    &&& t.provider_metadata == payload.provider_metadata
    &&& t.created_at == created_at
    &&& t.expires_at == expires_at
}

pub open spec fn consent_is(
    c: PendingReauthConsent,
    transaction_id: Seq<char>,
    payload: NewPendingReauthConsent,
    expires_at: UtcTime,
) -> bool {
    &&& c.transaction_id@ == transaction_id
    &&& c.downstream == payload.downstream
    &&& c.user_id == payload.user_id
    &&& c.auth_context == payload.auth_context
    &&& c.expires_at == expires_at
}

/// A reading of the clock as `utc_now` can give it: not before the epoch,
/// representable, with fewer than a billion nanoseconds.
pub open spec fn clock_reading(now: UtcTime) -> bool {
    0 <= now.secs <= MAX_TIMESTAMP && now.nanos < 1_000_000_000
}

/// Whether creating a session with id `session_id` at `now` for
/// `ttl_seconds` turns the sessions `before` into `after` and returns `r`:
/// the new session is stored under its id, unless its expiry is not
/// representable, when nothing changes and `None` comes back.
pub open spec fn session_stored(
    before: Map<Seq<char>, Session>,
    after: Map<Seq<char>, Session>,
    now: UtcTime,
    session_id: Seq<char>,
    user_id: Seq<char>,
    username: Seq<char>,
    ttl_seconds: i64,
    r: Option<Session>,
) -> bool {
    match new_session(now, session_id, user_id, username, ttl_seconds) {
        None => r is None && after == before,
        Some(v) => r matches Some(s) && session_is(s, v) && after == before.insert(session_id, s),
    }
}

/// Whether issuing the code `code` at `now` for `ttl_seconds` turns the
/// codes `before` into `after` and returns `r`: the record is stored under
/// the code and the code comes back, unless the expiry is not
/// representable, when nothing changes and `None` comes back.
pub open spec fn code_stored(
    before: Map<Seq<char>, AuthorizationCodeRecord>,
    after: Map<Seq<char>, AuthorizationCodeRecord>,
    now: UtcTime,
    code: Seq<char>,
    payload: NewAuthorizationCode,
    ttl_seconds: i64,
    r: Option<String>,
) -> bool {
    match now.plus_seconds(ttl_seconds as int) {
        None => r is None && after == before,
        Some(expires_at) => {
            &&& r matches Some(c) && c@ == code
            &&& after.contains_key(code)
            &&& code_record_is(after[code], code, payload, expires_at)
            &&& after == before.insert(code, after[code])
        },
    }
}

/// What `issue_authorization_code` does to the codes `before`: nothing, and
/// `None`, when the clock or the random source fails; otherwise it stores a
/// fresh 36-character code as `code_stored` says, at some reading of the
/// clock.
pub open spec fn code_issued(
    before: Map<Seq<char>, AuthorizationCodeRecord>,
    after: Map<Seq<char>, AuthorizationCodeRecord>,
    payload: NewAuthorizationCode,
    ttl_seconds: i64,
    r: Option<String>,
) -> bool {
    ||| (r is None && after == before)
    ||| exists|now: UtcTime, code: Seq<char>|
        clock_reading(now) && code.len() == 36 && #[trigger] code_stored(
            before,
            after,
            now,
            code,
            payload,
            ttl_seconds,
            r,
        )
}

/// What `consume_authorization_code` does to the codes `before`: nothing,
/// and `None`, when the clock fails; otherwise, at some reading `now`, it
/// drops the expired codes, takes `code` out and returns its live record.
pub open spec fn code_consumed(
    before: Map<Seq<char>, AuthorizationCodeRecord>,
    after: Map<Seq<char>, AuthorizationCodeRecord>,
    code: Seq<char>,
    r: Option<AuthorizationCodeRecord>,
) -> bool {
    ||| (r is None && after == before)
    ||| exists|now: UtcTime|
        after == live(before, now).remove(code) && r == #[trigger] live_entry(before, now, code)
}

/// Whether recording a re-authentication at `now` for `ttl_seconds` turns
/// the pending transactions `before` into `after` and returns `r`: nothing
/// changes when the expiry is not representable; otherwise expired
/// transactions are dropped, and the new one is stored under its upstream
/// state unless a live one already has that state.
pub open spec fn reauth_stored(
    before: Map<Seq<char>, PendingReauthTransaction>,
    after: Map<Seq<char>, PendingReauthTransaction>,
    now: UtcTime,
    payload: NewPendingReauthTransaction,
    ttl_seconds: i64,
    r: Option<()>,
) -> bool {
    match now.plus_seconds(ttl_seconds as int) {
        None => r is None && after == before,
        Some(expires_at) => if live(before, now).contains_key(payload.upstream_state@) {
            r is None && after == live(before, now)
        } else {
            &&& r is Some
            &&& after.contains_key(payload.upstream_state@)
            &&& transaction_is(after[payload.upstream_state@], payload, now, expires_at)
            &&& after == live(before, now).insert(payload.upstream_state@, after[payload.upstream_state@])
        },
    }
}

/// Whether recording a pending consent under `transaction_id` at `now` for
/// `ttl_seconds` turns the consents `before` into `after` and returns `r`:
/// expired consents are dropped, the new one is stored and its id comes
/// back, unless the expiry is not representable, when nothing changes and
/// `None` comes back.
pub open spec fn consent_stored(
    before: Map<Seq<char>, PendingReauthConsent>,
    after: Map<Seq<char>, PendingReauthConsent>,
    now: UtcTime,
    transaction_id: Seq<char>,
    payload: NewPendingReauthConsent,
    ttl_seconds: i64,
    r: Option<String>,
) -> bool {
    match now.plus_seconds(ttl_seconds as int) {
        None => r is None && after == before,
        Some(expires_at) => {
            &&& r matches Some(id) && id@ == transaction_id
            &&& after.contains_key(transaction_id)
            &&& consent_is(after[transaction_id], transaction_id, payload, expires_at)
            &&& after == live(before, now).insert(transaction_id, after[transaction_id])
        },
    }
}

/// Whether the pending re-authentications after taking `state` for
/// `provider_id` at `now`, and the outcome, are `after` and `r`.
pub open spec fn take_pending_reauth(
    m: Map<Seq<char>, PendingReauthTransaction>,
    now: UtcTime,
    state: Seq<char>,
    provider_id: Seq<char>,
    after: Map<Seq<char>, PendingReauthTransaction>,
    r: ConsumePendingReauth,
) -> bool {
    match live_entry(m, now, state) {
        None => after == live(m, now) && r is NotFound,
        Some(t) => if t.provider_id@ != provider_id {
            after == live(m, now) && r is ProviderMismatch
        } else {
            after == live(m, now).remove(state) && r == ConsumePendingReauth::Found(Box::new(t))
        },
    }
}

/// Sessions, authorization codes and pending re-authentication state, each
/// kept until it expires or is used.
pub struct AuthStore {
    sessions: ExpiringStore<Session>,
    auth_codes: ExpiringStore<AuthorizationCodeRecord>,
    pending_reauth: ExpiringStore<PendingReauthTransaction>,
    pending_reauth_consents: ExpiringStore<PendingReauthConsent>,
}

impl Default for AuthStore {
    fn default() -> (r: Self)
        ensures
            r.wf(),
            r.sessions() == Map::<Seq<char>, Session>::empty(),
            r.codes() == Map::<Seq<char>, AuthorizationCodeRecord>::empty(),
            r.pending() == Map::<Seq<char>, PendingReauthTransaction>::empty(),
            r.consents() == Map::<Seq<char>, PendingReauthConsent>::empty(),
    {
        AuthStore {
            sessions: ExpiringStore::new(),
            auth_codes: ExpiringStore::new(),
            pending_reauth: ExpiringStore::new(),
            pending_reauth_consents: ExpiringStore::new(),
        }
    }
}

impl AuthStore {
    pub closed spec fn wf(&self) -> bool {
        &&& self.sessions.wf()
        &&& self.auth_codes.wf()
        &&& self.pending_reauth.wf()
        &&& self.pending_reauth_consents.wf()
    }

    /// Sessions by id.
    pub closed spec fn sessions(&self) -> Map<Seq<char>, Session> {
        self.sessions@
    }

    /// Authorization codes by code.
    pub closed spec fn codes(&self) -> Map<Seq<char>, AuthorizationCodeRecord> {
        self.auth_codes@
    }

    /// Pending re-authentications by upstream state.
    pub closed spec fn pending(&self) -> Map<Seq<char>, PendingReauthTransaction> {
        self.pending_reauth@
    }

    /// Pending re-auth consents by transaction id.
    pub closed spec fn consents(&self) -> Map<Seq<char>, PendingReauthConsent> {
        self.pending_reauth_consents@
    }

    /// Creates a session with the given id at `now`; `None`, with nothing
    /// stored, when the expiry instant is not representable.
    pub fn create_session_at(
        &mut self,
        now: UtcTime,
        session_id: String,
        user_id: String,
        username: String,
        ttl_seconds: i64,
    ) -> (r: Option<Session>)
        requires
            old(self).wf(),
            -MAX_DELTA_SECONDS <= ttl_seconds <= MAX_DELTA_SECONDS,
        ensures
            final(self).wf(),
            final(self).codes() == old(self).codes(),
            final(self).pending() == old(self).pending(),
            final(self).consents() == old(self).consents(),
            match new_session(now, session_id@, user_id@, username@, ttl_seconds) {
                None => r is None && final(self).sessions() == old(self).sessions(),
                Some(v) => r matches Some(s) && session_is(s, v) && final(self).sessions()
                    == old(self).sessions().insert(session_id@, s),
            },
    {
        let expires_at = match now.checked_add_seconds(ttl_seconds) {
            Some(t) => t,
            None => return None,
        };
        let session = Session { session_id, user_id, username, auth_time: now, expires_at };
        self.sessions.insert(session.duplicate());
        Some(session)
    }

    /// Creates a session with a fresh random id, valid from now for
    /// `ttl_seconds`.
    pub fn create_session(&mut self, user_id: String, username: String, ttl_seconds: i64) -> (r:
        Option<Session>)
        requires
            old(self).wf(),
            -MAX_DELTA_SECONDS <= ttl_seconds <= MAX_DELTA_SECONDS,
        ensures
            final(self).wf(),
            final(self).codes() == old(self).codes(),
            final(self).pending() == old(self).pending(),
            final(self).consents() == old(self).consents(),
            (r is None && final(self).sessions() == old(self).sessions()) || (exists|now: UtcTime, session_id: Seq<char>|
                clock_reading(now) && session_id.len() == 36 && #[trigger] session_stored(
                    old(self).sessions(),
                    final(self).sessions(),
                    now,
                    session_id,
                    user_id@,
                    username@,
                    ttl_seconds,
                    r,
                )),
    {
        let now = match utc_now() {
            Some(t) => t,
            None => return None,
        };
        let session_id = match fresh_id() {
            Some(id) => id,
            None => return None,
        };
        let ghost id = session_id@;
        let r = self.create_session_at(now, session_id, user_id, username, ttl_seconds);
        assert(session_stored(old(self).sessions(), self.sessions(), now, id, user_id@, username@, ttl_seconds, r));
        r
    }

    /// Drops expired sessions and returns the live session with this id.
    pub fn get_session_at(&mut self, now: UtcTime, session_id: &str) -> (r: Option<Session>)
        requires
            old(self).wf(),
        ensures
            final(self).wf(),
            final(self).sessions() == live(old(self).sessions(), now),
            final(self).codes() == old(self).codes(),
            final(self).pending() == old(self).pending(),
            final(self).consents() == old(self).consents(),
            r == live_entry(old(self).sessions(), now, session_id@),
    {
        self.sessions.purge_expired(now);
        match self.sessions.get(session_id) {
            Some(s) => Some(s.duplicate()),
            None => None,
        }
    }

    /// Drops expired sessions and returns the live session with this id.
    pub fn get_session(&mut self, session_id: &str) -> (r: Option<Session>)
        requires
            old(self).wf(),
        ensures
            final(self).wf(),
            final(self).codes() == old(self).codes(),
            final(self).pending() == old(self).pending(),
            final(self).consents() == old(self).consents(),
            (r is None && final(self).sessions() == old(self).sessions()) || (exists|now: UtcTime|
                final(self).sessions() == live(old(self).sessions(), now) && r == live_entry(
                    old(self).sessions(),
                    now,
                    session_id@,
                )),
    {
        let now = match utc_now() {
            Some(t) => t,
            None => return None,
        };
        self.get_session_at(now, session_id)
    }

    /// Stores an authorization code issued at `now`; `None`, with nothing
    /// stored, when the expiry instant is not representable.
    pub fn issue_authorization_code_at(
        &mut self,
        now: UtcTime,
        code: String,
        payload: NewAuthorizationCode,
        ttl_seconds: i64,
    ) -> (r: Option<String>)
        requires
            old(self).wf(),
            -MAX_DELTA_SECONDS <= ttl_seconds <= MAX_DELTA_SECONDS,
        ensures
            final(self).wf(),
            final(self).sessions() == old(self).sessions(),
            final(self).pending() == old(self).pending(),
            final(self).consents() == old(self).consents(),
            match now.plus_seconds(ttl_seconds as int) {
                None => r is None && final(self).codes() == old(self).codes(),
                Some(expires_at) => r == Some(code) && final(self).codes().contains_key(code@)
                    && code_record_is(final(self).codes()[code@], code@, payload, expires_at)
                    && final(self).codes() == old(self).codes().insert(
                    code@,
                    final(self).codes()[code@],
                ),
            },
    {
        let expires_at = match now.checked_add_seconds(ttl_seconds) {
            Some(t) => t,
            None => return None,
        };
        let record = AuthorizationCodeRecord {
            code: code.clone(),
            client_id: payload.client_id,
            user_id: payload.user_id,
            redirect_uri: payload.redirect_uri,
            scope: payload.scope,
            nonce: payload.nonce,
            expires_at,
            code_challenge: payload.code_challenge,
            code_challenge_method: payload.code_challenge_method,
            auth_context: payload.auth_context,
        };
        self.auth_codes.insert(record);
        Some(code)
    }

    /// Issues a fresh random authorization code valid from now for `ttl_seconds`.
    pub fn issue_authorization_code(&mut self, payload: NewAuthorizationCode, ttl_seconds: i64) -> (r:
        Option<String>)
        requires
            old(self).wf(),
            -MAX_DELTA_SECONDS <= ttl_seconds <= MAX_DELTA_SECONDS,
        ensures
            final(self).wf(),
            final(self).sessions() == old(self).sessions(),
            final(self).pending() == old(self).pending(),
            final(self).consents() == old(self).consents(),
            code_issued(old(self).codes(), final(self).codes(), payload, ttl_seconds, r),
    {
        let now = match utc_now() {
            Some(t) => t,
            None => return None,
        };
        let code = match fresh_id() {
            Some(id) => id,
            None => return None,
        };
        let ghost c = code@;
        let ghost p = payload;
        let r = self.issue_authorization_code_at(now, code, payload, ttl_seconds);
        assert(code_stored(old(self).codes(), self.codes(), now, c, p, ttl_seconds, r));
        r
    }

    /// Drops expired codes and takes the code `code` out, so that it cannot
    /// be used again.
    pub fn consume_authorization_code_at(&mut self, now: UtcTime, code: &str) -> (r: Option<
        AuthorizationCodeRecord,
    >)
        requires
            old(self).wf(),
        ensures
            final(self).wf(),
            final(self).codes() == live(old(self).codes(), now).remove(code@),
            r == live_entry(old(self).codes(), now, code@),
            final(self).sessions() == old(self).sessions(),
            final(self).pending() == old(self).pending(),
            final(self).consents() == old(self).consents(),
    {
        self.auth_codes.purge_expired(now);
        self.auth_codes.remove(code)
    }

    /// Drops expired codes and takes the code `code` out.
    pub fn consume_authorization_code(&mut self, code: &str) -> (r: Option<AuthorizationCodeRecord>)
        requires
            old(self).wf(),
        ensures
            final(self).wf(),
            final(self).sessions() == old(self).sessions(),
            final(self).pending() == old(self).pending(),
            final(self).consents() == old(self).consents(),
            code_consumed(old(self).codes(), final(self).codes(), code@, r),
    {
        let now = match utc_now() {
            Some(t) => t,
            None => return None,
        };
        self.consume_authorization_code_at(now, code)
    }

    /// Records a re-authentication sent upstream at `now`, keyed by its
    /// upstream state. `None` when the expiry is not representable (nothing
    /// changes) or when a live transaction already has that state (expired
    /// ones are dropped).
    pub fn create_pending_reauth_at(
        &mut self,
        now: UtcTime,
        payload: NewPendingReauthTransaction,
        ttl_seconds: i64,
    ) -> (r: Option<()>)
        requires
            old(self).wf(),
            -MAX_DELTA_SECONDS <= ttl_seconds <= MAX_DELTA_SECONDS,
        ensures
            final(self).wf(),
            final(self).sessions() == old(self).sessions(),
            final(self).codes() == old(self).codes(),
            final(self).consents() == old(self).consents(),
            match now.plus_seconds(ttl_seconds as int) {
                None => r is None && final(self).pending() == old(self).pending(),
                Some(expires_at) => if live(old(self).pending(), now).contains_key(
                    payload.upstream_state@,
                ) {
                    r is None && final(self).pending() == live(old(self).pending(), now)
                } else {
                    r is Some && final(self).pending().contains_key(payload.upstream_state@)
                        && transaction_is(
                        final(self).pending()[payload.upstream_state@],
                        payload,
                        now,
                        expires_at,
                    ) && final(self).pending() == live(old(self).pending(), now).insert(
                        payload.upstream_state@,
                        final(self).pending()[payload.upstream_state@],
                    )
                },
            },
    {
        let expires_at = match now.checked_add_seconds(ttl_seconds) {
            Some(t) => t,
            None => return None,
        };
        self.pending_reauth.purge_expired(now);
        if self.pending_reauth.contains_key(payload.upstream_state.as_str()) {
            return None;
        }
        let transaction = PendingReauthTransaction {
            downstream: payload.downstream,
            provider_id: payload.provider_id,
            consent: payload.consent,
            upstream_state: payload.upstream_state,
            upstream_nonce: payload.upstream_nonce,
            pkce_verifier: payload.pkce_verifier,
            provider_metadata: payload.provider_metadata,
            created_at: now,
            expires_at,
        };
        self.pending_reauth.insert(transaction);
        Some(())
    }

    /// Records a re-authentication sent upstream now.
    pub fn create_pending_reauth(&mut self, payload: NewPendingReauthTransaction, ttl_seconds: i64) -> (r:
        Option<()>)
        requires
            old(self).wf(),
            -MAX_DELTA_SECONDS <= ttl_seconds <= MAX_DELTA_SECONDS,
        ensures
            final(self).wf(),
            final(self).sessions() == old(self).sessions(),
            final(self).codes() == old(self).codes(),
            final(self).consents() == old(self).consents(),
            (r is None && final(self).pending() == old(self).pending()) || (exists|now: UtcTime|
                clock_reading(now) && #[trigger] reauth_stored(
                    old(self).pending(),
                    final(self).pending(),
                    now,
                    payload,
                    ttl_seconds,
                    r,
                )),
    {
        let now = match utc_now() {
            Some(t) => t,
            None => return None,
        };
        let ghost p = payload;
        let r = self.create_pending_reauth_at(now, payload, ttl_seconds);
        assert(reauth_stored(old(self).pending(), self.pending(), now, p, ttl_seconds, r));
        r
    }

    /// Drops expired transactions, then takes the one with this upstream
    /// state if it belongs to `provider_id`. A transaction for another
    /// provider stays in place.
    pub fn consume_pending_reauth_at(
        &mut self,
        now: UtcTime,
        upstream_state: &str,
        provider_id: &str,
    ) -> (r: ConsumePendingReauth)
        requires
            old(self).wf(),
        ensures
            final(self).wf(),
            final(self).sessions() == old(self).sessions(),
            final(self).codes() == old(self).codes(),
            final(self).consents() == old(self).consents(),
            take_pending_reauth(
                old(self).pending(),
                now,
                upstream_state@,
                provider_id@,
                final(self).pending(),
                r,
            ),
    {
        self.pending_reauth.purge_expired(now);
        let matches_provider = match self.pending_reauth.get(upstream_state) {
            None => return ConsumePendingReauth::NotFound,
            Some(transaction) => str_eq(transaction.provider_id.as_str(), provider_id),
        };
        if !matches_provider {
            return ConsumePendingReauth::ProviderMismatch;
        }
        match self.pending_reauth.remove(upstream_state) {
            Some(transaction) => ConsumePendingReauth::Found(Box::new(transaction)),
            None => ConsumePendingReauth::NotFound,
        }
    }

    /// Takes the pending re-authentication with this upstream state, now.
    pub fn consume_pending_reauth(&mut self, upstream_state: &str, provider_id: &str) -> (r:
        ConsumePendingReauth)
        requires
            old(self).wf(),
        ensures
            final(self).wf(),
            final(self).sessions() == old(self).sessions(),
            final(self).codes() == old(self).codes(),
            final(self).consents() == old(self).consents(),
            (r is NotFound && final(self).pending() == old(self).pending()) || (exists|now: UtcTime|
                take_pending_reauth(
                    old(self).pending(),
                    now,
                    upstream_state@,
                    provider_id@,
                    final(self).pending(),
                    r,
                )),
    {
        let now = match utc_now() {
            Some(t) => t,
            None => return ConsumePendingReauth::NotFound,
        };
        self.consume_pending_reauth_at(now, upstream_state, provider_id)
    }

    /// Records an upstream identity awaiting consent under the id
    /// `transaction_id`, at `now`. `None`, with nothing changed, when the
    /// expiry is not representable.
    pub fn create_pending_reauth_consent_at(
        &mut self,
        now: UtcTime,
        transaction_id: String,
        payload: NewPendingReauthConsent,
        ttl_seconds: i64,
    ) -> (r: Option<String>)
        requires
            old(self).wf(),
            -MAX_DELTA_SECONDS <= ttl_seconds <= MAX_DELTA_SECONDS,
        ensures
            final(self).wf(),
            final(self).sessions() == old(self).sessions(),
            final(self).codes() == old(self).codes(),
            final(self).pending() == old(self).pending(),
            match now.plus_seconds(ttl_seconds as int) {
                None => r is None && final(self).consents() == old(self).consents(),
                Some(expires_at) => r == Some(transaction_id) && final(self).consents().contains_key(
                    transaction_id@,
                ) && consent_is(
                    final(self).consents()[transaction_id@],
                    transaction_id@,
                    payload,
                    expires_at,
                ) && final(self).consents() == live(old(self).consents(), now).insert(
                    transaction_id@,
                    final(self).consents()[transaction_id@],
                ),
            },
    {
        let expires_at = match now.checked_add_seconds(ttl_seconds) {
            Some(t) => t,
            None => return None,
        };
        let transaction = PendingReauthConsent {
            transaction_id: transaction_id.clone(),
            downstream: payload.downstream,
            user_id: payload.user_id,
            auth_context: payload.auth_context,
            expires_at,
        };
        self.pending_reauth_consents.purge_expired(now);
        self.pending_reauth_consents.insert(transaction);
        Some(transaction_id)
    }

    /// Records an upstream identity awaiting consent under a fresh random id.
    pub fn create_pending_reauth_consent(&mut self, payload: NewPendingReauthConsent, ttl_seconds: i64) -> (r:
        Option<String>)
        requires
            old(self).wf(),
            -MAX_DELTA_SECONDS <= ttl_seconds <= MAX_DELTA_SECONDS,
        ensures
            final(self).wf(),
            final(self).sessions() == old(self).sessions(),
            final(self).codes() == old(self).codes(),
            final(self).pending() == old(self).pending(),
            (r is None && final(self).consents() == old(self).consents()) || (exists|now: UtcTime, transaction_id: Seq<char>|
                clock_reading(now) && transaction_id.len() == 36 && #[trigger] consent_stored(
                    old(self).consents(),
                    final(self).consents(),
                    now,
                    transaction_id,
                    payload,
                    ttl_seconds,
                    r,
                )),
    {
        let now = match utc_now() {
            Some(t) => t,
            None => return None,
        };
        let transaction_id = match fresh_id() {
            Some(id) => id,
            None => return None,
        };
        let ghost id = transaction_id@;
        let ghost p = payload;
        let r = self.create_pending_reauth_consent_at(now, transaction_id, payload, ttl_seconds);
        assert(consent_stored(old(self).consents(), self.consents(), now, id, p, ttl_seconds, r));
        r
    }

    /// Drops expired consents and returns the live one with this id, leaving
    /// it in place.
    pub fn get_pending_reauth_consent_at(&mut self, now: UtcTime, transaction_id: &str) -> (r: Option<
        PendingReauthConsent,
    >)
        requires
            old(self).wf(),
        ensures
            final(self).wf(),
            final(self).sessions() == old(self).sessions(),
            final(self).codes() == old(self).codes(),
            final(self).pending() == old(self).pending(),
            final(self).consents() == live(old(self).consents(), now),
            r == live_entry(old(self).consents(), now, transaction_id@),
    {
        self.pending_reauth_consents.purge_expired(now);
        match self.pending_reauth_consents.get(transaction_id) {
            Some(c) => Some(c.duplicate()),
            None => None,
        }
    }

    /// Returns the live pending consent with this id, now.
    pub fn get_pending_reauth_consent(&mut self, transaction_id: &str) -> (r: Option<PendingReauthConsent>)
        requires
            old(self).wf(),
        ensures
            final(self).wf(),
            final(self).sessions() == old(self).sessions(),
            final(self).codes() == old(self).codes(),
            final(self).pending() == old(self).pending(),
            (r is None && final(self).consents() == old(self).consents()) || (exists|now: UtcTime|
                final(self).consents() == live(old(self).consents(), now) && r == live_entry(
                    old(self).consents(),
                    now,
                    transaction_id@,
                )),
    {
        let now = match utc_now() {
            Some(t) => t,
            None => return None,
        };
        self.get_pending_reauth_consent_at(now, transaction_id)
    }

    /// Drops expired consents and takes the one with this id out.
    pub fn consume_pending_reauth_consent_at(&mut self, now: UtcTime, transaction_id: &str) -> (r:
        Option<PendingReauthConsent>)
        requires
            old(self).wf(),
        ensures
            final(self).wf(),
            final(self).sessions() == old(self).sessions(),
            final(self).codes() == old(self).codes(),
            final(self).pending() == old(self).pending(),
            final(self).consents() == live(old(self).consents(), now).remove(transaction_id@),
            r == live_entry(old(self).consents(), now, transaction_id@),
    {
        self.pending_reauth_consents.purge_expired(now);
        self.pending_reauth_consents.remove(transaction_id)
    }

    /// Takes the live pending consent with this id out, now.
    pub fn consume_pending_reauth_consent(&mut self, transaction_id: &str) -> (r: Option<
        PendingReauthConsent,
    >)
        requires
            old(self).wf(),
        ensures
            final(self).wf(),
            final(self).sessions() == old(self).sessions(),
            final(self).codes() == old(self).codes(),
            final(self).pending() == old(self).pending(),
            (r is None && final(self).consents() == old(self).consents()) || (exists|now: UtcTime|
                final(self).consents() == live(old(self).consents(), now).remove(transaction_id@)
                    && r == live_entry(old(self).consents(), now, transaction_id@)),
    {
        let now = match utc_now() {
            Some(t) => t,
            None => return None,
        };
        self.consume_pending_reauth_consent_at(now, transaction_id)
    }
}

// ---------------------------------------------------------------------------
// Laws
// ---------------------------------------------------------------------------

/// An entry that has expired by `now` is never handed out at `now`.
pub proof fn lemma_expired_entries_are_not_returned<V: Expiring>(
    m: Map<Seq<char>, V>,
    now: UtcTime,
    k: Seq<char>,
)
    requires
        m.contains_key(k),
        !m[k].expiry().after(now),
    ensures
        live_entry(m, now, k) is None,
{
}

/// An entry that has not expired by `now` is handed out at `now` as stored.
pub proof fn lemma_live_entries_are_returned<V: Expiring>(m: Map<Seq<char>, V>, now: UtcTime, k: Seq<char>)
    requires
        m.contains_key(k),
        m[k].expiry().after(now),
    ensures
        live_entry(m, now, k) == Some(m[k]),
{
}

/// A session stored at creation is found by its id at any instant before it
/// expires, whatever else the store held.
pub proof fn lemma_created_session_is_found(
    m: Map<Seq<char>, Session>,
    s: Session,
    later: UtcTime,
)
    requires
        s.expires_at.after(later),
    ensures
        live_entry(m.insert(s.session_id@, s), later, s.session_id@) == Some(s),
{
}

/// An authorization code is used at most once: once a consume has taken it,
/// a later consume of the same code finds nothing.
pub proof fn lemma_authorization_code_single_use(
    m: Map<Seq<char>, AuthorizationCodeRecord>,
    first: UtcTime,
    second: UtcTime,
    code: Seq<char>,
)
    ensures
        live_entry(live(m, first).remove(code), second, code) is None,
{
}

/// The authorization-code law. Let `after_issue` be the codes after
/// `issue_authorization_code_at` stored `code` at `issued_at` for a positive
/// lifetime. A consume at `used_at`, before the code expires, hands back the
/// stored record, which carries the code and the payload's client, user,
/// redirect URI, scope, nonce, PKCE challenge and authentication context; a
/// later consume of the code, at any time, finds nothing; and a consume at or
/// after the expiry finds nothing.
pub proof fn lemma_authorization_code_law(
    before: Map<Seq<char>, AuthorizationCodeRecord>,
    after_issue: Map<Seq<char>, AuthorizationCodeRecord>,
    issued_at: UtcTime,
    code: Seq<char>,
    payload: NewAuthorizationCode,
    ttl_seconds: i64,
    used_at: UtcTime,
    later: UtcTime,
    expired_at: UtcTime,
)
    requires
        ttl_seconds > 0,
        issued_at.plus_seconds(ttl_seconds as int) matches Some(expires_at) && after_issue.contains_key(code)
            && code_record_is(after_issue[code], code, payload, expires_at) && after_issue == before.insert(
            code,
            after_issue[code],
        ),
        after_issue[code].expires_at.after(used_at),
        !after_issue[code].expires_at.after(expired_at),
    ensures
        live_entry(after_issue, used_at, code) matches Some(r) && r == after_issue[code] && code_record_is(
            r,
            code,
            payload,
            r.expires_at,
        ) && issued_at.plus_seconds(ttl_seconds as int) == Some(r.expires_at),
        live_entry(live(after_issue, used_at).remove(code), later, code) is None,
        live_entry(after_issue, expired_at, code) is None,
{
}

/// The authorization-code law for the calls that read the clock. Let
/// `issue_authorization_code` have handed back `Some(code)` for a positive
/// lifetime, and let `consume_authorization_code` of that code follow, then
/// another. The first consume hands back the record issued for the code,
/// which carries the payload's client, user, redirect URI, scope, nonce,
/// PKCE challenge and authentication context and expires `ttl_seconds`
/// after a reading of the clock; it finds nothing only when the clock could
/// not be read or read at or after that expiry. Once a consume has handed
/// the record back, the next finds nothing.
pub proof fn lemma_issued_code_law(
    before: Map<Seq<char>, AuthorizationCodeRecord>,
    after_issue: Map<Seq<char>, AuthorizationCodeRecord>,
    payload: NewAuthorizationCode,
    ttl_seconds: i64,
    issued: Option<String>,
    after_use: Map<Seq<char>, AuthorizationCodeRecord>,
    used: Option<AuthorizationCodeRecord>,
    after_again: Map<Seq<char>, AuthorizationCodeRecord>,
    again: Option<AuthorizationCodeRecord>,
)
    requires
        ttl_seconds > 0,
        code_issued(before, after_issue, payload, ttl_seconds, issued),
        issued is Some,
        code_consumed(after_issue, after_use, issued->0@, used),
        code_consumed(after_use, after_again, issued->0@, again),
    ensures
        after_issue.contains_key(issued->0@),
        code_record_is(after_issue[issued->0@], issued->0@, payload, after_issue[issued->0@].expires_at),
        exists|issued_at: UtcTime|
            clock_reading(issued_at) && #[trigger] issued_at.plus_seconds(ttl_seconds as int) == Some(
                after_issue[issued->0@].expires_at,
            ),
        used matches Some(r) ==> r == after_issue[issued->0@],
        used is None ==> after_use == after_issue || exists|now: UtcTime|
            !after_issue[issued->0@].expires_at.after(now) && #[trigger] live(after_issue, now).remove(
                issued->0@,
            ) == after_use,
        used is Some ==> again is None,
{
    let code = issued->0@;
    let (issued_at, c) = choose|now: UtcTime, c: Seq<char>|
        clock_reading(now) && c.len() == 36 && #[trigger] code_stored(
            before,
            after_issue,
            now,
            c,
            payload,
            ttl_seconds,
            issued,
        );
    assert(c == code);
    assert(issued_at.plus_seconds(ttl_seconds as int) == Some(after_issue[code].expires_at));
    if used is None && after_use != after_issue {
        let now = choose|now: UtcTime|
            after_use == live(after_issue, now).remove(code) && used == #[trigger] live_entry(
                after_issue,
                now,
                code,
            );
        assert(live(after_issue, now).remove(code) == after_use);
    }
    if used is Some {
        let now = choose|now: UtcTime|
            after_use == live(after_issue, now).remove(code) && used == #[trigger] live_entry(
                after_issue,
                now,
                code,
            );
        assert(!after_use.contains_key(code));
        if again is Some {
            let later = choose|now: UtcTime|
                after_again == live(after_use, now).remove(code) && again == #[trigger] live_entry(
                    after_use,
                    now,
                    code,
                );
            assert(!live(after_use, later).contains_key(code));
        }
    }
}

/// A pending re-authentication is bound to its provider and used at most
/// once: it is only handed out for the provider it was created for; a
/// request naming another provider leaves it in place; once handed out, a
/// later request finds nothing.
pub proof fn lemma_pending_reauth_provider_bound_single_use(
    m: Map<Seq<char>, PendingReauthTransaction>,
    now: UtcTime,
    later: UtcTime,
    state: Seq<char>,
    provider_id: Seq<char>,
    after: Map<Seq<char>, PendingReauthTransaction>,
    r: ConsumePendingReauth,
    after2: Map<Seq<char>, PendingReauthTransaction>,
    r2: ConsumePendingReauth,
)
    requires
        take_pending_reauth(m, now, state, provider_id, after, r),
    ensures
        r matches ConsumePendingReauth::Found(t) ==> t.provider_id@ == provider_id,
        r is ProviderMismatch ==> after.contains_key(state) && after[state] == m[state]
            && m[state].provider_id@ != provider_id,
        (r is Found && take_pending_reauth(after, later, state, provider_id, after2, r2))
            ==> r2 is NotFound,
{
    if let Some(t) = live_entry(m, now, state) {
        assert(t == live(m, now)[state]);
    }
}

/// A pending consent is used at most once: once a consume has taken it, a
/// later get or consume of the same id finds nothing.
pub proof fn lemma_reauth_consent_single_use(
    m: Map<Seq<char>, PendingReauthConsent>,
    first: UtcTime,
    second: UtcTime,
    id: Seq<char>,
)
    ensures
        live_entry(live(m, first).remove(id), second, id) is None,
{
}

/// A fresh random id: the hyphenated text of a version-4 UUID built from
/// 16 bytes of the system's random source; `None` when that source fails.
pub fn fresh_id() -> (r: Option<String>)
    ensures
        r matches Some(id) ==> id@.len() == 36,
{
    match random_bytes(16) {
        Some(bytes) => Some(uuid_hyphenated(bytes.as_slice())),
        None => None,
    }
}

} // verus!
