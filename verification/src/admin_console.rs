//! The administrator console: what it shows of clients, its own sessions and
//! cookie, the sign-in rate limit, and the decisions of its sign-in, sign-out
//! and page requests. Pages are rendered and accounts are read by the server.

use vstd::prelude::*;

use crate::admins::AdminRecord;
use crate::auth::live_entry;
use crate::bindings::utc_now;
use crate::store::{live, Expiring, ExpiringStore};
use crate::text::opt_seq;
use crate::time::{UtcTime, MAX_DELTA_SECONDS};
use crate::bindings::{
    base64url, base64url_encode, form_urlencode, form_urlencoded, lowercase, pair_views,
    random_bytes, to_lowercase,
};
use crate::config::{ClientAuthMode, ClientConfig, ConsentMode, ReAuthConsent, SigningAlgorithm};
use crate::text::{
    concat, concat3, contains, copy_strings, join, join_strings, split_at_char, split_char, split_once,
    split_once_char, str_chars, str_contains, str_eq, str_starts_with, starts_with,
    string_from_chars, trim, trim_str, views,
};
use crate::token::{nat_text, u64_text};
use crate::upstream::constant_time_eq;

verus! {

// ---------------------------------------------------------------------------
// Client summaries
// ---------------------------------------------------------------------------

/// What the console shows of a client. Secrets and metadata are left out.
#[derive(Debug)]
pub struct ClientSummary {
    pub id: String,
    pub enabled: bool,
    pub mode: &'static str,
    pub scopes: Vec<String>,
    pub audience: Option<String>,
    pub redirects: Vec<String>,
    pub pkce: bool,
    pub consent: &'static str,
    pub trusted: Option<String>,
    pub upstream_scopes: Vec<String>,
    pub algorithm: Option<String>,
    pub lifetime: Option<u64>,
}

/// The authentication mode's label.
pub open spec fn mode_label(c: ClientConfig) -> Seq<char> {
    if c.auth_mode == ClientAuthMode::ReAuth {
        "Upstream"@
    } else {
        "Local"@
    }
}

/// The consent setting's label.
pub open spec fn consent_label(c: ClientConfig) -> Seq<char> {
    if c.auth_mode == ClientAuthMode::ReAuth {
        match c.re_auth {
            Some(r) => if r.consent == ReAuthConsent::Skip {
                "Skip local consent"@
            } else {
                "Show local consent"@
            },
            None => "Show local consent"@,
        }
    } else if c.consent_mode == ConsentMode::Skip {
        "Skip consent"@
    } else {
        "Always show consent"@
    }
}

/// `s` summarizes `c`.
pub open spec fn summarizes(s: ClientSummary, c: ClientConfig) -> bool {
    let upstream = c.auth_mode == ClientAuthMode::ReAuth;
    &&& s.id@ == c.client_id@
    &&& s.enabled == c.enabled
    &&& s.mode@ == mode_label(c)
    &&& s.scopes@ == c.scopes@
    &&& s.audience == c.audience
    &&& s.redirects@ == c.redirect_uris@
    &&& s.pkce == c.require_pkce
    &&& s.consent@ == consent_label(c)
    &&& s.trusted == (if upstream {
        match c.re_auth {
            Some(r) => Some(r.provider_id),
            None => None,
        }
    } else {
        None
    })
    &&& s.upstream_scopes@ == (if upstream {
        match c.re_auth {
            Some(r) => r.upstream_scopes@,
            None => Seq::empty(),
        }
    } else {
        Seq::empty()
    })
    &&& match c.signing_algorithm {
        Some(a) => s.algorithm matches Some(t) && t@ == a.name(),
        None => s.algorithm is None,
    }
    &&& s.lifetime == c.token_ttl_seconds
}

impl ClientSummary {
    /// The summary of a configured client.
    pub fn from(c: &ClientConfig) -> (r: ClientSummary)
        ensures
            summarizes(r, *c),
    {
        let upstream = c.auth_mode == ClientAuthMode::ReAuth;
        let mode: &'static str = if upstream {
            "Upstream"
        } else {
            "Local"
        };
        let consent: &'static str = if upstream {
            match &c.re_auth {
                Some(r) => if r.consent == ReAuthConsent::Skip {
                    "Skip local consent"
                } else {
                    "Show local consent"
                },
                None => "Show local consent",
            }
        } else if c.consent_mode == ConsentMode::Skip {
            "Skip consent"
        } else {
            "Always show consent"
        };
        let trusted = if upstream {
            match &c.re_auth {
                Some(r) => Some(r.provider_id.clone()),
                None => None,
            }
        } else {
            None
        };
        let upstream_scopes = if upstream {
            match &c.re_auth {
                Some(r) => copy_strings(r.upstream_scopes.as_slice()),
                None => Vec::new(),
            }
        } else {
            Vec::new()
        };
        let algorithm = match c.signing_algorithm {
            Some(a) => Some(a.as_str().to_owned()),
            None => None,
        };
        let audience = match &c.audience {
            Some(a) => Some(a.clone()),
            None => None,
        };
        ClientSummary {
            id: c.client_id.clone(),
            enabled: c.enabled,
            mode,
            scopes: copy_strings(c.scopes.as_slice()),
            audience,
            redirects: copy_strings(c.redirect_uris.as_slice()),
            pkce: c.require_pkce,
            consent,
            trusted,
            upstream_scopes,
            algorithm,
            lifetime: c.token_ttl_seconds,
        }
    }
}

/// The summaries of the configured clients, in order.
pub fn summarize_clients(clients: &[ClientConfig]) -> (r: Vec<ClientSummary>)
    ensures
        r@.len() == clients@.len(),
        forall|i: int| 0 <= i < r@.len() ==> summarizes(#[trigger] r@[i], clients@[i]),
{
    let mut r: Vec<ClientSummary> = Vec::new();
    for i in 0..clients.len()
        invariant
            r@.len() == i,
            forall|j: int| 0 <= j < i ==> summarizes(#[trigger] r@[j], clients@[j]),
    {
        r.push(ClientSummary::from(&clients[i]));
    }
    r
}

// ---------------------------------------------------------------------------
// Request values
// ---------------------------------------------------------------------------

/// A page's search text and selected item.
#[derive(Debug)]
pub struct Selection {
    pub q: String,
    pub id: Option<String>,
}

/// Whether the form's anti-forgery token is the session's, compared in
/// constant time.
pub fn csrf_matches(expected: &str, actual: &str) -> (r: bool)
    ensures
        r == (expected@ == actual@),
{
    constant_time_eq(expected, actual)
}

/// The name of the console's session cookie.
pub open spec fn admin_cookie_name() -> Seq<char> {
    "pocket_oid_admin"@
}

/// The console's session token among the entries of a `Cookie` header: the
/// value of the first entry named `pocket_oid_admin`.
pub open spec fn admin_cookie_entry(entries: Seq<Seq<char>>) -> Option<Seq<char>>
    decreases entries.len(),
{
    if entries.len() == 0 {
        None
    } else {
        match split_once(trim(entries[0]), '=') {
            Some((name, value)) => if name == admin_cookie_name() {
                Some(value)
            } else {
                admin_cookie_entry(entries.drop_first())
            },
            None => admin_cookie_entry(entries.drop_first()),
        }
    }
}

/// The console's session token in a `Cookie` header.
pub open spec fn admin_token(cookie_header: Option<Seq<char>>) -> Option<Seq<char>> {
    match cookie_header {
        Some(c) => admin_cookie_entry(split_at_char(c, ';')),
        None => None,
    }
}

pub open spec fn opt_str(o: Option<&str>) -> Option<Seq<char>> {
    match o {
        Some(s) => Some(s@),
        None => None,
    }
}

/// Reads the console's session token from a `Cookie` header.
pub fn cookie(cookie_header: Option<&str>) -> (r: Option<String>)
    ensures
        crate::text::opt_seq(r) == admin_token(opt_str(cookie_header)),
{
    let header = match cookie_header {
        Some(c) => c,
        None => return None,
    };
    let entries = split_char(header, ';');
    assert(views(entries@).skip(0) =~= views(entries@));
    for i in 0..entries.len()
        invariant
            cookie_header == Some(header),
            views(entries@) == split_at_char(header@, ';'),
            admin_cookie_entry(views(entries@).skip(i as int)) == admin_cookie_entry(views(entries@)),
    {
        let ghost rest = views(entries@).skip(i as int);
        proof {
            assert(rest[0] == entries@[i as int]@);
            assert(rest.drop_first() =~= views(entries@).skip(i + 1));
        }
        let trimmed = trim_str(entries[i].as_str());
        match split_once_char(trimmed.as_str(), '=') {
            Some((name, value)) => {
                if str_eq(name.as_str(), "pocket_oid_admin") {
                    return Some(value);
                }
            },
            None => {},
        }
    }
    assert(views(entries@).skip(entries@.len() as int) =~= Seq::<Seq<char>>::empty());
    None
}

/// The `Set-Cookie` value for a console session: scoped to `/admin`, hidden
/// from scripts, same-site only, kept for an hour (or cleared), and marked
/// secure when the issuer is served over HTTPS.
pub open spec fn admin_cookie_text(token: Seq<char>, issuer: Seq<char>, clear: bool) -> Seq<char> {
    admin_cookie_name() + "="@ + token + "; Path=/admin; HttpOnly; SameSite=Strict; Max-Age="@ + (
    if clear {
        "0"@
    } else {
        "3600"@
    }) + (if starts_with(issuer, "https://"@) {
        "; Secure"@
    } else {
        ""@
    })
}

/// Builds the console's `Set-Cookie` value.
pub fn admin_cookie(token: &str, issuer: &str, clear: bool) -> (r: String)
    ensures
        r@ == admin_cookie_text(token@, issuer@, clear),
{
    let named = concat("pocket_oid_admin", "=");
    let with_token = concat(named.as_str(), token);
    let head = concat(with_token.as_str(), "; Path=/admin; HttpOnly; SameSite=Strict; Max-Age=");
    let age = if clear {
        concat(head.as_str(), "0")
    } else {
        concat(head.as_str(), "3600")
    };
    if str_starts_with(issuer, "https://") {
        concat(age.as_str(), "; Secure")
    } else {
        proof {
            reveal_strlit("");
        }
        assert(age@ + ""@ =~= age@);
        age
    }
}

/// A fresh session or form token: 32 random bytes in unpadded base64url.
pub fn random_token() -> (r: Result<String, String>)
    ensures
        match r {
            Ok(t) => exists|b: Seq<u8>| b.len() == 32 && t@ == #[trigger] base64url(b),
            Err(m) => m@ == "random number generation failed"@,
        },
{
    match random_bytes(32) {
        Some(bytes) => {
            let t = base64url_encode(bytes.as_slice());
            assert(t@ == base64url(bytes@));
            Ok(t)
        },
        None => Err("random number generation failed".to_owned()),
    }
}


// ---------------------------------------------------------------------------
// Sessions and the sign-in limit
// ---------------------------------------------------------------------------

/// The most console sessions kept at once.
pub const ADMIN_SESSION_CAPACITY: usize = 4096;

/// How long a signed-in console session lasts, in seconds.
pub const ADMIN_SESSION_TTL_SECONDS: i64 = 3600;

/// How long a sign-in form's session lasts, in seconds.
pub const SIGN_IN_TTL_SECONDS: i64 = 600;

/// The most sign-in attempts accepted within the window.
pub const SIGN_IN_LIMIT: usize = 30;

/// The sign-in window, in seconds.
pub const SIGN_IN_WINDOW_SECONDS: i64 = 60;

/// A console session: its token, its form token, the administrator once
/// signed in, and when it expires.
#[derive(Debug)]
pub struct AdminSession {
    pub token: String,
    pub csrf: String,
    pub admin_id: Option<String>,
    pub expires_at: UtcTime,
}

impl AdminSession {
    pub fn duplicate(&self) -> (r: Self)
        ensures
            r == *self,
    {
        AdminSession {
            token: self.token.clone(),
            csrf: self.csrf.clone(),
            admin_id: crate::text::clone_opt(&self.admin_id),
            expires_at: self.expires_at,
        }
    }
}

impl Expiring for AdminSession {
    open spec fn key_view(&self) -> Seq<char> {
        self.token@
    }

    open spec fn expiry(&self) -> UtcTime {
        self.expires_at
    }

    fn key(&self) -> (k: &str) {
        self.token.as_str()
    }

    fn expires_at(&self) -> (t: UtcTime) {
        self.expires_at
    }
}

/// An attempt at `at` still counts at `now`: less than the window has passed.
pub open spec fn recent(at: UtcTime, now: UtcTime) -> bool {
    at.secs + SIGN_IN_WINDOW_SECONDS > now.secs || (at.secs + SIGN_IN_WINDOW_SECONDS == now.secs
        && at.nanos > now.nanos)
}

/// The attempts that still count at `now`, in order.
pub open spec fn recent_attempts(attempts: Seq<UtcTime>, now: UtcTime) -> Seq<UtcTime> {
    attempts.filter(|at: UtcTime| recent(at, now))
}

/// A sign-in attempt at `now`: whether it is allowed, and the attempts kept
/// afterwards. Only an allowed attempt is recorded.
pub open spec fn sign_in_step(attempts: Seq<UtcTime>, now: UtcTime) -> (bool, Seq<UtcTime>) {
    let kept = recent_attempts(attempts, now);
    if kept.len() >= SIGN_IN_LIMIT {
        (false, kept)
    } else {
        (true, kept.push(now))
    }
}

/// The lifetime of a new session: an hour once signed in, ten minutes for a
/// sign-in form.
pub open spec fn session_ttl(admin_id: Option<String>) -> int {
    if admin_id is Some {
        ADMIN_SESSION_TTL_SECONDS as int
    } else {
        SIGN_IN_TTL_SECONDS as int
    }
}

/// What creating a session at `now` with these tokens does to the sessions
/// `before`: first expired sessions are dropped; then, if the console is
/// below capacity and the expiry is representable, the session is added and
/// its tokens returned.
pub open spec fn session_created(
    before: Map<Seq<char>, AdminSession>,
    now: UtcTime,
    admin_id: Option<String>,
    fresh: Option<(String, String)>,
    r: Result<(String, String), String>,
    after: Map<Seq<char>, AdminSession>,
) -> bool {
    let kept = live(before, now);
    match fresh {
        None => r matches Err(m) && m@ == "random number generation failed"@ && after == before,
        Some((token, csrf)) => if kept.dom().len() >= ADMIN_SESSION_CAPACITY {
            r matches Err(m) && m@ == "administrator session capacity reached"@ && after == kept
        } else {
            match now.plus_seconds(session_ttl(admin_id)) {
                None => r matches Err(m) && m@ == "administrator session expiry is out of range"@
                    && after == kept,
                Some(expires_at) => r == Ok::<(String, String), String>((token, csrf)) && after
                    == kept.insert(
                    token@,
                    AdminSession { token, csrf, admin_id, expires_at },
                ),
            }
        },
    }
}

/// The session a request's cookie names, and the sessions after the lookup:
/// expired sessions are dropped when there is a cookie to look up.
pub open spec fn looked_up(
    before: Map<Seq<char>, AdminSession>,
    now: UtcTime,
    cookie_header: Option<Seq<char>>,
) -> (Map<Seq<char>, AdminSession>, Option<AdminSession>) {
    match admin_token(cookie_header) {
        None => (before, None),
        Some(t) => (live(before, now), live_entry(before, now, t)),
    }
}

/// The console's state: whether administrator accounts are configured, the
/// client summaries, the sessions and the recent sign-in attempts.
pub struct AdminConsole {
    pub configured: bool,
    pub clients: Vec<ClientSummary>,
    sessions: ExpiringStore<AdminSession>,
    attempts: Vec<UtcTime>,
}

impl AdminConsole {
    /// Sessions have distinct tokens and at most `SIGN_IN_LIMIT` attempts
    /// are kept.
    pub closed spec fn wf(&self) -> bool {
        self.sessions.wf() && self.attempts@.len() <= SIGN_IN_LIMIT
    }

    /// The sessions by token.
    pub closed spec fn sessions(&self) -> Map<Seq<char>, AdminSession> {
        self.sessions@
    }

    /// The recorded sign-in attempts, oldest first.
    pub closed spec fn attempts(&self) -> Seq<UtcTime> {
        self.attempts@
    }

    /// Whether administrator accounts are configured.
    pub closed spec fn is_configured(&self) -> bool {
        self.configured
    }

    /// The client summaries.
    pub closed spec fn client_summaries(&self) -> Seq<ClientSummary> {
        self.clients@
    }

    pub open spec fn same_settings(&self, other: &AdminConsole) -> bool {
        self.is_configured() == other.is_configured() && self.client_summaries() == other.client_summaries()
    }

    /// A well-formed console holds finitely many sessions.
    pub proof fn lemma_sessions_finite(&self)
        requires
            self.wf(),
        ensures
            self.sessions().dom().finite(),
    {
        self.sessions.lemma_finite();
    }

    /// A console with no sessions or attempts, summarizing the configured
    /// clients; `configured` tells whether administrator accounts exist.
    pub fn load(configured: bool, clients: &[ClientConfig]) -> (r: AdminConsole)
        ensures
            r.wf(),
            r.is_configured() == configured,
            r.sessions() == Map::<Seq<char>, AdminSession>::empty(),
            r.attempts() == Seq::<UtcTime>::empty(),
            r.client_summaries().len() == clients@.len(),
            forall|i: int|
                0 <= i < clients@.len() ==> summarizes(#[trigger] r.client_summaries()[i], clients@[i]),
    {
        AdminConsole {
            configured,
            clients: summarize_clients(clients),
            sessions: ExpiringStore::new(),
            attempts: Vec::new(),
        }
    }

    /// The live session with this token; expired sessions are dropped.
    pub fn session_at(&mut self, now: UtcTime, token: &str) -> (r: Option<AdminSession>)
        requires
            old(self).wf(),
        ensures
            final(self).wf(),
            final(self).same_settings(old(self)),
            final(self).attempts() == old(self).attempts(),
            final(self).sessions() == live(old(self).sessions(), now),
            r == live_entry(old(self).sessions(), now, token@),
    {
        self.sessions.purge_expired(now);
        match self.sessions.get(token) {
            Some(s) => Some(s.duplicate()),
            None => None,
        }
    }

    /// The session a request's cookie names, if it is live.
    pub fn cookie_session_at(&mut self, now: UtcTime, cookie_header: Option<&str>) -> (r: Option<AdminSession>)
        requires
            old(self).wf(),
        ensures
            final(self).wf(),
            final(self).same_settings(old(self)),
            final(self).attempts() == old(self).attempts(),
            (final(self).sessions(), r) == looked_up(old(self).sessions(), now, opt_str(cookie_header)),
    {
        match cookie(cookie_header) {
            Some(token) => self.session_at(now, token.as_str()),
            None => None,
        }
    }

    /// Creates a session at `now` with the tokens `fresh` (`None` when they
    /// could not be drawn).
    pub fn new_session_at(
        &mut self,
        now: UtcTime,
        admin_id: Option<String>,
        fresh: Option<(String, String)>,
    ) -> (r: Result<(String, String), String>)
        requires
            old(self).wf(),
        ensures
            final(self).wf(),
            final(self).same_settings(old(self)),
            final(self).attempts() == old(self).attempts(),
            session_created(old(self).sessions(), now, admin_id, fresh, r, final(self).sessions()),
    {
        let (token, csrf) = match fresh {
            Some(pair) => pair,
            None => return Err("random number generation failed".to_owned()),
        };
        self.sessions.purge_expired(now);
        if self.sessions.len() >= ADMIN_SESSION_CAPACITY {
            return Err("administrator session capacity reached".to_owned());
        }
        let ttl: i64 = if admin_id.is_some() {
            ADMIN_SESSION_TTL_SECONDS
        } else {
            SIGN_IN_TTL_SECONDS
        };
        let expires_at = match now.checked_add_seconds(ttl) {
            Some(t) => t,
            None => return Err("administrator session expiry is out of range".to_owned()),
        };
        let session = AdminSession { token: token.clone(), csrf: csrf.clone(), admin_id, expires_at };
        self.sessions.insert(session);
        Ok((token, csrf))
    }

    /// Removes the session with this token.
    pub fn remove_session(&mut self, token: &str)
        requires
            old(self).wf(),
        ensures
            final(self).wf(),
            final(self).same_settings(old(self)),
            final(self).attempts() == old(self).attempts(),
            final(self).sessions() == old(self).sessions().remove(token@),
    {
        let _ = self.sessions.remove(token);
    }

    /// Records a sign-in attempt at `now` if fewer than `SIGN_IN_LIMIT`
    /// attempts were made within the last minute; answers whether it was
    /// allowed.
    pub fn sign_in_allowed_at(&mut self, now: UtcTime) -> (r: bool)
        requires
            old(self).wf(),
        ensures
            final(self).wf(),
            final(self).same_settings(old(self)),
            final(self).sessions() == old(self).sessions(),
            (r, final(self).attempts()) == sign_in_step(old(self).attempts(), now),
    {
        let ghost before = self.attempts@;
        let mut kept: Vec<UtcTime> = Vec::new();
        for i in 0..self.attempts.len()
            invariant
                before == self.attempts@,
                kept@ == recent_attempts(before.take(i as int), now),
        {
            let at = self.attempts[i];
            proof {
                assert(before.take(i + 1).drop_last() =~= before.take(i as int));
                reveal(Seq::filter);
            }
            if (at.secs as i128) + (SIGN_IN_WINDOW_SECONDS as i128) > (now.secs as i128) || ((
            at.secs as i128) + (SIGN_IN_WINDOW_SECONDS as i128) == (now.secs as i128) && at.nanos
                > now.nanos) {
                kept.push(at);
            }
        }
        assert(before.take(before.len() as int) =~= before);
        proof {
            before.lemma_filter_len(|at: UtcTime| recent(at, now));
        }
        if kept.len() >= SIGN_IN_LIMIT {
            self.attempts = kept;
            false
        } else {
            kept.push(now);
            self.attempts = kept;
            true
        }
    }
}


// ---------------------------------------------------------------------------
// Request decisions
// ---------------------------------------------------------------------------

/// What the console answers a request with.
#[derive(Debug)]
pub enum ConsoleReply {
    /// The sign-in page with this status, form token and message, setting a
    /// session cookie when one is given.
    LoginPage { status: u16, csrf: String, message: Option<String>, set_cookie: Option<String> },
    /// A redirect, setting a session cookie when one is given.
    Redirect { location: String, set_cookie: Option<String> },
    /// `503 Service Unavailable`: the console cannot answer now.
    Unavailable,
    /// `403 Forbidden` with no body.
    Forbidden,
}

pub enum ConsoleReplyView {
    LoginPage(u16, Seq<char>, Option<Seq<char>>, Option<Seq<char>>),
    Redirect(Seq<char>, Option<Seq<char>>),
    Unavailable,
    Forbidden,
}

impl View for ConsoleReply {
    type V = ConsoleReplyView;

    open spec fn view(&self) -> ConsoleReplyView {
        match self {
            ConsoleReply::LoginPage { status, csrf, message, set_cookie } => ConsoleReplyView::LoginPage(
                *status,
                csrf@,
                opt_seq(*message),
                opt_seq(*set_cookie),
            ),
            ConsoleReply::Redirect { location, set_cookie } => ConsoleReplyView::Redirect(
                location@,
                opt_seq(*set_cookie),
            ),
            ConsoleReply::Unavailable => ConsoleReplyView::Unavailable,
            ConsoleReply::Forbidden => ConsoleReplyView::Forbidden,
        }
    }
}

/// Whether a console page may be shown, as far as the session decides.
#[derive(Debug)]
pub enum Access {
    /// No signed-in session: the browser goes to the sign-in page.
    SignIn,
    /// Administrator accounts are not configured.
    Unavailable,
    /// A signed-in session of this administrator, whose account must still
    /// be enabled.
    Check { admin_id: String, csrf: String },
}

/// The access a request's session gives.
pub open spec fn access_of(configured: bool, session: Option<AdminSession>) -> Access {
    match session {
        None => Access::SignIn,
        Some(s) => match s.admin_id {
            None => Access::SignIn,
            Some(id) => if configured {
                Access::Check { admin_id: id, csrf: s.csrf }
            } else {
                Access::Unavailable
            },
        },
    }
}

/// The message of the sign-in page when accounts are not configured.
pub open spec fn not_configured_message() -> Seq<char> {
    "Administrator access is not configured. Configure admins.json and create an administrator with the CLI."@
}

/// The message of a sign-in form whose session is gone or whose token is wrong.
pub open spec fn expired_form_message() -> Seq<char> {
    "This sign-in form expired. Reload the page and try again."@
}

/// The message while both verification slots are busy.
pub open spec fn busy_message() -> Seq<char> {
    "Please wait a moment before trying again."@
}

/// The message once the sign-in limit is reached.
pub open spec fn throttled_message() -> Seq<char> {
    "Too many sign-in attempts. Try again in a minute."@
}

/// The message of a refused sign-in.
pub open spec fn invalid_credentials_message() -> Seq<char> {
    "Invalid administrator username or password."@
}

/// The sign-in page, as the console answers `GET /admin/login`.
pub open spec fn login_page_reply(
    before: AdminConsole,
    after: AdminConsole,
    now: UtcTime,
    cookie_header: Option<Seq<char>>,
    authorized: bool,
    fresh: Option<(String, String)>,
    issuer: Seq<char>,
    r: ConsoleReplyView,
) -> bool {
    if authorized {
        r == ConsoleReplyView::Redirect("/admin/clients"@, None) && after.sessions() == before.sessions()
    } else if !before.is_configured() {
        r == ConsoleReplyView::LoginPage(503, Seq::empty(), Some(not_configured_message()), None)
            && after.sessions() == before.sessions()
    } else {
        let (m, found) = looked_up(before.sessions(), now, cookie_header);
        match found {
            Some(s) if s.admin_id is None => r == ConsoleReplyView::LoginPage(200, s.csrf@, None, None)
                && after.sessions() == m,
            _ => exists|created: Result<(String, String), String>|
                #[trigger] session_created(m, now, None, fresh, created, after.sessions()) && match created {
                    Ok((token, csrf)) => r == ConsoleReplyView::LoginPage(
                        200,
                        csrf@,
                        None,
                        Some(admin_cookie_text(token@, issuer, false)),
                    ),
                    Err(_) => r == ConsoleReplyView::Unavailable,
                },
        }
    }
}

/// The first half of `POST /admin/login`: the form must come from a live
/// sign-in session with the same form token; then the attempt is counted,
/// and it proceeds when a verification slot is free, the limit allows it
/// and accounts are configured.
#[derive(Debug)]
pub enum LoginStart {
    /// The answer, without checking the password.
    Reply(ConsoleReply),
    /// Check the password; `csrf` is the form token for a page shown after.
    Verify { csrf: String },
}

pub open spec fn login_start(
    before: AdminConsole,
    after: AdminConsole,
    now: UtcTime,
    cookie_header: Option<Seq<char>>,
    form_csrf: Seq<char>,
    slot_free: bool,
    r: LoginStart,
) -> bool {
    let (m, found) = looked_up(before.sessions(), now, cookie_header);
    &&& after.sessions() == m
    &&& match found {
        Some(s) if s.admin_id is None && s.csrf@ == form_csrf => {
            let (allowed, attempts) = sign_in_step(before.attempts(), now);
            &&& after.attempts() == attempts
            &&& if !slot_free {
                r matches LoginStart::Reply(x) && x@ == ConsoleReplyView::LoginPage(
                    429,
                    s.csrf@,
                    Some(busy_message()),
                    None,
                )
            } else if !allowed {
                r matches LoginStart::Reply(x) && x@ == ConsoleReplyView::LoginPage(
                    429,
                    s.csrf@,
                    Some(throttled_message()),
                    None,
                )
            } else if !before.is_configured() {
                r matches LoginStart::Reply(x) && x@ == ConsoleReplyView::Unavailable
            } else {
                r matches LoginStart::Verify { csrf } && csrf@ == s.csrf@
            }
        },
        _ => {
            &&& after.attempts() == before.attempts()
            &&& r matches LoginStart::Reply(x) && x@ == ConsoleReplyView::LoginPage(
                403,
                Seq::empty(),
                Some(expired_form_message()),
                None,
            )
        },
    }
}

/// The second half of `POST /admin/login`, given what checking the password
/// gave (`None` when the account could not be read): a signed-in session
/// replaces the browser's sign-in session, or the form is shown again.
pub open spec fn login_finish(
    before: AdminConsole,
    after: AdminConsole,
    now: UtcTime,
    cookie_header: Option<Seq<char>>,
    csrf: Seq<char>,
    outcome: Option<Option<AdminRecord>>,
    fresh: Option<(String, String)>,
    issuer: Seq<char>,
    r: ConsoleReplyView,
) -> bool {
    &&& after.attempts() == before.attempts()
    &&& match outcome {
        Some(Some(admin)) => exists|created: Result<(String, String), String>, m: Map<Seq<char>, AdminSession>|
            #[trigger] session_created(before.sessions(), now, Some(admin.id), fresh, created, m) && match created {
                Ok((token, _)) => {
                    &&& r == ConsoleReplyView::Redirect(
                        "/admin/clients"@,
                        Some(admin_cookie_text(token@, issuer, false)),
                    )
                    &&& after.sessions() == match admin_token(cookie_header) {
                        Some(old_token) => m.remove(old_token),
                        None => m,
                    }
                },
                Err(_) => r == ConsoleReplyView::Unavailable && after.sessions() == m,
            },
        Some(None) => r == ConsoleReplyView::LoginPage(401, csrf, Some(invalid_credentials_message()), None)
            && after.sessions() == before.sessions(),
        None => r == ConsoleReplyView::Unavailable && after.sessions() == before.sessions(),
    }
}

/// `POST /admin/logout`: a live session whose form token matches is ended
/// and its cookie cleared.
pub open spec fn logout_reply(
    before: AdminConsole,
    after: AdminConsole,
    now: UtcTime,
    cookie_header: Option<Seq<char>>,
    form_csrf: Seq<char>,
    issuer: Seq<char>,
    r: ConsoleReplyView,
) -> bool {
    match admin_token(cookie_header) {
        None => r == ConsoleReplyView::Redirect("/admin/login"@, None) && after.sessions() == before.sessions(),
        Some(token) => {
            let m = live(before.sessions(), now);
            match live_entry(before.sessions(), now, token) {
                None => r == ConsoleReplyView::Redirect("/admin/login"@, None) && after.sessions() == m,
                Some(s) => if s.csrf@ != form_csrf {
                    r == ConsoleReplyView::Forbidden && after.sessions() == m
                } else {
                    r == ConsoleReplyView::Redirect(
                        "/admin/login"@,
                        Some(admin_cookie_text(Seq::empty(), issuer, true)),
                    ) && after.sessions() == m.remove(token)
                },
            }
        },
    }
}

impl AdminConsole {
    /// What a request's session allows.
    pub fn access_at(&mut self, now: UtcTime, cookie_header: Option<&str>) -> (r: Access)
        requires
            old(self).wf(),
        ensures
            final(self).wf(),
            final(self).same_settings(old(self)),
            final(self).attempts() == old(self).attempts(),
            final(self).sessions() == looked_up(old(self).sessions(), now, opt_str(cookie_header)).0,
            r == access_of(old(self).is_configured(), looked_up(old(self).sessions(), now, opt_str(cookie_header)).1),
    {
        let session = self.cookie_session_at(now, cookie_header);
        match session {
            None => Access::SignIn,
            Some(s) => match s.admin_id {
                None => Access::SignIn,
                Some(id) => if self.configured {
                    Access::Check { admin_id: id, csrf: s.csrf }
                } else {
                    Access::Unavailable
                },
            },
        }
    }

    /// Answers `GET /admin/login` at `now`; `authorized` tells whether the
    /// request already has a signed-in session of an enabled administrator.
    pub fn login_page_at(
        &mut self,
        now: UtcTime,
        cookie_header: Option<&str>,
        authorized: bool,
        fresh: Option<(String, String)>,
        issuer: &str,
    ) -> (r: ConsoleReply)
        requires
            old(self).wf(),
        ensures
            final(self).wf(),
            final(self).same_settings(old(self)),
            final(self).attempts() == old(self).attempts(),
            login_page_reply(*old(self), *final(self), now, opt_str(cookie_header), authorized, fresh, issuer@, r@),
    {
        if authorized {
            return ConsoleReply::Redirect { location: "/admin/clients".to_owned(), set_cookie: None };
        }
        if !self.configured {
            return ConsoleReply::LoginPage {
                status: 503,
                csrf: String::new(),
                message: Some(
                    "Administrator access is not configured. Configure admins.json and create an administrator with the CLI.".to_owned(),
                ),
                set_cookie: None,
            };
        }
        let found = self.cookie_session_at(now, cookie_header);
        match found {
            Some(s) => {
                if s.admin_id.is_none() {
                    return ConsoleReply::LoginPage { status: 200, csrf: s.csrf, message: None, set_cookie: None };
                }
            },
            None => {},
        }
        let ghost m = self.sessions();
        let created = self.new_session_at(now, None, fresh);
        assert(session_created(m, now, None, fresh, created, self.sessions()));
        match created {
            Ok((token, csrf)) => {
                let cookie_value = admin_cookie(token.as_str(), issuer, false);
                ConsoleReply::LoginPage { status: 200, csrf, message: None, set_cookie: Some(cookie_value) }
            },
            Err(_) => ConsoleReply::Unavailable,
        }
    }

    /// The first half of `POST /admin/login` at `now`; `slot_free` tells
    /// whether a password verification may start.
    pub fn begin_login_at(
        &mut self,
        now: UtcTime,
        cookie_header: Option<&str>,
        form_csrf: &str,
        slot_free: bool,
    ) -> (r: LoginStart)
        requires
            old(self).wf(),
        ensures
            final(self).wf(),
            final(self).same_settings(old(self)),
            login_start(*old(self), *final(self), now, opt_str(cookie_header), form_csrf@, slot_free, r),
    {
        let found = self.cookie_session_at(now, cookie_header);
        let session = match found {
            Some(s) => {
                if s.admin_id.is_none() && csrf_matches(s.csrf.as_str(), form_csrf) {
                    s
                } else {
                    return LoginStart::Reply(
                        ConsoleReply::LoginPage {
                            status: 403,
                            csrf: String::new(),
                            message: Some("This sign-in form expired. Reload the page and try again.".to_owned()),
                            set_cookie: None,
                        },
                    );
                }
            },
            None => {
                return LoginStart::Reply(
                    ConsoleReply::LoginPage {
                        status: 403,
                        csrf: String::new(),
                        message: Some("This sign-in form expired. Reload the page and try again.".to_owned()),
                        set_cookie: None,
                    },
                );
            },
        };
        let allowed = self.sign_in_allowed_at(now);
        if !slot_free {
            return LoginStart::Reply(
                ConsoleReply::LoginPage {
                    status: 429,
                    csrf: session.csrf,
                    message: Some("Please wait a moment before trying again.".to_owned()),
                    set_cookie: None,
                },
            );
        }
        if !allowed {
            return LoginStart::Reply(
                ConsoleReply::LoginPage {
                    status: 429,
                    csrf: session.csrf,
                    message: Some("Too many sign-in attempts. Try again in a minute.".to_owned()),
                    set_cookie: None,
                },
            );
        }
        if !self.configured {
            return LoginStart::Reply(ConsoleReply::Unavailable);
        }
        LoginStart::Verify { csrf: session.csrf }
    }

    /// The second half of `POST /admin/login` at `now`.
    pub fn finish_login_at(
        &mut self,
        now: UtcTime,
        cookie_header: Option<&str>,
        csrf: String,
        outcome: Option<Option<AdminRecord>>,
        fresh: Option<(String, String)>,
        issuer: &str,
    ) -> (r: ConsoleReply)
        requires
            old(self).wf(),
        ensures
            final(self).wf(),
            final(self).same_settings(old(self)),
            login_finish(*old(self), *final(self), now, opt_str(cookie_header), csrf@, outcome, fresh, issuer@, r@),
    {
        match outcome {
            Some(Some(admin)) => {
                let ghost before = self.sessions();
                let created = self.new_session_at(now, Some(admin.id), fresh);
                let ghost m = self.sessions();
                match created {
                    Ok((token, _)) => {
                        match cookie(cookie_header) {
                            Some(old_token) => self.remove_session(old_token.as_str()),
                            None => {},
                        }
                        let cookie_value = admin_cookie(token.as_str(), issuer, false);
                        ConsoleReply::Redirect { location: "/admin/clients".to_owned(), set_cookie: Some(cookie_value) }
                    },
                    Err(_) => ConsoleReply::Unavailable,
                }
            },
            Some(None) => ConsoleReply::LoginPage {
                status: 401,
                csrf,
                message: Some("Invalid administrator username or password.".to_owned()),
                set_cookie: None,
            },
            None => ConsoleReply::Unavailable,
        }
    }

    /// Answers `POST /admin/logout` at `now`.
    pub fn logout_at(&mut self, now: UtcTime, cookie_header: Option<&str>, form_csrf: &str, issuer: &str) -> (r:
        ConsoleReply)
        requires
            old(self).wf(),
        ensures
            final(self).wf(),
            final(self).same_settings(old(self)),
            final(self).attempts() == old(self).attempts(),
            logout_reply(*old(self), *final(self), now, opt_str(cookie_header), form_csrf@, issuer@, r@),
    {
        let token = match cookie(cookie_header) {
            Some(t) => t,
            None => return ConsoleReply::Redirect { location: "/admin/login".to_owned(), set_cookie: None },
        };
        let session = match self.session_at(now, token.as_str()) {
            Some(s) => s,
            None => return ConsoleReply::Redirect { location: "/admin/login".to_owned(), set_cookie: None },
        };
        if !csrf_matches(session.csrf.as_str(), form_csrf) {
            return ConsoleReply::Forbidden;
        }
        self.remove_session(token.as_str());
        let cleared = admin_cookie("", issuer, true);
        proof {
            reveal_strlit("");
        }
        ConsoleReply::Redirect { location: "/admin/login".to_owned(), set_cookie: Some(cleared) }
    }
}

/// A fresh session token and form token, or `None` when randomness failed.
pub fn fresh_tokens() -> (r: Option<(String, String)>)
    ensures
        r matches Some((token, csrf)) ==> (exists|b: Seq<u8>| b.len() == 32 && token@ == #[trigger] base64url(b))
            && (exists|b: Seq<u8>| b.len() == 32 && csrf@ == #[trigger] base64url(b)),
{
    let token = match random_token() {
        Ok(t) => t,
        Err(_) => return None,
    };
    let csrf = match random_token() {
        Ok(t) => t,
        Err(_) => return None,
    };
    Some((token, csrf))
}

impl AdminConsole {
    /// What a request's session allows, now.
    pub fn access(&mut self, cookie_header: Option<&str>) -> (r: Access)
        requires
            old(self).wf(),
        ensures
            final(self).wf(),
            final(self).same_settings(old(self)),
            final(self).attempts() == old(self).attempts(),
            (r is Unavailable && *final(self) == *old(self)) || (exists|now: UtcTime|
                final(self).sessions() == looked_up(old(self).sessions(), now, opt_str(cookie_header)).0 && r
                    == access_of(
                    old(self).is_configured(),
                    #[trigger] looked_up(old(self).sessions(), now, opt_str(cookie_header)).1,
                )),
    {
        let now = match utc_now() {
            Some(t) => t,
            None => return Access::Unavailable,
        };
        self.access_at(now, cookie_header)
    }

    /// Creates a session now with fresh random tokens.
    pub fn new_session(&mut self, admin_id: Option<String>) -> (r: Result<(String, String), String>)
        requires
            old(self).wf(),
        ensures
            final(self).wf(),
            final(self).same_settings(old(self)),
            final(self).attempts() == old(self).attempts(),
            (r matches Err(m) && m@ == "system clock unavailable"@ && *final(self) == *old(self)) || (exists|now: UtcTime, fresh: Option<(String, String)>|
                #[trigger] session_created(old(self).sessions(), now, admin_id, fresh, r, final(self).sessions())),
    {
        let now = match utc_now() {
            Some(t) => t,
            None => return Err("system clock unavailable".to_owned()),
        };
        let fresh = fresh_tokens();
        self.new_session_at(now, admin_id, fresh)
    }

    /// Answers `GET /admin/login` now.
    pub fn login_page(&mut self, cookie_header: Option<&str>, authorized: bool, issuer: &str) -> (r: ConsoleReply)
        requires
            old(self).wf(),
        ensures
            final(self).wf(),
            final(self).same_settings(old(self)),
            final(self).attempts() == old(self).attempts(),
            (r is Unavailable && *final(self) == *old(self)) || (exists|now: UtcTime, fresh: Option<(String, String)>|
                #[trigger] login_page_reply(*old(self), *final(self), now, opt_str(cookie_header), authorized, fresh, issuer@, r@)),
    {
        let now = match utc_now() {
            Some(t) => t,
            None => return ConsoleReply::Unavailable,
        };
        let fresh = fresh_tokens();
        self.login_page_at(now, cookie_header, authorized, fresh, issuer)
    }

    /// The first half of `POST /admin/login`, now.
    pub fn begin_login(&mut self, cookie_header: Option<&str>, form_csrf: &str, slot_free: bool) -> (r: LoginStart)
        requires
            old(self).wf(),
        ensures
            final(self).wf(),
            final(self).same_settings(old(self)),
            (r matches LoginStart::Reply(ConsoleReply::Unavailable) && *final(self) == *old(self)) || (exists|now: UtcTime|
                #[trigger] login_start(*old(self), *final(self), now, opt_str(cookie_header), form_csrf@, slot_free, r)),
    {
        let now = match utc_now() {
            Some(t) => t,
            None => return LoginStart::Reply(ConsoleReply::Unavailable),
        };
        self.begin_login_at(now, cookie_header, form_csrf, slot_free)
    }

    /// The second half of `POST /admin/login`, now.
    pub fn finish_login(
        &mut self,
        cookie_header: Option<&str>,
        csrf: String,
        outcome: Option<Option<AdminRecord>>,
        issuer: &str,
    ) -> (r: ConsoleReply)
        requires
            old(self).wf(),
        ensures
            final(self).wf(),
            final(self).same_settings(old(self)),
            (r is Unavailable && *final(self) == *old(self)) || (exists|now: UtcTime, fresh: Option<(String, String)>|
                #[trigger] login_finish(*old(self), *final(self), now, opt_str(cookie_header), csrf@, outcome, fresh, issuer@, r@)),
    {
        let now = match utc_now() {
            Some(t) => t,
            None => return ConsoleReply::Unavailable,
        };
        let fresh = fresh_tokens();
        self.finish_login_at(now, cookie_header, csrf, outcome, fresh, issuer)
    }

    /// Answers `POST /admin/logout` now.
    pub fn logout(&mut self, cookie_header: Option<&str>, form_csrf: &str, issuer: &str) -> (r: ConsoleReply)
        requires
            old(self).wf(),
        ensures
            final(self).wf(),
            final(self).same_settings(old(self)),
            final(self).attempts() == old(self).attempts(),
            (r is Unavailable && *final(self) == *old(self)) || (exists|now: UtcTime|
                #[trigger] logout_reply(*old(self), *final(self), now, opt_str(cookie_header), form_csrf@, issuer@, r@)),
    {
        let now = match utc_now() {
            Some(t) => t,
            None => return ConsoleReply::Unavailable,
        };
        self.logout_at(now, cookie_header, form_csrf, issuer)
    }
}

/// The status of a page that selects an item by id: `404` when an id is
/// selected that is not among `ids`, else `200`.
pub fn selection_status(ids: &Vec<String>, selected: Option<&str>) -> (r: u16)
    ensures
        r == (match selected {
            Some(id) => if exists|i: int| 0 <= i < ids@.len() && #[trigger] ids@[i]@ == id@ {
                200u16
            } else {
                404u16
            },
            None => 200u16,
        }),
{
    let id = match selected {
        Some(id) => id,
        None => return 200,
    };
    for i in 0..ids.len()
        invariant
            selected == Some(id),
            forall|j: int| 0 <= j < i ==> (#[trigger] ids@[j])@ != id@,
    {
        if str_eq(ids[i].as_str(), id) {
            return 200;
        }
    }
    404
}

// ---------------------------------------------------------------------------
// Laws
// ---------------------------------------------------------------------------

/// Within any minute at most `SIGN_IN_LIMIT` sign-in attempts are let
/// through: the kept attempts never exceed the limit, an attempt is allowed
/// exactly when fewer than the limit still count, and a refused attempt is
/// not recorded.
pub proof fn lemma_sign_in_limit(attempts: Seq<UtcTime>, now: UtcTime)
    requires
        attempts.len() <= SIGN_IN_LIMIT,
    ensures
        sign_in_step(attempts, now).1.len() <= SIGN_IN_LIMIT,
        sign_in_step(attempts, now).0 == (recent_attempts(attempts, now).len() < SIGN_IN_LIMIT),
        !sign_in_step(attempts, now).0 ==> sign_in_step(attempts, now).1 == recent_attempts(attempts, now),
        sign_in_step(attempts, now).0 ==> sign_in_step(attempts, now).1.last() == now,
{
    attempts.lemma_filter_len(|at: UtcTime| recent(at, now));
}

/// The console never holds more than `ADMIN_SESSION_CAPACITY` sessions
/// after creating one.
pub proof fn lemma_session_capacity(
    before: Map<Seq<char>, AdminSession>,
    now: UtcTime,
    admin_id: Option<String>,
    fresh: Option<(String, String)>,
    r: Result<(String, String), String>,
    after: Map<Seq<char>, AdminSession>,
)
    requires
        before.dom().finite(),
        session_created(before, now, admin_id, fresh, r, after),
        r is Ok,
    ensures
        after.dom().finite(),
        after.dom().len() <= ADMIN_SESSION_CAPACITY,
{
    let kept = live(before, now);
    assert(kept.dom().subset_of(before.dom()));
    vstd::set_lib::lemma_len_subset(kept.dom(), before.dom());
    let (token, csrf) = fresh.unwrap();
    if kept.dom().contains(token@) {
        assert(after.dom() =~= kept.dom());
    } else {
        assert(after.dom() =~= kept.dom().insert(token@));
    }
}

/// After a sign-out, the session's token no longer opens the console: a
/// second request with the same cookie finds no session.
pub proof fn lemma_logout_ends_session(
    before: AdminConsole,
    after: AdminConsole,
    now: UtcTime,
    later: UtcTime,
    cookie_header: Option<Seq<char>>,
    form_csrf: Seq<char>,
    issuer: Seq<char>,
    r: ConsoleReplyView,
)
    requires
        logout_reply(before, after, now, cookie_header, form_csrf, issuer, r),
        r matches ConsoleReplyView::Redirect(_, Some(_)),
    ensures
        looked_up(after.sessions(), later, cookie_header).1 is None,
{
}

/// Only a session that an administrator signed in with gives access to the
/// console's pages: a sign-in form's session never does.
pub proof fn lemma_access_needs_signed_in_session(configured: bool, session: Option<AdminSession>)
    ensures
        access_of(configured, session) matches Access::Check { admin_id, .. } ==> session matches Some(
            s,
        ) && s.admin_id == Some(admin_id),
{
}

// ---------------------------------------------------------------------------
// Page helpers
// ---------------------------------------------------------------------------

/// Digits grouped in threes from the right, with commas.
pub open spec fn group_thousands(s: Seq<char>) -> Seq<char>
    decreases s.len(),
{
    if s.len() <= 3 {
        s
    } else {
        group_thousands(s.take(s.len() - 3)) + seq![','] + s.skip(s.len() - 3)
    }
}

/// How a number of seconds reads: grouped, then in the largest whole unit
/// of hours, minutes or seconds, e.g. `3,600 seconds (1 hour)`.
pub open spec fn duration_text(n: nat) -> Seq<char> {
    let value: nat = if n > 0 && n % 3600 == 0 {
        n / 3600
    } else if n > 0 && n % 60 == 0 {
        n / 60
    } else {
        n
    };
    let unit = if n > 0 && n % 3600 == 0 {
        "hour"@
    } else if n > 0 && n % 60 == 0 {
        "minute"@
    } else {
        "second"@
    };
    group_thousands(nat_text(n)) + " seconds ("@ + nat_text(value) + " "@ + unit + (if value == 1 {
        ""@
    } else {
        "s"@
    }) + ")"@
}

fn group_chars(v: &Vec<char>, end: usize) -> (r: String)
    requires
        end <= v@.len(),
    ensures
        r@ == group_thousands(v@.take(end as int)),
    decreases end,
{
    let ghost s = v@.take(end as int);
    if end <= 3 {
        let r = string_from_chars(v, 0, end);
        assert(r@ =~= s);
        r
    } else {
        let left = group_chars(v, end - 3);
        let right = string_from_chars(v, end - 3, end);
        let r = concat3(left.as_str(), ",", right.as_str());
        proof {
            reveal_strlit(",");
        }
        assert(s.take(s.len() - 3) =~= v@.take(end - 3));
        assert(s.skip(s.len() - 3) =~= right@);
        r
    }
}

/// A token lifetime as the console shows it.
pub fn duration(seconds: u64) -> (r: String)
    ensures
        r@ == duration_text(seconds as nat),
{
    let raw = u64_text(seconds);
    let chars = str_chars(raw.as_str());
    let grouped = group_chars(&chars, chars.len());
    assert(chars@.take(chars@.len() as int) =~= raw@);
    let (value, unit): (u64, &str) = if seconds > 0 && seconds % 3600 == 0 {
        (seconds / 3600, "hour")
    } else if seconds > 0 && seconds % 60 == 0 {
        (seconds / 60, "minute")
    } else {
        (seconds, "second")
    };
    let value_text = u64_text(value);
    let a = concat3(grouped.as_str(), " seconds (", value_text.as_str());
    let b = concat3(a.as_str(), " ", unit);
    let c = if value == 1 {
        proof {
            reveal_strlit("");
        }
        assert(b@ + ""@ =~= b@);
        b
    } else {
        concat(b.as_str(), "s")
    };
    concat(c.as_str(), ")")
}

/// The query pairs of a console link: the selected id, then the search text
/// when there is one.
pub open spec fn selection_pairs(id: Option<Seq<char>>, query: Seq<char>) -> Seq<(Seq<char>, Seq<char>)> {
    let with_id = match id {
        Some(i) => seq![("id"@, i)],
        None => Seq::empty(),
    };
    if query.len() == 0 {
        with_id
    } else {
        with_id.push(("q"@, query))
    }
}

/// The link to a console section with this selection.
pub open spec fn selected_url_text(section: Seq<char>, id: Option<Seq<char>>, query: Seq<char>) -> Seq<char> {
    let pairs = selection_pairs(id, query);
    if pairs.len() == 0 {
        "/admin/"@ + section
    } else {
        "/admin/"@ + section + "?"@ + form_urlencoded(pairs)
    }
}

/// Builds the link to a console section with a selected item and search text.
pub fn selected_url(section: &str, id: Option<&str>, query: &str) -> (r: String)
    ensures
        r@ == selected_url_text(section@, opt_str(id), query@),
{
    let mut pairs: Vec<(String, String)> = Vec::new();
    match id {
        Some(i) => pairs.push(("id".to_owned(), i.to_owned())),
        None => {},
    }
    if query.unicode_len() > 0 {
        pairs.push(("q".to_owned(), query.to_owned()));
    }
    assert(pair_views(pairs@) =~= selection_pairs(opt_str(id), query@));
    let params = form_urlencode(&pairs);
    if params.unicode_len() == 0 {
        concat("/admin/", section)
    } else {
        let base = concat3("/admin/", section, "?");
        concat(base.as_str(), params.as_str())
    }
}

/// Whether `text` matches a search: it contains the trimmed query, both
/// lowercased.
pub fn matches(text: &str, query: &str) -> (r: bool)
    ensures
        r == contains(lowercase(text@), lowercase(trim(query@))),
{
    let lowered = to_lowercase(text);
    let trimmed = trim_str(query);
    let needle = to_lowercase(trimmed.as_str());
    str_contains(lowered.as_str(), needle.as_str())
}

// ---------------------------------------------------------------------------
// Lists and details
// ---------------------------------------------------------------------------

/// Whether a list row with search text `text` is shown under the search
/// `query`.
pub open spec fn shown_in_search(text: Seq<char>, query: Seq<char>) -> bool {
    contains(lowercase(text), lowercase(trim(query)))
}

/// How many of the rows with search texts `texts` the search `query` shows.
pub open spec fn shown_count(texts: Seq<Seq<char>>, query: Seq<char>) -> nat
    decreases texts.len(),
{
    if texts.len() == 0 {
        0
    } else {
        shown_count(texts.drop_last(), query) + if shown_in_search(texts.last(), query) {
            1nat
        } else {
            0nat
        }
    }
}

/// Which rows of a list a search shows, and how many.
#[derive(Debug)]
pub struct Listing {
    pub shown: Vec<bool>,
    pub count: usize,
}

/// Runs the search `query` over rows with the search texts `texts`.
pub fn search_listing(texts: &Vec<String>, query: &str) -> (r: Listing)
    ensures
        r.shown@.len() == texts@.len(),
        forall|i: int| 0 <= i < texts@.len() ==> r.shown@[i] == shown_in_search(#[trigger] texts@[i]@, query@),
        r.count == shown_count(views(texts@), query@),
{
    let mut shown: Vec<bool> = Vec::new();
    let mut count: usize = 0;
    for i in 0..texts.len()
        invariant
            shown@.len() == i,
            forall|j: int| 0 <= j < i ==> shown@[j] == shown_in_search(#[trigger] texts@[j]@, query@),
            count == shown_count(views(texts@.take(i as int)), query@),
            count <= i,
    {
        proof {
            assert(views(texts@.take(i + 1)).drop_last() =~= views(texts@.take(i as int)));
            assert(views(texts@.take(i + 1)).last() == texts@[i as int]@);
        }
        let hit = matches(texts[i].as_str(), query);
        shown.push(hit);
        if hit {
            count = count + 1;
        }
    }
    assert(texts@.take(texts.len() as int) =~= texts@);
    Listing { shown, count }
}

/// The text a search of the client list runs over: the client id and its
/// scopes, separated by spaces.
pub fn client_search_text(c: &ClientSummary) -> (r: String)
    ensures
        r@ == c.id@ + " "@ + join(views(c.scopes@), " "@),
{
    let scopes = join_strings(c.scopes.as_slice(), " ");
    concat3(c.id.as_str(), " ", scopes.as_str())
}

/// The text a search of the user list runs over: the username and the user
/// id, separated by a space.
pub fn user_search_text(username: &str, id: &str) -> (r: String)
    ensures
        r@ == username@ + " "@ + id@,
{
    concat3(username, " ", id)
}

/// The line that counts the client applications a search shows.
pub fn application_count(count: usize) -> (r: String)
    ensures
        r@ == nat_text(count as nat) + if count == 1 {
            " application"@
        } else {
            " applications"@
        } + " · includes disabled clients"@,
{
    let number = u64_text(count as u64);
    let noun = if count == 1 {
        " application"
    } else {
        " applications"
    };
    concat3(number.as_str(), noun, " · includes disabled clients")
}

/// The position of the first of `ids` equal to `id`.
pub fn find_id(ids: &Vec<String>, id: &str) -> (r: Option<usize>)
    ensures
        match r {
            Some(i) => i < ids@.len() && ids@[i as int]@ == id@ && forall|j: int|
                0 <= j < i ==> (#[trigger] ids@[j])@ != id@,
            None => forall|j: int| 0 <= j < ids@.len() ==> (#[trigger] ids@[j])@ != id@,
        },
{
    for i in 0..ids.len()
        invariant
            forall|j: int| 0 <= j < i ==> (#[trigger] ids@[j])@ != id@,
    {
        if str_eq(ids[i].as_str(), id) {
            return Some(i);
        }
    }
    None
}

/// The signing algorithm and token lifetime a client's tokens get: the
/// client's own where it sets them, else the provider's.
pub fn effective_token_settings(
    c: &ClientSummary,
    provider_algorithm: SigningAlgorithm,
    provider_ttl_seconds: u64,
) -> (r: (String, u64))
    ensures
        r.0@ == match c.algorithm {
            Some(a) => a@,
            None => provider_algorithm.name(),
        },
        r.1 == match c.lifetime {
            Some(l) => l,
            None => provider_ttl_seconds,
        },
{
    let algorithm = match &c.algorithm {
        Some(a) => a.clone(),
        None => provider_algorithm.as_str().to_owned(),
    };
    let lifetime = match c.lifetime {
        Some(l) => l,
        None => provider_ttl_seconds,
    };
    (algorithm, lifetime)
}

// ---------------------------------------------------------------------------
// Static files
// ---------------------------------------------------------------------------

/// A static file the console serves: its content type and its path below the
/// project's directory.
#[derive(Debug)]
pub struct ConsoleAsset {
    pub content_type: String,
    pub path: String,
}

/// The content type and file of the console's static file `name`, if it
/// serves one by that name.
pub open spec fn asset_entry(name: Seq<char>) -> Option<(Seq<char>, Seq<char>)> {
    if name == "console.css"@ {
        Some(("text/css; charset=utf-8"@, "assets/admin/console.css"@))
    } else if name == "console.js"@ {
        Some(("text/javascript; charset=utf-8"@, "assets/admin/console.js"@))
    } else if name == "logo.svg"@ {
        Some(("image/svg+xml"@, "assets/pocket-oid-logo.svg"@))
    } else if name == "inter-400.woff2"@ {
        Some(("font/woff2"@, "assets/admin/inter-400.woff2"@))
    } else if name == "inter-500.woff2"@ {
        Some(("font/woff2"@, "assets/admin/inter-500.woff2"@))
    } else if name == "inter-600.woff2"@ {
        Some(("font/woff2"@, "assets/admin/inter-600.woff2"@))
    } else if name == "inter-700.woff2"@ {
        Some(("font/woff2"@, "assets/admin/inter-700.woff2"@))
    } else if name == "clients.svg"@ {
        Some(("image/svg+xml"@, "assets/admin/clients.svg"@))
    } else if name == "users.svg"@ {
        Some(("image/svg+xml"@, "assets/admin/users.svg"@))
    } else if name == "provider.svg"@ {
        Some(("image/svg+xml"@, "assets/admin/provider.svg"@))
    } else if name == "search.svg"@ {
        Some(("image/svg+xml"@, "assets/admin/search.svg"@))
    } else if name == "close.svg"@ {
        Some(("image/svg+xml"@, "assets/admin/close.svg"@))
    } else if name == "chevron.svg"@ {
        Some(("image/svg+xml"@, "assets/admin/chevron.svg"@))
    } else if name == "enabled.svg"@ {
        Some(("image/svg+xml"@, "assets/admin/enabled.svg"@))
    } else if name == "disabled.svg"@ {
        Some(("image/svg+xml"@, "assets/admin/disabled.svg"@))
    } else if name == "menu.svg"@ {
        Some(("image/svg+xml"@, "assets/admin/menu.svg"@))
    } else if name == "logout.svg"@ {
        Some(("image/svg+xml"@, "assets/admin/logout.svg"@))
    } else {
        None
    }
}

fn asset_file(content_type: &str, path: &str) -> (r: Option<ConsoleAsset>)
    ensures
        r matches Some(a) && a.content_type@ == content_type@ && a.path@ == path@,
{
    Some(ConsoleAsset { content_type: content_type.to_owned(), path: path.to_owned() })
}

/// Looks up the console's static file `name`; `None` (answered "not found")
/// for any other name.
pub fn asset(name: &str) -> (r: Option<ConsoleAsset>)
    ensures
        match asset_entry(name@) {
            Some((content_type, path)) => r matches Some(a) && a.content_type@ == content_type
                && a.path@ == path,
            None => r is None,
        },
{
    if str_eq(name, "console.css") {
        asset_file("text/css; charset=utf-8", "assets/admin/console.css")
    } else if str_eq(name, "console.js") {
        asset_file("text/javascript; charset=utf-8", "assets/admin/console.js")
    } else if str_eq(name, "logo.svg") {
        asset_file("image/svg+xml", "assets/pocket-oid-logo.svg")
    } else if str_eq(name, "inter-400.woff2") {
        asset_file("font/woff2", "assets/admin/inter-400.woff2")
    } else if str_eq(name, "inter-500.woff2") {
        asset_file("font/woff2", "assets/admin/inter-500.woff2")
    } else if str_eq(name, "inter-600.woff2") {
        asset_file("font/woff2", "assets/admin/inter-600.woff2")
    } else if str_eq(name, "inter-700.woff2") {
        asset_file("font/woff2", "assets/admin/inter-700.woff2")
    } else if str_eq(name, "clients.svg") {
        asset_file("image/svg+xml", "assets/admin/clients.svg")
    } else if str_eq(name, "users.svg") {
        asset_file("image/svg+xml", "assets/admin/users.svg")
    } else if str_eq(name, "provider.svg") {
        asset_file("image/svg+xml", "assets/admin/provider.svg")
    } else if str_eq(name, "search.svg") {
        asset_file("image/svg+xml", "assets/admin/search.svg")
    } else if str_eq(name, "close.svg") {
        asset_file("image/svg+xml", "assets/admin/close.svg")
    } else if str_eq(name, "chevron.svg") {
        asset_file("image/svg+xml", "assets/admin/chevron.svg")
    } else if str_eq(name, "enabled.svg") {
        asset_file("image/svg+xml", "assets/admin/enabled.svg")
    } else if str_eq(name, "disabled.svg") {
        asset_file("image/svg+xml", "assets/admin/disabled.svg")
    } else if str_eq(name, "menu.svg") {
        asset_file("image/svg+xml", "assets/admin/menu.svg")
    } else if str_eq(name, "logout.svg") {
        asset_file("image/svg+xml", "assets/admin/logout.svg")
    } else {
        None
    }
}

} // verus!
