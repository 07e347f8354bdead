//! Server-rendered login and consent pages.

use vstd::prelude::*;

use crate::text::{push_char, starts_with};

verus! {

/// The HTML escape of one character.
pub open spec fn escape_char(c: char) -> Seq<char> {
    if c == '&' {
        "&amp;"@
    } else if c == '<' {
        "&lt;"@
    } else if c == '>' {
        "&gt;"@
    } else if c == '"' {
        "&quot;"@
    } else if c == '\'' {
        "&#39;"@
    } else {
        seq![c]
    }
}

/// `s` with `&`, `<`, `>`, `"` and `'` replaced by their HTML entities.
pub open spec fn escape_html_spec(s: Seq<char>) -> Seq<char>
    decreases s.len(),
{
    if s.len() == 0 {
        Seq::empty()
    } else {
        escape_char(s[0]) + escape_html_spec(s.skip(1))
    }
}

/// Escapes text for use in HTML element content and quoted attribute values.
pub fn escape_html(value: &str) -> (r: String)
    ensures
        r@ == escape_html_spec(value@),
{
    let v = crate::text::str_chars(value);
    let mut escaped = String::new();
    assert(value@.skip(0) =~= value@);
    assert(escaped@ + escape_html_spec(value@) =~= escape_html_spec(value@));
    for i in 0..v.len()
        invariant
            v@ == value@,
            escaped@ + escape_html_spec(value@.skip(i as int)) == escape_html_spec(value@),
    {
        let ch = v[i];
        proof {
            assert(value@.skip(i as int).skip(1) =~= value@.skip(i + 1));
        }
        let ghost before = escaped@;
        if ch == '&' {
            escaped.append("&amp;");
        } else if ch == '<' {
            escaped.append("&lt;");
        } else if ch == '>' {
            escaped.append("&gt;");
        } else if ch == '"' {
            escaped.append("&quot;");
        } else if ch == '\'' {
            escaped.append("&#39;");
        } else {
            push_char(&mut escaped, ch);
        }
        proof {
            assert(escaped@ == before + escape_char(ch));
            assert(before + escape_html_spec(value@.skip(i as int)) == before + (escape_char(ch)
                + escape_html_spec(value@.skip(i + 1))));
            assert(before + (escape_char(ch) + escape_html_spec(value@.skip(i + 1))) =~= (before
                + escape_char(ch)) + escape_html_spec(value@.skip(i + 1)));
        }
    }
    assert(value@.skip(v.len() as int) =~= Seq::<char>::empty());
    assert(escaped@ + Seq::<char>::empty() =~= escaped@);
    escaped
}

pub open spec fn amp_entity() -> Seq<char> {
    seq!['&', 'a', 'm', 'p', ';']
}

pub open spec fn lt_entity() -> Seq<char> {
    seq!['&', 'l', 't', ';']
}

pub open spec fn gt_entity() -> Seq<char> {
    seq!['&', 'g', 't', ';']
}

pub open spec fn quot_entity() -> Seq<char> {
    seq!['&', 'q', 'u', 'o', 't', ';']
}

pub open spec fn apos_entity() -> Seq<char> {
    seq!['&', '#', '3', '9', ';']
}

/// Reads HTML escapes back: `&amp;`, `&lt;`, `&gt;`, `&quot;` and `&#39;`
/// become the characters they stand for; every other character is kept.
pub open spec fn unescape_html_spec(s: Seq<char>) -> Seq<char>
    decreases s.len(),
{
    if s.len() == 0 {
        Seq::empty()
    } else if starts_with(s, amp_entity()) {
        seq!['&'] + unescape_html_spec(s.skip(5))
    } else if starts_with(s, lt_entity()) {
        seq!['<'] + unescape_html_spec(s.skip(4))
    } else if starts_with(s, gt_entity()) {
        seq!['>'] + unescape_html_spec(s.skip(4))
    } else if starts_with(s, quot_entity()) {
        seq!['"'] + unescape_html_spec(s.skip(6))
    } else if starts_with(s, apos_entity()) {
        seq!['\''] + unescape_html_spec(s.skip(5))
    } else {
        seq![s[0]] + unescape_html_spec(s.skip(1))
    }
}

/// The entity of a character that escaping replaces.
pub open spec fn entity_of(c: char) -> Seq<char> {
    if c == '&' {
        amp_entity()
    } else if c == '<' {
        lt_entity()
    } else if c == '>' {
        gt_entity()
    } else if c == '"' {
        quot_entity()
    } else if c == '\'' {
        apos_entity()
    } else {
        seq![c]
    }
}

proof fn lemma_escape_char_entity(c: char)
    ensures
        escape_char(c) == entity_of(c),
{
    reveal_strlit("&amp;");
    reveal_strlit("&lt;");
    reveal_strlit("&gt;");
    reveal_strlit("&quot;");
    reveal_strlit("&#39;");
    assert("&amp;"@ =~= amp_entity());
    assert("&lt;"@ =~= lt_entity());
    assert("&gt;"@ =~= gt_entity());
    assert("&quot;"@ =~= quot_entity());
    assert("&#39;"@ =~= apos_entity());
}

proof fn lemma_unescape_entity(rest: Seq<char>, c: char)
    ensures
        unescape_html_spec(entity_of(c) + rest) == seq![c] + unescape_html_spec(rest),
{
    let e = entity_of(c);
    let t = e + rest;
    assert(t.skip(e.len() as int) =~= rest);
    assert(t.take(e.len() as int) =~= e);
    assert(t[0] == e[0]);
    if e.len() > 1 {
        assert(t[1] == e[1]);
    }
    if t.len() >= 4 {
        assert(t.take(4)[0] == t[0] && t.take(4)[1] == t[1]);
    }
    if t.len() >= 5 {
        assert(t.take(5)[0] == t[0] && t.take(5)[1] == t[1]);
    }
    if t.len() >= 6 {
        assert(t.take(6)[0] == t[0] && t.take(6)[1] == t[1]);
    }
    if c != '&' && c != '<' && c != '>' && c != '"' && c != '\'' {
        assert(!starts_with(t, amp_entity()));
        assert(!starts_with(t, lt_entity()));
        assert(!starts_with(t, gt_entity()));
        assert(!starts_with(t, quot_entity()));
        assert(!starts_with(t, apos_entity()));
        assert(t.skip(1) =~= rest);
    }
}

/// Reading the escapes back gives the text that was escaped.
pub proof fn lemma_unescape_escape(s: Seq<char>)
    ensures
        unescape_html_spec(escape_html_spec(s)) == s,
    decreases s.len(),
{
    if s.len() > 0 {
        lemma_unescape_escape(s.skip(1));
        lemma_escape_char_entity(s[0]);
        lemma_unescape_entity(escape_html_spec(s.skip(1)), s[0]);
        assert(seq![s[0]] + s.skip(1) =~= s);
    }
}

/// Escaped text holds none of the characters that end an attribute value or
/// start or end a tag.
pub proof fn lemma_escape_html_has_no_markup(s: Seq<char>)
    ensures
        forall|i: int|
            0 <= i < escape_html_spec(s).len() ==> {
                let c = #[trigger] escape_html_spec(s)[i];
                c != '<' && c != '>' && c != '"' && c != '\''
            },
    decreases s.len(),
{
    if s.len() > 0 {
        lemma_escape_html_has_no_markup(s.skip(1));
        reveal_strlit("&amp;");
        reveal_strlit("&lt;");
        reveal_strlit("&gt;");
        reveal_strlit("&quot;");
        reveal_strlit("&#39;");
        let e = escape_char(s[0]);
        let rest = escape_html_spec(s.skip(1));
        assert forall|i: int| 0 <= i < escape_html_spec(s).len() implies {
            let c = #[trigger] escape_html_spec(s)[i];
            c != '<' && c != '>' && c != '"' && c != '\''
        } by {
            if i < e.len() {
                assert(escape_html_spec(s)[i] == e[i]);
            } else {
                assert(escape_html_spec(s)[i] == rest[i - e.len()]);
            }
        }
    }
}

pub const LOGIN_0: &'static str = r#"<!doctype html>
<html>
  <head>
    <meta charset="utf-8">
    <meta name="viewport" content="width=device-width, initial-scale=1">
    <title>"#;

pub const LOGIN_1: &'static str = r#" Login</title>
    <style>
      :root {
        color-scheme: light;
        font-family:
          Inter, ui-sans-serif, system-ui, -apple-system, BlinkMacSystemFont, "Segoe UI", sans-serif;
        background: #f7fbfa;
        color: #102027;
      }

      * {
        box-sizing: border-box;
      }

      body {
        min-height: 100vh;
        margin: 0;
        "#;

pub const LOGIN_2: &'static str = r#"
      }

      body,
      input,
      button {
        font: inherit;
      }

      .auth-page {
        min-height: 100vh;
        display: grid;
        place-items: center;
        padding: 3rem 1.5rem 2rem;
      }

      .auth-shell {
        width: min(100%, 28rem);
      }

      .brand {
        margin-bottom: 2rem;
        text-align: center;
      }

      .brand-name {
        margin: 0;
        color: #111827;
        font-size: 2.35rem;
        font-weight: 760;
        line-height: 1.1;
      }

      .brand-subtitle {
        margin: 0.45rem 0 0;
        color: #60717c;
        font-size: 1rem;
      }

      .auth-panel {
        padding: 2rem;
        border: 1px solid #d8e8e5;
        border-radius: 1rem;
        background: rgba(255, 255, 255, 0.92);
        box-shadow: 0 1.25rem 3.75rem rgba(15, 82, 78, 0.12);
      }

      h1 {
        margin: 0;
        color: #102027;
        font-size: 1.55rem;
        font-weight: 720;
        line-height: 1.2;
      }

      .intro {
        margin: 0.55rem 0 1.65rem;
        color: #60717c;
        font-size: 0.98rem;
        line-height: 1.5;
      }

      .error-message {
        margin-bottom: 1.25rem;
        padding: 0.9rem 1rem;
        border: 1px solid #fecaca;
        border-radius: 0.7rem;
        background: #fff5f5;
        color: #b42318;
        font-size: 0.95rem;
        line-height: 1.45;
      }

      .field {
        margin-bottom: 1.25rem;
      }

      label {
        display: block;
        margin-bottom: 0.45rem;
        color: #1f2f37;
        font-size: 0.95rem;
        font-weight: 650;
      }

      input[type="text"],
      input[type="password"] {
        width: 100%;
        min-height: 3.25rem;
        padding: 0.85rem 0.95rem;
        border: 1px solid #c7d6d3;
        border-radius: 0.7rem;
        background: #ffffff;
        color: #102027;
        outline: none;
        transition:
          border-color 140ms ease,
          box-shadow 140ms ease,
          background-color 140ms ease;
      }

      input[type="text"]:focus,
      input[type="password"]:focus {
        border-color: #0f9f8f;
        background: #fbfffe;
        box-shadow: 0 0 0 0.2rem rgba(20, 184, 166, 0.18);
      }

      button[type="submit"] {
        width: 100%;
        min-height: 3.25rem;
        margin-top: 0.35rem;
        border: 0;
        border-radius: 0.7rem;
        background: #0f8f86;
        color: #ffffff;
        font-weight: 700;
        cursor: pointer;
        box-shadow: 0 0.75rem 1.75rem rgba(15, 143, 134, 0.22);
        transition:
          background-color 140ms ease,
          box-shadow 140ms ease,
          transform 140ms ease;
      }

      button[type="submit"]:hover {
        background: #0b766f;
        box-shadow: 0 0.9rem 2rem rgba(15, 143, 134, 0.26);
        transform: translateY(-1px);
      }

      button[type="submit"]:focus-visible {
        outline: 0.2rem solid rgba(20, 184, 166, 0.42);
        outline-offset: 0.2rem;
      }

      .status-note {
        margin-top: 1.5rem;
        padding-top: 1.25rem;
        border-top: 1px solid #e0ece9;
        color: #60717c;
        font-size: 0.9rem;
        line-height: 1.5;
      }

      .status-note strong {
        display: block;
        margin-bottom: 0.2rem;
        color: #0f766e;
        font-size: 0.95rem;
      }

      @media (max-width: 34rem) {
        .auth-page {
          align-items: start;
          padding: 2rem 1rem;
        }

        .brand {
          margin-bottom: 1.5rem;
        }

        .brand-name {
          font-size: 2rem;
        }

        .auth-panel {
          padding: 1.4rem;
          border-radius: 0.85rem;
        }
      }
    </style>
  </head>
  <body>
    <main class="auth-page">
      <section class="auth-shell" aria-labelledby="login-title">
        <div class="brand" aria-label=""#;

pub const LOGIN_3: &'static str = r#"">
          <p class="brand-name">"#;

pub const LOGIN_4: &'static str = r#"</p>
          <p class="brand-subtitle">OpenID Connect Provider</p>
        </div>
        <div class="auth-panel">
          <h1 id="login-title">Sign in to your account</h1>
          <p class="intro">Access "#;

pub const LOGIN_5: &'static str = r#".</p>
          "#;

pub const LOGIN_6: &'static str = r#"
          <form method="post" action="/login">
            <input type="hidden" name="return_to" value=""#;

pub const LOGIN_7: &'static str = r#"" />
            <div class="field">
              <label for="username">Username</label>
              <input id="username" name="username" type="text" autocomplete="username" required />
            </div>
            <div class="field">
              <label for="password">Password</label>
              <input id="password" name="password" type="password" autocomplete="current-password" required />
            </div>
            <button type="submit">Continue</button>
          </form>
          <p class="status-note">
            <strong>Authorization required</strong>
            Continue with a configured local account to complete this provider request.
          </p>
        </div>
      </section>
    </main>
  </body>
</html>"#;

pub const CONSENT_0: &'static str = r#"<!doctype html>
<html>
  <head><meta charset="utf-8"><title>Pocket-OID Consent</title></head>
  <body>
    <main>
      <h1>Consent</h1>
      <p>"#;

pub const CONSENT_1: &'static str = r#", app '"#;

pub const CONSENT_2: &'static str = r#"' is requesting access.</p>
      <p>Requested scopes: "#;

pub const CONSENT_3: &'static str = r#"</p>
      <form method="post" action="/consent">
        <input type="hidden" name="return_to" value=""#;

pub const CONSENT_4: &'static str = r#"" />
        <button type="submit" name="decision" value="approve">Approve</button>
        <button type="submit" name="decision" value="deny">Deny</button>
      </form>
    </main>
  </body>
</html>"#;

pub const REAUTH_CONSENT_0: &'static str = r#"<!doctype html>
<html>
  <head><meta charset="utf-8"><title>Pocket-OID Consent</title></head>
  <body>
    <main>
      <h1>Consent</h1>
      <p>"#;

pub const REAUTH_CONSENT_1: &'static str = r#", app '"#;

pub const REAUTH_CONSENT_2: &'static str = r#"' is requesting access.</p>
      <p>Requested scopes: "#;

pub const REAUTH_CONSENT_3: &'static str = r#"</p>
      <form method="post" action="/reauth/consent">
        <input type="hidden" name="transaction_id" value=""#;

pub const REAUTH_CONSENT_4: &'static str = r#"" />
        <button type="submit" name="decision" value="approve">Approve</button>
        <button type="submit" name="decision" value="deny">Deny</button>
      </form>
    </main>
  </body>
</html>"#;

/// The default page background: a soft gradient.
pub const DEFAULT_BACKGROUND: &'static str = r#"background:
          radial-gradient(circle at top, rgba(20, 184, 166, 0.14), transparent 34rem),
          linear-gradient(180deg, #fbfefd 0%, #f2f8f7 100%);"#;

pub const BACKGROUND_PREFIX: &'static str = "background: ";

pub const ERROR_PREFIX: &'static str = r#"<div class="error-message" role="alert">"#;

pub const ERROR_SUFFIX: &'static str = "</div>";

/// The CSS declaration for the page background.
pub open spec fn background_css(color: Option<Seq<char>>) -> Seq<char> {
    match color {
        Some(c) => BACKGROUND_PREFIX@ + c + ";"@,
        None => DEFAULT_BACKGROUND@,
    }
}

/// The alert shown above the login form.
pub open spec fn error_html(error: Option<Seq<char>>) -> Seq<char> {
    match error {
        Some(m) => ERROR_PREFIX@ + escape_html_spec(m) + ERROR_SUFFIX@,
        None => Seq::empty(),
    }
}

/// The login page for `provider_name`, posting back `return_to`.
pub open spec fn login_page_html(
    provider_name: Seq<char>,
    return_to: Seq<char>,
    error: Option<Seq<char>>,
    background_color: Option<Seq<char>>,
) -> Seq<char> {
    let name = escape_html_spec(provider_name);
    LOGIN_0@ + name + LOGIN_1@ + background_css(background_color) + LOGIN_2@ + name + LOGIN_3@
        + name + LOGIN_4@ + name + LOGIN_5@ + error_html(error) + LOGIN_6@ + escape_html_spec(
        return_to,
    ) + LOGIN_7@
}

pub open spec fn opt_view(o: Option<&str>) -> Option<Seq<char>> {
    match o {
        Some(s) => Some(s@),
        None => None,
    }
}

/// Renders the login page.
pub fn login_page(
    provider_name: &str,
    return_to: &str,
    error: Option<&str>,
    background_color: Option<&str>,
) -> (r: String)
    ensures
        r@ == login_page_html(provider_name@, return_to@, opt_view(error), opt_view(background_color)),
{
    let name = escape_html(provider_name);
    let escaped_return_to = escape_html(return_to);
    let mut page = String::new();
    page.append(LOGIN_0);
    page.append(name.as_str());
    page.append(LOGIN_1);
    match background_color {
        Some(color) => {
            page.append(BACKGROUND_PREFIX);
            page.append(color);
            page.append(";");
        },
        None => {
            page.append(DEFAULT_BACKGROUND);
        },
    }
    page.append(LOGIN_2);
    page.append(name.as_str());
    page.append(LOGIN_3);
    page.append(name.as_str());
    page.append(LOGIN_4);
    page.append(name.as_str());
    page.append(LOGIN_5);
    match error {
        Some(message) => {
            let escaped = escape_html(message);
            page.append(ERROR_PREFIX);
            page.append(escaped.as_str());
            page.append(ERROR_SUFFIX);
        },
        None => {},
    }
    page.append(LOGIN_6);
    page.append(escaped_return_to.as_str());
    page.append(LOGIN_7);
    assert(page@ =~= login_page_html(
        provider_name@,
        return_to@,
        opt_view(error),
        opt_view(background_color),
    ));
    page
}

/// The local consent page.
pub open spec fn consent_page_html(
    return_to: Seq<char>,
    client_id: Seq<char>,
    scope: Seq<char>,
    username: Seq<char>,
) -> Seq<char> {
    CONSENT_0@ + escape_html_spec(username) + CONSENT_1@ + escape_html_spec(client_id) + CONSENT_2@
        + escape_html_spec(scope) + CONSENT_3@ + escape_html_spec(return_to) + CONSENT_4@
}

/// Renders the local consent page.
pub fn consent_page(return_to: &str, client_id: &str, scope: &str, username: &str) -> (r: String)
    ensures
        r@ == consent_page_html(return_to@, client_id@, scope@, username@),
{
    let escaped_return_to = escape_html(return_to);
    let escaped_client_id = escape_html(client_id);
    let escaped_scope = escape_html(scope);
    let escaped_username = escape_html(username);
    let mut page = String::new();
    page.append(CONSENT_0);
    page.append(escaped_username.as_str());
    page.append(CONSENT_1);
    page.append(escaped_client_id.as_str());
    page.append(CONSENT_2);
    page.append(escaped_scope.as_str());
    page.append(CONSENT_3);
    page.append(escaped_return_to.as_str());
    page.append(CONSENT_4);
    assert(page@ =~= consent_page_html(return_to@, client_id@, scope@, username@));
    page
}

/// The consent page after upstream re-authentication; it carries only the
/// server-side transaction id.
pub open spec fn reauth_consent_page_html(
    transaction_id: Seq<char>,
    client_id: Seq<char>,
    scope: Seq<char>,
    subject: Seq<char>,
) -> Seq<char> {
    REAUTH_CONSENT_0@ + escape_html_spec(subject) + REAUTH_CONSENT_1@ + escape_html_spec(client_id)
        + REAUTH_CONSENT_2@ + escape_html_spec(scope) + REAUTH_CONSENT_3@ + escape_html_spec(
        transaction_id,
    ) + REAUTH_CONSENT_4@
}

/// Renders the re-authentication consent page.
pub fn reauth_consent_page(transaction_id: &str, client_id: &str, scope: &str, subject: &str) -> (r:
    String)
    ensures
        r@ == reauth_consent_page_html(transaction_id@, client_id@, scope@, subject@),
{
    let escaped_transaction_id = escape_html(transaction_id);
    let escaped_client_id = escape_html(client_id);
    let escaped_scope = escape_html(scope);
    let escaped_subject = escape_html(subject);
    let mut page = String::new();
    page.append(REAUTH_CONSENT_0);
    page.append(escaped_subject.as_str());
    page.append(REAUTH_CONSENT_1);
    page.append(escaped_client_id.as_str());
    page.append(REAUTH_CONSENT_2);
    page.append(escaped_scope.as_str());
    page.append(REAUTH_CONSENT_3);
    page.append(escaped_transaction_id.as_str());
    page.append(REAUTH_CONSENT_4);
    assert(page@ =~= reauth_consent_page_html(transaction_id@, client_id@, scope@, subject@));
    page
}

/// The law of `escape_html`: its output holds none of `<`, `>`, `"` and `'`,
/// and reading the escapes back gives the text that was escaped.
pub proof fn lemma_escape_html_law(s: Seq<char>)
    ensures
        forall|i: int|
            0 <= i < escape_html_spec(s).len() ==> {
                let c = #[trigger] escape_html_spec(s)[i];
                c != '<' && c != '>' && c != '"' && c != '\''
            },
        unescape_html_spec(escape_html_spec(s)) == s,
{
    lemma_escape_html_has_no_markup(s);
    lemma_unescape_escape(s);
}

} // verus!
