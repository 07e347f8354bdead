use pocket_oid::frontend::{consent_page, escape_html, login_page, reauth_consent_page};

#[test]
fn escape_html_escapes_text_and_attribute_sensitive_characters() {
    assert_eq!(
        escape_html(r#"<script data-x="1">&'</script>"#),
        "&lt;script data-x=&quot;1&quot;&gt;&amp;&#39;&lt;/script&gt;"
    );
}

#[test]
fn login_page_renders_post_form_markup() {
    let html = login_page("Pocket-OID", "/authorize?response_type=code", None, None);

    assert!(html.contains(r#"<form method="post" action="/login">"#));
    assert!(html.contains(r#"name="return_to""#));
    assert!(html.contains(r#"<p class="brand-name">Pocket-OID</p>"#));
    assert!(html.contains("Access Pocket-OID."));
    assert!(!html.contains(r#"\""#));
}

#[test]
fn login_page_uses_configured_background_color() {
    let html = login_page(
        "Pocket-OID",
        "/authorize?response_type=code",
        None,
        Some("#1a2b3c"),
    );

    assert!(html.contains("background: #1a2b3c;"));
    assert!(!html.contains("radial-gradient"));
}

#[test]
fn consent_page_renders_post_form_markup() {
    let html = consent_page(
        "/authorize?response_type=code",
        "svc-a",
        "openid default",
        "alice",
    );

    assert!(html.contains(r#"<form method="post" action="/consent">"#));
    assert!(html.contains(r#"name="decision" value="approve""#));
    assert!(!html.contains(r#"\""#));
}

#[test]
fn reauth_consent_page_uses_server_side_transaction_id() {
    let html = reauth_consent_page("transaction-123", "svc-a", "openid", "partner:user-123");

    assert!(html.contains(r#"<form method="post" action="/reauth/consent">"#));
    assert!(html.contains(r#"name="transaction_id" value="transaction-123""#));
    assert!(!html.contains("return_to"));
}

#[test]
fn login_page_escapes_the_provider_name_and_shows_errors() {
    let html = login_page("<b>Acme</b>", "/authorize?a=1&b=2", Some("Invalid <credentials>"), None);
    assert!(html.contains("&lt;b&gt;Acme&lt;/b&gt;"));
    assert!(!html.contains("<b>Acme</b>"));
    assert!(html.contains("Invalid &lt;credentials&gt;"));
    assert!(html.contains("/authorize?a=1&amp;b=2"));
}

#[test]
fn escape_html_leaves_plain_text_unchanged() {
    assert_eq!(escape_html("plain text 123"), "plain text 123");
    assert_eq!(escape_html(""), "");
}
