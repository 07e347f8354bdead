//! The console's client and user pages, rendered from plain values: which
//! state each page shows (a list, an empty list, no matches, a missing item,
//! a failed read) and the HTML that shows it. Every value is escaped.

use vstd::prelude::*;

use crate::admin_console::{
    client_search_text, duration, duration_text, effective_token_settings, selected_url,
    selected_url_text, shown_count, shown_in_search, search_listing, user_search_text, ClientSummary, Selection,
};
use crate::config::{ProviderSettings, SigningAlgorithm};
use crate::frontend::{escape_html, escape_html_spec};
use crate::text::{join, join_strings, opt_seq, str_eq, views};
use crate::token::{nat_text, u64_text};

verus! {

// ---------------------------------------------------------------------------
// Pieces
// ---------------------------------------------------------------------------

/// ` hidden` when `flag` holds.
pub open spec fn hidden_attr(flag: bool) -> Seq<char> {
    if flag {
        " hidden"@
    } else {
        ""@
    }
}

fn hidden(flag: bool) -> (r: &'static str)
    ensures
        r@ == hidden_attr(flag),
{
    if flag {
        " hidden"
    } else {
        ""
    }
}

/// A decorative icon of the console's assets.
pub open spec fn icon_html(name: Seq<char>) -> Seq<char> {
    "<img class=\"ui-icon\" src=\"/admin/assets/"@ + escape_html_spec(name) + ".svg\" alt=\"\" aria-hidden=\"true\"/>"@
}

pub fn icon(name: &str) -> (r: String)
    ensures
        r@ == icon_html(name@),
{
    let mut r = "<img class=\"ui-icon\" src=\"/admin/assets/".to_owned();
    r.append(escape_html(name).as_str());
    r.append(".svg\" alt=\"\" aria-hidden=\"true\"/>");
    r
}

/// The enabled or disabled badge.
pub open spec fn status_html(enabled: bool) -> Seq<char> {
    "<span class=\""@ + (if enabled {
        "status enabled"@
    } else {
        "status disabled"@
    }) + "\">"@ + icon_html(if enabled {
        "enabled"@
    } else {
        "disabled"@
    }) + (if enabled {
        "Enabled"@
    } else {
        "Disabled"@
    }) + "</span>"@
}

pub fn status(enabled: bool) -> (r: String)
    ensures
        r@ == status_html(enabled),
{
    let mut r = "<span class=\"".to_owned();
    r.append(if enabled { "status enabled" } else { "status disabled" });
    r.append("\">");
    r.append(icon(if enabled { "enabled" } else { "disabled" }).as_str());
    r.append(if enabled { "Enabled" } else { "Disabled" });
    r.append("</span>");
    r
}

/// The HTML document around a page body.
pub open spec fn document_html(title: Seq<char>, body: Seq<char>) -> Seq<char> {
    "<!doctype html><html lang=\"en\"><head><meta charset=\"utf-8\"/><meta name=\"viewport\" content=\"width=device-width, initial-scale=1\"/><title>"@
        + escape_html_spec(title)
        + " · Pocket-OID</title><link rel=\"stylesheet\" href=\"/admin/assets/console.css\"/><script src=\"/admin/assets/console.js\" defer></script></head><body>"@
        + body + "</body></html>"@
}

pub fn document(title: &str, body: &str) -> (r: String)
    ensures
        r@ == document_html(title@, body@),
{
    let mut r = "<!doctype html><html lang=\"en\"><head><meta charset=\"utf-8\"/><meta name=\"viewport\" content=\"width=device-width, initial-scale=1\"/><title>".to_owned();
    r.append(escape_html(title).as_str());
    r.append(" · Pocket-OID</title><link rel=\"stylesheet\" href=\"/admin/assets/console.css\"/><script src=\"/admin/assets/console.js\" defer></script></head><body>");
    r.append(body);
    r.append("</body></html>");
    r
}

/// One link of the navigation; the current section's is marked.
pub open spec fn nav_link_html(section: Seq<char>, id: Seq<char>, label: Seq<char>) -> Seq<char> {
    "<a href=\"/admin/"@ + id + "\" class=\""@ + (if section == id {
        "active"@
    } else {
        ""@
    }) + "\""@ + (if section == id {
        " aria-current=\"page\""@
    } else {
        ""@
    }) + ">"@ + icon_html(id) + label + "</a>"@
}

fn nav_link(section: &str, id: &str, label: &str) -> (r: String)
    ensures
        r@ == nav_link_html(section@, id@, label@),
{
    let current = str_eq(section, id);
    let mut r = "<a href=\"/admin/".to_owned();
    r.append(id);
    r.append("\" class=\"");
    r.append(if current { "active" } else { "" });
    r.append("\"");
    r.append(if current { " aria-current=\"page\"" } else { "" });
    r.append(">");
    r.append(icon(id).as_str());
    r.append(label);
    r.append("</a>");
    r
}

/// The brand and the links to the three sections.
pub open spec fn navigation_html(section: Seq<char>) -> Seq<char> {
    "<a class=\"brand\" href=\"/admin/clients\" aria-label=\"Pocket-OID client applications\"><img src=\"/admin/assets/logo.svg\" alt=\"Pocket-OID\"/><span>Admin console</span></a><nav aria-label=\"Main navigation\">"@
        + nav_link_html(section, "clients"@, "Client applications"@) + nav_link_html(section, "users"@, "Users"@)
        + nav_link_html(section, "provider"@, "Provider settings"@) + "</nav>"@
}

fn navigation(section: &str) -> (r: String)
    ensures
        r@ == navigation_html(section@),
{
    let mut r = "<a class=\"brand\" href=\"/admin/clients\" aria-label=\"Pocket-OID client applications\"><img src=\"/admin/assets/logo.svg\" alt=\"Pocket-OID\"/><span>Admin console</span></a><nav aria-label=\"Main navigation\">".to_owned();
    r.append(nav_link(section, "clients", "Client applications").as_str());
    r.append(nav_link(section, "users", "Users").as_str());
    r.append(nav_link(section, "provider", "Provider settings").as_str());
    r.append("</nav>");
    r
}

/// The console's frame: navigation, account menu with the sign-out form,
/// and the page's content.
pub open spec fn shell_html(
    section: Seq<char>,
    username: Seq<char>,
    csrf: Seq<char>,
    detail: bool,
    children: Seq<char>,
) -> Seq<char> {
    "<a class=\"skip-link\" href=\"#main\">Skip to content</a><aside class=\"sidebar\">"@ + navigation_html(section)
        + "</aside><dialog class=\"mobile-drawer\" id=\"navigation\" aria-label=\"Navigation\"><button type=\"button\" class=\"icon-button drawer-close\" data-close-nav aria-label=\"Close navigation\">"@
        + icon_html("close"@) + "</button>"@ + navigation_html(section)
        + "</dialog><div class=\"workspace\"><div class=\"topbar\"><button type=\"button\" class=\"mobile-menu\" data-open-nav aria-controls=\"navigation\" aria-expanded=\"false\">"@
        + icon_html("menu"@)
        + "Menu</button><a class=\"mobile-brand\" href=\"/admin/clients\" aria-label=\"Pocket-OID home\"><img src=\"/admin/assets/logo.svg\" alt=\"Pocket-OID\"/></a><div class=\"account\"><button type=\"button\" class=\"account-button\" aria-haspopup=\"menu\" aria-expanded=\"false\" aria-controls=\"account-menu\" data-account>"@
        + escape_html_spec(username) + icon_html("chevron"@)
        + "</button><div id=\"account-menu\" class=\"account-menu\" role=\"menu\" hidden><p role=\"presentation\">Signed in as <strong>"@
        + escape_html_spec(username)
        + "</strong></p><form method=\"post\" action=\"/admin/logout\"><input type=\"hidden\" name=\"csrf\" value=\""@
        + escape_html_spec(csrf) + "\"/><button role=\"menuitem\" type=\"submit\">"@ + icon_html("logout"@)
        + "Sign out</button></form></div></div></div><main id=\"main\" tabindex=\"-1\" class=\""@ + (if detail {
        "detail-main"@
    } else {
        ""@
    }) + "\">"@ + children
        + "</main><footer>Read-only console<span>·</span>Configuration loaded at startup</footer></div><span class=\"sr-only\" id=\"copy-announcement\" role=\"status\" aria-live=\"polite\"></span>"@
}

pub fn shell(section: &str, username: &str, csrf: &str, detail: bool, children: &str) -> (r: String)
    ensures
        r@ == shell_html(section@, username@, csrf@, detail, children@),
{
    let nav = navigation(section);
    let user = escape_html(username);
    let mut r = "<a class=\"skip-link\" href=\"#main\">Skip to content</a><aside class=\"sidebar\">".to_owned();
    r.append(nav.as_str());
    r.append("</aside><dialog class=\"mobile-drawer\" id=\"navigation\" aria-label=\"Navigation\"><button type=\"button\" class=\"icon-button drawer-close\" data-close-nav aria-label=\"Close navigation\">");
    r.append(icon("close").as_str());
    r.append("</button>");
    r.append(nav.as_str());
    r.append("</dialog><div class=\"workspace\"><div class=\"topbar\"><button type=\"button\" class=\"mobile-menu\" data-open-nav aria-controls=\"navigation\" aria-expanded=\"false\">");
    r.append(icon("menu").as_str());
    r.append("Menu</button><a class=\"mobile-brand\" href=\"/admin/clients\" aria-label=\"Pocket-OID home\"><img src=\"/admin/assets/logo.svg\" alt=\"Pocket-OID\"/></a><div class=\"account\"><button type=\"button\" class=\"account-button\" aria-haspopup=\"menu\" aria-expanded=\"false\" aria-controls=\"account-menu\" data-account>");
    r.append(user.as_str());
    r.append(icon("chevron").as_str());
    r.append("</button><div id=\"account-menu\" class=\"account-menu\" role=\"menu\" hidden><p role=\"presentation\">Signed in as <strong>");
    r.append(user.as_str());
    r.append("</strong></p><form method=\"post\" action=\"/admin/logout\"><input type=\"hidden\" name=\"csrf\" value=\"");
    r.append(escape_html(csrf).as_str());
    r.append("\"/><button role=\"menuitem\" type=\"submit\">");
    r.append(icon("logout").as_str());
    r.append("Sign out</button></form></div></div></div><main id=\"main\" tabindex=\"-1\" class=\"");
    r.append(if detail { "detail-main" } else { "" });
    r.append("\">");
    r.append(children);
    r.append("</main><footer>Read-only console<span>·</span>Configuration loaded at startup</footer></div><span class=\"sr-only\" id=\"copy-announcement\" role=\"status\" aria-live=\"polite\"></span>");
    r
}

/// One labelled field, with a copy button when there is a value to copy.
pub open spec fn field_html(label: Seq<char>, mono: bool, copy: Option<Seq<char>>, children: Seq<char>) -> Seq<char> {
    "<div class=\"field\"><dt>"@ + escape_html_spec(label) + "</dt><dd class=\""@ + (if mono {
        "mono"@
    } else {
        ""@
    }) + "\">"@ + children + "</dd>"@ + match copy {
        Some(v) => "<button type=\"button\" class=\"copy\" data-copy=\""@ + escape_html_spec(v)
            + "\" aria-label=\"Copy "@ + escape_html_spec(label) + "\">Copy</button>"@,
        None => ""@,
    } + "</div>"@
}

pub fn field(label: &str, mono: bool, copy: Option<&str>, children: &str) -> (r: String)
    ensures
        r@ == field_html(label@, mono, crate::admin_console::opt_str(copy), children@),
{
    let mut r = "<div class=\"field\"><dt>".to_owned();
    r.append(escape_html(label).as_str());
    r.append("</dt><dd class=\"");
    r.append(if mono { "mono" } else { "" });
    r.append("\">");
    r.append(children);
    r.append("</dd>");
    match copy {
        Some(v) => {
            let mut b = "<button type=\"button\" class=\"copy\" data-copy=\"".to_owned();
            b.append(escape_html(v).as_str());
            b.append("\" aria-label=\"Copy ");
            b.append(escape_html(label).as_str());
            b.append("\">Copy</button>");
            r.append(b.as_str());
        },
        None => r.append(""),
    }
    r.append("</div>");
    r
}

/// A titled group of fields.
pub open spec fn group_html(title: Seq<char>, children: Seq<char>) -> Seq<char> {
    "<section class=\"group\" aria-label=\""@ + escape_html_spec(title) + "\"><h2>"@ + escape_html_spec(title)
        + "</h2><dl>"@ + children + "</dl></section>"@
}

pub fn group(title: &str, children: &str) -> (r: String)
    ensures
        r@ == group_html(title@, children@),
{
    let t = escape_html(title);
    let mut r = "<section class=\"group\" aria-label=\"".to_owned();
    r.append(t.as_str());
    r.append("\"><h2>");
    r.append(t.as_str());
    r.append("</h2><dl>");
    r.append(children);
    r.append("</dl></section>");
    r
}

/// The search form of a list section.
pub open spec fn search_html(section: Seq<char>, query: Seq<char>) -> Seq<char> {
    let label = if section == "clients"@ {
        "Search client ID or scope"@
    } else {
        "Search username or user ID"@
    };
    "<form class=\"search\" role=\"search\" method=\"get\" action=\"/admin/"@ + section + "\">"@ + icon_html(
        "search"@,
    ) + "<input type=\"search\" name=\"q\" aria-label=\""@ + label + "\" placeholder=\""@ + label + "\" value=\""@
        + escape_html_spec(query)
        + "\" autocomplete=\"off\"/><button type=\"button\" data-clear-search aria-label=\"Clear search\""@
        + hidden_attr(query.len() == 0) + ">"@ + icon_html("close"@) + "</button></form>"@
}

fn search(section: &str, query: &str) -> (r: String)
    ensures
        r@ == search_html(section@, query@),
{
    let label = if str_eq(section, "clients") {
        "Search client ID or scope"
    } else {
        "Search username or user ID"
    };
    let mut r = "<form class=\"search\" role=\"search\" method=\"get\" action=\"/admin/".to_owned();
    r.append(section);
    r.append("\">");
    r.append(icon("search").as_str());
    r.append("<input type=\"search\" name=\"q\" aria-label=\"");
    r.append(label);
    r.append("\" placeholder=\"");
    r.append(label);
    r.append("\" value=\"");
    r.append(escape_html(query).as_str());
    r.append("\" autocomplete=\"off\"/><button type=\"button\" data-clear-search aria-label=\"Clear search\"");
    r.append(hidden(query.unicode_len() == 0));
    r.append(">");
    r.append(icon("close").as_str());
    r.append("</button></form>");
    r
}

// ---------------------------------------------------------------------------
// Client applications
// ---------------------------------------------------------------------------

/// The text a search of the client list runs over.
pub open spec fn client_text(c: ClientSummary) -> Seq<char> {
    c.id@ + " "@ + join(views(c.scopes@), " "@)
}

/// The search texts of the client list.
pub open spec fn client_texts(cs: Seq<ClientSummary>) -> Seq<Seq<char>> {
    cs.map_values(|c: ClientSummary| client_text(c))
}

/// One row of the client list, hidden when the search does not show it.
pub open spec fn client_row_html(c: ClientSummary, query: Seq<char>) -> Seq<char> {
    "<tr data-search=\""@ + escape_html_spec(client_text(c)) + "\""@ + hidden_attr(
        !shown_in_search(client_text(c), query),
    ) + "><td data-label=\"Client ID\"><a class=\"id-link\" data-detail-link href=\""@ + escape_html_spec(
        selected_url_text("clients"@, Some(c.id@), query),
    ) + "\">"@ + escape_html_spec(c.id@) + "</a></td><td data-label=\"Status\">"@ + status_html(c.enabled)
        + "</td><td data-label=\"Authentication\">"@ + escape_html_spec(c.mode@)
        + "</td><td data-label=\"Scopes\" class=\"scopes\">"@ + (if c.scopes@.len() == 0 {
        "No scopes configured"@
    } else {
        escape_html_spec(join(views(c.scopes@), ", "@))
    }) + "</td></tr>"@
}

pub open spec fn client_rows_html(cs: Seq<ClientSummary>, query: Seq<char>) -> Seq<char>
    decreases cs.len(),
{
    if cs.len() == 0 {
        Seq::empty()
    } else {
        client_rows_html(cs.drop_last(), query) + client_row_html(cs.last(), query)
    }
}

fn client_row(c: &ClientSummary, query: &str) -> (r: String)
    ensures
        r@ == client_row_html(*c, query@),
{
    let text = client_search_text(c);
    let mut r = "<tr data-search=\"".to_owned();
    r.append(escape_html(text.as_str()).as_str());
    r.append("\"");
    r.append(hidden(!crate::admin_console::matches(text.as_str(), query)));
    r.append("><td data-label=\"Client ID\"><a class=\"id-link\" data-detail-link href=\"");
    r.append(escape_html(selected_url("clients", Some(c.id.as_str()), query).as_str()).as_str());
    r.append("\">");
    r.append(escape_html(c.id.as_str()).as_str());
    r.append("</a></td><td data-label=\"Status\">");
    r.append(status(c.enabled).as_str());
    r.append("</td><td data-label=\"Authentication\">");
    r.append(escape_html(c.mode).as_str());
    r.append("</td><td data-label=\"Scopes\" class=\"scopes\">");
    if c.scopes.len() == 0 {
        r.append("No scopes configured");
    } else {
        r.append(escape_html(join_strings(c.scopes.as_slice(), ", ").as_str()).as_str());
    }
    r.append("</td></tr>");
    r
}

/// The line that counts the applications a search shows.
pub open spec fn application_count_text(count: nat) -> Seq<char> {
    nat_text(count) + if count == 1 {
        " application"@
    } else {
        " applications"@
    } + " · includes disabled clients"@
}

/// The client list: the rows, the count, and the three states of the list
/// (the table, shown when the search shows some row; "no client
/// applications configured", shown exactly when there are none; "no
/// matches", shown exactly when there are clients and the search shows
/// none of them).
pub open spec fn client_list_html(cs: Seq<ClientSummary>, query: Seq<char>) -> Seq<char> {
    let count = shown_count(client_texts(cs), query);
    let empty = cs.len() == 0;
    "<header class=\"page-header\"><h1>Client applications</h1><p>Inspect registered applications and their authentication settings.</p></header><div class=\"toolbar\">"@
        + search_html("clients"@, query) + "<span class=\"count\" role=\"status\" data-count=\"applications\">"@
        + escape_html_spec(application_count_text(count))
        + "</span></div><div class=\"list-detail\"><div class=\"table-area\"><table data-filter-table"@
        + hidden_attr(count == 0)
        + "><caption class=\"sr-only\">Registered client applications, including disabled clients</caption><thead><tr><th scope=\"col\">Client ID</th><th scope=\"col\">Status</th><th scope=\"col\">Authentication</th><th scope=\"col\">Scopes</th></tr></thead><tbody>"@
        + client_rows_html(cs, query) + "</tbody></table><div class=\"state\" role=\"status\""@ + hidden_attr(!empty)
        + "><h2>No client applications configured.</h2><p>Configured applications will appear here.</p></div><div class=\"state\" data-no-results"@
        + hidden_attr(count > 0 || empty) + " role=\"status\">"@ + icon_html("search"@)
        + "<h2 data-no-results-title>No matches for “"@ + escape_html_spec(query)
        + "”.</h2><button class=\"text-button\" type=\"button\" data-clear-search>Clear search</button></div></div></div>"@
}

fn client_list(cs: &Vec<ClientSummary>, query: &str) -> (r: String)
    ensures
        r@ == client_list_html(cs@, query@),
{
    let mut texts: Vec<String> = Vec::new();
    let mut rows = String::new();
    for i in 0..cs.len()
        invariant
            texts@.len() == i,
            forall|j: int| 0 <= j < i ==> (#[trigger] texts@[j])@ == client_text(cs@[j]),
            rows@ == client_rows_html(cs@.take(i as int), query@),
    {
        proof {
            assert(cs@.take(i + 1).drop_last() =~= cs@.take(i as int));
        }
        texts.push(client_search_text(&cs[i]));
        rows.append(client_row(&cs[i], query).as_str());
    }
    assert(cs@.take(cs.len() as int) =~= cs@);
    assert(views(texts@) =~= client_texts(cs@));
    let listing = search_listing(&texts, query);
    let count = listing.count;
    let mut r = "<header class=\"page-header\"><h1>Client applications</h1><p>Inspect registered applications and their authentication settings.</p></header><div class=\"toolbar\">".to_owned();
    r.append(search("clients", query).as_str());
    r.append("<span class=\"count\" role=\"status\" data-count=\"applications\">");
    let counted = crate::admin_console::application_count(count);
    r.append(escape_html(counted.as_str()).as_str());
    r.append("</span></div><div class=\"list-detail\"><div class=\"table-area\"><table data-filter-table");
    r.append(hidden(count == 0));
    r.append("><caption class=\"sr-only\">Registered client applications, including disabled clients</caption><thead><tr><th scope=\"col\">Client ID</th><th scope=\"col\">Status</th><th scope=\"col\">Authentication</th><th scope=\"col\">Scopes</th></tr></thead><tbody>");
    r.append(rows.as_str());
    r.append("</tbody></table><div class=\"state\" role=\"status\"");
    r.append(hidden(cs.len() != 0));
    r.append("><h2>No client applications configured.</h2><p>Configured applications will appear here.</p></div><div class=\"state\" data-no-results");
    r.append(hidden(count > 0 || cs.len() == 0));
    r.append(" role=\"status\">");
    r.append(icon("search").as_str());
    r.append("<h2 data-no-results-title>No matches for “");
    r.append(escape_html(query).as_str());
    r.append("”.</h2><button class=\"text-button\" type=\"button\" data-clear-search>Clear search</button></div></div></div>");
    r
}

/// The field of each redirect URL, numbered from `first`.
pub open spec fn redirect_fields_html(urls: Seq<String>) -> Seq<char>
    decreases urls.len(),
{
    if urls.len() == 0 {
        Seq::empty()
    } else {
        redirect_fields_html(urls.drop_last()) + field_html(
            "Redirect URL "@ + nat_text(urls.len()),
            true,
            Some(urls.last()@),
            escape_html_spec(urls.last()@),
        )
    }
}

fn redirect_fields(urls: &Vec<String>) -> (r: String)
    ensures
        r@ == redirect_fields_html(urls@),
{
    let mut r = String::new();
    for i in 0..urls.len()
        invariant
            r@ == redirect_fields_html(urls@.take(i as int)),
    {
        proof {
            assert(urls@.take(i + 1).drop_last() =~= urls@.take(i as int));
        }
        let number = u64_text((i + 1) as u64);
        let label = crate::text::concat("Redirect URL ", number.as_str());
        let url = urls[i].as_str();
        r.append(field(label.as_str(), true, Some(url), escape_html(url).as_str()).as_str());
    }
    assert(urls@.take(urls.len() as int) =~= urls@);
    r
}

/// `Client override` or `Inherited from provider`.
pub open spec fn inheritance_text(overridden: bool) -> Seq<char> {
    if overridden {
        "Client override"@
    } else {
        "Inherited from provider"@
    }
}

/// The detail page of one client.
pub open spec fn client_details_html(
    username: Seq<char>,
    csrf: Seq<char>,
    c: ClientSummary,
    provider: ProviderSettings,
    query: Seq<char>,
) -> Seq<char> {
    let algorithm = match c.algorithm {
        Some(a) => a@,
        None => provider.signing_algorithm.name(),
    };
    let lifetime = match c.lifetime {
        Some(l) => l,
        None => provider.token_ttl_seconds,
    };
    let scopes = join(views(c.scopes@), ", "@);
    let identity = group_html(
        "Identity"@,
        field_html("Client ID"@, true, Some(c.id@), escape_html_spec(c.id@)) + field_html(
            "Audience"@,
            true,
            opt_seq(c.audience),
            escape_html_spec(
                match c.audience {
                    Some(a) => a@,
                    None => "Not configured"@,
                },
            ),
        ),
    );
    let redirects = group_html(
        "Redirect URLs"@,
        redirect_fields_html(c.redirects@) + if c.redirects@.len() == 0 {
            "<div class=\"field\"><dt>Redirect URLs</dt><dd class=\"muted\">No redirect URLs configured.</dd></div>"@
        } else {
            ""@
        },
    );
    let scope_group = group_html(
        "Scopes"@,
        field_html(
            "Allowed scopes"@,
            true,
            if c.scopes@.len() == 0 {
                None
            } else {
                Some(join(views(c.scopes@), " "@))
            },
            if scopes.len() == 0 {
                "No scopes configured."@
            } else {
                escape_html_spec(scopes)
            },
        ),
    );
    let auth = group_html(
        "Authentication"@,
        field_html(
            "PKCE"@,
            false,
            None,
            if c.pkce {
                "Required"@
            } else {
                "Not required"@
            },
        ) + field_html("Consent"@, false, None, escape_html_spec(c.consent@)) + match c.trusted {
            Some(t) => field_html("Trusted provider"@, true, None, escape_html_spec(t@)) + field_html(
                "Upstream scopes"@,
                true,
                None,
                escape_html_spec(join(views(c.upstream_scopes@), ", "@)),
            ),
            None => ""@,
        },
    );
    let tokens = group_html(
        "Tokens"@,
        field_html(
            "Signing algorithm"@,
            false,
            None,
            "<span class=\"mono\">"@ + escape_html_spec(algorithm) + "</span><span class=\"inheritance\">"@
                + inheritance_text(c.algorithm is Some) + "</span>"@,
        ) + field_html(
            "Token lifetime"@,
            false,
            None,
            escape_html_spec(duration_text(lifetime as nat)) + "<span class=\"inheritance\">"@ + inheritance_text(
                c.lifetime is Some,
            ) + "</span>"@,
        ),
    );
    document_html(
        c.id@,
        shell_html(
            "clients"@,
            username,
            csrf,
            true,
            "<div class=\"breadcrumb\"><a href=\""@ + escape_html_spec(selected_url_text("clients"@, None, query))
                + "\" data-back-link>Client applications</a><span>/</span><span>"@ + escape_html_spec(c.id@)
                + "</span></div><header class=\"page-header detail-header\"><h1>"@ + escape_html_spec(c.id@)
                + "</h1><p>Registered client configuration.</p><div class=\"detail-status\"><span>Status: "@
                + status_html(c.enabled) + "</span><span>Authentication: <strong>"@ + escape_html_spec(c.mode@)
                + "</strong></span></div></header><div class=\"details\">"@ + identity + redirects + scope_group
                + auth + tokens + "</div>"@,
        ),
    )
}

fn opt_as_str(o: &Option<String>) -> (r: Option<&str>)
    ensures
        crate::admin_console::opt_str(r) == opt_seq(*o),
{
    match o {
        Some(s) => Some(s.as_str()),
        None => None,
    }
}

fn client_details(
    username: &str,
    csrf: &str,
    c: &ClientSummary,
    provider: &ProviderSettings,
    query: &str,
) -> (r: String)
    ensures
        r@ == client_details_html(username@, csrf@, *c, *provider, query@),
{
    let (algorithm, lifetime_seconds) = effective_token_settings(c, provider.signing_algorithm, provider.token_ttl_seconds);
    let lifetime = duration(lifetime_seconds);
    let scopes = join_strings(c.scopes.as_slice(), ", ");
    let id = escape_html(c.id.as_str());

    let mut identity_fields = field("Client ID", true, Some(c.id.as_str()), id.as_str());
    let audience_text = match &c.audience {
        Some(a) => escape_html(a.as_str()),
        None => escape_html("Not configured"),
    };
    identity_fields.append(field("Audience", true, opt_as_str(&c.audience), audience_text.as_str()).as_str());
    let identity = group("Identity", identity_fields.as_str());

    let mut redirect_body = redirect_fields(&c.redirects);
    if c.redirects.len() == 0 {
        redirect_body.append("<div class=\"field\"><dt>Redirect URLs</dt><dd class=\"muted\">No redirect URLs configured.</dd></div>");
    } else {
        redirect_body.append("");
    }
    let redirects = group("Redirect URLs", redirect_body.as_str());

    let scope_copy = if c.scopes.len() == 0 {
        None
    } else {
        Some(join_strings(c.scopes.as_slice(), " "))
    };
    let scope_text = if scopes.unicode_len() == 0 {
        "No scopes configured.".to_owned()
    } else {
        escape_html(scopes.as_str())
    };
    let scope_group = group("Scopes", field("Allowed scopes", true, opt_as_str(&scope_copy), scope_text.as_str()).as_str());

    let mut auth_fields = field("PKCE", false, None, if c.pkce { "Required" } else { "Not required" });
    auth_fields.append(field("Consent", false, None, escape_html(c.consent).as_str()).as_str());
    match &c.trusted {
        Some(t) => {
            let mut trusted = field("Trusted provider", true, None, escape_html(t.as_str()).as_str());
            let upstream = join_strings(c.upstream_scopes.as_slice(), ", ");
            trusted.append(field("Upstream scopes", true, None, escape_html(upstream.as_str()).as_str()).as_str());
            auth_fields.append(trusted.as_str());
        },
        None => auth_fields.append(""),
    }
    let auth = group("Authentication", auth_fields.as_str());

    let mut algorithm_text = "<span class=\"mono\">".to_owned();
    algorithm_text.append(escape_html(algorithm.as_str()).as_str());
    algorithm_text.append("</span><span class=\"inheritance\">");
    algorithm_text.append(if c.algorithm.is_some() { "Client override" } else { "Inherited from provider" });
    algorithm_text.append("</span>");
    let mut lifetime_text = escape_html(lifetime.as_str());
    lifetime_text.append("<span class=\"inheritance\">");
    lifetime_text.append(if c.lifetime.is_some() { "Client override" } else { "Inherited from provider" });
    lifetime_text.append("</span>");
    let mut token_fields = field("Signing algorithm", false, None, algorithm_text.as_str());
    token_fields.append(field("Token lifetime", false, None, lifetime_text.as_str()).as_str());
    let tokens = group("Tokens", token_fields.as_str());

    let mut body = "<div class=\"breadcrumb\"><a href=\"".to_owned();
    body.append(escape_html(selected_url("clients", None, query).as_str()).as_str());
    body.append("\" data-back-link>Client applications</a><span>/</span><span>");
    body.append(id.as_str());
    body.append("</span></div><header class=\"page-header detail-header\"><h1>");
    body.append(id.as_str());
    body.append("</h1><p>Registered client configuration.</p><div class=\"detail-status\"><span>Status: ");
    body.append(status(c.enabled).as_str());
    body.append("</span><span>Authentication: <strong>");
    body.append(escape_html(c.mode).as_str());
    body.append("</strong></span></div></header><div class=\"details\">");
    body.append(identity.as_str());
    body.append(redirects.as_str());
    body.append(scope_group.as_str());
    body.append(auth.as_str());
    body.append(tokens.as_str());
    body.append("</div>");
    document(c.id.as_str(), shell("clients", username, csrf, true, body.as_str()).as_str())
}

/// The position of the first of `ids` equal to `id`, or the number of ids.
pub open spec fn first_id(ids: Seq<Seq<char>>, id: Seq<char>) -> int
    decreases ids.len(),
{
    if ids.len() == 0 {
        0
    } else if ids[0] == id {
        0
    } else {
        1 + first_id(ids.drop_first(), id)
    }
}

pub proof fn lemma_first_id(ids: Seq<Seq<char>>, id: Seq<char>)
    ensures
        0 <= first_id(ids, id) <= ids.len(),
        first_id(ids, id) < ids.len() ==> ids[first_id(ids, id)] == id,
        forall|j: int| 0 <= j < first_id(ids, id) ==> #[trigger] ids[j] != id,
    decreases ids.len(),
{
    if ids.len() > 0 && ids[0] != id {
        lemma_first_id(ids.drop_first(), id);
        assert forall|j: int| 0 <= j < first_id(ids, id) implies #[trigger] ids[j] != id by {
            if j > 0 {
                assert(ids[j] == ids.drop_first()[j - 1]);
            }
        }
    }
}

/// The ids of the clients.
pub open spec fn client_ids(cs: Seq<ClientSummary>) -> Seq<Seq<char>> {
    cs.map_values(|c: ClientSummary| c.id@)
}

/// The page for a missing client.
pub open spec fn client_not_found_html(username: Seq<char>, csrf: Seq<char>, query: Seq<char>) -> Seq<char> {
    document_html(
        "Client not found"@,
        shell_html(
            "clients"@,
            username,
            csrf,
            true,
            "<h1>Client not found</h1><a href=\""@ + escape_html_spec(selected_url_text("clients"@, None, query))
                + "\">Back to client applications</a>"@,
        ),
    )
}

/// The client applications page: with a selected id, the first client with
/// that id in detail, or the not-found page when no client has it;
/// without one, the list.
pub open spec fn clients_page_html(
    username: Seq<char>,
    csrf: Seq<char>,
    cs: Seq<ClientSummary>,
    provider: ProviderSettings,
    id: Option<Seq<char>>,
    query: Seq<char>,
) -> Seq<char> {
    match id {
        Some(id) => if first_id(client_ids(cs), id) < cs.len() {
            client_details_html(username, csrf, cs[first_id(client_ids(cs), id)], provider, query)
        } else {
            client_not_found_html(username, csrf, query)
        },
        None => document_html(
            "Client applications"@,
            shell_html("clients"@, username, csrf, false, client_list_html(cs, query)),
        ),
    }
}

/// The ids of `clients`, in order.
fn ids_of_clients(clients: &Vec<ClientSummary>) -> (r: Vec<String>)
    ensures
        views(r@) == client_ids(clients@),
{
    let mut r: Vec<String> = Vec::new();
    for i in 0..clients.len()
        invariant
            r@.len() == i,
            forall|j: int| 0 <= j < i ==> (#[trigger] r@[j])@ == clients@[j].id@,
    {
        r.push(clients[i].id.clone());
    }
    assert(views(r@) =~= client_ids(clients@));
    r
}

/// The position of the first of `ids` equal to `id`.
fn find_first(ids: &Vec<String>, id: &str) -> (r: Option<usize>)
    ensures
        match r {
            Some(i) => i == first_id(views(ids@), id@) && i < ids@.len(),
            None => first_id(views(ids@), id@) == ids@.len(),
        },
{
    proof {
        lemma_first_id(views(ids@), id@);
    }
    let found = crate::admin_console::find_id(ids, id);
    proof {
        let k = first_id(views(ids@), id@);
        match found {
            Some(i) => {
                assert(views(ids@)[i as int] == id@);
                if k < i {
                    assert(views(ids@)[k] == ids@[k]@);
                }
            },
            None => {
                if k < ids@.len() {
                    assert(views(ids@)[k] == ids@[k]@);
                }
            },
        }
    }
    found
}

/// Renders the client applications page.
pub fn clients_page(
    username: &str,
    csrf: &str,
    clients: &Vec<ClientSummary>,
    provider: &ProviderSettings,
    selection: &Selection,
) -> (r: String)
    ensures
        r@ == clients_page_html(username@, csrf@, clients@, *provider, opt_seq(selection.id), selection.q@),
        selection.id matches Some(id) ==> ((r@ == client_not_found_html(username@, csrf@, selection.q@))
            <== (forall|i: int| 0 <= i < clients@.len() ==> (#[trigger] clients@[i]).id@ != id@)),
{
    proof {
        match &selection.id {
            Some(id) => {
                lemma_first_id(client_ids(clients@), id@);
                if forall|i: int| 0 <= i < clients@.len() ==> (#[trigger] clients@[i]).id@ != id@ {
                    if first_id(client_ids(clients@), id@) < clients@.len() {
                        let k = first_id(client_ids(clients@), id@);
                        assert(client_ids(clients@)[k] == clients@[k].id@);
                    }
                }
            },
            None => {},
        }
    }
    match &selection.id {
        Some(id) => {
            match find_first(&ids_of_clients(clients), id.as_str()) {
                Some(i) => {
                    return client_details(username, csrf, &clients[i], provider, selection.q.as_str());
                },
                None => {},
            }
            let mut body = "<h1>Client not found</h1><a href=\"".to_owned();
            body.append(escape_html(selected_url("clients", None, selection.q.as_str()).as_str()).as_str());
            body.append("\">Back to client applications</a>");
            document("Client not found", shell("clients", username, csrf, true, body.as_str()).as_str())
        },
        None => {
            let list = client_list(clients, selection.q.as_str());
            document("Client applications", shell("clients", username, csrf, false, list.as_str()).as_str())
        },
    }
}

// ---------------------------------------------------------------------------
// Users
// ---------------------------------------------------------------------------

/// A local user as the users page lists it.
#[derive(Debug, Clone)]
pub struct UserRow {
    pub id: String,
    pub username: String,
    pub enabled: bool,
}

/// The text a search of the user list runs over.
pub open spec fn user_text(u: UserRow) -> Seq<char> {
    u.username@ + " "@ + u.id@
}

pub open spec fn user_texts(us: Seq<UserRow>) -> Seq<Seq<char>> {
    us.map_values(|u: UserRow| user_text(u))
}

pub open spec fn user_ids(us: Seq<UserRow>) -> Seq<Seq<char>> {
    us.map_values(|u: UserRow| u.id@)
}

/// One row of the user list: hidden when the search does not show it,
/// marked when it is the selected user.
pub open spec fn user_row_html(u: UserRow, selected: Option<Seq<char>>, query: Seq<char>) -> Seq<char> {
    "<tr data-search=\""@ + escape_html_spec(user_text(u)) + "\""@ + hidden_attr(!shown_in_search(user_text(u), query))
        + " class=\""@ + (if selected == Some(u.id@) {
        "selected"@
    } else {
        ""@
    }) + "\"><td data-label=\"Username\"><a class=\"id-link\" data-detail-link href=\""@ + escape_html_spec(
        selected_url_text("users"@, Some(u.id@), query),
    ) + "\">"@ + escape_html_spec(u.username@) + "</a></td><td data-label=\"User ID\" class=\"mono\">"@
        + escape_html_spec(u.id@) + "</td><td data-label=\"Status\">"@ + status_html(u.enabled) + "</td></tr>"@
}

pub open spec fn user_rows_html(us: Seq<UserRow>, selected: Option<Seq<char>>, query: Seq<char>) -> Seq<char>
    decreases us.len(),
{
    if us.len() == 0 {
        Seq::empty()
    } else {
        user_rows_html(us.drop_last(), selected, query) + user_row_html(us.last(), selected, query)
    }
}

fn user_row(u: &UserRow, selected: Option<&str>, query: &str) -> (r: String)
    ensures
        r@ == user_row_html(*u, crate::admin_console::opt_str(selected), query@),
{
    let text = user_search_text(u.username.as_str(), u.id.as_str());
    let mark = match selected {
        Some(id) => str_eq(id, u.id.as_str()),
        None => false,
    };
    let mut r = "<tr data-search=\"".to_owned();
    r.append(escape_html(text.as_str()).as_str());
    r.append("\"");
    r.append(hidden(!crate::admin_console::matches(text.as_str(), query)));
    r.append(" class=\"");
    r.append(if mark { "selected" } else { "" });
    r.append("\"><td data-label=\"Username\"><a class=\"id-link\" data-detail-link href=\"");
    r.append(escape_html(selected_url("users", Some(u.id.as_str()), query).as_str()).as_str());
    r.append("\">");
    r.append(escape_html(u.username.as_str()).as_str());
    r.append("</a></td><td data-label=\"User ID\" class=\"mono\">");
    r.append(escape_html(u.id.as_str()).as_str());
    r.append("</td><td data-label=\"Status\">");
    r.append(status(u.enabled).as_str());
    r.append("</td></tr>");
    r
}

/// The side panel of the selected user, or of a user that is not there.
pub open spec fn user_detail_html(selected: Option<UserRow>, source: Seq<char>, query: Seq<char>) -> Seq<char> {
    "<aside class=\"user-detail\" aria-label=\"User details\"><div class=\"user-detail-header\"><h2>"@
        + escape_html_spec(
        match selected {
            Some(u) => u.username@,
            None => "User not found"@,
        },
    ) + "</h2><a class=\"icon-button\" href=\""@ + escape_html_spec(selected_url_text("users"@, None, query))
        + "\" data-close-user aria-label=\"Close user details\">"@ + icon_html("close"@) + "</a></div>"@
        + match selected {
        Some(u) => "<dl>"@ + field_html("Username"@, false, None, escape_html_spec(u.username@)) + field_html(
            "User ID"@,
            true,
            Some(u.id@),
            escape_html_spec(u.id@),
        ) + field_html("Status"@, false, None, status_html(u.enabled)) + field_html(
            "User source"@,
            false,
            None,
            escape_html_spec(source),
        ) + "</dl>"@,
        None => "<p class=\"muted\">This user is not available.</p>"@,
    } + "</aside>"@
}

fn user_detail(selected: &Option<UserRow>, source: &str, query: &str) -> (r: String)
    ensures
        r@ == user_detail_html(*selected, source@, query@),
{
    let mut r = "<aside class=\"user-detail\" aria-label=\"User details\"><div class=\"user-detail-header\"><h2>".to_owned();
    match selected {
        Some(u) => r.append(escape_html(u.username.as_str()).as_str()),
        None => r.append(escape_html("User not found").as_str()),
    }
    r.append("</h2><a class=\"icon-button\" href=\"");
    r.append(escape_html(selected_url("users", None, query).as_str()).as_str());
    r.append("\" data-close-user aria-label=\"Close user details\">");
    r.append(icon("close").as_str());
    r.append("</a></div>");
    match selected {
        Some(u) => {
            let mut b = "<dl>".to_owned();
            b.append(field("Username", false, None, escape_html(u.username.as_str()).as_str()).as_str());
            b.append(field("User ID", true, Some(u.id.as_str()), escape_html(u.id.as_str()).as_str()).as_str());
            b.append(field("Status", false, None, status(u.enabled).as_str()).as_str());
            b.append(field("User source", false, None, escape_html(source).as_str()).as_str());
            b.append("</dl>");
            r.append(b.as_str());
        },
        None => r.append("<p class=\"muted\">This user is not available.</p>"),
    }
    r.append("</aside>");
    r
}

/// The user the selection names: the first one with that id.
pub open spec fn selected_user(us: Seq<UserRow>, id: Option<Seq<char>>) -> Option<UserRow> {
    match id {
        Some(i) => if first_id(user_ids(us), i) < us.len() {
            Some(us[first_id(user_ids(us), i)])
        } else {
            None
        },
        None => None,
    }
}

/// The users page. `users` is `None` when the users could not be read.
/// Exactly one of these states shows: the error state, exactly when the
/// users could not be read; "no local users available", exactly when they
/// were read and there are none; "no users match", exactly when there are
/// users and the search shows none of them; otherwise the table. With a
/// selected id (and readable users) a side panel shows that user, or that
/// no user has that id.
pub open spec fn users_page_html(
    username: Seq<char>,
    csrf: Seq<char>,
    users: Option<Seq<UserRow>>,
    source: Seq<char>,
    id: Option<Seq<char>>,
    query: Seq<char>,
) -> Seq<char> {
    let error = users is None;
    let records = match users {
        Some(v) => v,
        None => Seq::empty(),
    };
    let count = shown_count(user_texts(records), query);
    let detail = if id is Some && !error {
        user_detail_html(selected_user(records, id), source, query)
    } else {
        ""@
    };
    let body = "<header class=\"page-header\"><h1>Users</h1><p>Local application users. Administrator accounts and upstream identities are separate.</p><p class=\"source\">User source: <strong>"@
        + escape_html_spec(source) + "</strong>"@ + (if source == "JSON"@ {
        "<span>All configured JSON users are enabled.</span>"@
    } else {
        ""@
    }) + "</p></header><div class=\"toolbar\">"@ + search_html("users"@, query)
        + "</div><span class=\"sr-only\" role=\"status\" data-count=\"users\""@ + hidden_attr(error) + ">"@
        + nat_text(count) + " users found</span><div class=\""@ + (if id is Some && !error {
        "list-detail has-detail"@
    } else {
        "list-detail"@
    }) + "\"><div class=\"table-area\"><table data-filter-table"@ + hidden_attr(error || count == 0)
        + "><caption class=\"sr-only\">Local application users</caption><thead><tr><th scope=\"col\">Username</th><th scope=\"col\">User ID</th><th scope=\"col\">Status</th></tr></thead><tbody>"@
        + user_rows_html(records, id, query) + "</tbody></table><div class=\"state error\" role=\"alert\""@
        + hidden_attr(!error) + "><h2>Could not load users.</h2><p>Try again.</p><a class=\"primary\" href=\""@
        + escape_html_spec(selected_url_text("users"@, id, query)) + "\">Retry</a></div><div class=\"state\" role=\"status\""@
        + hidden_attr(error || records.len() != 0)
        + "><h2>No local users available.</h2><p>Configured local users will appear here.</p></div><div class=\"state\" data-no-results"@
        + hidden_attr(error || count > 0 || records.len() == 0) + " role=\"status\">"@ + icon_html("search"@)
        + "<h2 data-no-results-title>No users match “"@ + escape_html_spec(query)
        + "”.</h2><button class=\"text-button\" type=\"button\" data-clear-search>Clear search</button></div></div>"@
        + detail + "</div>"@;
    document_html("Users"@, shell_html("users"@, username, csrf, false, body))
}

fn copy_user(u: &UserRow) -> (r: UserRow)
    ensures
        r == *u,
{
    UserRow { id: u.id.clone(), username: u.username.clone(), enabled: u.enabled }
}

fn ids_of_users(users: &Vec<UserRow>) -> (r: Vec<String>)
    ensures
        views(r@) == user_ids(users@),
{
    let mut r: Vec<String> = Vec::new();
    for i in 0..users.len()
        invariant
            r@.len() == i,
            forall|j: int| 0 <= j < i ==> (#[trigger] r@[j])@ == users@[j].id@,
    {
        r.push(users[i].id.clone());
    }
    assert(views(r@) =~= user_ids(users@));
    r
}

/// Renders the users page from the users read (`None` when reading failed),
/// their source's name and the selection.
pub fn users_page(
    username: &str,
    csrf: &str,
    users: &Option<Vec<UserRow>>,
    source: &str,
    selection: &Selection,
) -> (r: String)
    ensures
        r@ == users_page_html(
            username@,
            csrf@,
            match users {
                Some(v) => Some(v@),
                None => None,
            },
            source@,
            opt_seq(selection.id),
            selection.q@,
        ),
{
    let empty: Vec<UserRow> = Vec::new();
    let error = users.is_none();
    let records = match users {
        Some(v) => v,
        None => &empty,
    };
    let query = selection.q.as_str();
    let id = opt_as_str(&selection.id);
    let mut texts: Vec<String> = Vec::new();
    let mut rows = String::new();
    for i in 0..records.len()
        invariant
            texts@.len() == i,
            forall|j: int| 0 <= j < i ==> (#[trigger] texts@[j])@ == user_text(records@[j]),
            rows@ == user_rows_html(records@.take(i as int), crate::admin_console::opt_str(id), query@),
    {
        proof {
            assert(records@.take(i + 1).drop_last() =~= records@.take(i as int));
        }
        texts.push(user_search_text(records[i].username.as_str(), records[i].id.as_str()));
        rows.append(user_row(&records[i], id, query).as_str());
    }
    assert(records@.take(records.len() as int) =~= records@);
    assert(views(texts@) =~= user_texts(records@));
    let listing = search_listing(&texts, query);
    let count = listing.count;
    let has_detail = id.is_some() && !error;
    let detail = if has_detail {
        let selected: Option<UserRow> = match id {
            Some(i) => match find_first(&ids_of_users(records), i) {
                Some(k) => Some(copy_user(&records[k])),
                None => None,
            },
            None => None,
        };
        assert(selected == selected_user(records@, crate::admin_console::opt_str(id)));
        user_detail(&selected, source, query)
    } else {
        "".to_owned()
    };
    let mut body = "<header class=\"page-header\"><h1>Users</h1><p>Local application users. Administrator accounts and upstream identities are separate.</p><p class=\"source\">User source: <strong>".to_owned();
    body.append(escape_html(source).as_str());
    body.append("</strong>");
    body.append(if str_eq(source, "JSON") { "<span>All configured JSON users are enabled.</span>" } else { "" });
    body.append("</p></header><div class=\"toolbar\">");
    body.append(search("users", query).as_str());
    body.append("</div><span class=\"sr-only\" role=\"status\" data-count=\"users\"");
    body.append(hidden(error));
    body.append(">");
    body.append(u64_text(count as u64).as_str());
    body.append(" users found</span><div class=\"");
    body.append(if has_detail { "list-detail has-detail" } else { "list-detail" });
    body.append("\"><div class=\"table-area\"><table data-filter-table");
    body.append(hidden(error || count == 0));
    body.append("><caption class=\"sr-only\">Local application users</caption><thead><tr><th scope=\"col\">Username</th><th scope=\"col\">User ID</th><th scope=\"col\">Status</th></tr></thead><tbody>");
    body.append(rows.as_str());
    body.append("</tbody></table><div class=\"state error\" role=\"alert\"");
    body.append(hidden(!error));
    body.append("><h2>Could not load users.</h2><p>Try again.</p><a class=\"primary\" href=\"");
    body.append(escape_html(selected_url("users", id, query).as_str()).as_str());
    body.append("\">Retry</a></div><div class=\"state\" role=\"status\"");
    body.append(hidden(error || records.len() != 0));
    body.append("><h2>No local users available.</h2><p>Configured local users will appear here.</p></div><div class=\"state\" data-no-results");
    body.append(hidden(error || count > 0 || records.len() == 0));
    body.append(" role=\"status\">");
    body.append(icon("search").as_str());
    body.append("<h2 data-no-results-title>No users match “");
    body.append(escape_html(query).as_str());
    body.append("”.</h2><button class=\"text-button\" type=\"button\" data-clear-search>Clear search</button></div></div>");
    body.append(detail.as_str());
    body.append("</div>");
    document("Users", shell("users", username, csrf, false, body.as_str()).as_str())
}

// ---------------------------------------------------------------------------
// Provider settings and sign-in
// ---------------------------------------------------------------------------

/// The provider settings page: identity, token defaults and the login
/// page's background color with a preview.
pub open spec fn provider_page_html(username: Seq<char>, csrf: Seq<char>, p: ProviderSettings) -> Seq<char> {
    let background = opt_seq(p.login_background_color);
    let swatch = match background {
        Some(color) => "<span class=\"swatch\" style=\"background: "@ + escape_html_spec(color)
            + "\" aria-hidden=\"true\"></span>"@,
        None => ""@,
    };
    let shown = match background {
        Some(color) => color,
        None => "Default background"@,
    };
    let body = "<header class=\"page-header\"><h1>Provider settings</h1><p>Current provider configuration.</p></header><div class=\"details provider\">"@
        + group_html(
        "Identity"@,
        field_html("Provider name"@, false, None, escape_html_spec(p.name@)) + field_html(
            "Issuer URL"@,
            true,
            Some(p.issuer@),
            escape_html_spec(p.issuer@),
        ),
    ) + group_html(
        "Tokens"@,
        field_html("Default signing algorithm"@, true, None, escape_html_spec(p.signing_algorithm.name()))
            + field_html(
            "Default token lifetime"@,
            false,
            None,
            escape_html_spec(duration_text(p.token_ttl_seconds as nat)),
        ),
    ) + "<section class=\"group\" aria-label=\"Login appearance\"><h2>Login appearance</h2><dl>"@ + field_html(
        "Background color"@,
        false,
        background,
        swatch + "<span class=\"mono\">"@ + escape_html_spec(shown) + "</span>"@,
    )
        + "</dl><figure class=\"login-preview\"><div class=\"preview-frame\" inert=\"\"><iframe src=\"/admin/login-preview\" title=\"Current login appearance preview\" sandbox=\"\" tabindex=\"-1\" loading=\"lazy\"></iframe></div><figcaption>Login preview</figcaption></figure></section></div>"@;
    document_html("Provider settings"@, shell_html("provider"@, username, csrf, false, body))
}

/// Renders the provider settings page.
pub fn provider_page(username: &str, csrf: &str, provider: &ProviderSettings) -> (r: String)
    ensures
        r@ == provider_page_html(username@, csrf@, *provider),
{
    let background = opt_as_str(&provider.login_background_color);
    let mut detail = match background {
        Some(color) => {
            let mut w = "<span class=\"swatch\" style=\"background: ".to_owned();
            w.append(escape_html(color).as_str());
            w.append("\" aria-hidden=\"true\"></span>");
            w
        },
        None => "".to_owned(),
    };
    detail.append("<span class=\"mono\">");
    match background {
        Some(color) => detail.append(escape_html(color).as_str()),
        None => detail.append(escape_html("Default background").as_str()),
    }
    detail.append("</span>");
    let mut identity = field("Provider name", false, None, escape_html(provider.name.as_str()).as_str());
    identity.append(
        field("Issuer URL", true, Some(provider.issuer.as_str()), escape_html(provider.issuer.as_str()).as_str()).as_str(),
    );
    let mut tokens = field(
        "Default signing algorithm",
        true,
        None,
        escape_html(provider.signing_algorithm.as_str()).as_str(),
    );
    let lifetime = duration(provider.token_ttl_seconds);
    tokens.append(field("Default token lifetime", false, None, escape_html(lifetime.as_str()).as_str()).as_str());
    let mut body = "<header class=\"page-header\"><h1>Provider settings</h1><p>Current provider configuration.</p></header><div class=\"details provider\">".to_owned();
    body.append(group("Identity", identity.as_str()).as_str());
    body.append(group("Tokens", tokens.as_str()).as_str());
    body.append("<section class=\"group\" aria-label=\"Login appearance\"><h2>Login appearance</h2><dl>");
    body.append(field("Background color", false, background, detail.as_str()).as_str());
    body.append("</dl><figure class=\"login-preview\"><div class=\"preview-frame\" inert=\"\"><iframe src=\"/admin/login-preview\" title=\"Current login appearance preview\" sandbox=\"\" tabindex=\"-1\" loading=\"lazy\"></iframe></div><figcaption>Login preview</figcaption></figure></section></div>");
    document("Provider settings", shell("provider", username, csrf, false, body.as_str()).as_str())
}

/// The administrator sign-in page. Without a form token (`csrf` empty) the
/// form is hidden and a link offers to reload; a message is shown as an
/// alert.
pub open spec fn admin_login_page_html(csrf: Seq<char>, message: Option<Seq<char>>) -> Seq<char> {
    let unavailable = csrf.len() == 0;
    document_html(
        "Administrator sign in"@,
        "<main class=\"admin-sign-in\"><a href=\"/admin\"><img src=\"/admin/assets/logo.svg\" alt=\"Pocket-OID\"/></a><h1>Admin console</h1><p>Sign in with your administrator account.</p>"@
            + match message {
            Some(m) => "<p class=\"login-error\" role=\"alert\">"@ + escape_html_spec(m) + "</p>"@,
            None => ""@,
        } + "<form method=\"post\" action=\"/admin/login\""@ + hidden_attr(unavailable)
            + "><input type=\"hidden\" name=\"csrf\" value=\""@ + escape_html_spec(csrf)
            + "\"/><label for=\"username\">Username</label><input id=\"username\" name=\"username\" autocomplete=\"username\" required maxlength=\"128\"/><label for=\"password\">Password</label><input id=\"password\" name=\"password\" type=\"password\" autocomplete=\"current-password\" required/><button class=\"primary\" type=\"submit\">Sign in</button></form>"@
            + (if unavailable {
            "<a href=\"/admin/login\">Reload sign in</a>"@
        } else {
            ""@
        }) + "</main>"@,
    )
}

/// Renders the administrator sign-in page.
pub fn admin_login_page(csrf: &str, message: Option<&str>) -> (r: String)
    ensures
        r@ == admin_login_page_html(csrf@, crate::admin_console::opt_str(message)),
{
    let unavailable = csrf.unicode_len() == 0;
    let mut body = "<main class=\"admin-sign-in\"><a href=\"/admin\"><img src=\"/admin/assets/logo.svg\" alt=\"Pocket-OID\"/></a><h1>Admin console</h1><p>Sign in with your administrator account.</p>".to_owned();
    match message {
        Some(m) => {
            let mut p = "<p class=\"login-error\" role=\"alert\">".to_owned();
            p.append(escape_html(m).as_str());
            p.append("</p>");
            body.append(p.as_str());
        },
        None => body.append(""),
    }
    body.append("<form method=\"post\" action=\"/admin/login\"");
    body.append(hidden(unavailable));
    body.append("><input type=\"hidden\" name=\"csrf\" value=\"");
    body.append(escape_html(csrf).as_str());
    body.append("\"/><label for=\"username\">Username</label><input id=\"username\" name=\"username\" autocomplete=\"username\" required maxlength=\"128\"/><label for=\"password\">Password</label><input id=\"password\" name=\"password\" type=\"password\" autocomplete=\"current-password\" required/><button class=\"primary\" type=\"submit\">Sign in</button></form>");
    body.append(if unavailable { "<a href=\"/admin/login\">Reload sign in</a>" } else { "" });
    body.append("</main>");
    document("Administrator sign in", body.as_str())
}

} // verus!
