//! Access-token claims: the token template and its `${...}` placeholders.

use vstd::prelude::*;

use crate::config::Client;
use crate::json::{
    clone_json, lemma_view_items_append, lemma_view_members_append, lemma_view_members_index,
    escape_json, escape_json_char, json_text, items_text, lemma_view_items_len, lemma_view_items_push,
    lemma_view_members_len, lemma_view_members_push, members_text, string_text, to_json_text, view_items,
    view_members, view_of, JsonValue, JsonView,
};
use crate::text::{
    concat, ends_with, index_from, lemma_index_from, opt_seq, push_char, split_at_char, split_char, split_whitespace,
    starts_with, str_chars, str_eq, string_from_chars, trim_end_char, views, words,
};

verus! {

/// Why an access token could not be issued.
#[derive(Debug)]
pub enum TokenError {
    InvalidRequest(String),
    InvalidScope(String),
    ClaimConstruction(String),
    Signing,
}

impl TokenError {
    pub open spec fn text(&self) -> Seq<char> {
        match self {
            TokenError::InvalidRequest(m) => m@,
            TokenError::InvalidScope(m) => m@,
            TokenError::ClaimConstruction(m) => "failed to build token claims: "@ + m@,
            TokenError::Signing => "signing failure"@,
        }
    }

    /// The error's message.
    pub fn message(&self) -> (r: String)
        ensures
            r@ == self.text(),
    {
        match self {
            TokenError::InvalidRequest(m) => m.clone(),
            TokenError::InvalidScope(m) => m.clone(),
            TokenError::ClaimConstruction(m) => concat("failed to build token claims: ", m.as_str()),
            TokenError::Signing => "signing failure".to_owned(),
        }
    }
}

// ---------------------------------------------------------------------------
// Decimal text of integers
// ---------------------------------------------------------------------------

pub open spec fn digit_char(d: int) -> char {
    if d == 0 {
        '0'
    } else if d == 1 {
        '1'
    } else if d == 2 {
        '2'
    } else if d == 3 {
        '3'
    } else if d == 4 {
        '4'
    } else if d == 5 {
        '5'
    } else if d == 6 {
        '6'
    } else if d == 7 {
        '7'
    } else if d == 8 {
        '8'
    } else {
        '9'
    }
}

/// The decimal digits of a natural number.
pub open spec fn nat_text(n: nat) -> Seq<char>
    decreases n,
{
    if n < 10 {
        seq![digit_char(n as int)]
    } else {
        nat_text(n / 10) + seq![digit_char((n % 10) as int)]
    }
}

/// The decimal text of an integer, with a leading `-` when negative.
pub open spec fn int_text(n: int) -> Seq<char> {
    if n < 0 {
        seq!['-'] + nat_text((-n) as nat)
    } else {
        nat_text(n as nat)
    }
}

fn digit(d: u64) -> (c: char)
    requires
        d < 10,
    ensures
        c == digit_char(d as int),
{
    match d {
        0 => '0',
        1 => '1',
        2 => '2',
        3 => '3',
        4 => '4',
        5 => '5',
        6 => '6',
        7 => '7',
        8 => '8',
        _ => '9',
    }
}

/// The decimal text of `n`.
pub fn u64_text(n: u64) -> (r: String)
    ensures
        r@ == nat_text(n as nat),
    decreases n,
{
    if n < 10 {
        let mut r = String::new();
        push_char(&mut r, digit(n));
        assert(r@ =~= nat_text(n as nat));
        r
    } else {
        let mut r = u64_text(n / 10);
        push_char(&mut r, digit(n % 10));
        r
    }
}

/// The decimal text of `n`.
pub fn i64_text(n: i64) -> (r: String)
    ensures
        r@ == int_text(n as int),
{
    if n < 0 {
        let magnitude: u64 = if n == i64::MIN {
            9223372036854775808u64
        } else {
            (-n) as u64
        };
        let digits = u64_text(magnitude);
        let mut r = String::new();
        push_char(&mut r, '-');
        r.append(digits.as_str());
        r
    } else {
        u64_text(n as u64)
    }
}

// ---------------------------------------------------------------------------
// The context a token is rendered for
// ---------------------------------------------------------------------------

/// What a token's placeholders are filled from.
pub struct TokenContext<'a> {
    pub client: &'a Client,
    pub scope: Option<&'a str>,
    pub subject: &'a str,
    pub issued_at: i64,
    pub expires_at: i64,
    pub audience: Option<&'a str>,
    pub uuid: &'a str,
}

/// A token context as values.
pub struct ContextView {
    pub client_id: Seq<char>,
    pub scope: Option<Seq<char>>,
    pub subject: Seq<char>,
    pub issued_at: i64,
    pub expires_at: i64,
    pub audience: Option<Seq<char>>,
    pub uuid: Seq<char>,
    pub metadata: Seq<(Seq<char>, JsonView)>,
}

impl<'a> TokenContext<'a> {
    pub open spec fn view(&self) -> ContextView {
        ContextView {
            client_id: self.client.client_id@,
            scope: crate::upstream::opt_str(self.scope),
            subject: self.subject@,
            issued_at: self.issued_at,
            expires_at: self.expires_at,
            audience: crate::upstream::opt_str(self.audience),
            uuid: self.uuid@,
            metadata: view_members(self.client.metadata@),
        }
    }
}

// ---------------------------------------------------------------------------
// Placeholders
// ---------------------------------------------------------------------------

/// The index of the first member named `k`, or the number of members.
pub open spec fn member_index(ms: Seq<(Seq<char>, JsonView)>, k: Seq<char>) -> int
    decreases ms.len(),
{
    if ms.len() == 0 {
        0
    } else if ms[0].0 == k {
        0
    } else {
        1 + member_index(ms.drop_first(), k)
    }
}

pub proof fn lemma_member_index(ms: Seq<(Seq<char>, JsonView)>, k: Seq<char>)
    ensures
        0 <= member_index(ms, k) <= ms.len(),
        member_index(ms, k) < ms.len() ==> ms[member_index(ms, k)].0 == k,
        forall|j: int| 0 <= j < member_index(ms, k) ==> (#[trigger] ms[j]).0 != k,
    decreases ms.len(),
{
    if ms.len() > 0 && ms[0].0 != k {
        lemma_member_index(ms.drop_first(), k);
        assert forall|j: int| 0 <= j < member_index(ms, k) implies (#[trigger] ms[j]).0 != k by {
            if j > 0 {
                assert(ms[j] == ms.drop_first()[j - 1]);
            }
        }
    }
}

/// The value reached from `cur` by following object members named `segs`.
pub open spec fn lookup_path(cur: JsonView, segs: Seq<Seq<char>>) -> Option<JsonView>
    decreases segs.len(),
{
    if segs.len() == 0 {
        Some(cur)
    } else {
        match cur {
            JsonView::Object(ms) => if member_index(ms, segs[0]) < ms.len() {
                lookup_path(ms[member_index(ms, segs[0])].1, segs.drop_first())
            } else {
                None
            },
            _ => None,
        }
    }
}

/// The client metadata value at a dot-separated path.
pub open spec fn metadata_at(metadata: Seq<(Seq<char>, JsonView)>, path: Seq<char>) -> Option<JsonView> {
    lookup_path(JsonView::Object(metadata), split_at_char(path, '.'))
}

/// What a placeholder key stands for in a context.
pub open spec fn resolve(key: Seq<char>, c: ContextView) -> Option<JsonView> {
    if key == "client_id"@ {
        Some(JsonView::Str(c.client_id))
    } else if key == "audience"@ {
        Some(
            JsonView::Str(
                match c.audience {
                    Some(a) => a,
                    None => c.client_id,
                },
            ),
        )
    } else if key == "scope"@ {
        Some(
            JsonView::Str(
                match c.scope {
                    Some(s) => s,
                    None => Seq::empty(),
                },
            ),
        )
    } else if key == "subject"@ {
        Some(JsonView::Str(c.subject))
    } else if key == "issued_at"@ {
        Some(JsonView::Number(int_text(c.issued_at as int)))
    } else if key == "expires_at"@ {
        Some(JsonView::Number(int_text(c.expires_at as int)))
    } else if key == "uuid"@ || key == "jti"@ {
        Some(JsonView::Str(c.uuid))
    } else if key == "tenant"@ {
        metadata_at(c.metadata, "tenant"@)
    } else if starts_with(key, "metadata."@) {
        metadata_at(c.metadata, key.skip(9))
    } else {
        None
    }
}

/// A resolved value as text: strings as they are, anything else as JSON.
pub open spec fn resolved_text(v: JsonView) -> Seq<char> {
    match v {
        JsonView::Str(s) => s,
        _ => json_text(v),
    }
}

/// Whether `${` starts at `k`.
pub open spec fn opens_at(s: Seq<char>, k: int) -> bool {
    0 <= k && k + 1 < s.len() && s[k] == '$' && s[k + 1] == '{'
}

/// The first index at or after `i` where `${` starts, or the length of `s`.
pub open spec fn next_open(s: Seq<char>, i: int) -> int
    decreases s.len() - i,
{
    if i < 0 || i + 1 >= s.len() {
        s.len() as int
    } else if opens_at(s, i) {
        i
    } else {
        next_open(s, i + 1)
    }
}

pub proof fn lemma_next_open(s: Seq<char>, i: int)
    requires
        0 <= i <= s.len(),
    ensures
        i <= next_open(s, i) <= s.len(),
        next_open(s, i) < s.len() ==> opens_at(s, next_open(s, i)),
        forall|k: int| i <= k < next_open(s, i) ==> !opens_at(s, k),
    decreases s.len() - i,
{
    if i + 1 < s.len() && !opens_at(s, i) {
        lemma_next_open(s, i + 1);
    }
}

/// The text of `s` from `i` with each `${key}` whose key resolves replaced
/// by the resolved text; unknown placeholders stay, and an unclosed `${`
/// ends the substitution.
pub open spec fn render_from(s: Seq<char>, i: int, c: ContextView) -> Seq<char>
    decreases s.len() - i,
{
    if i < 0 || i >= s.len() {
        Seq::empty()
    } else {
        proof {
            lemma_next_open(s, i);
        }
        let k = next_open(s, i);
        if k >= s.len() {
            s.subrange(i, s.len() as int)
        } else {
            let e = index_from(s, '}', k);
            if e >= s.len() || e < k {
                s.subrange(i, s.len() as int)
            } else {
                match resolve(s.subrange(k + 2, e), c) {
                    Some(v) => s.subrange(i, k) + resolved_text(v) + render_from(s, e + 1, c),
                    None => s.subrange(i, e + 1) + render_from(s, e + 1, c),
                }
            }
        }
    }
}

/// `s` without its leading repetitions of `p`.
pub open spec fn strip_prefix_all(s: Seq<char>, p: Seq<char>) -> Seq<char>
    decreases s.len(),
{
    if p.len() > 0 && starts_with(s, p) {
        strip_prefix_all(s.skip(p.len() as int), p)
    } else {
        s
    }
}

pub open spec fn has_open(s: Seq<char>) -> bool {
    exists|k: int| opens_at(s, k)
}

/// Whether a template string is exactly one placeholder: it starts with
/// `${` and its first `}` is its last character.
pub open spec fn one_placeholder(value: Seq<char>) -> bool {
    starts_with(value, "${"@) && ends_with(value, "}"@) && index_from(value, '}', 0) == value.len() - 1
}

/// What a template string becomes: itself when it holds no placeholder; the
/// resolved value, typed, when the whole string is exactly one placeholder;
/// the string with every known placeholder substituted otherwise.
pub open spec fn substitute(value: Seq<char>, c: ContextView) -> Result<JsonView, Seq<char>> {
    if !has_open(value) {
        Ok(JsonView::Str(value))
    } else if one_placeholder(value) {
        let key = trim_end_char(strip_prefix_all(value, "${"@), '}');
        match resolve(key, c) {
            Some(v) => Ok(v),
            None => Err("unknown placeholder '"@ + key + "' in token template"@),
        }
    } else {
        Ok(JsonView::Str(render_from(value, 0, c)))
    }
}

/// The claims a template renders to in a context, or why it cannot.
pub open spec fn render(t: JsonView, c: ContextView) -> Result<JsonView, Seq<char>>
    decreases t, 1nat,
{
    match t {
        JsonView::Str(s) => substitute(s, c),
        JsonView::Array(items) => match render_items(items, c) {
            Ok(vs) => Ok(JsonView::Array(vs)),
            Err(e) => Err(e),
        },
        JsonView::Object(ms) => match render_members(ms, c) {
            Ok(vs) => Ok(JsonView::Object(vs)),
            Err(e) => Err(e),
        },
        _ => Ok(t),
    }
}

pub open spec fn render_items(items: Seq<JsonView>, c: ContextView) -> Result<Seq<JsonView>, Seq<char>>
    decreases items, 0nat,
{
    if items.len() == 0 {
        Ok(Seq::empty())
    } else {
        match render(items[0], c) {
            Err(e) => Err(e),
            Ok(v) => match render_items(items.subrange(1, items.len() as int), c) {
                Err(e) => Err(e),
                Ok(vs) => Ok(seq![v] + vs),
            },
        }
    }
}

pub open spec fn render_members(ms: Seq<(Seq<char>, JsonView)>, c: ContextView) -> Result<
    Seq<(Seq<char>, JsonView)>,
    Seq<char>,
>
    decreases ms, 0nat,
{
    if ms.len() == 0 {
        Ok(Seq::empty())
    } else {
        match render(ms[0].1, c) {
            Err(e) => Err(e),
            Ok(v) => match render_members(ms.subrange(1, ms.len() as int), c) {
                Err(e) => Err(e),
                Ok(vs) => Ok(seq![(ms[0].0, v)] + vs),
            },
        }
    }
}

// ---------------------------------------------------------------------------
// Rendering
// ---------------------------------------------------------------------------

/// The template string itself when it is one whole placeholder.
pub fn extract_placeholder(value: &str) -> (r: Option<&str>)
    ensures
        r is Some <==> starts_with(value@, "${"@) && ends_with(value@, "}"@),
        r matches Some(p) ==> p@ == value@,
{
    if crate::text::str_starts_with(value, "${") && str_ends_with(value, "}") {
        Some(value)
    } else {
        None
    }
}

fn str_ends_with(s: &str, p: &str) -> (r: bool)
    ensures
        r == ends_with(s@, p@),
{
    let v = str_chars(s);
    let q = str_chars(p);
    crate::text::chars_ends_with(&v, &q)
}

/// The member of `members` named `key`.
fn find_member<'a>(members: &'a Vec<(String, JsonValue)>, key: &str) -> (r: Option<&'a JsonValue>)
    ensures
        ({
            let ms = view_members(members@);
            match r {
                Some(v) => member_index(ms, key@) < ms.len() && v@ == ms[member_index(ms, key@)].1,
                None => member_index(ms, key@) >= ms.len(),
            }
        }),
{
    let ghost ms = view_members(members@);
    proof {
        lemma_member_index(ms, key@);
        lemma_view_members_len(members@);
        lemma_view_members_index(members@);
    }
    for i in 0..members.len()
        invariant
            ms == view_members(members@),
            ms.len() == members@.len(),
            forall|j: int| 0 <= j < members@.len() ==> (#[trigger] ms[j]) == (members@[j].0@, view_of(members@[j].1)),
            forall|j: int| 0 <= j < i ==> (#[trigger] members@[j]).0@ != key@,
            0 <= member_index(ms, key@) <= ms.len(),
            member_index(ms, key@) < ms.len() ==> ms[member_index(ms, key@)].0 == key@,
            forall|j: int| 0 <= j < member_index(ms, key@) ==> (#[trigger] ms[j]).0 != key@,
    {
        if str_eq(members[i].0.as_str(), key) {
            proof {
                let m = member_index(ms, key@);
                assert(ms[i as int].0 == key@);
                if m < i {
                    assert(ms[m] == (members@[m].0@, view_of(members@[m].1)));
                }
            }
            return Some(&members[i].1);
        }
        assert(ms[i as int].0 != key@);
    }
    None
}

/// The client metadata value at a dot-separated path.
pub fn lookup_metadata(path: &str, metadata: &Vec<(String, JsonValue)>) -> (r: Option<JsonValue>)
    ensures
        match r {
            Some(v) => metadata_at(view_members(metadata@), path@) == Some(v@),
            None => metadata_at(view_members(metadata@), path@) is None,
        },
{
    let segments = split_char(path, '.');
    proof {
        crate::text::lemma_split_nonempty(path@, '.');
    }
    let first = segments[0].as_str();
    let mut cursor = match find_member(metadata, first) {
        Some(v) => v,
        None => {
            return None;
        },
    };
    let ghost segs = views(segments@);
    proof {
        let ms = view_members(metadata@);
        assert(segs[0] == first@);
        assert(segs.skip(1) =~= segs.drop_first());
    }
    for i in 1..segments.len()
        invariant
            segs == views(segments@),
            segs == split_at_char(path@, '.'),
            segs.len() >= 1,
            metadata_at(view_members(metadata@), path@) == lookup_path(cursor@, segs.skip(i as int)),
    {
        let ghost rest = segs.skip(i as int);
        proof {
            assert(rest[0] == segments@[i as int]@);
            assert(rest.drop_first() =~= segs.skip(i + 1));
        }
        match cursor {
            JsonValue::Object(members) => {
                match find_member(members, segments[i].as_str()) {
                    Some(v) => {
                        cursor = v;
                    },
                    None => {
                        return None;
                    },
                }
            },
            _ => {
                return None;
            },
        }
    }
    assert(segs.skip(segs.len() as int) =~= Seq::<Seq<char>>::empty());
    Some(clone_json(cursor))
}

fn opt_to_json(o: Option<&str>, fallback: &str) -> (r: JsonValue)
    ensures
        r@ == JsonView::Str(
            match crate::upstream::opt_str(o) {
                Some(a) => a,
                None => fallback@,
            },
        ),
{
    match o {
        Some(a) => JsonValue::String(a.to_owned()),
        None => JsonValue::String(fallback.to_owned()),
    }
}

pub open spec fn opt_json_view(o: Option<JsonValue>) -> Option<JsonView> {
    match o {
        Some(v) => Some(v@),
        None => None,
    }
}

/// What a placeholder key stands for in `ctx`.
pub fn resolve_placeholder(key: &str, ctx: &TokenContext) -> (r: Option<JsonValue>)
    ensures
        opt_json_view(r) == resolve(key@, ctx.view()),
{
    let ghost c = ctx.view();
    let r = if str_eq(key, "client_id") {
        Some(JsonValue::String(ctx.client.client_id.clone()))
    } else if str_eq(key, "audience") {
        Some(opt_to_json(ctx.audience, ctx.client.client_id.as_str()))
    } else if str_eq(key, "scope") {
        proof {
            reveal_strlit("");
        }
        assert(""@ =~= Seq::<char>::empty());
        Some(opt_to_json(ctx.scope, ""))
    } else if str_eq(key, "subject") {
        Some(JsonValue::String(ctx.subject.to_owned()))
    } else if str_eq(key, "issued_at") {
        Some(JsonValue::Number(i64_text(ctx.issued_at)))
    } else if str_eq(key, "expires_at") {
        Some(JsonValue::Number(i64_text(ctx.expires_at)))
    } else if str_eq(key, "uuid") || str_eq(key, "jti") {
        Some(JsonValue::String(ctx.uuid.to_owned()))
    } else if str_eq(key, "tenant") {
        let r = lookup_metadata("tenant", &ctx.client.metadata);
        assert(opt_json_view(r) == metadata_at(c.metadata, "tenant"@));
        r
    } else if crate::text::str_starts_with(key, "metadata.") {
        proof {
            reveal_strlit("metadata.");
        }
        assert("metadata."@.len() == 9);
        let v = str_chars(key);
        let path = string_from_chars(&v, 9, v.len());
        assert(path@ =~= key@.skip(9));
        let r = lookup_metadata(path.as_str(), &ctx.client.metadata);
        assert(opt_json_view(r) == metadata_at(c.metadata, key@.skip(9)));
        r
    } else {
        None
    };
    r
}

/// A resolved value as text: strings as they are, anything else as JSON.
pub fn resolved_to_string(value: JsonValue) -> (r: String)
    ensures
        r@ == resolved_text(value@),
{
    match value {
        JsonValue::String(s) => s,
        other => to_json_text(&other),
    }
}

fn next_open_index(v: &Vec<char>, i: usize) -> (r: usize)
    requires
        i <= v@.len(),
    ensures
        r == next_open(v@, i as int),
{
    let mut k = i;
    while v.len() - k > 1 && !(v[k] == '$' && v[k + 1] == '{')
        invariant
            i <= k <= v@.len(),
            next_open(v@, k as int) == next_open(v@, i as int),
        decreases v@.len() - k,
    {
        k = k + 1;
    }
    if v.len() - k > 1 {
        k
    } else {
        v.len()
    }
}

fn index_of_char(v: &Vec<char>, c: char, i: usize) -> (r: usize)
    requires
        i <= v@.len(),
    ensures
        r == index_from(v@, c, i as int),
{
    let mut k = i;
    while k < v.len() && v[k] != c
        invariant
            i <= k <= v@.len(),
            index_from(v@, c, k as int) == index_from(v@, c, i as int),
        decreases v@.len() - k,
    {
        k = k + 1;
    }
    k
}

fn str_has_open(value: &Vec<char>) -> (r: bool)
    ensures
        r == has_open(value@),
{
    let k = next_open_index(value, 0);
    proof {
        lemma_next_open(value@, 0);
        if !(k < value@.len()) {
            assert forall|j: int| !opens_at(value@, j) by {
                if opens_at(value@, j) {
                    assert(0 <= j < next_open(value@, 0));
                }
            }
        }
    }
    k < value.len()
}

fn strip_leading_opens(v: &Vec<char>) -> (r: usize)
    ensures
        r <= v@.len(),
        v@.skip(r as int) == strip_prefix_all(v@, "${"@),
{
    proof {
        reveal_strlit("${");
    }
    let mut i: usize = 0;
    assert(v@.skip(0) =~= v@);
    while v.len() - i >= 2 && v[i] == '$' && v[i + 1] == '{'
        invariant
            i <= v@.len(),
            strip_prefix_all(v@.skip(i as int), "${"@) == strip_prefix_all(v@, "${"@),
        decreases v@.len() - i,
    {
        proof {
            reveal_strlit("${");
            let t = v@.skip(i as int);
            assert(t.take(2) =~= "${"@);
            assert(t.skip(2) =~= v@.skip(i + 2));
        }
        i = i + 2;
    }
    proof {
        reveal_strlit("${");
        let t = v@.skip(i as int);
        if starts_with(t, "${"@) {
            assert(t[0] == "${"@[0] && t[1] == "${"@[1]);
        }
    }
    i
}

pub open spec fn json_result(r: Result<JsonValue, String>) -> Result<JsonView, Seq<char>> {
    match r {
        Ok(v) => Ok(v@),
        Err(e) => Err(e@),
    }
}

/// Fills the placeholders of one template string.
pub fn substitute_string(value: &str, ctx: &TokenContext) -> (r: Result<JsonValue, String>)
    ensures
        json_result(r) == substitute(value@, ctx.view()),
{
    let v = str_chars(value);
    if !str_has_open(&v) {
        return Ok(JsonValue::String(value.to_owned()));
    }
    let whole = match extract_placeholder(value) {
        Some(_) => v.len() > 0 && index_of_char(&v, '}', 0) == v.len() - 1,
        None => false,
    };
    if whole {
        let start = strip_leading_opens(&v);
        let stripped = string_from_chars(&v, start, v.len());
        assert(stripped@ =~= v@.skip(start as int));
        let key = crate::text::trim_end_matches_char(stripped.as_str(), '}');
        return match resolve_placeholder(key.as_str(), ctx) {
            Some(resolved) => Ok(resolved),
            None => {
                let mut message = crate::text::concat("unknown placeholder '", key.as_str());
                message.append("' in token template");
                Err(message)
            },
        };
    }
    let ghost c = ctx.view();
    let mut out = String::new();
    let mut i: usize = 0;
    assert(out@ + render_from(v@, 0, c) =~= render_from(v@, 0, c));
    while i < v.len()
        invariant
            v@ == value@,
            c == ctx.view(),
            i <= v@.len(),
            out@ + render_from(v@, i as int, c) == render_from(v@, 0, c),
        decreases v@.len() - i,
    {
        proof {
            lemma_next_open(v@, i as int);
        }
        let k = next_open_index(&v, i);
        if k >= v.len() {
            let tail = string_from_chars(&v, i, v.len());
            out.append(tail.as_str());
            i = v.len();
        } else {
        proof {
            lemma_index_from(v@, '}', k as int);
        }
        let e = index_of_char(&v, '}', k);
        if e >= v.len() {
            let tail = string_from_chars(&v, i, v.len());
            out.append(tail.as_str());
            i = v.len();
        } else {
        let key = string_from_chars(&v, k + 2, e);
        match resolve_placeholder(key.as_str(), ctx) {
            Some(resolved) => {
                let before = string_from_chars(&v, i, k);
                out.append(before.as_str());
                let text = resolved_to_string(resolved);
                out.append(text.as_str());
            },
            None => {
                let kept = string_from_chars(&v, i, e + 1);
                out.append(kept.as_str());
            },
        }
        i = e + 1;
        }
        }
    }
    proof {
        assert(render_from(v@, i as int, c) =~= Seq::<char>::empty());
        assert(out@ =~= render_from(v@, 0, c));
    }
    Ok(JsonValue::String(out))
}

pub proof fn lemma_render_items_append(a: Seq<JsonView>, b: Seq<JsonView>, c: ContextView)
    ensures
        render_items(a + b, c) == match render_items(a, c) {
            Err(e) => Err(e),
            Ok(va) => match render_items(b, c) {
                Err(e) => Err(e),
                Ok(vb) => Ok(va + vb),
            },
        },
    decreases a.len(),
{
    if a.len() == 0 {
        assert(a + b =~= b);
        if let Ok(vb) = render_items(b, c) {
            assert(Seq::<JsonView>::empty() + vb =~= vb);
        }
    } else {
        let rest = a.subrange(1, a.len() as int);
        assert((a + b).subrange(1, (a + b).len() as int) =~= rest + b);
        assert((a + b)[0] == a[0]);
        lemma_render_items_append(rest, b, c);
        if let Ok(v) = render(a[0], c) {
            if let Ok(vr) = render_items(rest, c) {
                if let Ok(vb) = render_items(b, c) {
                    assert(seq![v] + (vr + vb) =~= (seq![v] + vr) + vb);
                }
            }
        }
    }
}

pub proof fn lemma_render_members_append(
    a: Seq<(Seq<char>, JsonView)>,
    b: Seq<(Seq<char>, JsonView)>,
    c: ContextView,
)
    ensures
        render_members(a + b, c) == match render_members(a, c) {
            Err(e) => Err(e),
            Ok(va) => match render_members(b, c) {
                Err(e) => Err(e),
                Ok(vb) => Ok(va + vb),
            },
        },
    decreases a.len(),
{
    if a.len() == 0 {
        assert(a + b =~= b);
        if let Ok(vb) = render_members(b, c) {
            assert(Seq::<(Seq<char>, JsonView)>::empty() + vb =~= vb);
        }
    } else {
        let rest = a.subrange(1, a.len() as int);
        assert((a + b).subrange(1, (a + b).len() as int) =~= rest + b);
        assert((a + b)[0] == a[0]);
        lemma_render_members_append(rest, b, c);
        if let Ok(v) = render(a[0].1, c) {
            if let Ok(vr) = render_members(rest, c) {
                if let Ok(vb) = render_members(b, c) {
                    assert(seq![(a[0].0, v)] + (vr + vb) =~= (seq![(a[0].0, v)] + vr) + vb);
                }
            }
        }
    }
}

proof fn lemma_render_single(x: JsonView, c: ContextView)
    ensures
        render_items(seq![x], c) == match render(x, c) {
            Err(e) => Err(e),
            Ok(v) => Ok(seq![v]),
        },
{
    assert(seq![x].subrange(1, 1) =~= Seq::<JsonView>::empty());
    assert(render_items(Seq::<JsonView>::empty(), c) == Ok::<Seq<JsonView>, Seq<char>>(Seq::empty()));
    assert(seq![x][0] == x);
    if let Ok(v) = render(x, c) {
        assert(seq![v] + Seq::<JsonView>::empty() =~= seq![v]);
    }
}

proof fn lemma_render_single_member(x: (Seq<char>, JsonView), c: ContextView)
    ensures
        render_members(seq![x], c) == match render(x.1, c) {
            Err(e) => Err(e),
            Ok(v) => Ok(seq![(x.0, v)]),
        },
{
    assert(seq![x].subrange(1, 1) =~= Seq::<(Seq<char>, JsonView)>::empty());
    assert(render_members(Seq::<(Seq<char>, JsonView)>::empty(), c) == Ok::<
        Seq<(Seq<char>, JsonView)>,
        Seq<char>,
    >(Seq::empty()));
    assert(seq![x][0] == x);
    if let Ok(v) = render(x.1, c) {
        assert(seq![(x.0, v)] + Seq::<(Seq<char>, JsonView)>::empty() =~= seq![(x.0, v)]);
    }
}

/// Renders a template value: strings have their placeholders filled,
/// arrays and objects are rendered member by member, everything else is
/// kept. The first failing string, in document order, is the error.
pub fn apply_template(template: &JsonValue, ctx: &TokenContext) -> (r: Result<JsonValue, String>)
    ensures
        json_result(r) == render(template@, ctx.view()),
    decreases template,
{
    let ghost c = ctx.view();
    match template {
        JsonValue::String(text) => substitute_string(text.as_str(), ctx),
        JsonValue::Array(items) => {
            let mut out: Vec<JsonValue> = Vec::new();
            assert(items@.take(0) =~= Seq::<JsonValue>::empty());
            for i in 0..items.len()
                invariant
                    *template == JsonValue::Array(*items),
                    c == ctx.view(),
                    render_items(view_items(items@.take(i as int)), c) == Ok::<Seq<JsonView>, Seq<char>>(
                        view_items(out@),
                    ),
            {
                proof {
                    vstd::seq::axiom_seq_index_decreases(items@, i as int);
                    vstd::std_specs::vec::axiom_vec_decreases_to_view(*items);
                    assert(decreases_to!(*template => (*template)->Array_0));
                    assert(decreases_to!(*items => items@));
                }
                let rendered = apply_template(&items[i], ctx);
                proof {
                    let pre = items@.take(i as int);
                    let x = items@[i as int];
                    assert(items@.take(i + 1) =~= pre + seq![x]);
                    lemma_view_items_append(pre, seq![x]);
                    lemma_view_items_push(Seq::<JsonValue>::empty(), x);
                    assert(Seq::<JsonValue>::empty().push(x) =~= seq![x]);
                    assert(view_items(Seq::<JsonValue>::empty()) =~= Seq::<JsonView>::empty());
                    lemma_render_items_append(view_items(pre), view_items(seq![x]), c);
                    lemma_render_single(view_of(x), c);
                    // the whole array: this prefix, then the rest
                    let rest = items@.skip(i + 1);
                    assert(items@ =~= items@.take(i + 1) + rest);
                    lemma_view_items_append(items@.take(i + 1), rest);
                    lemma_render_items_append(view_items(items@.take(i + 1)), view_items(rest), c);
                }
                match rendered {
                    Ok(v) => {
                        proof {
                            lemma_view_items_append(out@, seq![v]);
                            lemma_view_items_push(Seq::<JsonValue>::empty(), v);
                            assert(Seq::<JsonValue>::empty().push(v) =~= seq![v]);
                        }
                        let ghost before = out@;
                        out.push(v);
                        assert(out@ =~= before + seq![v]);
                    },
                    Err(e) => {
                        return Err(e);
                    },
                }
            }
            assert(items@.take(items@.len() as int) =~= items@);
            Ok(JsonValue::Array(out))
        },
        JsonValue::Object(members) => {
            let mut out: Vec<(String, JsonValue)> = Vec::new();
            assert(members@.take(0) =~= Seq::<(String, JsonValue)>::empty());
            for i in 0..members.len()
                invariant
                    *template == JsonValue::Object(*members),
                    c == ctx.view(),
                    render_members(view_members(members@.take(i as int)), c) == Ok::<
                        Seq<(Seq<char>, JsonView)>,
                        Seq<char>,
                    >(view_members(out@)),
            {
                proof {
                    vstd::seq::axiom_seq_index_decreases(members@, i as int);
                    vstd::std_specs::vec::axiom_vec_decreases_to_view(*members);
                    assert(decreases_to!(*template => (*template)->Object_0));
                    assert(decreases_to!(*members => members@));
                    assert(decreases_to!(members@[i as int] => members@[i as int].1));
                }
                let rendered = apply_template(&members[i].1, ctx);
                proof {
                    let pre = members@.take(i as int);
                    let x = members@[i as int];
                    assert(members@.take(i + 1) =~= pre + seq![x]);
                    lemma_view_members_append(pre, seq![x]);
                    lemma_view_members_push(Seq::<(String, JsonValue)>::empty(), x);
                    assert(Seq::<(String, JsonValue)>::empty().push(x) =~= seq![x]);
                    assert(view_members(Seq::<(String, JsonValue)>::empty()) =~= Seq::<(Seq<char>, JsonView)>::empty());
                    lemma_render_members_append(view_members(pre), view_members(seq![x]), c);
                    lemma_render_single_member((x.0@, view_of(x.1)), c);
                    let rest = members@.skip(i + 1);
                    assert(members@ =~= members@.take(i + 1) + rest);
                    lemma_view_members_append(members@.take(i + 1), rest);
                    lemma_render_members_append(view_members(members@.take(i + 1)), view_members(rest), c);
                }
                match rendered {
                    Ok(v) => {
                        let k = members[i].0.clone();
                        proof {
                            lemma_view_members_append(out@, seq![(k, v)]);
                            lemma_view_members_push(Seq::<(String, JsonValue)>::empty(), (k, v));
                            assert(Seq::<(String, JsonValue)>::empty().push((k, v)) =~= seq![(k, v)]);
                        }
                        let ghost before = out@;
                        out.push((k, v));
                        assert(out@ =~= before + seq![(k, v)]);
                    },
                    Err(e) => {
                        return Err(e);
                    },
                }
            }
            assert(members@.take(members@.len() as int) =~= members@);
            Ok(JsonValue::Object(out))
        },
        _ => Ok(clone_json(template)),
    }
}

/// Whether the claim `key` is absent from `ms`, or still a string holding a
/// placeholder.
pub open spec fn claim_problem(ms: Seq<(Seq<char>, JsonView)>, key: Seq<char>) -> bool {
    member_index(ms, key) >= ms.len() || (ms[member_index(ms, key)].1 matches JsonView::Str(t) && has_open(t))
}

pub open spec fn missing_claim(key: Seq<char>) -> Seq<char> {
    "token template is missing required claim '"@ + key + "'"@
}

/// Why rendered claims are not a token, if they are not: they must be an
/// object holding `iss`, `sub`, `aud`, `iat`, `exp` and `jti`, none of them
/// an unfilled placeholder.
pub open spec fn claims_problem(v: JsonView) -> Option<Seq<char>> {
    match v {
        JsonView::Object(ms) => {
        if claim_problem(ms, "iss"@) {
            Some(missing_claim("iss"@))
        } else
        if claim_problem(ms, "sub"@) {
            Some(missing_claim("sub"@))
        } else
        if claim_problem(ms, "aud"@) {
            Some(missing_claim("aud"@))
        } else
        if claim_problem(ms, "iat"@) {
            Some(missing_claim("iat"@))
        } else
        if claim_problem(ms, "exp"@) {
            Some(missing_claim("exp"@))
        } else
        if claim_problem(ms, "jti"@) {
            Some(missing_claim("jti"@))
        } else {
            None
        }
        },
        _ => Some("token template must produce a JSON object"@),
    }
}

fn missing_claim_message(key: &str) -> (r: String)
    ensures
        r@ == missing_claim(key@),
{
    let mut r = crate::text::concat("token template is missing required claim '", key);
    r.append("'");
    r
}

fn claim_present(members: &Vec<(String, JsonValue)>, key: &str) -> (r: bool)
    ensures
        r == !claim_problem(view_members(members@), key@),
{
    match find_member(members, key) {
        None => false,
        Some(v) => match v {
            JsonValue::String(t) => {
                let chars = str_chars(t.as_str());
                !str_has_open(&chars)
            },
            _ => true,
        },
    }
}

pub open spec fn unit_text_result(r: Result<(), String>) -> Option<Seq<char>> {
    match r {
        Ok(_) => None,
        Err(e) => Some(e@),
    }
}

/// Checks that rendered claims can be a token.
pub fn ensure_required_claims(claims: &JsonValue) -> (r: Result<(), String>)
    ensures
        unit_text_result(r) == claims_problem(claims@),
{
    match claims {
        JsonValue::Object(members) => {
            if !claim_present(members, "iss") {
                return Err(missing_claim_message("iss"));
            }
            if !claim_present(members, "sub") {
                return Err(missing_claim_message("sub"));
            }
            if !claim_present(members, "aud") {
                return Err(missing_claim_message("aud"));
            }
            if !claim_present(members, "iat") {
                return Err(missing_claim_message("iat"));
            }
            if !claim_present(members, "exp") {
                return Err(missing_claim_message("exp"));
            }
            if !claim_present(members, "jti") {
                return Err(missing_claim_message("jti"));
            }
            Ok(())
        },
        _ => Err("token template must produce a JSON object".to_owned()),
    }
}

/// The whitespace-separated scopes of a scope parameter.
pub fn parse_scope(value: Option<String>) -> (r: Vec<String>)
    ensures
        views(r@) == match value {
            Some(s) => words(s@),
            None => Seq::empty(),
        },
{
    match value {
        Some(s) => split_whitespace(s.as_str()),
        None => {
            let r: Vec<String> = Vec::new();
            assert(views(r@) =~= Seq::<Seq<char>>::empty());
            r
        },
    }
}

/// The claim template of access tokens.
#[derive(Debug)]
pub struct TokenTemplate {
    pub template: JsonValue,
}

impl TokenTemplate {
    pub fn new(template: JsonValue) -> (r: Self)
        ensures
            r.template == template,
    {
        TokenTemplate { template }
    }

    /// The claims of a token for `ctx`: the rendered template, which must
    /// hold the required claims.
    pub fn render(&self, ctx: &TokenContext) -> (r: Result<JsonValue, String>)
        ensures
            match r {
                Ok(v) => render(self.template@, ctx.view()) == Ok::<JsonView, Seq<char>>(v@)
                    && claims_problem(v@) is None,
                Err(e) => match render(self.template@, ctx.view()) {
                    Err(m) => e@ == m,
                    Ok(v) => claims_problem(v) == Some(e@),
                },
            },
    {
        let claims = apply_template(&self.template, ctx)?;
        ensure_required_claims(&claims)?;
        Ok(claims)
    }
}

} // verus!
