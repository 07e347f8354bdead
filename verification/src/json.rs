//! A JSON value, as the token template and client metadata hold it, and its
//! compact text.

use vstd::prelude::*;

use crate::text::push_char;

verus! {

/// A JSON value. Numbers keep their JSON text; object members keep their order.
#[derive(Debug)]
pub enum JsonValue {
    Null,
    Bool(bool),
    Number(String),
    String(String),
    Array(Vec<JsonValue>),
    Object(Vec<(String, JsonValue)>),
}

/// A JSON value with its texts as character sequences.
pub enum JsonView {
    Null,
    Bool(bool),
    Number(Seq<char>),
    Str(Seq<char>),
    Array(Seq<JsonView>),
    Object(Seq<(Seq<char>, JsonView)>),
}

pub open spec fn view_of(v: JsonValue) -> JsonView
    decreases v, 1nat,
{
    match v {
        JsonValue::Null => JsonView::Null,
        JsonValue::Bool(b) => JsonView::Bool(b),
        JsonValue::Number(t) => JsonView::Number(t@),
        JsonValue::String(s) => JsonView::Str(s@),
        JsonValue::Array(items) => JsonView::Array(view_items(items@)),
        JsonValue::Object(members) => JsonView::Object(view_members(members@)),
    }
}

pub open spec fn view_items(items: Seq<JsonValue>) -> Seq<JsonView>
    decreases items, 0nat,
{
    if items.len() == 0 {
        Seq::empty()
    } else {
        seq![view_of(items[0])] + view_items(items.subrange(1, items.len() as int))
    }
}

pub open spec fn view_members(members: Seq<(String, JsonValue)>) -> Seq<(Seq<char>, JsonView)>
    decreases members, 0nat,
{
    if members.len() == 0 {
        Seq::empty()
    } else {
        seq![(members[0].0@, view_of(members[0].1))] + view_members(
            members.subrange(1, members.len() as int),
        )
    }
}

pub proof fn lemma_view_items_len(items: Seq<JsonValue>)
    ensures
        view_items(items).len() == items.len(),
    decreases items.len(),
{
    if items.len() > 0 {
        lemma_view_items_len(items.subrange(1, items.len() as int));
    }
}

pub proof fn lemma_view_members_len(members: Seq<(String, JsonValue)>)
    ensures
        view_members(members).len() == members.len(),
    decreases members.len(),
{
    if members.len() > 0 {
        lemma_view_members_len(members.subrange(1, members.len() as int));
    }
}

pub proof fn lemma_view_items_append(a: Seq<JsonValue>, b: Seq<JsonValue>)
    ensures
        view_items(a + b) == view_items(a) + view_items(b),
    decreases a.len(),
{
    if a.len() == 0 {
        assert(a + b =~= b);
        assert(view_items(a) =~= Seq::<JsonView>::empty());
        assert(view_items(a) + view_items(b) =~= view_items(b));
    } else {
        let rest = a.subrange(1, a.len() as int);
        assert((a + b).subrange(1, (a + b).len() as int) =~= rest + b);
        lemma_view_items_append(rest, b);
        assert((a + b)[0] == a[0]);
        assert(view_items(a + b) =~= view_items(a) + view_items(b));
    }
}

pub proof fn lemma_view_members_append(a: Seq<(String, JsonValue)>, b: Seq<(String, JsonValue)>)
    ensures
        view_members(a + b) == view_members(a) + view_members(b),
    decreases a.len(),
{
    if a.len() == 0 {
        assert(a + b =~= b);
        assert(view_members(a) =~= Seq::<(Seq<char>, JsonView)>::empty());
        assert(view_members(a) + view_members(b) =~= view_members(b));
    } else {
        let rest = a.subrange(1, a.len() as int);
        assert((a + b).subrange(1, (a + b).len() as int) =~= rest + b);
        lemma_view_members_append(rest, b);
        assert((a + b)[0] == a[0]);
        assert(view_members(a + b) =~= view_members(a) + view_members(b));
    }
}

pub proof fn lemma_view_members_index(members: Seq<(String, JsonValue)>)
    ensures
        forall|j: int|
            0 <= j < members.len() ==> (#[trigger] view_members(members)[j]) == (members[j].0@, view_of(
                members[j].1,
            )),
    decreases members.len(),
{
    if members.len() > 0 {
        let rest = members.subrange(1, members.len() as int);
        lemma_view_members_index(rest);
        lemma_view_members_len(rest);
        assert forall|j: int| 0 <= j < members.len() implies (#[trigger] view_members(members)[j]) == (
        members[j].0@, view_of(members[j].1)) by {
            if j > 0 {
                assert(view_members(members)[j] == view_members(rest)[j - 1]);
                assert(rest[j - 1] == members[j]);
            }
        }
    }
}

impl View for JsonValue {
    type V = JsonView;

    open spec fn view(&self) -> JsonView {
        view_of(*self)
    }
}

pub proof fn lemma_view_items_push(items: Seq<JsonValue>, x: JsonValue)
    ensures
        view_items(items.push(x)) == view_items(items).push(view_of(x)),
    decreases items.len(),
{
    if items.len() == 0 {
        assert(items.push(x).subrange(1, 1) =~= Seq::<JsonValue>::empty());
        assert(view_items(Seq::<JsonValue>::empty()) =~= Seq::<JsonView>::empty());
        assert(items.push(x)[0] == x);
        assert(view_items(items) =~= Seq::<JsonView>::empty());
        assert(view_items(items.push(x)) =~= seq![view_of(x)] + Seq::<JsonView>::empty());
    } else {
        let rest = items.subrange(1, items.len() as int);
        assert(items.push(x).subrange(1, items.len() as int + 1) =~= rest.push(x));
        lemma_view_items_push(rest, x);
        assert(view_items(items.push(x)) =~= view_items(items).push(view_of(x)));
    }
}

pub proof fn lemma_view_members_push(members: Seq<(String, JsonValue)>, x: (String, JsonValue))
    ensures
        view_members(members.push(x)) == view_members(members).push((x.0@, view_of(x.1))),
    decreases members.len(),
{
    if members.len() == 0 {
        assert(members.push(x).subrange(1, 1) =~= Seq::<(String, JsonValue)>::empty());
        assert(view_members(Seq::<(String, JsonValue)>::empty()) =~= Seq::<(Seq<char>, JsonView)>::empty());
        assert(members.push(x)[0] == x);
        assert(view_members(members) =~= Seq::<(Seq<char>, JsonView)>::empty());
        assert(view_members(members.push(x)) =~= seq![(x.0@, view_of(x.1))] + Seq::<(Seq<char>, JsonView)>::empty());
    } else {
        let rest = members.subrange(1, members.len() as int);
        assert(members.push(x).subrange(1, members.len() as int + 1) =~= rest.push(x));
        lemma_view_members_push(rest, x);
        assert(view_members(members.push(x)) =~= view_members(members).push((x.0@, view_of(x.1))));
    }
}

/// The lowercase hexadecimal digit of `n` (below 16).
pub open spec fn hex_digit(n: u32) -> char {
    match n {
        0 => '0',
        1 => '1',
        2 => '2',
        3 => '3',
        4 => '4',
        5 => '5',
        6 => '6',
        7 => '7',
        8 => '8',
        9 => '9',
        10 => 'a',
        11 => 'b',
        12 => 'c',
        13 => 'd',
        14 => 'e',
        _ => 'f',
    }
}

/// A character as it stands inside a JSON string: quotes, backslashes and
/// control characters escaped, everything else as it is.
pub open spec fn escape_json_char(c: char) -> Seq<char> {
    if c == '"' {
        seq!['\\', '"']
    } else if c == '\\' {
        seq!['\\', '\\']
    } else if c == '\n' {
        seq!['\\', 'n']
    } else if c == '\r' {
        seq!['\\', 'r']
    } else if c == '\t' {
        seq!['\\', 't']
    } else if c == '\x08' {
        seq!['\\', 'b']
    } else if c == '\x0c' {
        seq!['\\', 'f']
    } else if (c as u32) < 0x20 {
        seq!['\\', 'u', '0', '0', hex_digit((c as u32) / 16), hex_digit((c as u32) % 16)]
    } else {
        seq![c]
    }
}

pub open spec fn escape_json(s: Seq<char>) -> Seq<char>
    decreases s.len(),
{
    if s.len() == 0 {
        Seq::empty()
    } else {
        escape_json(s.drop_last()) + escape_json_char(s.last())
    }
}

/// The JSON text of a string.
pub open spec fn string_text(s: Seq<char>) -> Seq<char> {
    seq!['"'] + escape_json(s) + seq!['"']
}

/// The compact JSON text of a value.
pub open spec fn json_text(v: JsonView) -> Seq<char>
    decreases v, 1nat,
{
    match v {
        JsonView::Null => "null"@,
        JsonView::Bool(b) => if b {
            "true"@
        } else {
            "false"@
        },
        JsonView::Number(t) => t,
        JsonView::Str(s) => string_text(s),
        JsonView::Array(items) => seq!['['] + items_text(items) + seq![']'],
        JsonView::Object(members) => seq!['{'] + members_text(members) + seq!['}'],
    }
}

/// The texts of `items`, separated by commas.
pub open spec fn items_text(items: Seq<JsonView>) -> Seq<char>
    decreases items, 0nat,
{
    if items.len() == 0 {
        Seq::empty()
    } else {
        let head = json_text(items[0]);
        if items.len() == 1 {
            head
        } else {
            head + seq![','] + items_text(items.subrange(1, items.len() as int))
        }
    }
}

/// The texts of `"key":value` members, separated by commas.
pub open spec fn members_text(members: Seq<(Seq<char>, JsonView)>) -> Seq<char>
    decreases members, 0nat,
{
    if members.len() == 0 {
        Seq::empty()
    } else {
        let head = string_text(members[0].0) + seq![':'] + json_text(members[0].1);
        if members.len() == 1 {
            head
        } else {
            head + seq![','] + members_text(members.subrange(1, members.len() as int))
        }
    }
}

fn hex_char(n: u32) -> (c: char)
    requires
        n < 16,
    ensures
        c == hex_digit(n),
{
    match n {
        0 => '0',
        1 => '1',
        2 => '2',
        3 => '3',
        4 => '4',
        5 => '5',
        6 => '6',
        7 => '7',
        8 => '8',
        9 => '9',
        10 => 'a',
        11 => 'b',
        12 => 'c',
        13 => 'd',
        14 => 'e',
        _ => 'f',
    }
}

/// Appends the escaped form of `s`.
pub fn push_escaped(out: &mut String, s: &str)
    ensures
        final(out)@ == old(out)@ + escape_json(s@),
{
    let v = crate::text::str_chars(s);
    for i in 0..v.len()
        invariant
            v@ == s@,
            out@ == old(out)@ + escape_json(s@.take(i as int)),
    {
        let c = v[i];
        proof {
            assert(s@.take(i + 1).drop_last() =~= s@.take(i as int));
            assert(s@.take(i + 1).last() == c);
        }
        let ghost before = out@;
        if c == '"' {
            push_char(out, '\\');
            push_char(out, '"');
        } else if c == '\\' {
            push_char(out, '\\');
            push_char(out, '\\');
        } else if c == '\n' {
            push_char(out, '\\');
            push_char(out, 'n');
        } else if c == '\r' {
            push_char(out, '\\');
            push_char(out, 'r');
        } else if c == '\t' {
            push_char(out, '\\');
            push_char(out, 't');
        } else if c == '\x08' {
            push_char(out, '\\');
            push_char(out, 'b');
        } else if c == '\x0c' {
            push_char(out, '\\');
            push_char(out, 'f');
        } else if (c as u32) < 0x20 {
            push_char(out, '\\');
            push_char(out, 'u');
            push_char(out, '0');
            push_char(out, '0');
            push_char(out, hex_char((c as u32) / 16));
            push_char(out, hex_char((c as u32) % 16));
        } else {
            push_char(out, c);
        }
        assert(out@ =~= before + escape_json_char(c));
    }
    assert(s@.take(v.len() as int) =~= s@);
}

/// Appends the JSON text of a string.
pub fn push_string_text(out: &mut String, s: &str)
    ensures
        final(out)@ == old(out)@ + string_text(s@),
{
    push_char(out, '"');
    push_escaped(out, s);
    push_char(out, '"');
    assert(final(out)@ =~= old(out)@ + string_text(s@));
}

/// Appends the compact JSON text of `v`.
pub fn write_json(out: &mut String, v: &JsonValue)
    ensures
        final(out)@ == old(out)@ + json_text(v@),
    decreases v,
{
    match v {
        JsonValue::Null => {
            out.append("null");
        },
        JsonValue::Bool(b) => {
            if *b {
                out.append("true");
            } else {
                out.append("false");
            }
        },
        JsonValue::Number(t) => {
            out.append(t.as_str());
        },
        JsonValue::String(s) => {
            push_string_text(out, s.as_str());
        },
        JsonValue::Array(items) => {
            push_char(out, '[');
            let ghost start = out@;
            for i in 0..items.len()
                invariant
                    *v == JsonValue::Array(*items),
                    out@ == start + items_text(view_items(items@.take(i as int))),
            {
                proof {
                    lemma_items_text_push(view_items(items@.take(i as int)), view_of(items@[i as int]));
                    assert(items@.take(i + 1) =~= items@.take(i as int).push(items@[i as int]));
                    lemma_view_items_push(items@.take(i as int), items@[i as int]);
                    assert(view_items(items@.take(i as int)).len() == i) by {
                        lemma_view_items_len(items@.take(i as int));
                    }
                }
                if i > 0 {
                    push_char(out, ',');
                }
                proof {
                    vstd::seq::axiom_seq_index_decreases(items@, i as int);
                    vstd::std_specs::vec::axiom_vec_decreases_to_view(*items);
                    assert(decreases_to!(*v => (*v)->Array_0));
                    assert(decreases_to!(*items => items@));
                }
                write_json(out, &items[i]);
                proof {
                    assert(out@ =~= start + items_text(view_items(items@.take(i + 1))));
                }
            }
            assert(items@.take(items@.len() as int) =~= items@);
            push_char(out, ']');
            assert(final(out)@ =~= old(out)@ + json_text(v@));
        },
        JsonValue::Object(members) => {
            push_char(out, '{');
            let ghost start = out@;
            for i in 0..members.len()
                invariant
                    *v == JsonValue::Object(*members),
                    out@ == start + members_text(view_members(members@.take(i as int))),
            {
                proof {
                    lemma_members_text_push(
                        view_members(members@.take(i as int)),
                        (members@[i as int].0@, view_of(members@[i as int].1)),
                    );
                    assert(members@.take(i + 1) =~= members@.take(i as int).push(members@[i as int]));
                    lemma_view_members_push(members@.take(i as int), members@[i as int]);
                    assert(view_members(members@.take(i as int)).len() == i) by {
                        lemma_view_members_len(members@.take(i as int));
                    }
                }
                if i > 0 {
                    push_char(out, ',');
                }
                push_string_text(out, members[i].0.as_str());
                push_char(out, ':');
                proof {
                    vstd::seq::axiom_seq_index_decreases(members@, i as int);
                    vstd::std_specs::vec::axiom_vec_decreases_to_view(*members);
                    assert(decreases_to!(*v => (*v)->Object_0));
                    assert(decreases_to!(*members => members@));
                    assert(decreases_to!(members@[i as int] => members@[i as int].1));
                }
                write_json(out, &members[i].1);
                proof {
                    assert(out@ =~= start + members_text(view_members(members@.take(i + 1))));
                }
            }
            assert(members@.take(members@.len() as int) =~= members@);
            push_char(out, '}');
            assert(final(out)@ =~= old(out)@ + json_text(v@));
        },
    }
}

pub proof fn lemma_items_text_push(items: Seq<JsonView>, x: JsonView)
    ensures
        items_text(items.push(x)) == if items.len() == 0 {
            json_text(x)
        } else {
            items_text(items) + seq![','] + json_text(x)
        },
    decreases items.len(),
{
    let s = items.push(x);
    if items.len() == 0 {
        assert(s.len() == 1);
    } else {
        let rest = items.subrange(1, items.len() as int);
        assert(s.subrange(1, s.len() as int) =~= rest.push(x));
        lemma_items_text_push(rest, x);
        if items.len() == 1 {
            assert(rest.len() == 0);
        }
    }
}

pub proof fn lemma_members_text_push(members: Seq<(Seq<char>, JsonView)>, x: (Seq<char>, JsonView))
    ensures
        members_text(members.push(x)) == if members.len() == 0 {
            string_text(x.0) + seq![':'] + json_text(x.1)
        } else {
            members_text(members) + seq![','] + string_text(x.0) + seq![':'] + json_text(x.1)
        },
    decreases members.len(),
{
    let s = members.push(x);
    if members.len() == 0 {
        assert(s.len() == 1);
    } else {
        let rest = members.subrange(1, members.len() as int);
        assert(s.subrange(1, s.len() as int) =~= rest.push(x));
        lemma_members_text_push(rest, x);
    }
}

/// The compact JSON text of `v`.
pub fn to_json_text(v: &JsonValue) -> (r: String)
    ensures
        r@ == json_text(v@),
{
    let mut out = String::new();
    write_json(&mut out, v);
    assert(out@ =~= json_text(v@));
    out
}

/// A deep copy of a JSON value.
pub fn clone_json(v: &JsonValue) -> (r: JsonValue)
    ensures
        r@ == v@,
    decreases v,
{
    match v {
        JsonValue::Null => JsonValue::Null,
        JsonValue::Bool(b) => JsonValue::Bool(*b),
        JsonValue::Number(t) => JsonValue::Number(t.clone()),
        JsonValue::String(s) => JsonValue::String(s.clone()),
        JsonValue::Array(items) => {
            let mut out: Vec<JsonValue> = Vec::new();
            for i in 0..items.len()
                invariant
                    *v == JsonValue::Array(*items),
                    view_items(out@) == view_items(items@.take(i as int)),
            {
                proof {
                    vstd::seq::axiom_seq_index_decreases(items@, i as int);
                    vstd::std_specs::vec::axiom_vec_decreases_to_view(*items);
                    assert(decreases_to!(*v => (*v)->Array_0));
                    assert(decreases_to!(*items => items@));
                }
                let c = clone_json(&items[i]);
                proof {
                    lemma_view_items_push(out@, c);
                    lemma_view_items_push(items@.take(i as int), items@[i as int]);
                    assert(items@.take(i + 1) =~= items@.take(i as int).push(items@[i as int]));
                }
                out.push(c);
            }
            assert(items@.take(items@.len() as int) =~= items@);
            JsonValue::Array(out)
        },
        JsonValue::Object(members) => {
            let mut out: Vec<(String, JsonValue)> = Vec::new();
            for i in 0..members.len()
                invariant
                    *v == JsonValue::Object(*members),
                    view_members(out@) == view_members(members@.take(i as int)),
            {
                proof {
                    vstd::seq::axiom_seq_index_decreases(members@, i as int);
                    vstd::std_specs::vec::axiom_vec_decreases_to_view(*members);
                    assert(decreases_to!(*v => (*v)->Object_0));
                    assert(decreases_to!(*members => members@));
                    assert(decreases_to!(members@[i as int] => members@[i as int].1));
                }
                let c = clone_json(&members[i].1);
                let k = members[i].0.clone();
                proof {
                    lemma_view_members_push(out@, (k, c));
                    lemma_view_members_push(members@.take(i as int), members@[i as int]);
                    assert(members@.take(i + 1) =~= members@.take(i as int).push(members@[i as int]));
                }
                out.push((k, c));
            }
            assert(members@.take(members@.len() as int) =~= members@);
            JsonValue::Object(out)
        },
    }
}

} // verus!
