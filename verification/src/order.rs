//! The ordering of strings by their characters, and sorted sets of strings.

use vstd::prelude::*;

use crate::text::views;

verus! {

/// `a` sorts before `b` (lexicographic by code point, as `str` orders).
pub open spec fn lex_lt(a: Seq<char>, b: Seq<char>) -> bool
    decreases a.len(),
{
    if a.len() == 0 {
        b.len() > 0
    } else if b.len() == 0 {
        false
    } else if a[0] < b[0] {
        true
    } else if a[0] == b[0] {
        lex_lt(a.skip(1), b.skip(1))
    } else {
        false
    }
}

pub proof fn lemma_lex_irreflexive(a: Seq<char>)
    ensures
        !lex_lt(a, a),
    decreases a.len(),
{
    if a.len() > 0 {
        lemma_lex_irreflexive(a.skip(1));
    }
}

pub proof fn lemma_lex_transitive(a: Seq<char>, b: Seq<char>, c: Seq<char>)
    requires
        lex_lt(a, b),
        lex_lt(b, c),
    ensures
        lex_lt(a, c),
    decreases a.len(),
{
    if a.len() > 0 && b.len() > 0 && c.len() > 0 {
        if a[0] == b[0] && b[0] == c[0] {
            lemma_lex_transitive(a.skip(1), b.skip(1), c.skip(1));
        }
    }
}

pub proof fn lemma_lex_total(a: Seq<char>, b: Seq<char>)
    ensures
        a == b || lex_lt(a, b) || lex_lt(b, a),
    decreases a.len(),
{
    if a.len() > 0 && b.len() > 0 {
        if a[0] == b[0] {
            lemma_lex_total(a.skip(1), b.skip(1));
            if a.skip(1) == b.skip(1) {
                assert(a =~= seq![a[0]] + a.skip(1));
                assert(b =~= seq![b[0]] + b.skip(1));
            }
        }
    } else if a.len() == 0 && b.len() == 0 {
        assert(a =~= b);
    }
}

/// Compares two strings by their characters: whether `a` sorts before `b`.
pub fn str_lt(a: &str, b: &str) -> (r: bool)
    ensures
        r == lex_lt(a@, b@),
{
    let x = crate::text::str_chars(a);
    let y = crate::text::str_chars(b);
    let mut i: usize = 0;
    assert(a@.skip(0) =~= a@);
    assert(b@.skip(0) =~= b@);
    while i < x.len() && i < y.len() && x[i] == y[i]
        invariant
            x@ == a@,
            y@ == b@,
            i <= x@.len(),
            i <= y@.len(),
            lex_lt(a@, b@) == lex_lt(a@.skip(i as int), b@.skip(i as int)),
        decreases x@.len() - i,
    {
        proof {
            assert(a@.skip(i as int).skip(1) =~= a@.skip(i + 1));
            assert(b@.skip(i as int).skip(1) =~= b@.skip(i + 1));
        }
        i = i + 1;
    }
    if i == x.len() {
        i < y.len()
    } else if i == y.len() {
        false
    } else {
        x[i] < y[i]
    }
}

/// Strictly increasing, so without duplicates.
pub open spec fn sorted_strict(s: Seq<Seq<char>>) -> bool {
    forall|i: int, j: int| 0 <= i < j < s.len() ==> lex_lt(#[trigger] s[i], #[trigger] s[j])
}

/// Inserts `item` into a strictly increasing vector, unless it is already there.
pub fn insert_sorted(v: &mut Vec<String>, item: String)
    requires
        sorted_strict(views(old(v)@)),
    ensures
        sorted_strict(views(final(v)@)),
        views(final(v)@).to_set() == views(old(v)@).to_set().insert(item@),
{
    let ghost s = views(v@);
    let mut i: usize = 0;
    while i < v.len() && str_lt(v[i].as_str(), item.as_str())
        invariant
            s == views(v@),
            sorted_strict(s),
            i <= v@.len(),
            forall|k: int| 0 <= k < i ==> lex_lt(#[trigger] s[k], item@),
        decreases v@.len() - i,
    {
        i = i + 1;
    }
    if i < v.len() && crate::text::str_eq(v[i].as_str(), item.as_str()) {
        assert(s.to_set() =~= s.to_set().insert(item@)) by {
            assert(s[i as int] == item@);
        }
        return;
    }
    proof {
        if i < s.len() {
            lemma_lex_total(s[i as int], item@);
        }
    }
    let ghost item_view = item@;
    v.insert(i, item);
    proof {
        let t = views(v@);
        assert(t =~= s.insert(i as int, item_view));
        assert forall|a: int, b: int| 0 <= a < b < t.len() implies lex_lt(#[trigger] t[a], #[trigger] t[b]) by {
            if b < i {
            } else if b == i {
            } else if a < i {
                // t[a] < item < s[i] <= t[b]
                if b - 1 > i {
                    lemma_lex_transitive(item_view, s[i as int], s[b - 1]);
                }
                lemma_lex_transitive(s[a], item_view, s[b - 1]);
            } else if a == i {
                if b - 1 > i {
                    lemma_lex_transitive(item_view, s[i as int], s[b - 1]);
                }
            } else {
            }
        }
        assert(t.to_set() =~= s.to_set().insert(item_view)) by {
            assert forall|x: Seq<char>| t.to_set().contains(x) <==> s.to_set().insert(item_view).contains(x) by {
                if t.to_set().contains(x) {
                    let k = choose|k: int| 0 <= k < t.len() && t[k] == x;
                    if k < i {
                        assert(s[k] == x);
                    } else if k > i {
                        assert(s[k - 1] == x);
                    }
                }
                if s.to_set().contains(x) {
                    let k = choose|k: int| 0 <= k < s.len() && s[k] == x;
                    if k < i {
                        assert(t[k] == x);
                    } else {
                        assert(t[k + 1] == x);
                    }
                }
                if x == item_view {
                    assert(t[i as int] == x);
                }
            }
        }
    }
}

/// The distinct strings of `items`, in increasing order.
pub fn sorted_set(items: Vec<String>) -> (r: Vec<String>)
    ensures
        sorted_strict(views(r@)),
        views(r@).to_set() == views(items@).to_set(),
{
    let mut r: Vec<String> = Vec::new();
    let mut items = items;
    let ghost orig = views(items@);
    let ghost mut n: int = 0;
    assert(views(r@).to_set() =~= orig.take(0).to_set());
    while items.len() > 0
        invariant
            sorted_strict(views(r@)),
            0 <= n <= orig.len(),
            views(items@) == orig.skip(n),
            views(r@).to_set() == orig.take(n).to_set(),
        decreases items@.len(),
    {
        proof {
            assert(views(items@).len() == items@.len());
            assert(orig.skip(n).len() == orig.len() - n);
            assert(n < orig.len());
            assert(views(items@)[0] == items@[0]@);
            assert(orig.skip(n)[0] == orig[n]);
        }
        let ghost before = views(items@);
        let item = items.remove(0);
        proof {
            assert(views(items@) =~= before.drop_first());
            assert(before.drop_first() =~= orig.skip(n + 1));
            assert(item@ == orig[n]);
            assert(orig.take(n + 1) =~= orig.take(n).push(orig[n]));
            assert(orig.take(n + 1).to_set() =~= orig.take(n).to_set().insert(orig[n])) by {
                assert forall|x: Seq<char>| orig.take(n + 1).to_set().contains(x) <==> orig.take(n).to_set().insert(orig[n]).contains(x) by {
                    if orig.take(n + 1).to_set().contains(x) {
                        let k = choose|k: int| 0 <= k < n + 1 && #[trigger] orig.take(n + 1)[k] == x;
                        if k < n {
                            assert(orig.take(n)[k] == x);
                        }
                    }
                    if orig.take(n).to_set().contains(x) {
                        let k = choose|k: int| 0 <= k < n && #[trigger] orig.take(n)[k] == x;
                        assert(orig.take(n + 1)[k] == x);
                    }
                    if x == orig[n] {
                        assert(orig.take(n + 1)[n] == x);
                    }
                }
            }
        }
        insert_sorted(&mut r, item);
        proof {
            n = n + 1;
            assert(views(items@) =~= orig.skip(n));
        }
    }
    assert(orig.take(n) =~= orig);
    r
}

} // verus!
