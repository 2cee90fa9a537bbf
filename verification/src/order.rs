//! The order of strings: lexicographic by character, as `Ord` orders `str`
//! (UTF-8 preserves the order of code points), and sorting by it.

use vstd::prelude::*;
use vstd::multiset::Multiset;

verus! {

/// Whether `a` comes strictly before `b`.
pub open spec fn lex_lt(a: Seq<char>, b: Seq<char>) -> bool
    decreases a.len(),
{
    if a.len() == 0 {
        b.len() > 0
    } else if b.len() == 0 {
        false
    } else if a[0] != b[0] {
        a[0] < b[0]
    } else {
        lex_lt(a.drop_first(), b.drop_first())
    }
}

/// Whether `a` comes before `b` or equals it.
pub open spec fn lex_le(a: Seq<char>, b: Seq<char>) -> bool {
    !lex_lt(b, a)
}

/// No string comes before itself.
pub proof fn lemma_lex_irreflexive(a: Seq<char>)
    ensures
        !lex_lt(a, a),
    decreases a.len(),
{
    if a.len() > 0 {
        lemma_lex_irreflexive(a.drop_first());
    }
}

/// Of two different strings, one comes before the other.
pub proof fn lemma_lex_total(a: Seq<char>, b: Seq<char>)
    ensures
        lex_lt(a, b) || a == b || lex_lt(b, a),
    decreases a.len(),
{
    if a.len() > 0 && b.len() > 0 && a[0] == b[0] {
        lemma_lex_total(a.drop_first(), b.drop_first());
        if a.drop_first() == b.drop_first() {
            assert(a =~= seq![a[0]] + a.drop_first());
            assert(b =~= seq![b[0]] + b.drop_first());
        }
    } else if a.len() == 0 && b.len() == 0 {
        assert(a =~= b);
    }
}

/// The order is transitive.
pub proof fn lemma_lex_transitive(a: Seq<char>, b: Seq<char>, c: Seq<char>)
    requires
        lex_lt(a, b),
        lex_lt(b, c),
    ensures
        lex_lt(a, c),
    decreases a.len(),
{
    if a.len() > 0 && b.len() > 0 && c.len() > 0 && a[0] == b[0] && b[0] == c[0] {
        lemma_lex_transitive(a.drop_first(), b.drop_first(), c.drop_first());
    }
}

/// Whether `a` comes strictly before `b`.
pub fn str_lt(a: &str, b: &str) -> (r: bool)
    ensures
        r == lex_lt(a@, b@),
{
    let n = a.unicode_len();
    let m = b.unicode_len();
    let mut i: usize = 0;
    assert(a@.skip(0) == a@ && b@.skip(0) == b@);
    while i < n && i < m
        invariant
            n == a@.len(),
            m == b@.len(),
            i <= n,
            i <= m,
            a@.take(i as int) == b@.take(i as int),
            lex_lt(a@, b@) == lex_lt(a@.skip(i as int), b@.skip(i as int)),
        decreases n - i,
    {
        let x = a.get_char(i);
        let y = b.get_char(i);
        assert(a@.skip(i as int)[0] == x && b@.skip(i as int)[0] == y);
        if x != y {
            return x < y;
        }
        assert(a@.skip(i as int).drop_first() == a@.skip(i + 1));
        assert(b@.skip(i as int).drop_first() == b@.skip(i + 1));
        assert(a@.take(i + 1) == a@.take(i as int).push(x));
        assert(b@.take(i + 1) == b@.take(i as int).push(y));
        i += 1;
    }
    i < m
}

/// Whether the pairs are in order by their first components.
pub open spec fn sorted_by_key<V>(s: Seq<(String, V)>) -> bool {
    forall|i: int, j: int| 0 <= i < j < s.len() ==> lex_le(#[trigger] s[i].0@, #[trigger] s[j].0@)
}

proof fn lemma_insert_point<V>(out0: Seq<(String, V)>, x: Seq<char>, p: int, k: int)
    requires
        sorted_by_key(out0),
        0 <= p <= k < out0.len(),
        lex_lt(x, out0[p].0@),
    ensures
        !lex_lt(out0[k].0@, x),
{
    if lex_lt(out0[k].0@, x) {
        if k == p {
            lemma_lex_transitive(x, out0[k].0@, x);
            lemma_lex_irreflexive(x);
        } else {
            lemma_lex_total(out0[p].0@, out0[k].0@);
            if out0[p].0@ == out0[k].0@ {
                lemma_lex_transitive(x, out0[k].0@, x);
                lemma_lex_irreflexive(x);
            } else {
                assert(lex_le(out0[p].0@, out0[k].0@));
                lemma_lex_transitive(x, out0[p].0@, out0[k].0@);
                lemma_lex_transitive(x, out0[k].0@, x);
                lemma_lex_irreflexive(x);
            }
        }
    }
}

/// The pairs sorted by their first components; pairs with equal keys keep
/// their order.
pub fn sort_by_key<V>(items: Vec<(String, V)>) -> (r: Vec<(String, V)>)
    ensures
        r@.to_multiset() == items@.to_multiset(),
        sorted_by_key(r@),
{
    broadcast use vstd::seq_lib::to_multiset_insert, vstd::seq_lib::to_multiset_remove;

    let ghost orig = items@;
    let mut rest = items;
    let mut out: Vec<(String, V)> = Vec::new();
    proof {
        assert(rest@ == orig.skip(0));
        assert(out@.to_multiset().add(rest@.to_multiset()) =~= orig.to_multiset()) by {
            broadcast use vstd::multiset::group_multiset_axioms, vstd::seq_lib::group_to_multiset_ensures;
            assert(out@ =~= Seq::<(String, V)>::empty());
            assert(out@.to_multiset() =~= Multiset::empty());
        }
    }
    while rest.len() > 0
        invariant
            out@.to_multiset().add(rest@.to_multiset()) == orig.to_multiset(),
            sorted_by_key(out@),
        decreases rest.len(),
    {
        let ghost rest0 = rest@;
        let x = rest.remove(0);
        let mut p: usize = 0;
        while p < out.len() && !str_lt(x.0.as_str(), out[p].0.as_str())
            invariant
                p <= out.len(),
                forall|k: int| 0 <= k < p ==> lex_le(#[trigger] out@[k].0@, x.0@),
            decreases out.len() - p,
        {
            proof {
                lemma_lex_total(x.0@, out@[p as int].0@);
                lemma_lex_irreflexive(x.0@);
            }
            p += 1;
        }
        let ghost out0 = out@;
        proof {
            assert forall|k: int| p <= k < out0.len() implies !lex_lt(#[trigger] out0[k].0@, x.0@) by {
                lemma_insert_point(out0, x.0@, p as int, k);
            }
        }
        out.insert(p, x);
        proof {
            assert(rest0.remove(0) == rest@);
            assert(out@ == out0.insert(p as int, x));
            assert forall|i: int, j: int| 0 <= i < j < out@.len() implies lex_le(#[trigger] out@[i].0@, #[trigger] out@[j].0@) by {
                if j < p {
                    assert(out@[i] == out0[i] && out@[j] == out0[j]);
                } else if j == p {
                    assert(out@[i] == out0[i] && out@[j] == x);
                } else if i < p {
                    assert(out@[i] == out0[i] && out@[j] == out0[j - 1]);
                    assert(lex_le(out0[i].0@, out0[j - 1].0@));
                } else if i == p {
                    assert(out@[i] == x && out@[j] == out0[j - 1]);
                    assert(!lex_lt(out0[j - 1].0@, x.0@));
                } else {
                    assert(out@[i] == out0[i - 1] && out@[j] == out0[j - 1]);
                    assert(lex_le(out0[i - 1].0@, out0[j - 1].0@));
                }
            }
            assert(out@.to_multiset().add(rest@.to_multiset()) =~= orig.to_multiset()) by {
                broadcast use vstd::multiset::group_multiset_axioms;
                vstd::seq_lib::to_multiset_insert(out0, p as int, x);
                vstd::seq_lib::to_multiset_remove(rest0, 0);
                assert(rest0[0] == x);
                vstd::seq_lib::to_multiset_contains(rest0, x);
                assert(rest0.contains(x));
            }
        }
    }
    proof {
        broadcast use vstd::multiset::group_multiset_axioms, vstd::seq_lib::group_to_multiset_ensures;
        assert(rest@ =~= Seq::<(String, V)>::empty());
        assert(rest@.to_multiset() =~= Multiset::empty());
        assert(out@.to_multiset().add(rest@.to_multiset()) =~= out@.to_multiset());
    }
    out
}

} // verus!
