//! String machinery shared by the resolver and the error messages:
//! byte-wise lexicographic order on identifiers, prefix and equality tests,
//! joining with a separator, and sorting.
//!
//! Identifiers are compared case-sensitively, character by character, with no
//! normalization; for UTF-8 text this order agrees with the byte-wise order.

use vstd::prelude::*;
use vstd::relations::{sorted_by, total_ordering};
use vstd::seq_lib::{lemma_sorted_unique, to_multiset_build, to_multiset_insert};

verus! {

/// Lexicographic order on character sequences: `a` comes no later than `b`.
pub open spec fn lex_leq(a: Seq<char>, b: Seq<char>) -> bool
    decreases a.len(),
{
    if a.len() == 0 {
        true
    } else if b.len() == 0 {
        false
    } else if a[0] != b[0] {
        a[0] < b[0]
    } else {
        lex_leq(a.drop_first(), b.drop_first())
    }
}

/// The same order as a function value, for vstd's ordering predicates and
/// `sort_by`.
pub open spec fn id_order() -> spec_fn(Seq<char>, Seq<char>) -> bool {
    |a: Seq<char>, b: Seq<char>| lex_leq(a, b)
}

pub proof fn lemma_lex_leq_reflexive(a: Seq<char>)
    ensures
        lex_leq(a, a),
    decreases a.len(),
{
    if a.len() != 0 {
        lemma_lex_leq_reflexive(a.drop_first());
    }
}

pub proof fn lemma_lex_leq_antisymmetric(a: Seq<char>, b: Seq<char>)
    requires
        lex_leq(a, b),
        lex_leq(b, a),
    ensures
        a == b,
    decreases a.len(),
{
    if a.len() == 0 {
        assert(b.len() == 0);
        assert(a =~= b);
    } else {
        assert(b.len() != 0);
        assert(a[0] == b[0]);
        lemma_lex_leq_antisymmetric(a.drop_first(), b.drop_first());
        assert(a.drop_first() == b.drop_first());
        assert(a.drop_first().len() == b.drop_first().len());
        assert(a.len() == b.len());
        assert forall|i: int| 0 <= i < a.len() implies a[i] == b[i] by {
            if i > 0 {
                assert(a.drop_first()[i - 1] == b.drop_first()[i - 1]);
            }
        }
        assert(a =~= b);
    }
}

pub proof fn lemma_lex_leq_transitive(a: Seq<char>, b: Seq<char>, c: Seq<char>)
    requires
        lex_leq(a, b),
        lex_leq(b, c),
    ensures
        lex_leq(a, c),
    decreases a.len(),
{
    if a.len() != 0 {
        assert(b.len() != 0);
        assert(c.len() != 0);
        if a[0] == b[0] && b[0] == c[0] {
            lemma_lex_leq_transitive(a.drop_first(), b.drop_first(), c.drop_first());
        }
    }
}

pub proof fn lemma_lex_leq_connected(a: Seq<char>, b: Seq<char>)
    ensures
        lex_leq(a, b) || lex_leq(b, a),
    decreases a.len(),
{
    if a.len() != 0 && b.len() != 0 && a[0] == b[0] {
        lemma_lex_leq_connected(a.drop_first(), b.drop_first());
    }
}

/// The identifier order is a total order, so a sorted listing of a set of
/// identifiers is unique.
pub proof fn lemma_id_order_total()
    ensures
        total_ordering(id_order()),
{
    let r = id_order();
    assert forall|a: Seq<char>| #[trigger] r(a, a) by {
        lemma_lex_leq_reflexive(a);
    }
    assert forall|a: Seq<char>, b: Seq<char>| #[trigger] r(a, b) && #[trigger] r(b, a) implies a
        == b by {
        lemma_lex_leq_antisymmetric(a, b);
    }
    assert forall|a: Seq<char>, b: Seq<char>, c: Seq<char>|
        #[trigger] r(a, b) && #[trigger] r(b, c) implies r(a, c) by {
        lemma_lex_leq_transitive(a, b, c);
    }
    assert forall|a: Seq<char>, b: Seq<char>| #[trigger] r(a, b) || #[trigger] r(b, a) by {
        lemma_lex_leq_connected(a, b);
    }
}

/// Skipping a common prefix does not change how two sequences compare.
proof fn lemma_lex_leq_skip(a: Seq<char>, b: Seq<char>, i: int)
    requires
        0 <= i <= a.len(),
        i <= b.len(),
        forall|j: int| 0 <= j < i ==> a[j] == b[j],
    ensures
        lex_leq(a, b) == lex_leq(a.skip(i), b.skip(i)),
    decreases i,
{
    if i == 0 {
        assert(a.skip(0) =~= a);
        assert(b.skip(0) =~= b);
    } else {
        assert(a.len() != 0 && b.len() != 0 && a[0] == b[0]);
        assert(a.drop_first().skip(i - 1) =~= a.skip(i));
        assert(b.drop_first().skip(i - 1) =~= b.skip(i));
        assert(forall|j: int| 0 <= j < i - 1 ==> a.drop_first()[j] == b.drop_first()[j]);
        lemma_lex_leq_skip(a.drop_first(), b.drop_first(), i - 1);
    }
}

/// `p` is an initial segment of `s`.
pub open spec fn is_prefix_of(p: Seq<char>, s: Seq<char>) -> bool {
    p.len() <= s.len() && p == s.subrange(0, p.len() as int)
}

/// Decides the lexicographic order on two identifiers.
pub fn str_leq(a: &str, b: &str) -> (r: bool)
    ensures
        r == lex_leq(a@, b@),
{
    let a_len: usize = a.unicode_len();
    let b_len: usize = b.unicode_len();
    let mut i: usize = 0;
    loop
        invariant
            i <= a_len,
            i <= b_len,
            a_len == a@.len(),
            b_len == b@.len(),
            forall|j: int| 0 <= j < i ==> a@[j] == b@[j],
        decreases a_len - i,
    {
        proof {
            lemma_lex_leq_skip(a@, b@, i as int);
        }
        if i >= a_len {
            proof {
                assert(a@.skip(i as int).len() == 0);
            }
            return true;
        }
        if i >= b_len {
            proof {
                assert(b@.skip(i as int).len() == 0);
                assert(a@.skip(i as int).len() != 0);
            }
            return false;
        }
        let ca = a.get_char(i);
        let cb = b.get_char(i);
        if ca != cb {
            proof {
                assert(a@.skip(i as int)[0] == ca);
                assert(b@.skip(i as int)[0] == cb);
            }
            return ca < cb;
        }
        i = i + 1;
    }
}

/// Decides equality of two identifiers, character for character.
pub fn str_eq(a: &str, b: &str) -> (r: bool)
    ensures
        r == (a@ == b@),
{
    let a_len: usize = a.unicode_len();
    let b_len: usize = b.unicode_len();
    if a_len != b_len {
        return false;
    }
    let mut i: usize = 0;
    while i < a_len
        invariant
            i <= a_len,
            a_len == a@.len(),
            a_len == b@.len(),
            forall|j: int| 0 <= j < i ==> a@[j] == b@[j],
        decreases a_len - i,
    {
        let ca = a.get_char(i);
        let cb = b.get_char(i);
        if ca != cb {
            proof {
                assert(a@[i as int] != b@[i as int]);
            }
            return false;
        }
        i = i + 1;
    }
    proof {
        assert(a@ =~= b@);
    }
    true
}

/// Decides whether `s` starts with `prefix` (case-sensitive, no
/// normalization).
pub fn str_starts_with(s: &str, prefix: &str) -> (r: bool)
    ensures
        r == is_prefix_of(prefix@, s@),
{
    let s_len: usize = s.unicode_len();
    let p_len: usize = prefix.unicode_len();
    if p_len > s_len {
        return false;
    }
    let mut i: usize = 0;
    while i < p_len
        invariant
            i <= p_len,
            p_len <= s_len,
            s_len == s@.len(),
            p_len == prefix@.len(),
            forall|j: int| 0 <= j < i ==> prefix@[j] == s@[j],
        decreases p_len - i,
    {
        let cp = prefix.get_char(i);
        let cs = s.get_char(i);
        if cp != cs {
            proof {
                assert(s@.subrange(0, p_len as int)[i as int] == cs);
            }
            return false;
        }
        i = i + 1;
    }
    proof {
        assert(prefix@ =~= s@.subrange(0, p_len as int));
    }
    true
}

/// The identifiers of `parts`, joined with `sep` between neighbours.
pub open spec fn join_with(parts: Seq<Seq<char>>, sep: Seq<char>) -> Seq<char>
    decreases parts.len(),
{
    if parts.len() == 0 {
        Seq::empty()
    } else if parts.len() == 1 {
        parts[0]
    } else {
        join_with(parts.drop_last(), sep) + sep + parts.last()
    }
}

/// Joins identifiers with a separator, as the candidate enumerations in error
/// messages do.
pub fn join_strings(parts: &Vec<String>, sep: &str) -> (r: String)
    ensures
        r@ == join_with(parts.deep_view(), sep@),
{
    let mut acc = String::new();
    let n: usize = parts.len();
    let mut i: usize = 0;
    while i < n
        invariant
            i <= n,
            n == parts@.len(),
            acc@ == join_with(parts.deep_view().take(i as int), sep@),
        decreases n - i,
    {
        if i > 0 {
            acc.append(sep);
        }
        acc.append(parts[i].as_str());
        proof {
            let dv = parts.deep_view();
            assert(dv.take(i + 1).drop_last() =~= dv.take(i as int));
            assert(dv.take(i + 1).last() == dv[i as int]);
            assert(dv[i as int] == parts@[i as int]@);
            if i == 0 {
                assert(acc@ == dv.take(1)[0]);
            }
        }
        i = i + 1;
    }
    proof {
        assert(parts.deep_view().take(n as int) =~= parts.deep_view());
    }
    acc
}

/// Inserts one identifier into a listing that is already in order, keeping
/// the order.
fn insert_sorted(out: &mut Vec<String>, s: String)
    requires
        sorted_by(old(out).deep_view(), id_order()),
    ensures
        sorted_by(final(out).deep_view(), id_order()),
        final(out).deep_view().to_multiset() == old(out).deep_view().to_multiset().insert(s@),
{
    let ghost pre = out.deep_view();
    let n: usize = out.len();
    let mut j: usize = 0;
    let mut found = false;
    while j < n && !found
        invariant
            j <= n,
            n == out@.len(),
            *out == *old(out),
            pre == out.deep_view(),
            pre.len() == n,
            forall|k: int| 0 <= k < j ==> lex_leq(#[trigger] pre[k], s@),
            found ==> j < n && lex_leq(s@, pre[j as int]),
        decreases n - j + (if found { 0int } else { 1int }),
    {
        if str_leq(out[j].as_str(), s.as_str()) {
            j = j + 1;
        } else {
            proof {
                lemma_lex_leq_connected(pre[j as int], s@);
            }
            found = true;
        }
    }
    out.insert(j, s);
    proof {
        let r = id_order();
        let post = out.deep_view();
        assert(post =~= pre.insert(j as int, s@));
        assert forall|x: int, y: int| 0 <= x < y < post.len() implies #[trigger] r(
            post[x],
            post[y],
        ) by {
            let ji = j as int;
            if y < ji {
                assert(r(pre[x], pre[y]));
            } else if x < ji && y == ji {
                assert(lex_leq(pre[x], s@));
            } else if x < ji && y > ji {
                assert(r(pre[x], pre[y - 1]));
            } else if x == ji && y > ji {
                assert(lex_leq(s@, pre[ji]));
                if y - 1 > ji {
                    assert(r(pre[ji], pre[y - 1]));
                    lemma_lex_leq_transitive(s@, pre[ji], pre[y - 1]);
                }
            } else {
                assert(r(pre[x - 1], pre[y - 1]));
            }
        }
        assert(sorted_by(post, r));
        to_multiset_insert(pre, j as int, s@);
    }
}

/// Sorts a listing of identifiers into the lexicographic order.
pub fn sort_ids(ids: Vec<String>) -> (r: Vec<String>)
    ensures
        r.deep_view() == ids.deep_view().sort_by(id_order()),
{
    let mut out: Vec<String> = Vec::new();
    let n: usize = ids.len();
    let mut i: usize = 0;
    proof {
        assert(out.deep_view() =~= ids.deep_view().take(0));
    }
    while i < n
        invariant
            i <= n,
            n == ids@.len(),
            sorted_by(out.deep_view(), id_order()),
            out.deep_view().to_multiset() == ids.deep_view().take(i as int).to_multiset(),
        decreases n - i,
    {
        let ghost pre_take = ids.deep_view().take(i as int);
        insert_sorted(&mut out, ids[i].clone());
        proof {
            let dv = ids.deep_view();
            assert(dv.take(i + 1) =~= pre_take.push(dv[i as int]));
            to_multiset_build(pre_take, dv[i as int]);
        }
        i = i + 1;
    }
    proof {
        let dv = ids.deep_view();
        assert(dv.take(n as int) =~= dv);
        lemma_id_order_total();
        dv.lemma_sort_by_ensures(id_order());
        lemma_sorted_unique(out.deep_view(), dv.sort_by(id_order()), id_order());
    }
    out
}

} // verus!
