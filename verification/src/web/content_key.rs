//! The text a language package environment's variant is identified by:
//! its detection method, then its packages as `name=version` lines sorted
//! by name and version, so that two hosts with the same packages in any
//! order get the same text.

use vstd::prelude::*;
use vstd::seq_lib::lemma_multiset_commutative;
use crate::text::push_str;
use crate::web::aggregate::LanguagePackageDto;
use crate::web::grouping::{key_lt, lemma_pair_lt_irrefl, lemma_pair_lt_total, lemma_pair_lt_trans, pair_lt};

verus! {

/// A package as the pair it is ordered by: name, then version.
pub open spec fn package_pair(p: LanguagePackageDto) -> (Seq<char>, Seq<char>) {
    (p.name@, p.version@)
}

pub open spec fn package_pairs(ps: Seq<LanguagePackageDto>) -> Seq<(Seq<char>, Seq<char>)> {
    ps.map_values(|p: LanguagePackageDto| package_pair(p))
}

/// The pairs in non-decreasing order.
pub open spec fn pairs_sorted(s: Seq<(Seq<char>, Seq<char>)>) -> bool {
    forall|i: int, j: int| 0 <= i < j < s.len() ==> !pair_lt(#[trigger] s[j], #[trigger] s[i])
}

/// One `name=version` line per pair, in order.
pub open spec fn package_lines(s: Seq<(Seq<char>, Seq<char>)>) -> Seq<char>
    decreases s.len(),
{
    if s.len() == 0 {
        Seq::empty()
    } else {
        package_lines(s.drop_last()) + s.last().0 + "="@ + s.last().1 + "\n"@
    }
}

/// The key text of an environment whose packages, sorted, are `sorted`.
pub open spec fn content_key_text(method: Seq<char>, sorted: Seq<(Seq<char>, Seq<char>)>) -> Seq<char> {
    method + "\n"@ + package_lines(sorted)
}

/// `s` with `x` put at position `p`.
proof fn lemma_insert_multiset(s: Seq<(Seq<char>, Seq<char>)>, p: int, x: (Seq<char>, Seq<char>))
    requires
        0 <= p <= s.len(),
    ensures
        s.insert(p, x).to_multiset() == s.to_multiset().insert(x),
{
    let a = s.take(p);
    let b = s.skip(p);
    assert(s =~= a + b);
    assert(s.insert(p, x) =~= a + (seq![x] + b));
    lemma_multiset_commutative(a, b);
    lemma_multiset_commutative(seq![x], b);
    lemma_multiset_commutative(a, seq![x] + b);
    assert(seq![x].to_multiset() =~= vstd::multiset::Multiset::empty().insert(x)) by {
        broadcast use vstd::seq_lib::group_to_multiset_ensures;
        assert(seq![x] =~= Seq::<(Seq<char>, Seq<char>)>::empty().push(x));
    }
    assert(s.insert(p, x).to_multiset() =~= s.to_multiset().insert(x));
}

fn copy_pair(p: &LanguagePackageDto) -> (r: (String, String))
    ensures
        (r.0@, r.1@) == package_pair(*p),
{
    (p.name.clone(), p.version.clone())
}

pub open spec fn pairs_view(v: Seq<(String, String)>) -> Seq<(Seq<char>, Seq<char>)> {
    v.map_values(|q: (String, String)| (q.0@, q.1@))
}

/// Where `(a, b)` goes in the sorted `v`: after every pair it is not
/// below, before the first pair it is below.
fn insert_position(v: &Vec<(String, String)>, a: &str, b: &str) -> (p: usize)
    ensures
        p <= v@.len(),
        forall|k: int| 0 <= k < p ==> !pair_lt((a@, b@), #[trigger] pairs_view(v@)[k]),
        p < v@.len() ==> pair_lt((a@, b@), pairs_view(v@)[p as int]),
{
    let mut p: usize = 0;
    while p < v.len()
        invariant
            0 <= p <= v@.len(),
            forall|k: int| 0 <= k < p ==> !pair_lt((a@, b@), #[trigger] pairs_view(v@)[k]),
        decreases v@.len() - p,
    {
        assert(pairs_view(v@)[p as int] == (v@[p as int].0@, v@[p as int].1@));
        if key_lt(a, b, v[p].0.as_str(), v[p].1.as_str()) {
            return p;
        }
        p = p + 1;
    }
    p
}

proof fn lemma_sorted_insert(s: Seq<(Seq<char>, Seq<char>)>, p: int, x: (Seq<char>, Seq<char>))
    requires
        0 <= p <= s.len(),
        pairs_sorted(s),
        forall|k: int| 0 <= k < p ==> !pair_lt(x, #[trigger] s[k]),
        p < s.len() ==> pair_lt(x, s[p]),
    ensures
        pairs_sorted(s.insert(p, x)),
{
    let t = s.insert(p, x);
    assert forall|i: int, j: int| 0 <= i < j < t.len() implies !pair_lt(#[trigger] t[j], #[trigger] t[i]) by {
        if j < p {
            assert(t[i] == s[i] && t[j] == s[j]);
        } else if j == p {
            assert(t[i] == s[i] && t[j] == x);
        } else if i < p {
            assert(t[i] == s[i] && t[j] == s[j - 1]);
        } else if i == p {
            assert(t[i] == x && t[j] == s[j - 1]);
            if pair_lt(s[j - 1], x) {
                lemma_pair_lt_trans(s[j - 1], x, s[p]);
                if j - 1 == p {
                    lemma_pair_lt_irrefl(s[p]);
                }
            }
        } else {
            assert(t[i] == s[i - 1] && t[j] == s[j - 1]);
        }
    }
}

/// The packages' (name, version) pairs in sorted order.
fn sorted_pairs(ps: &Vec<LanguagePackageDto>) -> (v: Vec<(String, String)>)
    ensures
        pairs_view(v@).to_multiset() == package_pairs(ps@).to_multiset(),
        pairs_sorted(pairs_view(v@)),
{
    let mut v: Vec<(String, String)> = Vec::new();
    let mut i: usize = 0;
    assert(pairs_view(v@) =~= Seq::empty());
    assert(package_pairs(ps@).take(0) =~= Seq::empty());
    while i < ps.len()
        invariant
            0 <= i <= ps@.len(),
            pairs_view(v@).to_multiset() == package_pairs(ps@).take(i as int).to_multiset(),
            pairs_sorted(pairs_view(v@)),
        decreases ps@.len() - i,
    {
        let x = copy_pair(&ps[i]);
        let ghost xv = (x.0@, x.1@);
        let ghost before = pairs_view(v@);
        let p = insert_position(&v, x.0.as_str(), x.1.as_str());
        proof {
            lemma_sorted_insert(before, p as int, xv);
            lemma_insert_multiset(before, p as int, xv);
        }
        v.insert(p, x);
        proof {
            assert(pairs_view(v@) =~= before.insert(p as int, xv));
            assert(package_pairs(ps@).take(i + 1) =~= package_pairs(ps@).take(i as int).push(xv));
            broadcast use vstd::seq_lib::group_to_multiset_ensures;
            vstd::seq_lib::to_multiset_build(package_pairs(ps@).take(i as int), xv);
        }
        i = i + 1;
    }
    assert(package_pairs(ps@).take(ps@.len() as int) =~= package_pairs(ps@));
    v
}

/// The text an environment's variant is identified by: its detection
/// method, a newline, then `name=version` and a newline for each package,
/// packages sorted by name and then version.
pub fn language_content_key(method: &str, packages: &Vec<LanguagePackageDto>) -> (r: String)
    ensures
        exists|s: Seq<(Seq<char>, Seq<char>)>| #![trigger pairs_sorted(s)]
            s.to_multiset() == package_pairs(packages@).to_multiset() && pairs_sorted(s) && r@ == content_key_text(method@, s),
{
    let v = sorted_pairs(packages);
    let ghost sv = pairs_view(v@);
    let mut r = method.to_owned();
    push_str(&mut r, "\n");
    let mut k: usize = 0;
    while k < v.len()
        invariant
            0 <= k <= v@.len(),
            sv == pairs_view(v@),
            r@ == method@ + "\n"@ + package_lines(sv.take(k as int)),
        decreases v@.len() - k,
    {
        push_str(&mut r, v[k].0.as_str());
        push_str(&mut r, "=");
        push_str(&mut r, v[k].1.as_str());
        push_str(&mut r, "\n");
        proof {
            assert(sv.take(k + 1).drop_last() =~= sv.take(k as int));
            assert(sv.take(k + 1).last() == (v@[k as int].0@, v@[k as int].1@));
            assert(r@ =~= method@ + "\n"@ + package_lines(sv.take(k + 1)));
        }
        k = k + 1;
    }
    assert(sv.take(v@.len() as int) =~= sv);
    r
}

/// A sorted order of a collection of pairs is unique: two sorted
/// sequences of the same pairs are equal. So the key text of an
/// environment is determined by its method and its packages alone.
pub proof fn law_sorted_order_unique(a: Seq<(Seq<char>, Seq<char>)>, b: Seq<(Seq<char>, Seq<char>)>)
    requires
        a.to_multiset() == b.to_multiset(),
        pairs_sorted(a),
        pairs_sorted(b),
    ensures
        a == b,
    decreases a.len(),
{
    broadcast use vstd::seq_lib::group_to_multiset_ensures;
    assert(a.len() == a.to_multiset().len());
    assert(b.len() == b.to_multiset().len());
    if a.len() == 0 {
        assert(a =~= b);
    } else {
        let x = a.last();
        let y = b.last();
        assert(a.contains(x)) by { assert(a[a.len() - 1] == x); }
        assert(b.contains(y)) by { assert(b[b.len() - 1] == y); }
        assert(a.to_multiset().count(x) > 0);
        assert(b.contains(x));
        assert(b.to_multiset().count(y) > 0);
        assert(a.to_multiset().count(y) > 0);
        assert(a.contains(y));
        if x != y {
            if pair_lt(x, y) {
                let i = choose|i: int| 0 <= i < a.len() && a[i] == y;
                if i == a.len() - 1 {
                    lemma_pair_lt_irrefl(x);
                } else {
                    assert(!pair_lt(a[a.len() - 1], a[i]));
                }
            } else {
                lemma_pair_lt_total(x, y);
                let j = choose|j: int| 0 <= j < b.len() && b[j] == x;
                if j == b.len() - 1 {
                    lemma_pair_lt_irrefl(y);
                } else {
                    assert(!pair_lt(b[b.len() - 1], b[j]));
                }
            }
        }
        assert(x == y);
        let a0 = a.drop_last();
        let b0 = b.drop_last();
        assert(a0.push(x) =~= a);
        assert(b0.push(x) =~= b);
        assert(a0.to_multiset().insert(x) == b0.to_multiset().insert(x));
        assert(a0.to_multiset() =~= b0.to_multiset()) by {
            assert forall|z: (Seq<char>, Seq<char>)| a0.to_multiset().count(z) == b0.to_multiset().count(z) by {
                assert(a0.to_multiset().insert(x).count(z) == b0.to_multiset().insert(x).count(z));
            }
        }
        assert forall|i: int, j: int| 0 <= i < j < a0.len() implies !pair_lt(#[trigger] a0[j], #[trigger] a0[i]) by {
            assert(a0[i] == a[i] && a0[j] == a[j]);
        }
        assert forall|i: int, j: int| 0 <= i < j < b0.len() implies !pair_lt(#[trigger] b0[j], #[trigger] b0[i]) by {
            assert(b0[i] == b[i] && b0[j] == b[j]);
        }
        law_sorted_order_unique(a0, b0);
    }
}

} // verus!
