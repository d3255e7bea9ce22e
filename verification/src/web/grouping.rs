//! Entries grouped by a key of two strings, groups in key order and each
//! group holding the positions of its entries in entry order.

use vstd::prelude::*;
use crate::text::str_eq;
use crate::web::view::{chars_lt, lemma_chars_lt_irrefl, lemma_chars_lt_total, lemma_chars_lt_trans, str_lt};

verus! {

/// Keys ordered by their first string, then by their second.
pub open spec fn pair_lt(a: (Seq<char>, Seq<char>), b: (Seq<char>, Seq<char>)) -> bool {
    chars_lt(a.0, b.0) || (a.0 == b.0 && chars_lt(a.1, b.1))
}

/// A group: its key and the positions of the entries that have it.
pub struct KeyGroup {
    pub first: String,
    pub second: String,
    pub members: Vec<usize>,
}

pub open spec fn key_of(k: (String, String)) -> (Seq<char>, Seq<char>) {
    (k.0@, k.1@)
}

pub open spec fn keys_view(ks: Seq<(String, String)>) -> Seq<(Seq<char>, Seq<char>)> {
    ks.map_values(|k: (String, String)| key_of(k))
}

pub open spec fn group_view(g: KeyGroup) -> ((Seq<char>, Seq<char>), Seq<int>) {
    ((g.first@, g.second@), g.members@.map_values(|m: usize| m as int))
}

pub open spec fn groups_view(gs: Seq<KeyGroup>) -> Seq<((Seq<char>, Seq<char>), Seq<int>)> {
    gs.map_values(|g: KeyGroup| group_view(g))
}

/// The positions at which `k` occurs in `keys`, in increasing order.
pub open spec fn indices_with(keys: Seq<(Seq<char>, Seq<char>)>, k: (Seq<char>, Seq<char>)) -> Seq<int>
    decreases keys.len(),
{
    if keys.len() == 0 {
        Seq::empty()
    } else {
        indices_with(keys.drop_last(), k) + (if keys.last() == k { seq![keys.len() - 1] } else { Seq::empty() })
    }
}

pub open spec fn keys_sorted(gs: Seq<((Seq<char>, Seq<char>), Seq<int>)>) -> bool {
    forall|i: int, j: int| 0 <= i < j < gs.len() ==> pair_lt(#[trigger] gs[i].0, #[trigger] gs[j].0)
}

/// Some entry has key `k`.
pub open spec fn has_key(keys: Seq<(Seq<char>, Seq<char>)>, k: (Seq<char>, Seq<char>)) -> bool {
    exists|i: int| 0 <= i < keys.len() && keys[i] == k
}

/// Some group has key `k`.
pub open spec fn has_group(gs: Seq<((Seq<char>, Seq<char>), Seq<int>)>, k: (Seq<char>, Seq<char>)) -> bool {
    exists|g: int| 0 <= g < gs.len() && (#[trigger] gs[g]).0 == k
}

pub open spec fn groups_from_keys(keys: Seq<(Seq<char>, Seq<char>)>, gs: Seq<((Seq<char>, Seq<char>), Seq<int>)>) -> bool {
    forall|g: int| 0 <= g < gs.len() ==> has_key(keys, (#[trigger] gs[g]).0)
}

pub open spec fn keys_have_groups(keys: Seq<(Seq<char>, Seq<char>)>, gs: Seq<((Seq<char>, Seq<char>), Seq<int>)>) -> bool {
    forall|i: int| 0 <= i < keys.len() ==> has_group(gs, #[trigger] keys[i])
}

pub open spec fn members_match(keys: Seq<(Seq<char>, Seq<char>)>, gs: Seq<((Seq<char>, Seq<char>), Seq<int>)>) -> bool {
    forall|g: int| 0 <= g < gs.len() ==> (#[trigger] gs[g]).1 == indices_with(keys, gs[g].0)
}

/// `gs` groups `keys`: one group per key that occurs, in increasing key
/// order, each holding the positions of that key in increasing order.
pub open spec fn grouped_by_key(keys: Seq<(Seq<char>, Seq<char>)>, gs: Seq<((Seq<char>, Seq<char>), Seq<int>)>) -> bool {
    &&& keys_sorted(gs)
    &&& groups_from_keys(keys, gs)
    &&& keys_have_groups(keys, gs)
    &&& members_match(keys, gs)
}

/// The grouping of `keys` (there is exactly one, see `lemma_grouping_unique`).
pub open spec fn groups_of(keys: Seq<(Seq<char>, Seq<char>)>) -> Seq<((Seq<char>, Seq<char>), Seq<int>)> {
    choose|gs: Seq<((Seq<char>, Seq<char>), Seq<int>)>| grouped_by_key(keys, gs)
}

// ---- order lemmas ----

pub proof fn lemma_pair_lt_irrefl(a: (Seq<char>, Seq<char>))
    ensures
        !pair_lt(a, a),
{
    lemma_chars_lt_irrefl(a.0);
    lemma_chars_lt_irrefl(a.1);
}

pub proof fn lemma_pair_lt_trans(a: (Seq<char>, Seq<char>), b: (Seq<char>, Seq<char>), c: (Seq<char>, Seq<char>))
    requires
        pair_lt(a, b),
        pair_lt(b, c),
    ensures
        pair_lt(a, c),
{
    if chars_lt(a.0, b.0) {
        if chars_lt(b.0, c.0) {
            lemma_chars_lt_trans(a.0, b.0, c.0);
        }
    } else if chars_lt(b.0, c.0) {
    } else {
        lemma_chars_lt_trans(a.1, b.1, c.1);
    }
}

pub proof fn lemma_pair_lt_total(a: (Seq<char>, Seq<char>), b: (Seq<char>, Seq<char>))
    requires
        a != b,
        !pair_lt(a, b),
    ensures
        pair_lt(b, a),
{
    if a.0 != b.0 {
        lemma_chars_lt_total(a.0, b.0);
    } else {
        assert(a.1 != b.1);
        lemma_chars_lt_total(a.1, b.1);
    }
}

proof fn lemma_pair_lt_asym(a: (Seq<char>, Seq<char>), b: (Seq<char>, Seq<char>))
    requires
        pair_lt(a, b),
    ensures
        !pair_lt(b, a),
{
    if pair_lt(b, a) {
        lemma_pair_lt_trans(a, b, a);
        lemma_pair_lt_irrefl(a);
    }
}

// ---- positions ----

/// The positions of `k` are the positions of the entries with key `k`,
/// in strictly increasing order.
pub proof fn lemma_indices_with(keys: Seq<(Seq<char>, Seq<char>)>, k: (Seq<char>, Seq<char>))
    ensures
        forall|j: int| 0 <= j < indices_with(keys, k).len() ==> 0 <= #[trigger] indices_with(keys, k)[j] < keys.len()
            && keys[indices_with(keys, k)[j]] == k,
        forall|a: int, b: int| 0 <= a < b < indices_with(keys, k).len() ==> #[trigger] indices_with(keys, k)[a] < #[trigger] indices_with(keys, k)[b],
        forall|i: int| 0 <= i < keys.len() && keys[i] == k ==> #[trigger] indices_with(keys, k).contains(i),
    decreases keys.len(),
{
    if keys.len() > 0 {
        let init = keys.drop_last();
        lemma_indices_with(init, k);
        let s0 = indices_with(init, k);
        let s = indices_with(keys, k);
        assert forall|j: int| 0 <= j < s.len() implies 0 <= #[trigger] s[j] < keys.len() && keys[s[j]] == k by {
            if j < s0.len() {
                assert(s[j] == s0[j]);
                assert(keys[s0[j]] == init[s0[j]]);
            }
        }
        assert forall|i: int| 0 <= i < keys.len() && keys[i] == k implies #[trigger] s.contains(i) by {
            if i < keys.len() - 1 {
                assert(init[i] == keys[i]);
                assert(s0.contains(i));
                let j = choose|j: int| 0 <= j < s0.len() && s0[j] == i;
                assert(s[j] == i);
            } else {
                assert(s[s.len() - 1] == i);
            }
        }
    }
}

proof fn lemma_indices_absent(keys: Seq<(Seq<char>, Seq<char>)>, k: (Seq<char>, Seq<char>))
    requires
        forall|i: int| 0 <= i < keys.len() ==> #[trigger] keys[i] != k,
    ensures
        indices_with(keys, k) == Seq::<int>::empty(),
    decreases keys.len(),
{
    if keys.len() > 0 {
        let init = keys.drop_last();
        assert forall|i: int| 0 <= i < init.len() implies #[trigger] init[i] != k by {
            assert(init[i] == keys[i]);
        }
        lemma_indices_absent(init, k);
        assert(keys[keys.len() - 1] != k);
    }
}

proof fn lemma_distinct_keys(gs: Seq<((Seq<char>, Seq<char>), Seq<int>)>, a: int, b: int)
    requires
        keys_sorted(gs),
        0 <= a < gs.len(),
        0 <= b < gs.len(),
        a != b,
    ensures
        gs[a].0 != gs[b].0,
{
    lemma_pair_lt_irrefl(gs[a].0);
    if a < b {
        assert(pair_lt(gs[a].0, gs[b].0));
    } else {
        assert(pair_lt(gs[b].0, gs[a].0));
    }
}

// ---- one more entry ----

proof fn lemma_step_found(keys: Seq<(Seq<char>, Seq<char>)>, i: int, gs: Seq<((Seq<char>, Seq<char>), Seq<int>)>, k: int)
    requires
        0 <= i < keys.len(),
        grouped_by_key(keys.take(i), gs),
        0 <= k < gs.len(),
        gs[k].0 == keys[i],
    ensures
        grouped_by_key(keys.take(i + 1), gs.update(k, (gs[k].0, gs[k].1.push(i)))),
{
    let k0 = keys.take(i);
    let k1 = keys.take(i + 1);
    let ng = gs.update(k, (gs[k].0, gs[k].1.push(i)));
    assert(k1.drop_last() =~= k0);
    assert(k1.last() == keys[i]);
    assert forall|a: int, b: int| 0 <= a < b < ng.len() implies pair_lt(#[trigger] ng[a].0, #[trigger] ng[b].0) by {
        assert(ng[a].0 == gs[a].0 && ng[b].0 == gs[b].0);
    }
    assert forall|g: int| 0 <= g < ng.len() implies has_key(k1, (#[trigger] ng[g]).0) by {
        assert(ng[g].0 == gs[g].0);
        assert(has_key(k0, gs[g].0));
        let j = choose|j: int| 0 <= j < k0.len() && k0[j] == gs[g].0;
        assert(k1[j] == k0[j]);
    }
    assert forall|j: int| 0 <= j < k1.len() implies has_group(ng, #[trigger] k1[j]) by {
        if j < i {
            assert(k1[j] == k0[j]);
            assert(has_group(gs, k0[j]));
            let g = choose|g: int| 0 <= g < gs.len() && (#[trigger] gs[g]).0 == k0[j];
            assert(ng[g].0 == k1[j]);
        } else {
            assert(ng[k].0 == k1[j]);
        }
    }
    assert forall|g: int| 0 <= g < ng.len() implies (#[trigger] ng[g]).1 == indices_with(k1, ng[g].0) by {
        if g == k {
            assert(indices_with(k1, keys[i]) =~= indices_with(k0, keys[i]).push(i));
        } else {
            lemma_distinct_keys(gs, g, k);
            assert(indices_with(k1, gs[g].0) =~= indices_with(k0, gs[g].0));
        }
    }
}

proof fn lemma_step_new(keys: Seq<(Seq<char>, Seq<char>)>, i: int, gs: Seq<((Seq<char>, Seq<char>), Seq<int>)>, p: int)
    requires
        0 <= i < keys.len(),
        grouped_by_key(keys.take(i), gs),
        forall|g: int| 0 <= g < gs.len() ==> (#[trigger] gs[g]).0 != keys[i],
        0 <= p <= gs.len(),
        forall|j: int| 0 <= j < p ==> !pair_lt(keys[i], #[trigger] gs[j].0),
        p < gs.len() ==> pair_lt(keys[i], gs[p].0),
    ensures
        grouped_by_key(keys.take(i + 1), gs.insert(p, (keys[i], seq![i]))),
{
    let k0 = keys.take(i);
    let k1 = keys.take(i + 1);
    let d = keys[i];
    let ng = gs.insert(p, (d, seq![i]));
    assert(k1.drop_last() =~= k0);
    assert(k1.last() == d);
    assert forall|a: int, b: int| 0 <= a < b < ng.len() implies pair_lt(#[trigger] ng[a].0, #[trigger] ng[b].0) by {
        if b < p {
            assert(ng[a] == gs[a] && ng[b] == gs[b]);
        } else if b == p {
            assert(ng[a] == gs[a]);
            assert(gs[a].0 != d);
            lemma_pair_lt_total(d, gs[a].0);
        } else if a > p {
            assert(ng[a] == gs[a - 1] && ng[b] == gs[b - 1]);
        } else if a == p {
            assert(ng[b] == gs[b - 1]);
            if b - 1 > p {
                assert(pair_lt(gs[p].0, gs[b - 1].0));
                lemma_pair_lt_trans(d, gs[p].0, gs[b - 1].0);
            }
        } else {
            assert(ng[a] == gs[a] && ng[b] == gs[b - 1]);
        }
    }
    assert forall|g: int| 0 <= g < ng.len() implies has_key(k1, (#[trigger] ng[g]).0) by {
        if g == p {
            assert(k1[i] == d);
        } else {
            let og = if g < p { g } else { g - 1 };
            assert(ng[g] == gs[og]);
            assert(has_key(k0, gs[og].0));
            let j = choose|j: int| 0 <= j < k0.len() && k0[j] == gs[og].0;
            assert(k1[j] == k0[j]);
        }
    }
    assert forall|j: int| 0 <= j < k1.len() implies has_group(ng, #[trigger] k1[j]) by {
        if j < i {
            assert(k1[j] == k0[j]);
            assert(has_group(gs, k0[j]));
            let g = choose|g: int| 0 <= g < gs.len() && (#[trigger] gs[g]).0 == k0[j];
            if g < p {
                assert(ng[g] == gs[g]);
            } else {
                assert(ng[g + 1] == gs[g]);
            }
        } else {
            assert(ng[p].0 == k1[j]);
        }
    }
    assert forall|j: int| 0 <= j < k0.len() implies #[trigger] k0[j] != d by {
        assert(has_group(gs, k0[j]));
        let g = choose|g: int| 0 <= g < gs.len() && (#[trigger] gs[g]).0 == k0[j];
        assert(gs[g].0 != d);
    }
    lemma_indices_absent(k0, d);
    assert forall|g: int| 0 <= g < ng.len() implies (#[trigger] ng[g]).1 == indices_with(k1, ng[g].0) by {
        if g == p {
            assert(indices_with(k1, d) =~= indices_with(k0, d).push(i));
            assert(ng[g].1 =~= seq![i]);
        } else {
            let og = if g < p { g } else { g - 1 };
            assert(ng[g] == gs[og]);
            assert(gs[og].0 != d);
            assert(indices_with(k1, gs[og].0) =~= indices_with(k0, gs[og].0));
        }
    }
}

// ---- the grouping ----

fn find_key(gs: &Vec<KeyGroup>, a: &str, b: &str) -> (r: Option<usize>)
    ensures
        match r {
            Some(k) => k < gs@.len() && gs@[k as int].first@ == a@ && gs@[k as int].second@ == b@,
            None => forall|k: int| 0 <= k < gs@.len() ==> !((#[trigger] gs@[k]).first@ == a@ && gs@[k].second@ == b@),
        },
{
    let mut i: usize = 0;
    while i < gs.len()
        invariant
            0 <= i <= gs@.len(),
            forall|k: int| 0 <= k < i ==> !((#[trigger] gs@[k]).first@ == a@ && gs@[k].second@ == b@),
        decreases gs@.len() - i,
    {
        if str_eq(gs[i].first.as_str(), a) && str_eq(gs[i].second.as_str(), b) {
            return Some(i);
        }
        i = i + 1;
    }
    None
}

pub(crate) fn key_lt(a: &str, b: &str, c: &str, d: &str) -> (r: bool)
    ensures
        r == pair_lt((a@, b@), (c@, d@)),
{
    if str_lt(a, c) {
        true
    } else if str_eq(a, c) {
        str_lt(b, d)
    } else {
        false
    }
}

fn insert_pos(gs: &Vec<KeyGroup>, a: &str, b: &str) -> (p: usize)
    ensures
        p <= gs@.len(),
        forall|j: int| 0 <= j < p ==> !pair_lt((a@, b@), ((#[trigger] gs@[j]).first@, gs@[j].second@)),
        p < gs@.len() ==> pair_lt((a@, b@), (gs@[p as int].first@, gs@[p as int].second@)),
{
    let mut j: usize = 0;
    while j < gs.len()
        invariant
            0 <= j <= gs@.len(),
            forall|k: int| 0 <= k < j ==> !pair_lt((a@, b@), ((#[trigger] gs@[k]).first@, gs@[k].second@)),
        decreases gs@.len() - j,
    {
        if key_lt(a, b, gs[j].first.as_str(), gs[j].second.as_str()) {
            return j;
        }
        j = j + 1;
    }
    j
}

fn own(x: &str) -> (r: String)
    ensures
        r@ == x@,
{
    x.to_owned()
}

/// The entries' keys grouped: one group per key, keys in increasing
/// order, each group with the positions of its entries in increasing order.
pub fn group_by_key(keys: &Vec<(String, String)>) -> (v: Vec<KeyGroup>)
    ensures
        grouped_by_key(keys_view(keys@), groups_view(v@)),
{
    let ghost kv = keys_view(keys@);
    let mut gs: Vec<KeyGroup> = Vec::new();
    let mut i: usize = 0;
    assert(grouped_by_key(kv.take(0), groups_view(gs@)));
    while i < keys.len()
        invariant
            0 <= i <= keys@.len(),
            kv == keys_view(keys@),
            grouped_by_key(kv.take(i as int), groups_view(gs@)),
        decreases keys@.len() - i,
    {
        let ghost gv = groups_view(gs@);
        let a = keys[i].0.as_str();
        let b = keys[i].1.as_str();
        assert(kv[i as int] == (a@, b@));
        match find_key(&gs, a, b) {
            Some(k) => {
                let ghost before = gs@;
                let mut g = gs.remove(k);
                let ghost old_members = g.members@;
                g.members.push(i);
                gs.insert(k, g);
                assert(g.members@.map_values(|m: usize| m as int) =~= old_members.map_values(|m: usize| m as int).push(i as int));
                assert(gs@ =~= before.update(k as int, g));
                assert(groups_view(gs@) =~= gv.update(k as int, (gv[k as int].0, gv[k as int].1.push(i as int))));
                proof {
                    lemma_step_found(kv, i as int, gv, k as int);
                }
            },
            None => {
                let p = insert_pos(&gs, a, b);
                let ghost before = gs@;
                let mut members: Vec<usize> = Vec::new();
                members.push(i);
                let g = KeyGroup { first: own(a), second: own(b), members };
                gs.insert(p, g);
                assert(g.members@.map_values(|m: usize| m as int) =~= seq![i as int]);
                assert(groups_view(gs@) =~= gv.insert(p as int, (kv[i as int], seq![i as int])));
                proof {
                    assert forall|k: int| 0 <= k < gv.len() implies (#[trigger] gv[k]).0 != kv[i as int] by {
                        assert(gv[k].0 == (before[k].first@, before[k].second@));
                    }
                    assert forall|j: int| 0 <= j < p implies !pair_lt(kv[i as int], #[trigger] gv[j].0) by {
                        assert(gv[j].0 == (before[j].first@, before[j].second@));
                    }
                    lemma_step_new(kv, i as int, gv, p as int);
                }
            },
        }
        i = i + 1;
    }
    assert(kv.take(keys@.len() as int) =~= kv);
    gs
}

// ---- laws ----

proof fn lemma_unique_rec(keys: Seq<(Seq<char>, Seq<char>)>, a: Seq<((Seq<char>, Seq<char>), Seq<int>)>, b: Seq<((Seq<char>, Seq<char>), Seq<int>)>)
    requires
        keys_sorted(a),
        keys_sorted(b),
        members_match(keys, a),
        members_match(keys, b),
        forall|i: int| 0 <= i < a.len() ==> has_group(b, (#[trigger] a[i]).0),
        forall|i: int| 0 <= i < b.len() ==> has_group(a, (#[trigger] b[i]).0),
    ensures
        a == b,
    decreases a.len(),
{
    if a.len() == 0 {
        if b.len() > 0 {
            assert(has_group(a, b[0].0));
        }
        assert(a =~= b);
    } else if b.len() == 0 {
        assert(has_group(b, a[0].0));
    } else {
        if a[0].0 != b[0].0 {
            assert(has_group(b, a[0].0));
            let j = choose|j: int| 0 <= j < b.len() && (#[trigger] b[j]).0 == a[0].0;
            assert(j > 0);
            assert(pair_lt(b[0].0, b[j].0));
            assert(has_group(a, b[0].0));
            let i = choose|i: int| 0 <= i < a.len() && (#[trigger] a[i]).0 == b[0].0;
            assert(i > 0);
            assert(pair_lt(a[0].0, a[i].0));
            lemma_pair_lt_asym(a[0].0, b[0].0);
        }
        assert(a[0].1 == indices_with(keys, a[0].0));
        assert(b[0].1 == indices_with(keys, b[0].0));
        let ra = a.drop_first();
        let rb = b.drop_first();
        assert forall|i: int, j: int| 0 <= i < j < ra.len() implies pair_lt(#[trigger] ra[i].0, #[trigger] ra[j].0) by {
            assert(ra[i] == a[i + 1] && ra[j] == a[j + 1]);
        }
        assert forall|i: int, j: int| 0 <= i < j < rb.len() implies pair_lt(#[trigger] rb[i].0, #[trigger] rb[j].0) by {
            assert(rb[i] == b[i + 1] && rb[j] == b[j + 1]);
        }
        assert forall|g: int| 0 <= g < ra.len() implies (#[trigger] ra[g]).1 == indices_with(keys, ra[g].0) by {
            assert(ra[g] == a[g + 1]);
        }
        assert forall|g: int| 0 <= g < rb.len() implies (#[trigger] rb[g]).1 == indices_with(keys, rb[g].0) by {
            assert(rb[g] == b[g + 1]);
        }
        assert forall|i: int| 0 <= i < ra.len() implies has_group(rb, (#[trigger] ra[i]).0) by {
            assert(ra[i] == a[i + 1]);
            assert(has_group(b, a[i + 1].0));
            let j = choose|j: int| 0 <= j < b.len() && (#[trigger] b[j]).0 == a[i + 1].0;
            lemma_distinct_keys(a, 0, i + 1);
            assert(j != 0);
            assert(rb[j - 1] == b[j]);
        }
        assert forall|i: int| 0 <= i < rb.len() implies has_group(ra, (#[trigger] rb[i]).0) by {
            assert(rb[i] == b[i + 1]);
            assert(has_group(a, b[i + 1].0));
            let j = choose|j: int| 0 <= j < a.len() && (#[trigger] a[j]).0 == b[i + 1].0;
            lemma_distinct_keys(b, 0, i + 1);
            assert(j != 0);
            assert(ra[j - 1] == a[j]);
        }
        lemma_unique_rec(keys, ra, rb);
        assert(a =~= seq![a[0]] + ra);
        assert(b =~= seq![b[0]] + rb);
    }
}

/// Grouping is determined by the keys: two groupings of the same keys are
/// the same, so `groups_of` is the grouping whenever there is one.
pub proof fn lemma_grouping_unique(keys: Seq<(Seq<char>, Seq<char>)>, a: Seq<((Seq<char>, Seq<char>), Seq<int>)>, b: Seq<((Seq<char>, Seq<char>), Seq<int>)>)
    requires
        grouped_by_key(keys, a),
        grouped_by_key(keys, b),
    ensures
        a == b,
{
    assert forall|i: int| 0 <= i < a.len() implies has_group(b, (#[trigger] a[i]).0) by {
        assert(has_key(keys, a[i].0));
        let j = choose|j: int| 0 <= j < keys.len() && keys[j] == a[i].0;
        assert(has_group(b, keys[j]));
    }
    assert forall|i: int| 0 <= i < b.len() implies has_group(a, (#[trigger] b[i]).0) by {
        assert(has_key(keys, b[i].0));
        let j = choose|j: int| 0 <= j < keys.len() && keys[j] == b[i].0;
        assert(has_group(a, keys[j]));
    }
    lemma_unique_rec(keys, a, b);
}

/// What `group_by_key` returns is `groups_of` its keys.
pub proof fn lemma_groups_of(keys: Seq<(Seq<char>, Seq<char>)>, gs: Seq<((Seq<char>, Seq<char>), Seq<int>)>)
    requires
        grouped_by_key(keys, gs),
    ensures
        groups_of(keys) == gs,
{
    lemma_grouping_unique(keys, groups_of(keys), gs);
}

/// Every group of a grouping is non-empty, and its members are positions
/// of entries with the group's key.
pub proof fn lemma_group_members(keys: Seq<(Seq<char>, Seq<char>)>, gs: Seq<((Seq<char>, Seq<char>), Seq<int>)>, g: int)
    requires
        grouped_by_key(keys, gs),
        0 <= g < gs.len(),
    ensures
        gs[g].1.len() > 0,
        forall|j: int| 0 <= j < gs[g].1.len() ==> 0 <= #[trigger] gs[g].1[j] < keys.len() && keys[gs[g].1[j]] == gs[g].0,
{
    lemma_indices_with(keys, gs[g].0);
    assert(has_key(keys, gs[g].0));
    let i = choose|i: int| 0 <= i < keys.len() && keys[i] == gs[g].0;
    assert(indices_with(keys, gs[g].0).contains(i));
}

/// Grouping places every entry in exactly one group: the group of its key.
pub proof fn law_each_entry_in_one_group(keys: Seq<(Seq<char>, Seq<char>)>, gs: Seq<((Seq<char>, Seq<char>), Seq<int>)>, i: int)
    requires
        grouped_by_key(keys, gs),
        0 <= i < keys.len(),
    ensures
        exists|g: int| 0 <= g < gs.len() && #[trigger] gs[g].1.contains(i) && gs[g].0 == keys[i],
        forall|g1: int, g2: int| 0 <= g1 < gs.len() && 0 <= g2 < gs.len() && #[trigger] gs[g1].1.contains(i) && #[trigger] gs[g2].1.contains(i) ==> g1 == g2,
{
    assert(has_group(gs, keys[i]));
    let g = choose|g: int| 0 <= g < gs.len() && (#[trigger] gs[g]).0 == keys[i];
    lemma_indices_with(keys, keys[i]);
    assert(gs[g].1 == indices_with(keys, keys[i]));
    assert(gs[g].1.contains(i));
    assert forall|g1: int, g2: int| 0 <= g1 < gs.len() && 0 <= g2 < gs.len() && #[trigger] gs[g1].1.contains(i) && #[trigger] gs[g2].1.contains(i) implies g1 == g2 by {
        lemma_indices_with(keys, gs[g1].0);
        lemma_indices_with(keys, gs[g2].0);
        let j1 = choose|j: int| 0 <= j < gs[g1].1.len() && gs[g1].1[j] == i;
        let j2 = choose|j: int| 0 <= j < gs[g2].1.len() && gs[g2].1[j] == i;
        assert(gs[g1].1 == indices_with(keys, gs[g1].0));
        assert(gs[g2].1 == indices_with(keys, gs[g2].0));
        assert(keys[indices_with(keys, gs[g1].0)[j1]] == gs[g1].0);
        assert(keys[indices_with(keys, gs[g2].0)[j2]] == gs[g2].0);
        if g1 != g2 {
            lemma_distinct_keys(gs, g1, g2);
        }
    }
}

/// The first position from `j` on whose key is above `d`, or the end.
pub open spec fn first_above(gs: Seq<((Seq<char>, Seq<char>), Seq<int>)>, d: (Seq<char>, Seq<char>), j: int) -> int
    decreases gs.len() - j,
{
    if j < 0 || j >= gs.len() {
        gs.len() as int
    } else if pair_lt(d, gs[j].0) {
        j
    } else {
        first_above(gs, d, j + 1)
    }
}

proof fn lemma_first_above(gs: Seq<((Seq<char>, Seq<char>), Seq<int>)>, d: (Seq<char>, Seq<char>), j: int)
    requires
        0 <= j <= gs.len(),
    ensures
        j <= first_above(gs, d, j) <= gs.len(),
        forall|q: int| j <= q < first_above(gs, d, j) ==> !pair_lt(d, #[trigger] gs[q].0),
        first_above(gs, d, j) < gs.len() ==> pair_lt(d, gs[first_above(gs, d, j)].0),
    decreases gs.len() - j,
{
    if j < gs.len() && !pair_lt(d, gs[j].0) {
        lemma_first_above(gs, d, j + 1);
    }
}

/// Every sequence of keys has a grouping.
pub proof fn lemma_grouping_exists(keys: Seq<(Seq<char>, Seq<char>)>, i: int)
    requires
        0 <= i <= keys.len(),
    ensures
        exists|gs: Seq<((Seq<char>, Seq<char>), Seq<int>)>| #[trigger] grouped_by_key(keys.take(i), gs),
    decreases i,
{
    if i == 0 {
        let e: Seq<((Seq<char>, Seq<char>), Seq<int>)> = Seq::empty();
        assert(keys.take(0) =~= Seq::<(Seq<char>, Seq<char>)>::empty());
        assert(grouped_by_key(keys.take(0), e));
    } else {
        lemma_grouping_exists(keys, i - 1);
        let gs = choose|gs: Seq<((Seq<char>, Seq<char>), Seq<int>)>| #[trigger] grouped_by_key(keys.take(i - 1), gs);
        let d = keys[i - 1];
        if exists|g: int| 0 <= g < gs.len() && (#[trigger] gs[g]).0 == d {
            let k = choose|g: int| 0 <= g < gs.len() && (#[trigger] gs[g]).0 == d;
            lemma_step_found(keys, i - 1, gs, k);
        } else {
            lemma_first_above(gs, d, 0);
            lemma_step_new(keys, i - 1, gs, first_above(gs, d, 0));
        }
    }
}

/// The grouping of `keys` is one.
pub proof fn lemma_groups_of_valid(keys: Seq<(Seq<char>, Seq<char>)>)
    ensures
        grouped_by_key(keys, groups_of(keys)),
{
    lemma_grouping_exists(keys, keys.len() as int);
    assert(keys.take(keys.len() as int) =~= keys);
}

} // verus!
