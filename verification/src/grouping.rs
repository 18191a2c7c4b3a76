//! Grouping of rows by a key of strings, as a data-frame `group_by` on
//! string columns groups them: each group holds the row indices that share
//! a key, groups appear in the order in which their key first appears, and
//! rows keep their order within a group.
use vstd::prelude::*;

verus! {

/// Plain-value view of a key made of several strings.
pub open spec fn key_view(k: Vec<String>) -> Seq<Seq<char>> {
    k@.map_values(|s: String| s@)
}

/// `groups` groups the indices `0..n` for which `selected` holds by `key`:
/// every group is non-empty and ascending, its members are selected and
/// share the key of its first member, no two groups share a key, and every
/// selected index is in a group.
pub open spec fn is_grouping_by(
    n: nat,
    selected: spec_fn(int) -> bool,
    key: spec_fn(int) -> Seq<Seq<char>>,
    groups: Seq<Vec<usize>>,
) -> bool {
    &&& forall|g: int| 0 <= g < groups.len() ==> #[trigger] groups[g]@.len() > 0
    &&& forall|g: int, k: int|
        0 <= g < groups.len() && 0 <= k < groups[g]@.len() ==> {
            &&& (#[trigger] groups[g]@[k]) < n
            &&& selected(groups[g]@[k] as int)
            &&& key(groups[g]@[k] as int) == key(groups[g]@[0] as int)
        }
    &&& forall|g: int, k1: int, k2: int|
        0 <= g < groups.len() && 0 <= k1 < k2 < groups[g]@.len() ==> #[trigger] groups[g]@[k1]
            < #[trigger] groups[g]@[k2]
    &&& forall|g1: int, g2: int|
        0 <= g1 < groups.len() && 0 <= g2 < groups.len() && g1 != g2 ==> key(
            #[trigger] groups[g1]@[0] as int,
        ) != key(#[trigger] groups[g2]@[0] as int)
    &&& forall|r: int|
        0 <= r < n && #[trigger] selected(r) ==> exists|g: int, k: int|
            0 <= g < groups.len() && 0 <= k < groups[g]@.len() && #[trigger] groups[g]@[k] == r
}

/// Whether two keys are equal.
pub fn same_key(a: &Vec<String>, b: &Vec<String>) -> (same: bool)
    ensures
        same == (key_view(*a) == key_view(*b)),
{
    if a.len() != b.len() {
        assert(key_view(*a).len() != key_view(*b).len());
        return false;
    }
    let mut i: usize = 0;
    while i < a.len()
        invariant
            a.len() == b.len(),
            i <= a.len(),
            forall|j: int| 0 <= j < i ==> a@[j]@ == b@[j]@,
        decreases a.len() - i,
    {
        if a[i] != b[i] {
            assert(key_view(*a)[i as int] != key_view(*b)[i as int]);
            return false;
        }
        i = i + 1;
    }
    assert(key_view(*a) =~= key_view(*b));
    true
}

/// The groups appear in the order in which their first members do.
pub open spec fn in_order_of_first_members(groups: Seq<Vec<usize>>) -> bool {
    forall|g1: int, g2: int|
        0 <= g1 < g2 < groups.len() ==> #[trigger] groups[g1]@[0] < #[trigger] groups[g2]@[0]
}

/// Groups the selected indices by their key, in the order in which the
/// keys first appear.
pub fn group_by_keys(keys: &Vec<Vec<String>>, selected: &Vec<bool>) -> (groups: Vec<Vec<usize>>)
    requires
        keys.len() == selected.len(),
    ensures
        is_grouping_by(keys.len() as nat, |i: int| selected@[i], |i: int| key_view(keys@[i]), groups@),
        in_order_of_first_members(groups@),
{
    let ghost sel = |i: int| selected@[i];
    let ghost kf = |i: int| key_view(keys@[i]);
    let mut groups: Vec<Vec<usize>> = Vec::new();
    let n = keys.len();
    let mut i: usize = 0;
    while i < n
        invariant
            n == keys.len() == selected.len(),
            i <= n,
            sel == (|i: int| selected@[i]),
            kf == (|i: int| key_view(keys@[i])),
            is_grouping_by(i as nat, sel, kf, groups@),
            in_order_of_first_members(groups@),
        decreases n - i,
    {
        let ghost old_groups = groups@;
        if selected[i] {
            let mut g: usize = 0;
            let mut found = false;
            while g < groups.len()
                invariant_except_break
                    !found,
                invariant
                    n == keys.len() == selected.len(),
                    i < n,
                    groups@ == old_groups,
                    kf == (|i: int| key_view(keys@[i])),
                    is_grouping_by(i as nat, sel, kf, groups@),
                    g <= groups.len(),
                    forall|h: int| 0 <= h < g ==> kf(groups@[h]@[0] as int) != kf(i as int),
                ensures
                    groups@ == old_groups,
                    found ==> g < groups.len() && kf(groups@[g as int]@[0] as int) == kf(i as int),
                    !found ==> forall|h: int| 0 <= h < groups.len() ==> kf(groups@[h]@[0] as int) != kf(i as int),
                decreases groups.len() - g,
            {
                let first = groups[g][0];
                if same_key(&keys[first], &keys[i]) {
                    found = true;
                    break;
                }
                g = g + 1;
            }
            if found {
                assert(g < groups.len());
                assert(kf(groups@[g as int]@[0] as int) == kf(i as int));
                groups[g].push(i);
                assert forall|h: int| 0 <= h < groups@.len() implies #[trigger] groups@[h]@.len() > 0 by {
                    if h != g {
                        assert(groups@[h] == old_groups[h]);
                    }
                }
                assert(is_grouping_by((i + 1) as nat, sel, kf, groups@)) by {
                    assert forall|h: int, k: int|
                        0 <= h < groups@.len() && 0 <= k < groups@[h]@.len() implies {
                            &&& (#[trigger] groups@[h]@[k]) < i + 1
                            &&& sel(groups@[h]@[k] as int)
                            &&& kf(groups@[h]@[k] as int) == kf(groups@[h]@[0] as int)
                        } by {
                        if h != g {
                            assert(groups@[h] == old_groups[h]);
                        } else if k < old_groups[h]@.len() {
                            assert(groups@[h]@[k] == old_groups[h]@[k]);
                        }
                        assert(groups@[h]@[0] == old_groups[h]@[0]);
                    }
                    assert forall|h: int, k1: int, k2: int|
                        0 <= h < groups@.len() && 0 <= k1 < k2 < groups@[h]@.len() implies #[trigger] groups@[h]@[k1]
                            < #[trigger] groups@[h]@[k2] by {
                        if h != g {
                            assert(groups@[h] == old_groups[h]);
                        } else {
                            assert(groups@[h]@[k1] == old_groups[h]@[k1]);
                            if k2 < old_groups[h]@.len() {
                                assert(groups@[h]@[k2] == old_groups[h]@[k2]);
                            }
                        }
                    }
                    assert forall|g1: int, g2: int|
                        0 <= g1 < groups@.len() && 0 <= g2 < groups@.len() && g1 != g2 implies kf(
                            #[trigger] groups@[g1]@[0] as int,
                        ) != kf(#[trigger] groups@[g2]@[0] as int) by {
                        assert(groups@[g1]@[0] == old_groups[g1]@[0]);
                        assert(groups@[g2]@[0] == old_groups[g2]@[0]);
                    }
                    assert forall|g1: int, g2: int| 0 <= g1 < g2 < groups@.len() implies #[trigger] groups@[g1]@[0]
                        < #[trigger] groups@[g2]@[0] by {
                        assert(groups@[g1]@[0] == old_groups[g1]@[0]);
                        assert(groups@[g2]@[0] == old_groups[g2]@[0]);
                    }
                    assert forall|r: int| 0 <= r < i + 1 && #[trigger] sel(r) implies exists|h: int, k: int|
                        0 <= h < groups@.len() && 0 <= k < groups@[h]@.len() && #[trigger] groups@[h]@[k] == r by {
                        if r == i {
                            assert(groups@[g as int]@[old_groups[g as int]@.len() as int] == r);
                        } else {
                            let (h, k) = choose|h: int, k: int|
                                0 <= h < old_groups.len() && 0 <= k < old_groups[h]@.len() && #[trigger] old_groups[h]@[k] == r;
                            assert(groups@[h]@[k] == old_groups[h]@[k]);
                        }
                    }
                }
            } else {
                let mut fresh: Vec<usize> = Vec::new();
                fresh.push(i);
                groups.push(fresh);
                assert(is_grouping_by((i + 1) as nat, sel, kf, groups@)) by {
                    let last = old_groups.len() as int;
                    assert forall|h: int| 0 <= h < groups@.len() implies #[trigger] groups@[h]@.len() > 0 by {
                        if h < last {
                            assert(groups@[h] == old_groups[h]);
                        }
                    }
                    assert forall|h: int, k: int|
                        0 <= h < groups@.len() && 0 <= k < groups@[h]@.len() implies {
                            &&& (#[trigger] groups@[h]@[k]) < i + 1
                            &&& sel(groups@[h]@[k] as int)
                            &&& kf(groups@[h]@[k] as int) == kf(groups@[h]@[0] as int)
                        } by {
                        if h < last {
                            assert(groups@[h] == old_groups[h]);
                        }
                    }
                    assert forall|h: int, k1: int, k2: int|
                        0 <= h < groups@.len() && 0 <= k1 < k2 < groups@[h]@.len() implies #[trigger] groups@[h]@[k1]
                            < #[trigger] groups@[h]@[k2] by {
                        if h < last {
                            assert(groups@[h] == old_groups[h]);
                        }
                    }
                    assert forall|g1: int, g2: int|
                        0 <= g1 < groups@.len() && 0 <= g2 < groups@.len() && g1 != g2 implies kf(
                            #[trigger] groups@[g1]@[0] as int,
                        ) != kf(#[trigger] groups@[g2]@[0] as int) by {
                        if g1 < last {
                            assert(groups@[g1] == old_groups[g1]);
                        } else {
                            assert(groups@[g1]@[0] == i);
                        }
                        if g2 < last {
                            assert(groups@[g2] == old_groups[g2]);
                        } else {
                            assert(groups@[g2]@[0] == i);
                        }
                    }
                    assert forall|g1: int, g2: int| 0 <= g1 < g2 < groups@.len() implies #[trigger] groups@[g1]@[0]
                        < #[trigger] groups@[g2]@[0] by {
                        assert(groups@[g1] == old_groups[g1]);
                        if g2 < last {
                            assert(groups@[g2] == old_groups[g2]);
                        } else {
                            assert(groups@[g2]@[0] == i);
                            assert(old_groups[g1]@[0] < i);
                        }
                    }
                    assert forall|r: int| 0 <= r < i + 1 && #[trigger] sel(r) implies exists|h: int, k: int|
                        0 <= h < groups@.len() && 0 <= k < groups@[h]@.len() && #[trigger] groups@[h]@[k] == r by {
                        if r == i {
                            assert(groups@[last]@[0] == r);
                        } else {
                            let (h, k) = choose|h: int, k: int|
                                0 <= h < old_groups.len() && 0 <= k < old_groups[h]@.len() && #[trigger] old_groups[h]@[k] == r;
                            assert(groups@[h] == old_groups[h]);
                        }
                    }
                }
            }
        } else {
            assert(is_grouping_by((i + 1) as nat, sel, kf, groups@)) by {
                assert forall|r: int| 0 <= r < i + 1 && #[trigger] sel(r) implies exists|h: int, k: int|
                    0 <= h < groups@.len() && 0 <= k < groups@[h]@.len() && #[trigger] groups@[h]@[k] == r by {
                    assert(r != i);
                }
            }
        }
        i = i + 1;
    }
    groups
}

} // verus!

verus! {

/// A grouping by one selection and key is also a grouping by any other
/// selection and key that agree with them on the indices in question.
pub proof fn lemma_grouping_congruent(
    n: nat,
    s1: spec_fn(int) -> bool,
    k1: spec_fn(int) -> Seq<Seq<char>>,
    s2: spec_fn(int) -> bool,
    k2: spec_fn(int) -> Seq<Seq<char>>,
    groups: Seq<Vec<usize>>,
)
    requires
        is_grouping_by(n, s1, k1, groups),
        forall|i: int| 0 <= i < n ==> #[trigger] s1(i) == s2(i),
        forall|i: int| 0 <= i < n ==> #[trigger] k1(i) == k2(i),
    ensures
        is_grouping_by(n, s2, k2, groups),
{
    assert forall|g: int, k: int| 0 <= g < groups.len() && 0 <= k < groups[g]@.len() implies {
        &&& (#[trigger] groups[g]@[k]) < n
        &&& s2(groups[g]@[k] as int)
        &&& k2(groups[g]@[k] as int) == k2(groups[g]@[0] as int)
    } by {
        assert(groups[g]@[0] < n);
    }
    assert forall|g1: int, g2: int|
        0 <= g1 < groups.len() && 0 <= g2 < groups.len() && g1 != g2 implies k2(
            #[trigger] groups[g1]@[0] as int,
        ) != k2(#[trigger] groups[g2]@[0] as int) by {
        assert(groups[g1]@[0] < n);
        assert(groups[g2]@[0] < n);
    }
    assert forall|r: int| 0 <= r < n && #[trigger] s2(r) implies exists|g: int, k: int|
        0 <= g < groups.len() && 0 <= k < groups[g]@.len() && #[trigger] groups[g]@[k] == r by {
        assert(s1(r));
    }
}

} // verus!

verus! {

/// In a grouping, an index lies in at most one group, at one position.
pub proof fn lemma_grouping_membership_unique(
    n: nat,
    selected: spec_fn(int) -> bool,
    key: spec_fn(int) -> Seq<Seq<char>>,
    groups: Seq<Vec<usize>>,
    g1: int,
    k1: int,
    g2: int,
    k2: int,
)
    requires
        is_grouping_by(n, selected, key, groups),
        0 <= g1 < groups.len(),
        0 <= k1 < groups[g1]@.len(),
        0 <= g2 < groups.len(),
        0 <= k2 < groups[g2]@.len(),
        groups[g1]@[k1] == groups[g2]@[k2],
    ensures
        g1 == g2,
        k1 == k2,
{
    let r = groups[g1]@[k1] as int;
    assert(key(r) == key(groups[g1]@[0] as int));
    assert(key(groups[g2]@[k2] as int) == key(groups[g2]@[0] as int));
    if g1 == g2 {
        if k1 < k2 {
            assert(groups[g1]@[k1] < groups[g1]@[k2]);
        } else if k2 < k1 {
            assert(groups[g1]@[k2] < groups[g1]@[k1]);
        }
    }
}

} // verus!
