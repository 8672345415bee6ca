//! Grouping the variants of a unit-only enum by the type of their magic
//! values, so that each type is read once and compared against every variant
//! of that type.
use crate::input::UnitEnumField;
use crate::magic::{Kind, KindView};
use vstd::prelude::*;

verus! {

/// The kind of a variant's magic value; `None` (a wildcard) where it has none.
pub open spec fn field_kind(f: UnitEnumField) -> Option<KindView> {
    match f.magic {
        Some(m) => Some(m.value.0@),
        None => None,
    }
}

/// The kinds of the variants' magic values, in order.
pub open spec fn field_kinds(fs: Seq<UnitEnumField>) -> Seq<Option<KindView>> {
    fs.map_values(|f: UnitEnumField| field_kind(f))
}

/// The groups of variant positions: a variant joins the group before it when
/// it is a wildcard or its kind is the kind of that group's first variant;
/// otherwise it starts a new group.
pub open spec fn group_by_kind(ks: Seq<Option<KindView>>) -> Seq<Seq<int>>
    decreases ks.len(),
{
    if ks.len() == 0 {
        Seq::empty()
    } else {
        let prev = group_by_kind(ks.drop_last());
        let i = ks.len() - 1;
        if prev.len() > 0 && (ks[i] is None || ks[prev.last()[0]] == ks[i]) {
            prev.update(prev.len() - 1, prev.last().push(i))
        } else {
            prev.push(seq![i])
        }
    }
}

/// The groups' positions, one group after the other.
pub open spec fn concat_groups(gs: Seq<Seq<int>>) -> Seq<int>
    decreases gs.len(),
{
    if gs.len() == 0 {
        Seq::empty()
    } else {
        concat_groups(gs.drop_last()) + gs.last()
    }
}

/// The positions `0..n`.
pub open spec fn positions(n: int) -> Seq<int> {
    Seq::new(n as nat, |i: int| i)
}

/// Grouping keeps every variant, once, in the order of declaration.
pub proof fn lemma_grouping_keeps_order(ks: Seq<Option<KindView>>)
    ensures
        concat_groups(group_by_kind(ks)) == positions(ks.len() as int),
    decreases ks.len(),
{
    if ks.len() > 0 {
        let prev = group_by_kind(ks.drop_last());
        let i = ks.len() - 1;
        lemma_grouping_keeps_order(ks.drop_last());
        let gs = group_by_kind(ks);
        assert(positions(ks.len() as int) =~= positions(i).push(i));
        if prev.len() > 0 && (ks[i] is None || ks[prev.last()[0]] == ks[i]) {
            assert(gs.drop_last() =~= prev.drop_last());
            assert(gs.last() == prev.last().push(i));
            assert(concat_groups(prev) == concat_groups(prev.drop_last()) + prev.last());
            assert(concat_groups(gs) == concat_groups(gs.drop_last()) + gs.last());
            assert(concat_groups(gs) =~= concat_groups(prev).push(i));
        } else {
            assert(gs.drop_last() =~= prev);
            assert(gs.last() == seq![i]);
            assert(concat_groups(gs) == concat_groups(gs.drop_last()) + gs.last());
            assert(concat_groups(gs) =~= concat_groups(prev).push(i));
        }
    }
}

/// The shape of a grouping: groups are not empty, hold positions in
/// `0..ks.len()`, every member of a group is a wildcard or has the kind of the
/// group's first member, and a group after the first starts with a variant
/// that has a kind, and a kind other than that of the previous group.
pub open spec fn well_grouped(ks: Seq<Option<KindView>>, gs: Seq<Seq<int>>) -> bool {
    &&& forall|t: int| 0 <= t < gs.len() ==> #[trigger] gs[t].len() > 0
    &&& forall|t: int, j: int|
        0 <= t < gs.len() && 0 <= j < gs[t].len() ==> 0 <= #[trigger] gs[t][j] < ks.len()
    &&& forall|t: int, j: int|
        0 <= t < gs.len() && 0 < j < gs[t].len() ==> (ks[#[trigger] gs[t][j]] is None
            || ks[gs[t][j]] == ks[gs[t][0]])
    &&& forall|t: int|
        0 < t < gs.len() ==> {
            &&& ks[#[trigger] gs[t][0]] is Some
            &&& ks[gs[t][0]] != ks[gs[t - 1][0]]
        }
}

/// Every grouping is well grouped.
pub proof fn lemma_grouping_shape(ks: Seq<Option<KindView>>)
    ensures
        well_grouped(ks, group_by_kind(ks)),
    decreases ks.len(),
{
    if ks.len() > 0 {
        let pks = ks.drop_last();
        let prev = group_by_kind(pks);
        let i = ks.len() - 1;
        lemma_grouping_shape(pks);
        let gs = group_by_kind(ks);
        assert forall|t: int, j: int|
            0 <= t < prev.len() && 0 <= j < prev[t].len() implies ks[prev[t][j]] == pks[prev[t][j]] by {
            assert(0 <= prev[t][j] < pks.len());
        }
        if prev.len() > 0 && (ks[i] is None || ks[prev.last()[0]] == ks[i]) {
            let n = prev.len() - 1;
            assert forall|t: int| 0 <= t < gs.len() implies #[trigger] gs[t].len() > 0 by {
                if t != n {
                    assert(gs[t] == prev[t]);
                }
            }
            assert forall|t: int, j: int|
                0 <= t < gs.len() && 0 <= j < gs[t].len() implies 0 <= #[trigger] gs[t][j] < ks.len() by {
                if t != n || j < prev[n].len() {
                    assert(gs[t][j] == prev[t][j]);
                }
            }
            assert forall|t: int, j: int|
                0 <= t < gs.len() && 0 < j < gs[t].len() implies (ks[#[trigger] gs[t][j]] is None
                || ks[gs[t][j]] == ks[gs[t][0]]) by {
                assert(gs[t][0] == prev[t][0]);
                if t != n || j < prev[n].len() {
                    assert(gs[t][j] == prev[t][j]);
                } else {
                    assert(gs[t][j] == i);
                }
            }
            assert forall|t: int| 0 < t < gs.len() implies {
                &&& ks[#[trigger] gs[t][0]] is Some
                &&& ks[gs[t][0]] != ks[gs[t - 1][0]]
            } by {
                assert(gs[t][0] == prev[t][0]);
                assert(gs[t - 1][0] == prev[t - 1][0]);
            }
        } else {
            assert forall|t: int| 0 <= t < gs.len() implies #[trigger] gs[t].len() > 0 by {
                if t < prev.len() {
                    assert(gs[t] == prev[t]);
                }
            }
            assert forall|t: int, j: int|
                0 <= t < gs.len() && 0 <= j < gs[t].len() implies 0 <= #[trigger] gs[t][j] < ks.len() by {
                if t < prev.len() {
                    assert(gs[t] == prev[t]);
                }
            }
            assert forall|t: int, j: int|
                0 <= t < gs.len() && 0 < j < gs[t].len() implies (ks[#[trigger] gs[t][j]] is None
                || ks[gs[t][j]] == ks[gs[t][0]]) by {
                assert(gs[t] == prev[t]);
            }
            assert forall|t: int| 0 < t < gs.len() implies {
                &&& ks[#[trigger] gs[t][0]] is Some
                &&& ks[gs[t][0]] != ks[gs[t - 1][0]]
            } by {
                if t < prev.len() {
                    assert(gs[t] == prev[t]);
                    assert(gs[t - 1] == prev[t - 1]);
                } else {
                    assert(gs[t] == seq![i]);
                    assert(gs[t - 1] == prev[t - 1]);
                }
            }
        }
    }
}

/// The view of an executable grouping.
pub open spec fn groups_view(gs: Seq<Vec<usize>>) -> Seq<Seq<int>> {
    gs.map_values(|g: Vec<usize>| g@.map_values(|x: usize| x as int))
}

proof fn lemma_view_replace_last(gs: Seq<Vec<usize>>, g: Vec<usize>)
    requires
        gs.len() > 0,
    ensures
        groups_view(gs.drop_last().push(g)) == groups_view(gs).update(
            gs.len() - 1,
            g@.map_values(|x: usize| x as int),
        ),
{
    assert(groups_view(gs.drop_last().push(g)) =~= groups_view(gs).update(
        gs.len() - 1,
        g@.map_values(|x: usize| x as int),
    ));
}

/// Whether two optional kinds are equal.
fn same_kind(a: Option<&Kind>, b: Option<&Kind>) -> (r: bool)
    ensures
        r == (match a {
            Some(k) => Some(k@),
            None => None::<KindView>,
        } == match b {
            Some(k) => Some(k@),
            None => None::<KindView>,
        }),
{
    match (a, b) {
        (Some(x), Some(y)) => x.same(y),
        (None, None) => true,
        _ => false,
    }
}

fn kind_of(f: &UnitEnumField) -> (r: Option<&Kind>)
    ensures
        match r {
            Some(k) => Some(k@),
            None => None::<KindView>,
        } == field_kind(*f),
{
    match &f.magic {
        Some(m) => Some(m.value.kind()),
        None => None,
    }
}

/// Groups the variants of a unit-only enum by the kind of their magic values,
/// keeping their order (see [`group_by_kind`]); each group is a list of
/// positions in `fields`.
pub fn group_by_magic_kind(fields: &Vec<UnitEnumField>) -> (r: Vec<Vec<usize>>)
    ensures
        groups_view(r@) == group_by_kind(field_kinds(fields@)),
{
    let ghost ks = field_kinds(fields@);
    let mut groups: Vec<Vec<usize>> = Vec::new();
    let mut i: usize = 0;
    proof {
        assert(ks.take(0) =~= Seq::<Option<KindView>>::empty());
        assert(groups_view(groups@) =~= Seq::<Seq<int>>::empty());
    }
    while i < fields.len()
        invariant
            i <= fields.len(),
            ks == field_kinds(fields@),
            ks.len() == fields@.len(),
            groups_view(groups@) == group_by_kind(ks.take(i as int)),
        decreases fields.len() - i,
    {
        let ghost prev = groups_view(groups@);
        let ghost old_groups = groups@;
        let kind = kind_of(&fields[i]);
        let join = if groups.len() > 0 {
            let last = groups.len() - 1;
            assert(prev[last as int] == groups@[last as int]@.map_values(|x: usize| x as int));
            assert(prev[last as int].len() > 0 && 0 <= prev[last as int][0] < i) by {
                lemma_grouping_shape(ks.take(i as int));
            }
            let first = groups[last][0];
            kind.is_none() || same_kind(kind_of(&fields[first]), kind)
        } else {
            false
        };
        proof {
            let ks_i = ks.take(i + 1);
            assert(ks_i.drop_last() =~= ks.take(i as int));
            assert(ks_i[i as int] == field_kind(fields@[i as int]));
            if groups.len() > 0 {
                let f = prev.last()[0];
                assert(0 <= f < i) by {
                    lemma_grouping_shape(ks.take(i as int));
                }
                assert(ks_i[f] == field_kind(fields@[f]));
            }
        }
        if join {
            let mut last = groups.pop().unwrap();
            last.push(i);
            groups.push(last);
            proof {
                lemma_view_replace_last(old_groups, last);
                assert(last@.map_values(|x: usize| x as int) =~= prev.last().push(i as int));
            }
        } else {
            let mut g: Vec<usize> = Vec::new();
            g.push(i);
            groups.push(g);
            proof {
                assert(g@.map_values(|x: usize| x as int) =~= seq![i as int]);
                assert(groups_view(groups@) =~= prev.push(seq![i as int]));
            }
        }
        i += 1;
    }
    assert(ks.take(fields.len() as int) =~= ks);
    groups
}

} // verus!
