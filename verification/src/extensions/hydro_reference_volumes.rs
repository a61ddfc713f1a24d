//! The reference operating volume of each plant at each stage.

use std::collections::HashMap;

use vstd::prelude::*;

use crate::entities::{EntityId, StudyPos};
use crate::float::Float64;

verus! {

/// The volume that a list gives for a plant at a stage: that of the last entry for
/// them, or `default` where there is none.
pub open spec fn volume_for(
    entries: Seq<(EntityId, StudyPos, Float64)>,
    hydro_id: EntityId,
    stage_pos: StudyPos,
    default: Float64,
) -> Float64
    decreases entries.len(),
{
    if entries.len() == 0 {
        default
    } else if entries.last().0 == hydro_id && entries.last().1 == stage_pos {
        entries.last().2
    } else {
        volume_for(entries.drop_last(), hydro_id, stage_pos, default)
    }
}

/// The reference operating volumes, in hm³, by plant and stage.
#[derive(Debug, Clone)]
pub struct HydroReferenceVolumeFractions {
    resolved_hm3: HashMap<i128, Float64>,
    default_value: Float64,
}

/// The number that stands for a plant and a stage.
spec fn pair_number(hydro_id: EntityId, stage_pos: StudyPos) -> int {
    hydro_id.0 * 0x1_0000_0000_0000_0000 + stage_pos.0
}

fn pair_key(hydro_id: EntityId, stage_pos: StudyPos) -> (r: i128)
    ensures
        r == pair_number(hydro_id, stage_pos),
{
    hydro_id.0 as i128 * 0x1_0000_0000_0000_0000 + stage_pos.0 as i128
}

proof fn pair_numbers_are_distinct(a: EntityId, i: StudyPos, b: EntityId, j: StudyPos)
    requires
        pair_number(a, i) == pair_number(b, j),
    ensures
        a == b,
        i == j,
{
}

impl HydroReferenceVolumeFractions {
    /// The volume of a plant at a stage.
    pub closed spec fn volume(self, hydro_id: EntityId, stage_pos: StudyPos) -> Float64 {
        let key = pair_number(hydro_id, stage_pos) as i128;
        if self.resolved_hm3@.dom().contains(key) {
            self.resolved_hm3@[key]
        } else {
            self.default_value
        }
    }

    /// The volume of a plant at a stage, or the default where none was given.
    pub fn get(&self, hydro_id: EntityId, stage_pos: StudyPos) -> (r: Float64)
        ensures
            r == self.volume(hydro_id, stage_pos),
    {
        broadcast use vstd::std_specs::hash::group_hash_axioms;

        match self.resolved_hm3.get(&pair_key(hydro_id, stage_pos)) {
            Some(value) => *value,
            None => self.default_value,
        }
    }
}

/// The volumes of a list of plants and stages.
pub fn build_hydro_reference_volumes_resolved(
    resolved_hm3: &[(EntityId, StudyPos, Float64)],
    default_hm3: Float64,
) -> (r: HydroReferenceVolumeFractions)
    ensures
        forall|hydro_id: EntityId, stage_pos: StudyPos| #[trigger]
            r.volume(hydro_id, stage_pos) == volume_for(
                resolved_hm3@,
                hydro_id,
                stage_pos,
                default_hm3,
            ),
{
    broadcast use vstd::std_specs::hash::group_hash_axioms;

    let mut r = HydroReferenceVolumeFractions {
        resolved_hm3: HashMap::new(),
        default_value: default_hm3,
    };
    proof {
        assert(resolved_hm3@.take(0) =~= Seq::empty());
    }
    for i in 0..resolved_hm3.len()
        invariant
            r.default_value == default_hm3,
            forall|hydro_id: EntityId, stage_pos: StudyPos| #[trigger]
                r.volume(hydro_id, stage_pos) == volume_for(
                    resolved_hm3@.take(i as int),
                    hydro_id,
                    stage_pos,
                    default_hm3,
                ),
    {
        let entry: (EntityId, StudyPos, Float64) = resolved_hm3[i];
        let ghost before = r;
        r.resolved_hm3.insert(pair_key(entry.0, entry.1), entry.2);
        proof {
            let next = resolved_hm3@.take(i + 1);
            assert(next.drop_last() =~= resolved_hm3@.take(i as int));
            assert forall|hydro_id: EntityId, stage_pos: StudyPos| #[trigger]
                r.volume(hydro_id, stage_pos) == volume_for(
                    next,
                    hydro_id,
                    stage_pos,
                    default_hm3,
                ) by {
                assert(before.volume(hydro_id, stage_pos) == volume_for(
                    next.drop_last(),
                    hydro_id,
                    stage_pos,
                    default_hm3,
                ));
                if pair_number(hydro_id, stage_pos) == pair_number(entry.0, entry.1) {
                    pair_numbers_are_distinct(hydro_id, stage_pos, entry.0, entry.1);
                }
            }
        }
    }
    proof {
        assert(resolved_hm3@.take(resolved_hm3@.len() as int) =~= resolved_hm3@);
    }
    r
}

/// Entries of one plant for one stage have the same value.
pub open spec fn one_value_each(entries: Seq<(EntityId, StudyPos, Float64)>) -> bool {
    forall|i: int, j: int|
        0 <= i < j < entries.len() && (#[trigger] entries[i]).0 == (#[trigger] entries[j]).0
            && entries[i].1 == entries[j].1 ==> entries[i].2 == entries[j].2
}

proof fn volume_is_listed(
    entries: Seq<(EntityId, StudyPos, Float64)>,
    i: int,
    default: Float64,
)
    requires
        one_value_each(entries),
        0 <= i < entries.len(),
    ensures
        volume_for(entries, entries[i].0, entries[i].1, default) == entries[i].2,
    decreases entries.len(),
{
    let before = entries.drop_last();
    let last = entries[entries.len() - 1];
    if i < entries.len() - 1 {
        if entries[i].0 == last.0 && entries[i].1 == last.1 {
            assert(entries[i].2 == last.2);
        } else {
            assert forall|a: int, b: int|
                0 <= a < b < before.len() && (#[trigger] before[a]).0 == (#[trigger] before[b]).0
                    && before[a].1 == before[b].1 implies before[a].2 == before[b].2 by {
                assert(entries[a].2 == entries[b].2);
            }
            volume_is_listed(before, i, default);
            assert(before[i] == entries[i]);
        }
    }
}

proof fn volume_is_default(
    entries: Seq<(EntityId, StudyPos, Float64)>,
    hydro_id: EntityId,
    stage_pos: StudyPos,
    default: Float64,
)
    requires
        forall|i: int|
            0 <= i < entries.len() ==> !((#[trigger] entries[i]).0 == hydro_id && entries[i].1
                == stage_pos),
    ensures
        volume_for(entries, hydro_id, stage_pos, default) == default,
    decreases entries.len(),
{
    if entries.len() > 0 {
        let before = entries.drop_last();
        assert forall|i: int| 0 <= i < before.len() implies !((#[trigger] before[i]).0 == hydro_id
            && before[i].1 == stage_pos) by {
            assert(before[i] == entries[i]);
        }
        assert(!(entries[entries.len() - 1].0 == hydro_id && entries[entries.len() - 1].1
            == stage_pos));
        volume_is_default(before, hydro_id, stage_pos, default);
    }
}

/// Where no plant has entries of different values for one stage, the order of the
/// entries does not matter.
pub proof fn order_does_not_matter(
    a: Seq<(EntityId, StudyPos, Float64)>,
    b: Seq<(EntityId, StudyPos, Float64)>,
    hydro_id: EntityId,
    stage_pos: StudyPos,
    default: Float64,
)
    requires
        one_value_each(a),
        a.to_multiset() == b.to_multiset(),
    ensures
        volume_for(a, hydro_id, stage_pos, default) == volume_for(
            b,
            hydro_id,
            stage_pos,
            default,
        ),
{
    broadcast use vstd::seq_lib::group_to_multiset_ensures;

    assert forall|x: int, y: int|
        0 <= x < y < b.len() && (#[trigger] b[x]).0 == (#[trigger] b[y]).0 && b[x].1
            == b[y].1 implies b[x].2 == b[y].2 by {
        assert(b.contains(b[x]) && b.contains(b[y]));
        assert(b.to_multiset().count(b[x]) > 0 && b.to_multiset().count(b[y]) > 0);
        assert(a.contains(b[x]) && a.contains(b[y]));
        let i = a.index_of(b[x]);
        let j = a.index_of(b[y]);
        assert(a[i] == b[x] && a[j] == b[y]);
    }
    if exists|i: int|
        0 <= i < a.len() && (#[trigger] a[i]).0 == hydro_id && a[i].1 == stage_pos {
        let i = choose|i: int|
            0 <= i < a.len() && (#[trigger] a[i]).0 == hydro_id && a[i].1 == stage_pos;
        volume_is_listed(a, i, default);
        assert(a.contains(a[i]));
        assert(a.to_multiset().count(a[i]) > 0);
        assert(b.contains(a[i]));
        let j = b.index_of(a[i]);
        volume_is_listed(b, j, default);
    } else {
        volume_is_default(a, hydro_id, stage_pos, default);
        assert forall|j: int| 0 <= j < b.len() implies !((#[trigger] b[j]).0 == hydro_id && b[j].1
            == stage_pos) by {
            assert(b.contains(b[j]));
            assert(b.to_multiset().count(b[j]) > 0);
            assert(a.contains(b[j]));
            let i = a.index_of(b[j]);
            assert(a[i] == b[j]);
        }
        volume_is_default(b, hydro_id, stage_pos, default);
    }
}

/// An entry counts unless a later one is for the same plant and stage.
pub proof fn the_last_entry_counts(
    entries: Seq<(EntityId, StudyPos, Float64)>,
    i: int,
    default: Float64,
)
    requires
        0 <= i < entries.len(),
        forall|j: int|
            i < j < entries.len() ==> (#[trigger] entries[j]).0 != entries[i].0 || entries[j].1
                != entries[i].1,
    ensures
        volume_for(entries, entries[i].0, entries[i].1, default) == entries[i].2,
    decreases entries.len(),
{
    if i < entries.len() - 1 {
        let before = entries.drop_last();
        assert(entries[entries.len() - 1].0 != entries[i].0 || entries[entries.len() - 1].1
            != entries[i].1);
        assert forall|j: int| i < j < before.len() implies (#[trigger] before[j]).0 != before[i].0
            || before[j].1 != before[i].1 by {
            assert(entries[j].0 != entries[i].0 || entries[j].1 != entries[i].1);
        }
        the_last_entry_counts(before, i, default);
    }
}

/// A plant and stage without an entry have the default.
pub proof fn what_is_not_listed_has_the_default(
    entries: Seq<(EntityId, StudyPos, Float64)>,
    hydro_id: EntityId,
    stage_pos: StudyPos,
    default: Float64,
)
    requires
        forall|i: int|
            0 <= i < entries.len() ==> !((#[trigger] entries[i]).0 == hydro_id && entries[i].1
                == stage_pos),
    ensures
        volume_for(entries, hydro_id, stage_pos, default) == default,
{
    volume_is_default(entries, hydro_id, stage_pos, default);
}

} // verus!
