use vstd::prelude::*;

use crate::material::{reward_points, Material};
use crate::stats::{count_for, recorded_submission, RecyclingStats};
use crate::types::WasteType;

verus! {

/// Total weight of a list of submission items (type, weight,
/// description).
pub open spec fn sum_weights(items: Seq<(WasteType, u64, String)>) -> int
    decreases items.len(),
{
    if items.len() == 0 {
        0
    } else {
        sum_weights(items.drop_last()) + items.last().1
    }
}

/// How many of the submission items are of type `t`.
pub open spec fn count_items_of_type(items: Seq<(WasteType, u64, String)>, t: WasteType) -> int
    decreases items.len(),
{
    if items.len() == 0 {
        0
    } else {
        count_items_of_type(items.drop_last(), t) + if items.last().0 == t {
            1int
        } else {
            0int
        }
    }
}

/// The statistics after recording every item of a batch: one more
/// submission per item, the summed weight, and the per-type buckets.
/// Meaningful only where none of the sums exceeds 64 bits.
pub open spec fn batch_recorded(st: RecyclingStats, items: Seq<(WasteType, u64, String)>)
    -> RecyclingStats {
    RecyclingStats {
        total_submissions: (st.total_submissions + items.len()) as u64,
        total_weight: (st.total_weight + sum_weights(items)) as u64,
        paper_count: (st.paper_count + count_items_of_type(items, WasteType::Paper)) as u64,
        pet_plastic_count: (st.pet_plastic_count + count_items_of_type(
            items,
            WasteType::PetPlastic,
        )) as u64,
        plastic_count: (st.plastic_count + count_items_of_type(items, WasteType::Plastic)) as u64,
        metal_count: (st.metal_count + count_items_of_type(items, WasteType::Metal)) as u64,
        glass_count: (st.glass_count + count_items_of_type(items, WasteType::Glass)) as u64,
        ..st
    }
}

/// The statistics after recording the items of a batch one at a time,
/// in order.
pub open spec fn recorded_all(st: RecyclingStats, items: Seq<(WasteType, u64, String)>)
    -> RecyclingStats
    decreases items.len(),
{
    if items.len() == 0 {
        st
    } else {
        recorded_submission(recorded_all(st, items.drop_last()), items.last().0, items.last().1)
    }
}

/// Batch sums are never negative.
pub proof fn lemma_items_nonneg(items: Seq<(WasteType, u64, String)>)
    ensures
        sum_weights(items) >= 0,
        forall|t: WasteType| #[trigger] count_items_of_type(items, t) >= 0,
    decreases items.len(),
{
    if items.len() > 0 {
        lemma_items_nonneg(items.drop_last());
        assert forall|t: WasteType| #[trigger] count_items_of_type(items, t) >= 0 by {
            assert(count_items_of_type(items.drop_last(), t) >= 0);
        }
    }
}

/// Law: recording a whole batch at once and recording its items one by
/// one leave the statistics in the same state, whenever the batch's sums
/// fit their counters — batching is an optimization, not an observable
/// difference.
pub proof fn lemma_batch_recorded_is_sequential(
    st: RecyclingStats,
    items: Seq<(WasteType, u64, String)>,
)
    requires
        st.total_submissions + items.len() <= u64::MAX,
        st.total_weight + sum_weights(items) <= u64::MAX,
        forall|t: WasteType|
            count_for(st, t) + #[trigger] count_items_of_type(items, t) <= u64::MAX,
    ensures
        recorded_all(st, items) == batch_recorded(st, items),
    decreases items.len(),
{
    if items.len() == 0 {
        assert(recorded_all(st, items) == batch_recorded(st, items));
    } else {
        let prefix = items.drop_last();
        let last = items.last();
        assert(sum_weights(items) == sum_weights(prefix) + last.1);
        assert forall|t: WasteType|
            count_for(st, t) + #[trigger] count_items_of_type(prefix, t) <= u64::MAX by {
            assert(count_items_of_type(items, t) == count_items_of_type(prefix, t)
                + if last.0 == t {
                1int
            } else {
                0int
            });
        }
        lemma_items_nonneg(prefix);
        lemma_batch_recorded_is_sequential(st, prefix);
        assert(count_items_of_type(items, last.0) == count_items_of_type(prefix, last.0) + 1);
        assert forall|t: WasteType| t != last.0 implies #[trigger] count_items_of_type(items, t)
            == count_items_of_type(prefix, t) by {
        }
        let lhs = recorded_all(st, items);
        let rhs = batch_recorded(st, items);
        assert(lhs.participant == rhs.participant);
        assert(lhs.total_submissions == rhs.total_submissions);
        assert(lhs.verified_submissions == rhs.verified_submissions);
        assert(lhs.total_weight == rhs.total_weight);
        assert(lhs.total_points == rhs.total_points);
        assert(count_for(lhs, WasteType::Paper) == count_for(rhs, WasteType::Paper));
        assert(count_for(lhs, WasteType::PetPlastic) == count_for(rhs, WasteType::PetPlastic));
        assert(count_for(lhs, WasteType::Plastic) == count_for(rhs, WasteType::Plastic));
        assert(count_for(lhs, WasteType::Metal) == count_for(rhs, WasteType::Metal));
        assert(count_for(lhs, WasteType::Glass) == count_for(rhs, WasteType::Glass));
        assert(lhs == rhs);
    }
}

/// One more item extends the batch sums by exactly that item.
pub proof fn lemma_items_take_step(items: Seq<(WasteType, u64, String)>, k: int)
    requires
        0 <= k < items.len(),
    ensures
        sum_weights(items.take(k + 1)) == sum_weights(items.take(k)) + items[k].1,
        forall|t: WasteType|
            #[trigger] count_items_of_type(items.take(k + 1), t) == count_items_of_type(
                items.take(k),
                t,
            ) + if items[k].0 == t {
                1int
            } else {
                0int
            },
{
    assert(items.take(k + 1).drop_last() =~= items.take(k));
    assert(items.take(k + 1).last() == items[k]);
}

/// A prefix of a batch never sums to more than the whole batch.
pub proof fn lemma_items_take_le(items: Seq<(WasteType, u64, String)>, k: int)
    requires
        0 <= k <= items.len(),
    ensures
        sum_weights(items.take(k)) <= sum_weights(items),
        forall|t: WasteType|
            #[trigger] count_items_of_type(items.take(k), t) <= count_items_of_type(items, t),
    decreases items.len() - k,
{
    if k == items.len() {
        assert(items.take(k) =~= items);
    } else {
        lemma_items_take_step(items, k);
        lemma_items_take_le(items, k + 1);
        assert forall|t: WasteType|
            #[trigger] count_items_of_type(items.take(k), t) <= count_items_of_type(items, t) by {
            assert(count_items_of_type(items.take(k + 1), t) <= count_items_of_type(items, t));
        }
    }
}

/// The identifiers a verification batch newly verifies: those that
/// resolve to a stored, not yet verified record, kept in order of first
/// occurrence.
pub open spec fn newly_verified_ids(ms: Seq<Material>, ids: Seq<u64>) -> Seq<u64>
    decreases ids.len(),
{
    if ids.len() == 0 {
        Seq::empty()
    } else {
        let prev = newly_verified_ids(ms, ids.drop_last());
        let id = ids.last();
        if 1 <= id <= ms.len() && !ms[id - 1].verified && !prev.contains(id) {
            prev.push(id)
        } else {
            prev
        }
    }
}

/// The identifiers of a verification batch that resolve to a stored
/// record, duplicates kept, in order.
pub open spec fn resolved_ids(ms: Seq<Material>, ids: Seq<u64>) -> Seq<u64>
    decreases ids.len(),
{
    if ids.len() == 0 {
        Seq::empty()
    } else {
        let prev = resolved_ids(ms, ids.drop_last());
        let id = ids.last();
        if 1 <= id <= ms.len() {
            prev.push(id)
        } else {
            prev
        }
    }
}

/// How many of the newly verified identifiers in `dnis` belong to
/// records submitted by `p`.
pub open spec fn delta_verified(ms: Seq<Material>, dnis: Seq<u64>, p: u64) -> int
    decreases dnis.len(),
{
    if dnis.len() == 0 {
        0
    } else {
        delta_verified(ms, dnis.drop_last(), p) + if ms[dnis.last() - 1].submitter == p {
            1int
        } else {
            0int
        }
    }
}

/// The reward points the newly verified identifiers in `dnis` grant to
/// submitter `p`.
pub open spec fn delta_points(ms: Seq<Material>, dnis: Seq<u64>, p: u64) -> int
    decreases dnis.len(),
{
    if dnis.len() == 0 {
        0
    } else {
        delta_points(ms, dnis.drop_last(), p) + if ms[dnis.last() - 1].submitter == p {
            reward_points(ms[dnis.last() - 1].weight, ms[dnis.last() - 1].waste_type)
        } else {
            0
        }
    }
}

/// Appending one identifier moves the deltas by exactly that record's
/// contribution.
pub proof fn lemma_delta_push(ms: Seq<Material>, dnis: Seq<u64>, id: u64, p: u64)
    ensures
        delta_verified(ms, dnis.push(id), p) == delta_verified(ms, dnis, p) + if ms[id
            - 1].submitter == p {
            1int
        } else {
            0int
        },
        delta_points(ms, dnis.push(id), p) == delta_points(ms, dnis, p) + if ms[id - 1].submitter
            == p {
            reward_points(ms[id - 1].weight, ms[id - 1].waste_type)
        } else {
            0
        },
{
    assert(dnis.push(id).drop_last() =~= dnis);
}

/// Every newly verified identifier resolves to an unverified record, and
/// none occurs twice.
pub proof fn lemma_newly_verified_props(ms: Seq<Material>, ids: Seq<u64>)
    ensures
        forall|j: int|
            0 <= j < newly_verified_ids(ms, ids).len() ==> {
                let id = #[trigger] newly_verified_ids(ms, ids)[j];
                &&& 1 <= id <= ms.len()
                &&& !ms[id - 1].verified
                &&& forall|j2: int|
                    0 <= j2 < newly_verified_ids(ms, ids).len() && j2 != j
                        ==> newly_verified_ids(ms, ids)[j2] != id
            },
    decreases ids.len(),
{
    if ids.len() > 0 {
        lemma_newly_verified_props(ms, ids.drop_last());
        let prev = newly_verified_ids(ms, ids.drop_last());
        let id = ids.last();
        if 1 <= id <= ms.len() && !ms[id - 1].verified && !prev.contains(id) {
            assert(forall|j: int| 0 <= j < prev.len() ==> prev.push(id)[j] == prev[j]);
        }
    }
}

/// Processing one more identifier extends the newly verified and
/// resolved lists as their recursions say.
pub proof fn lemma_ids_take_step(ms: Seq<Material>, ids: Seq<u64>, k: int)
    requires
        0 <= k < ids.len(),
    ensures
        newly_verified_ids(ms, ids.take(k + 1)) == {
            let prev = newly_verified_ids(ms, ids.take(k));
            if 1 <= ids[k] <= ms.len() && !ms[ids[k] - 1].verified && !prev.contains(ids[k]) {
                prev.push(ids[k])
            } else {
                prev
            }
        },
        resolved_ids(ms, ids.take(k + 1)) == {
            let prev = resolved_ids(ms, ids.take(k));
            if 1 <= ids[k] <= ms.len() {
                prev.push(ids[k])
            } else {
                prev
            }
        },
{
    assert(ids.take(k + 1).drop_last() =~= ids.take(k));
    assert(ids.take(k + 1).last() == ids[k]);
}

} // verus!
