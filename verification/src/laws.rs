//! The laws the accounting operations obey: the no-op strategy never leaves
//! the unit total, and for scalar strategies any sequence of adds followed by
//! the same multiset of subtracts returns the running total to where it began.

use vstd::prelude::*;

verus! {

use crate::meter::{Count, CountableMeter, Meter, Unit};
use crate::meter::{scalar_add, scalar_add_fits, scalar_size, scalar_sub, scalar_sub_covered};

/// The mathematical sum of a sequence of scalar weights.
pub open spec fn weight_sum(weights: Seq<usize>) -> int
    decreases weights.len(),
{
    if weights.len() == 0 {
        0
    } else {
        weights[0] + weight_sum(weights.drop_first())
    }
}

/// The running total after every weight in `weights` is added in turn.
pub open spec fn run_adds(total: usize, weights: Seq<usize>) -> usize
    decreases weights.len(),
{
    if weights.len() == 0 {
        total
    } else {
        run_adds(scalar_add(total, weights[0]), weights.drop_first())
    }
}

/// The running total after every weight in `weights` is subtracted in turn.
pub open spec fn run_subs(total: usize, weights: Seq<usize>) -> usize
    decreases weights.len(),
{
    if weights.len() == 0 {
        total
    } else {
        run_subs(scalar_sub(total, weights[0]), weights.drop_first())
    }
}

proof fn lemma_weight_sum_nonneg(weights: Seq<usize>)
    ensures
        weight_sum(weights) >= 0,
    decreases weights.len(),
{
    if weights.len() > 0 {
        lemma_weight_sum_nonneg(weights.drop_first());
    }
}

proof fn lemma_weight_sum_remove(weights: Seq<usize>, i: int)
    requires
        0 <= i < weights.len(),
    ensures
        weight_sum(weights) == weights[i] + weight_sum(weights.remove(i)),
    decreases weights.len(),
{
    if i == 0 {
        assert(weights.remove(0) =~= weights.drop_first());
    } else {
        lemma_weight_sum_remove(weights.drop_first(), i - 1);
        assert(weights.remove(i).drop_first() =~= weights.drop_first().remove(i - 1));
        assert(weights.remove(i)[0] == weights[0]);
    }
}

proof fn lemma_weight_sum_permutation(a: Seq<usize>, b: Seq<usize>)
    requires
        a.to_multiset() == b.to_multiset(),
    ensures
        weight_sum(a) == weight_sum(b),
    decreases a.len(),
{
    broadcast use vstd::seq_lib::group_to_multiset_ensures;

    if a.len() == 0 {
        assert(b.to_multiset().len() == 0);
    } else {
        let x = a[0];
        assert(a.contains(x));
        assert(b.to_multiset().count(x) > 0);
        assert(b.contains(x));
        let i = choose|i: int| 0 <= i < b.len() && b[i] == x;
        lemma_weight_sum_remove(b, i);
        assert(a.drop_first() =~= a.remove(0));
        assert(a.remove(0).to_multiset() =~= a.to_multiset().remove(x));
        assert(b.remove(i).to_multiset() =~= b.to_multiset().remove(x));
        lemma_weight_sum_permutation(a.drop_first(), b.remove(i));
    }
}

proof fn lemma_run_adds_total(total: usize, weights: Seq<usize>)
    requires
        total + weight_sum(weights) <= usize::MAX,
    ensures
        run_adds(total, weights) == total + weight_sum(weights),
    decreases weights.len(),
{
    if weights.len() > 0 {
        lemma_weight_sum_nonneg(weights.drop_first());
        lemma_run_adds_total(scalar_add(total, weights[0]), weights.drop_first());
    }
}

proof fn lemma_run_subs_total(total: usize, weights: Seq<usize>)
    requires
        weight_sum(weights) <= total,
    ensures
        run_subs(total, weights) == total - weight_sum(weights),
    decreases weights.len(),
{
    if weights.len() > 0 {
        lemma_weight_sum_nonneg(weights.drop_first());
        lemma_run_subs_total(scalar_sub(total, weights[0]), weights.drop_first());
    }
}

/// The accumulation operations that every meter with scalar measurements
/// receives are exactly the canonical scalar operations.
pub proof fn lemma_scalar_meter_ops<K, V, T: Meter<K, V, Measure = usize>>(
    m: &T,
    current: usize,
    amount: usize,
)
    ensures
        <T as CountableMeter<K, V>>::spec_add(m, current, amount) == scalar_add(current, amount),
        <T as CountableMeter<K, V>>::spec_sub(m, current, amount) == scalar_sub(current, amount),
        <T as CountableMeter<K, V>>::spec_size(m, current) == scalar_size(current),
        <T as CountableMeter<K, V>>::add_req(m, current, amount) == scalar_add_fits(
            current,
            amount,
        ),
        <T as CountableMeter<K, V>>::sub_req(m, current, amount) == scalar_sub_covered(
            current,
            amount,
        ),
{
}

/// For the no-op strategy: every add and subtract is permitted and leaves the
/// running total the unit value — the only value its type has — and the total
/// never renders as a standard size, so after any sequence of operations the
/// cache falls back to counting entries.
pub proof fn lemma_count_is_noop<K, V>(c: &Count, current: Unit, amount: Unit)
    ensures
        <Count as CountableMeter<K, V>>::add_req(c, current, amount),
        <Count as CountableMeter<K, V>>::sub_req(c, current, amount),
        <Count as CountableMeter<K, V>>::spec_add(c, current, amount) == Unit,
        <Count as CountableMeter<K, V>>::spec_sub(c, current, amount) == Unit,
        <Count as CountableMeter<K, V>>::spec_size(c, current) == None::<u64>,
{
}

/// For a scalar strategy: adding the weights of `adds` in turn and then
/// subtracting the same multiset of weights, in any order, brings the running
/// total back to where it began. The adds must stay within the scalar range,
/// as `add` demands of every call it permits.
pub proof fn lemma_scalar_sequence_round_trip(total: usize, adds: Seq<usize>, subs: Seq<usize>)
    requires
        adds.to_multiset() == subs.to_multiset(),
        total + weight_sum(adds) <= usize::MAX,
    ensures
        run_subs(run_adds(total, adds), subs) == total,
{
    lemma_weight_sum_permutation(adds, subs);
    lemma_weight_sum_nonneg(adds);
    lemma_run_adds_total(total, adds);
    lemma_run_subs_total(run_adds(total, adds), subs);
}

/// Round-trip: starting from the default scalar total (zero), adding one
/// weight and rendering the new total as a standard size reports exactly
/// that weight.
pub proof fn lemma_render_round_trip<K, V, T: Meter<K, V, Measure = usize>>(m: &T, w: usize)
    ensures
        <T as CountableMeter<K, V>>::add_req(m, 0usize, w),
        <T as CountableMeter<K, V>>::spec_size(
            m,
            <T as CountableMeter<K, V>>::spec_add(m, 0usize, w),
        ) == Some(w as u64),
{
}

/// Boundary: subtracting a weight exactly equal to the current total is
/// permitted, yields a total of zero, and the drained total renders as
/// `Some(0)`.
pub proof fn lemma_drain_to_zero<K, V, T: Meter<K, V, Measure = usize>>(m: &T, total: usize)
    ensures
        <T as CountableMeter<K, V>>::sub_req(m, total, total),
        <T as CountableMeter<K, V>>::spec_sub(m, total, total) == 0usize,
        <T as CountableMeter<K, V>>::spec_size(
            m,
            <T as CountableMeter<K, V>>::spec_sub(m, total, total),
        ) == Some(0u64),
{
}

} // verus!
