use vstd::prelude::*;
use vstd::arithmetic::div_mod::*;
use vstd::arithmetic::mul::*;
use crate::SlotTime;

verus! {

/// The estimator's transition: a user-specified slot time is returned
/// unchanged; an auto-generated one is folded into the cumulative running
/// average `(prev * (n - 1) + elapsed) / n`, where `n` counts the completed
/// attempts including the one just measured; an absent slot time is seeded
/// with the first observed latency.  Division is floor division at
/// nanosecond granularity.
pub open spec fn updated_slot(
    current: Option<SlotTime>,
    attempt_index: u32,
    elapsed_nanos: u64,
) -> SlotTime
    recommends
        1 <= attempt_index,
{
    match current {
        Some(SlotTime::UserSpecified(d)) => SlotTime::UserSpecified(d),
        Some(SlotTime::AutoGenerated(prev)) => SlotTime::AutoGenerated(
            ((prev * (attempt_index - 1) + elapsed_nanos) / (attempt_index as int)) as u64,
        ),
        None => SlotTime::AutoGenerated(elapsed_nanos),
    }
}

/// Folds one observed latency into the slot-time estimate.
pub fn update(current: Option<SlotTime>, attempt_index: u32, elapsed_nanos: u64) -> (r: SlotTime)
    requires
        1 <= attempt_index,
    ensures
        r == updated_slot(current, attempt_index, elapsed_nanos),
{
    match current {
        Some(SlotTime::UserSpecified(d)) => SlotTime::UserSpecified(d),
        Some(SlotTime::AutoGenerated(prev)) => {
            let n: u64 = attempt_index as u64;
            proof {
                lemma_mul_upper_bound(
                    prev as int,
                    u64::MAX as int,
                    (n - 1) as int,
                    u32::MAX as int,
                );
            }
            let total: u128 = (prev as u128) * ((n - 1) as u128) + (elapsed_nanos as u128);
            let avg: u128 = total / (n as u128);
            proof {
                lemma_mul_inequality(prev as int, u64::MAX as int, (n - 1) as int);
                lemma_mul_is_distributive_add(u64::MAX as int, (n - 1) as int, 1int);
                lemma_mul_basics(u64::MAX as int);
                assert(total <= (u64::MAX as int) * (n as int));
                lemma_div_is_ordered(total as int, (u64::MAX as int) * (n as int), n as int);
                lemma_mul_is_commutative(u64::MAX as int, n as int);
                lemma_div_multiples_vanish(u64::MAX as int, n as int);
            }
            SlotTime::AutoGenerated(avg as u64)
        },
        None => SlotTime::AutoGenerated(elapsed_nanos),
    }
}

/// The slot time left after a whole sequence of updates, each sample given
/// as its attempt index paired with its observed latency.
pub open spec fn slot_after_updates(
    current: Option<SlotTime>,
    samples: Seq<(u32, u64)>,
) -> Option<SlotTime>
    decreases samples.len(),
{
    if samples.len() == 0 {
        current
    } else {
        slot_after_updates(
            Some(updated_slot(current, samples[0].0, samples[0].1)),
            samples.drop_first(),
        )
    }
}

/// A user-specified slot time is never altered: whatever sequence of
/// latencies the estimator observes, the configured value survives every
/// update untouched.
pub proof fn lemma_user_specified_never_altered(d: u64, samples: Seq<(u32, u64)>)
    ensures
        slot_after_updates(Some(SlotTime::UserSpecified(d)), samples) == Some(
            SlotTime::UserSpecified(d),
        ),
    decreases samples.len(),
{
    if samples.len() > 0 {
        lemma_user_specified_never_altered(d, samples.drop_first());
    }
}

/// Given elapsed samples `e1, e2, e3`, the auto-generated estimates are the
/// running arithmetic means after each update: `e1`, `(e1 + e2) / 2`, and
/// `(e1 + e2 + e3) / 3`.  The sums are required to divide evenly because the
/// estimator works in whole nanoseconds and floors each division; on other
/// inputs the intermediate flooring can shift the later estimates by a
/// nanosecond.
pub proof fn lemma_estimates_are_running_means(e1: u64, e2: u64, e3: u64)
    requires
        (e1 + e2) % 2 == 0,
        (e1 + e2 + e3) % 3 == 0,
    ensures
        ({
            let s1 = updated_slot(None, 1, e1);
            let s2 = updated_slot(Some(s1), 2, e2);
            let s3 = updated_slot(Some(s2), 3, e3);
            &&& s1 == SlotTime::AutoGenerated(e1)
            &&& s2 == SlotTime::AutoGenerated(((e1 + e2) / 2) as u64)
            &&& s3 == SlotTime::AutoGenerated(((e1 + e2 + e3) / 3) as u64)
        }),
{
    let v2: int = (e1 + e2) / 2;
    lemma_fundamental_div_mod(e1 + e2, 2);
    assert(v2 * 2 == e1 + e2);
    lemma_mul_basics(e1 as int);
}

} // verus!
