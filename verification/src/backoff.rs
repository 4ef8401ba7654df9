use vstd::prelude::*;
use vstd::arithmetic::power2::*;
use vstd::arithmetic::div_mod::*;
use vstd::arithmetic::mul::*;

verus! {

/// Scale of the jitter fraction.  A jitter value `j` taken from
/// `[0, JITTER_SCALE]` stands for the real factor `j / JITTER_SCALE`, so
/// `JITTER_SCALE` itself stands for a factor of exactly one.  The sampler in
/// `rng` draws from `[0, JITTER_SCALE)`, the half-open convention for full
/// jitter; the computation accepts the inclusive bound so that a caller can
/// ask for the window's maximum.
pub const JITTER_SCALE: u64 = 0x1_0000_0000;

/// The exponent ceiling used by the unbounded entry point: so large that the
/// saturated window arithmetic, not the ceiling, is what bounds the delay.
pub const UNBOUNDED_EXPONENT_MAX: u32 = 0x7fff_ffff;

/// The attempt count clamped to the configured exponent ceiling.
pub open spec fn clamped_exponent(attempts_so_far: nat, exponent_max: nat) -> nat {
    if attempts_so_far < exponent_max {
        attempts_so_far
    } else {
        exponent_max
    }
}

/// The full-jitter backoff window: `2^e - 1` slot times, where `e` is the
/// clamped attempt count, saturated at `u64::MAX` units.
pub open spec fn backoff_window(attempts_so_far: nat, exponent_max: nat) -> nat {
    let w = (pow2(clamped_exponent(attempts_so_far, exponent_max)) - 1) as nat;
    if w > u64::MAX {
        u64::MAX as nat
    } else {
        w
    }
}

/// The delay, in nanoseconds, for a given slot time, attempt count, exponent
/// ceiling and jitter fraction: the window is priced in slot times, saturated
/// at `u64::MAX` nanoseconds, and then scaled by `jitter / JITTER_SCALE`.
pub open spec fn delay_nanos(
    slot_nanos: nat,
    attempts_so_far: nat,
    exponent_max: nat,
    jitter: nat,
) -> nat {
    let scaled = slot_nanos * backoff_window(attempts_so_far, exponent_max);
    let capped = if scaled > u64::MAX {
        u64::MAX as nat
    } else {
        scaled
    };
    (capped * jitter) / (JITTER_SCALE as nat)
}

/// Computes the saturated window `backoff_window` in machine arithmetic.
fn window(attempts_so_far: u32, exponent_max: u32) -> (w: u64)
    ensures
        w as nat == backoff_window(attempts_so_far as nat, exponent_max as nat),
{
    let e_full: u32 = if attempts_so_far < exponent_max {
        attempts_so_far
    } else {
        exponent_max
    };
    let e: u32 = if e_full > 64 {
        64
    } else {
        e_full
    };
    proof {
        lemma2_to64();
    }
    let mut w: u64 = 0;
    let mut i: u32 = 0;
    while i < e
        invariant
            i <= e <= 64,
            w + 1 == pow2(i as nat),
        decreases e - i,
    {
        proof {
            lemma_pow2_unfold((i + 1) as nat);
            if i + 1 < 64 {
                lemma_pow2_strictly_increases((i + 1) as nat, 64);
            }
            lemma2_to64();
            lemma2_to64_rest();
        }
        w = w * 2 + 1;
        i = i + 1;
    }
    proof {
        lemma2_to64();
        lemma2_to64_rest();
        let ghost ce: nat = clamped_exponent(attempts_so_far as nat, exponent_max as nat);
        assert(ce == e_full as nat);
        if e_full > 64 {
            lemma_pow2_strictly_increases(64, e_full as nat);
        } else {
            assert(e == e_full);
            if (e as nat) < 64 {
                lemma_pow2_strictly_increases(e as nat, 64);
            }
        }
    }
    w
}

/// Computes the delay for one attempt, in nanoseconds, from the slot time,
/// the number of attempts made so far, an explicit exponent ceiling, and a
/// jitter fraction already drawn by the caller.  This is the truncated form
/// of the exponential backoff computation: the exponent never exceeds
/// `exponent_max`, so a ceiling of 10 allows at most 1023 slot times of
/// window.
pub fn wait_size_truncated(
    slot_nanos: u64,
    attempts_so_far: u32,
    exponent_max: u32,
    jitter: u64,
) -> (r: u64)
    requires
        jitter <= JITTER_SCALE,
    ensures
        r as nat == delay_nanos(
            slot_nanos as nat,
            attempts_so_far as nat,
            exponent_max as nat,
            jitter as nat,
        ),
{
    let w: u64 = window(attempts_so_far, exponent_max);
    proof {
        lemma_mul_upper_bound(slot_nanos as int, u64::MAX as int, w as int, u64::MAX as int);
    }
    let scaled: u128 = (slot_nanos as u128) * (w as u128);
    let capped: u64 = if scaled > u64::MAX as u128 {
        u64::MAX
    } else {
        scaled as u64
    };
    proof {
        lemma_mul_upper_bound(capped as int, u64::MAX as int, jitter as int, JITTER_SCALE as int);
    }
    let prod: u128 = (capped as u128) * (jitter as u128);
    let d: u128 = prod / (JITTER_SCALE as u128);
    proof {
        lemma_mul_inequality(jitter as int, JITTER_SCALE as int, capped as int);
        lemma_mul_is_commutative(capped as int, jitter as int);
        lemma_mul_is_commutative(capped as int, JITTER_SCALE as int);
        lemma_div_is_ordered(
            (capped as int) * (jitter as int),
            (capped as int) * (JITTER_SCALE as int),
            JITTER_SCALE as int,
        );
        lemma_div_multiples_vanish(capped as int, JITTER_SCALE as int);
    }
    d as u64
}

/// Computes the delay for one attempt without a caller-chosen ceiling: the
/// exponent is still clamped, at `UNBOUNDED_EXPONENT_MAX`, so for large
/// attempt counts the saturated window alone bounds the result.
pub fn wait_size(slot_nanos: u64, attempts_so_far: u32, jitter: u64) -> (r: u64)
    requires
        jitter <= JITTER_SCALE,
    ensures
        r as nat == delay_nanos(
            slot_nanos as nat,
            attempts_so_far as nat,
            UNBOUNDED_EXPONENT_MAX as nat,
            jitter as nat,
        ),
{
    wait_size_truncated(slot_nanos, attempts_so_far, UNBOUNDED_EXPONENT_MAX, jitter)
}

/// Computes the delay for one attempt with the jitter fraction drawn from
/// the thread's generator: the truncated computation for some jitter below
/// the scale, never exceeding the full-jitter delay.
pub fn wait_size_truncated_sampled(
    slot_nanos: u64,
    attempts_so_far: u32,
    exponent_max: u32,
    rng: &mut rand::rngs::ThreadRng,
) -> (r: u64)
    ensures
        exists|j: nat|
            j < JITTER_SCALE && r as nat == delay_nanos(
                slot_nanos as nat,
                attempts_so_far as nat,
                exponent_max as nat,
                j,
            ),
        r as nat <= delay_nanos(
            slot_nanos as nat,
            attempts_so_far as nat,
            exponent_max as nat,
            JITTER_SCALE as nat,
        ),
{
    let j: u64 = crate::rng::sample_jitter(rng);
    let r: u64 = wait_size_truncated(slot_nanos, attempts_so_far, exponent_max, j);
    proof {
        lemma_delay_monotone_in_jitter(
            slot_nanos as nat,
            attempts_so_far as nat,
            exponent_max as nat,
            j as nat,
            JITTER_SCALE as nat,
        );
        assert((j as nat) < JITTER_SCALE && r as nat == delay_nanos(
            slot_nanos as nat,
            attempts_so_far as nat,
            exponent_max as nat,
            j as nat,
        ));
    }
    r
}

/// The sampled delay without a caller-chosen ceiling, as `wait_size`.
pub fn wait_size_sampled(
    slot_nanos: u64,
    attempts_so_far: u32,
    rng: &mut rand::rngs::ThreadRng,
) -> (r: u64)
    ensures
        exists|j: nat|
            j < JITTER_SCALE && r as nat == delay_nanos(
                slot_nanos as nat,
                attempts_so_far as nat,
                UNBOUNDED_EXPONENT_MAX as nat,
                j,
            ),
        r as nat <= delay_nanos(
            slot_nanos as nat,
            attempts_so_far as nat,
            UNBOUNDED_EXPONENT_MAX as nat,
            JITTER_SCALE as nat,
        ),
{
    wait_size_truncated_sampled(slot_nanos, attempts_so_far, UNBOUNDED_EXPONENT_MAX, rng)
}

/// At zero completed attempts the delay is exactly zero, whatever jitter was
/// drawn: the window `2^0 - 1` is empty.
pub proof fn lemma_delay_zero_at_first_attempt(slot_nanos: nat, exponent_max: nat, jitter: nat)
    ensures
        delay_nanos(slot_nanos, 0, exponent_max, jitter) == 0,
{
    lemma2_to64();
    assert(backoff_window(0, exponent_max) == 0);
    lemma_mul_basics(slot_nanos as int);
    lemma_mul_basics(jitter as int);
    lemma_div_of0(JITTER_SCALE as int);
}

/// With the jitter fraction pinned at one, the delay is exactly `2^n - 1`
/// slot times, for attempt counts within the ceiling and products within
/// range.
pub proof fn lemma_delay_full_jitter(slot_nanos: nat, attempts_so_far: nat, exponent_max: nat)
    requires
        attempts_so_far <= exponent_max,
        pow2(attempts_so_far) - 1 <= u64::MAX,
        slot_nanos * (pow2(attempts_so_far) - 1) <= u64::MAX,
    ensures
        delay_nanos(slot_nanos, attempts_so_far, exponent_max, JITTER_SCALE as nat) == slot_nanos
            * ((pow2(attempts_so_far) - 1) as nat),
{
    lemma_pow2_pos(attempts_so_far);
    let w = (pow2(attempts_so_far) - 1) as nat;
    assert(backoff_window(attempts_so_far, exponent_max) == w);
    let scaled = slot_nanos * w;
    lemma_mul_is_commutative(scaled as int, JITTER_SCALE as int);
    lemma_div_multiples_vanish(scaled as int, JITTER_SCALE as int);
}

/// The delay never decreases when the attempt count grows, for a fixed slot
/// time, ceiling and jitter fraction.
pub proof fn lemma_delay_monotone(
    slot_nanos: nat,
    a1: nat,
    a2: nat,
    exponent_max: nat,
    jitter: nat,
)
    requires
        a1 <= a2,
    ensures
        delay_nanos(slot_nanos, a1, exponent_max, jitter) <= delay_nanos(
            slot_nanos,
            a2,
            exponent_max,
            jitter,
        ),
{
    let e1 = clamped_exponent(a1, exponent_max);
    let e2 = clamped_exponent(a2, exponent_max);
    if e1 < e2 {
        lemma_pow2_strictly_increases(e1, e2);
    }
    lemma_pow2_pos(e1);
    lemma_pow2_pos(e2);
    let w1 = backoff_window(a1, exponent_max);
    let w2 = backoff_window(a2, exponent_max);
    assert(w1 <= w2);
    lemma_mul_inequality(w1 as int, w2 as int, slot_nanos as int);
    lemma_mul_is_commutative(slot_nanos as int, w1 as int);
    lemma_mul_is_commutative(slot_nanos as int, w2 as int);
    let c1 = if slot_nanos * w1 > u64::MAX {
        u64::MAX as nat
    } else {
        slot_nanos * w1
    };
    let c2 = if slot_nanos * w2 > u64::MAX {
        u64::MAX as nat
    } else {
        slot_nanos * w2
    };
    assert(c1 <= c2);
    lemma_mul_inequality(c1 as int, c2 as int, jitter as int);
    lemma_mul_is_commutative(c1 as int, jitter as int);
    lemma_mul_is_commutative(c2 as int, jitter as int);
    lemma_div_is_ordered(
        (c1 * jitter) as int,
        (c2 * jitter) as int,
        JITTER_SCALE as int,
    );
}

/// Truncation holds: any two attempt counts at or above the ceiling yield
/// the same delay, because both clamp to the ceiling itself.
pub proof fn lemma_delay_truncated(
    slot_nanos: nat,
    a1: nat,
    a2: nat,
    exponent_max: nat,
    jitter: nat,
)
    requires
        a1 >= exponent_max,
        a2 >= exponent_max,
    ensures
        delay_nanos(slot_nanos, a1, exponent_max, jitter) == delay_nanos(
            slot_nanos,
            a2,
            exponent_max,
            jitter,
        ),
{
    assert(clamped_exponent(a1, exponent_max) == clamped_exponent(a2, exponent_max));
}

/// A larger jitter fraction never yields a smaller delay, all else fixed.
pub proof fn lemma_delay_monotone_in_jitter(
    slot_nanos: nat,
    attempts_so_far: nat,
    exponent_max: nat,
    j1: nat,
    j2: nat,
)
    requires
        j1 <= j2,
    ensures
        delay_nanos(slot_nanos, attempts_so_far, exponent_max, j1) <= delay_nanos(
            slot_nanos,
            attempts_so_far,
            exponent_max,
            j2,
        ),
{
    let scaled = slot_nanos * backoff_window(attempts_so_far, exponent_max);
    let capped = if scaled > u64::MAX {
        u64::MAX as nat
    } else {
        scaled
    };
    lemma_mul_inequality(j1 as int, j2 as int, capped as int);
    lemma_mul_is_commutative(capped as int, j1 as int);
    lemma_mul_is_commutative(capped as int, j2 as int);
    lemma_div_is_ordered((capped * j1) as int, (capped * j2) as int, JITTER_SCALE as int);
}

} // verus!
