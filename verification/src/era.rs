//! Transaction mortality: the `Era` a signed transaction carries, as Substrate's
//! transaction format defines a mortal era.
use vstd::prelude::*;

verus! {

/// `p` is a power of two.
pub open spec fn is_pow2(p: nat) -> bool
    decreases p,
{
    if p <= 1 {
        p == 1
    } else {
        p % 2 == 0 && is_pow2(p / 2)
    }
}

/// The first of `p, 2p, 4p, ...` that is at least `n`.
pub open spec fn next_pow2_from(n: nat, p: nat) -> nat
    decreases (if n > p { n - p } else { 0 }),
{
    if p == 0 || p >= n {
        p
    } else {
        next_pow2_from(n, 2 * p)
    }
}

/// The smallest power of two that is at least `n` (1 for 0).
pub open spec fn next_pow2(n: nat) -> nat {
    next_pow2_from(n, 1)
}

proof fn lemma_next_pow2_from(n: nat, p: nat)
    requires
        is_pow2(p),
    ensures
        is_pow2(next_pow2_from(n, p)),
        n <= next_pow2_from(n, p),
        p <= next_pow2_from(n, p),
        next_pow2_from(n, p) == p || next_pow2_from(n, p) < 2 * n,
    decreases (if n > p { n - p } else { 0 }),
{
    if p >= n {
    } else {
        assert(is_pow2(2 * p)) by {
            assert((2 * p) % 2 == 0);
            assert((2 * p) / 2 == p);
        }
        lemma_next_pow2_from(n, 2 * p);
    }
}

/// The smallest power of two at least `n` is a power of two, is at least `n`, and
/// its half is below `n` (unless it is 1).
pub proof fn lemma_next_pow2(n: nat)
    ensures
        is_pow2(next_pow2(n)),
        n <= next_pow2(n),
        next_pow2(n) == 1 || next_pow2(n) < 2 * n,
        next_pow2(n) >= 1,
{
    lemma_next_pow2_from(n, 1);
}

/// `u64::checked_next_power_of_two` from std: the smallest power of two at least
/// `n`, or `None` when that does not fit in a `u64`.
#[verifier::external_body]
pub(crate) fn checked_next_power_of_two_u64(n: u64) -> (r: Option<u64>)
    ensures
        r == (if next_pow2(n as nat) <= u64::MAX {
            Some(next_pow2(n as nat) as u64)
        } else {
            None::<u64>
        }),
{
    n.checked_next_power_of_two()
}

/// `u32::checked_next_power_of_two` from std: the smallest power of two at least
/// `n`, or `None` when that does not fit in a `u32`.
#[verifier::external_body]
pub(crate) fn checked_next_power_of_two_u32(n: u32) -> (r: Option<u32>)
    ensures
        r == (if next_pow2(n as nat) <= u32::MAX {
            Some(next_pow2(n as nat) as u32)
        } else {
            None::<u32>
        }),
{
    n.checked_next_power_of_two()
}

/// The lifetime of a transaction.
#[derive(PartialEq, Eq, Structural, Clone, Copy, Debug)]
pub enum Era {
    /// Valid forever.
    Immortal,
    /// Valid for `period` blocks from a block whose number is `phase` modulo `period`.
    Mortal(u64, u64),
}

/// The period `Era::mortal` settles on: the requested period rounded up to a
/// power of two, then held between 4 and 65536.
pub open spec fn mortal_period(period: nat) -> nat {
    let p = next_pow2(period);
    if p < 4 {
        4
    } else if p > 65536 {
        65536
    } else {
        p
    }
}

/// The granularity of the phase of a mortal era of period `p`.
pub open spec fn quantize_factor(p: nat) -> nat {
    if p / 4096 < 1 {
        1
    } else {
        p / 4096
    }
}

/// The era `Era::mortal(period, current)` builds.
pub open spec fn spec_mortal(period: u64, current: u64) -> Era {
    let p = mortal_period(period as nat);
    let f = quantize_factor(p);
    Era::Mortal(p as u64, ((current as nat % p) / f * f) as u64)
}

/// The first block in which a transaction of this era, seen at `current`, is valid.
pub open spec fn birth(era: Era, current: nat) -> nat {
    match era {
        Era::Immortal => 0,
        Era::Mortal(period, phase) => {
            let start = if current >= phase { current } else { phase as nat };
            ((start - phase) as nat / (period as nat)) * (period as nat) + (phase as nat)
        },
    }
}

/// The first block in which a transaction of this era, seen at `current`, is no
/// longer valid.
pub open spec fn death(era: Era, current: nat) -> nat {
    match era {
        Era::Immortal => u64::MAX as nat,
        Era::Mortal(period, _) => birth(era, current) + (period as nat),
    }
}

impl Era {
    /// An era of (about) `period` blocks starting at block `current`: the period
    /// is rounded up to a power of two between 4 and 65536, and the phase is
    /// `current` modulo the period, rounded down to a multiple of period / 4096.
    pub fn mortal(period: u64, current: u64) -> (e: Era)
        ensures
            e == spec_mortal(period, current),
    {
        let rounded = match checked_next_power_of_two_u64(period) {
            Some(p) => p,
            None => 65536,
        };
        proof {
            lemma_next_pow2(period as nat);
        }
        let at_least = if rounded < 4 {
            4
        } else {
            rounded
        };
        let p = if at_least > 65536 {
            65536
        } else {
            at_least
        };
        assert(p as nat == mortal_period(period as nat));
        let phase = current % p;
        let factor = if p / 4096 < 1 {
            1
        } else {
            p / 4096
        };
        assert(factor as nat == quantize_factor(p as nat));
        assert(factor <= 16);
        let steps = phase / factor;
        assert(steps <= phase) by (nonlinear_arith)
            requires
                steps == phase / factor,
                factor >= 1,
        ;
        assert(steps * factor <= phase) by (nonlinear_arith)
            requires
                steps == phase / factor,
                factor >= 1,
        ;
        Era::Mortal(p, steps * factor)
    }
}

/// A mortal era has a power-of-two period between 4 and 65536 and a phase below
/// its period.
pub proof fn lemma_mortal_shape(period: u64, current: u64)
    ensures
        spec_mortal(period, current) matches Era::Mortal(p, phase) && 4 <= p <= 65536 && is_pow2(
            p as nat,
        ) && phase < p,
{
    lemma_next_pow2(period as nat);
    let p = mortal_period(period as nat);
    assert(is_pow2(4)) by {
        assert(is_pow2(2)) by {
            assert(is_pow2(1));
        }
    }
    assert(is_pow2(65536)) by {
        reveal_with_fuel(is_pow2, 18);
    }
    let f = quantize_factor(p);
    let phase = current as nat % p;
    assert((phase / f) * f <= phase) by (nonlinear_arith)
        requires
            f >= 1,
    ;
}

/// A transaction given a mortal era at block `current` is valid at `current`: its
/// era began at `current` or fewer than period / 4096 (at least 1) blocks before,
/// and ends `period` blocks after it began.
pub proof fn lemma_mortal_covers_current(period: u64, current: u64)
    ensures
        spec_mortal(period, current) matches Era::Mortal(p, _) && {
            let e = spec_mortal(period, current);
            &&& birth(e, current as nat) <= current
            &&& current < birth(e, current as nat) + quantize_factor(p as nat)
            &&& death(e, current as nat) == birth(e, current as nat) + p
            &&& current < death(e, current as nat)
        },
{
    lemma_mortal_shape(period, current);
    let p = mortal_period(period as nat);
    let f = quantize_factor(p);
    let c = current as nat;
    let phase = c % p;
    let q = (phase / f) * f;
    assert(q <= phase && phase - q < f && phase <= c && phase < p) by (nonlinear_arith)
        requires
            f >= 1,
            p >= 4,
            phase == c % p,
            q == (phase / f) * f,
    ;
    assert(p <= 65536);
    let e = spec_mortal(period, current);
    assert(e == Era::Mortal(p as u64, q as u64));
    let d = (c - q) as nat;
    assert(d % p == phase - q && d / p * p + d % p == d) by (nonlinear_arith)
        requires
            p >= 4,
            phase == c % p,
            q <= phase,
            d == c - q,
    ;
    assert(birth(e, c) == d / p * p + q);
}

} // verus!
