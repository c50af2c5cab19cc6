//! IEEE 754 binary64 numbers, held by their bit patterns.
//!
//! Verified code neither computes with floating-point numbers nor names their
//! types. Every real-valued quantity of the configuration is therefore kept as
//! the 64 bits of its binary64 encoding, exactly as `to_bits` gives them. What
//! the library needs of such a number (its sign, its order against another
//! number, the whole cycles of a rate in a span of time, the time that a
//! number of cycles takes) is read off the bits with integer arithmetic, and
//! is stated here over the number that the bits encode:
//! `significand * 2^exponent`, a fraction of two whole numbers. Products are
//! taken exactly and rounded once, at the end.
use vstd::arithmetic::div_mod::*;
use vstd::arithmetic::power2::*;
use vstd::prelude::*;

verus! {

/// The bit that holds the sign.
pub const SIGN_BIT: u64 = 0x8000_0000_0000_0000;

/// The encoding of positive infinity; every larger magnitude is a NaN.
pub const INFINITY: u64 = 0x7FF0_0000_0000_0000;

/// The encoding of positive zero.
pub const ZERO: u64 = 0;

/// The encoding of one.
pub const ONE: u64 = 0x3FF0_0000_0000_0000;

/// The encoding of one hundred.
pub const ONE_HUNDRED: u64 = 0x4059_0000_0000_0000;

/// Two to the 52nd power: the weight of the lowest exponent bit, and the
/// implicit leading bit of a normal number's significand.
pub const HIDDEN_BIT: u64 = 0x10_0000_0000_0000;

/// The encoding without its sign bit.
pub open spec fn magnitude(bits: u64) -> u64 {
    if bits >= SIGN_BIT {
        (bits - SIGN_BIT) as u64
    } else {
        bits
    }
}

/// The encoding is not a number.
pub open spec fn is_nan(bits: u64) -> bool {
    magnitude(bits) > INFINITY
}

/// The encoding is a number greater than zero and less than infinity.
pub open spec fn is_positive_finite(bits: u64) -> bool {
    0 < bits < INFINITY
}

/// The place of a number in the order of the reals: encodings of non-negative
/// numbers grow with the number, those of negative numbers grow with its
/// distance from zero, and both zeros stand at 0.
pub open spec fn rank(bits: u64) -> int {
    if bits >= SIGN_BIT {
        -(magnitude(bits) as int)
    } else {
        bits as int
    }
}

/// `a < b` as IEEE 754 defines it: false when either side is a NaN.
pub open spec fn less_than(a: u64, b: u64) -> bool {
    !is_nan(a) && !is_nan(b) && rank(a) < rank(b)
}

/// The number lies in the closed interval from zero to one.
pub open spec fn is_probability(bits: u64) -> bool {
    !is_nan(bits) && 0 <= rank(bits) <= ONE
}

/// The exponent field of the encoding.
pub open spec fn biased_exponent(bits: u64) -> nat {
    (magnitude(bits) / HIDDEN_BIT) as nat
}

/// The integer `m` with `|x| = m * 2^exponent(bits)` for a finite `x`.
pub open spec fn significand(bits: u64) -> nat {
    if biased_exponent(bits) == 0 {
        (magnitude(bits) % HIDDEN_BIT) as nat
    } else {
        (magnitude(bits) % HIDDEN_BIT + HIDDEN_BIT) as nat
    }
}

/// The power of two that scales the significand of a finite number.
pub open spec fn exponent(bits: u64) -> int {
    if biased_exponent(bits) == 0 {
        -1074
    } else {
        biased_exponent(bits) - 1075
    }
}

/// Nanoseconds in one second.
pub const NANOS_PER_SECOND: u64 = 1_000_000_000;

/// With `denominator`, the positive finite number `x` that `bits` encodes as
/// a fraction of two whole numbers: `x = numerator / denominator`.
pub open spec fn numerator(bits: u64) -> nat {
    if exponent(bits) >= 0 {
        significand(bits) * pow2(exponent(bits) as nat)
    } else {
        significand(bits)
    }
}

/// The denominator of the fraction that `numerator` begins: a power of two.
pub open spec fn denominator(bits: u64) -> nat {
    if exponent(bits) >= 0 {
        1
    } else {
        pow2((-exponent(bits)) as nat)
    }
}

/// `floor(x * n)` for the positive finite number `x` that `bits` encodes.
pub open spec fn whole_product(bits: u64, n: nat) -> int
    recommends
        is_positive_finite(bits),
{
    ((numerator(bits) * n) as int) / (denominator(bits) as int)
}

/// `floor(elapsed * x / 10^9)` for the positive finite number `x` that `rate`
/// encodes: the whole cycles of a rate of `x` hertz that fit in `elapsed`
/// nanoseconds. The product is taken exactly before it is divided.
pub open spec fn whole_cycles(rate: u64, elapsed: nat) -> int
    recommends
        is_positive_finite(rate),
{
    ((elapsed * numerator(rate)) as int) / ((NANOS_PER_SECOND * denominator(rate)) as int)
}

/// The whole cycles of a rate that fit in `elapsed` nanoseconds, as a 64-bit
/// count.
///
/// For a positive finite rate this is `whole_cycles`, or `u64::MAX` where
/// that does not fit. At a rate of positive zero no cycle ever completes;
/// a negative rate, an infinity or a NaN sets no pace, and the count is
/// `u64::MAX` at once.
pub open spec fn cycles_elapsed(rate: u64, elapsed: u64) -> u64 {
    if rate == ZERO {
        0
    } else if is_positive_finite(rate) {
        if whole_cycles(rate, elapsed as nat) > u64::MAX {
            u64::MAX
        } else {
            whole_cycles(rate, elapsed as nat) as u64
        }
    } else {
        u64::MAX
    }
}

/// `floor(count * 1000 / x)` for the positive finite number `x` that `rate`
/// encodes: the whole milliseconds that `count` cycles of a rate of `x` hertz
/// take. The product is taken exactly before it is divided.
pub open spec fn whole_millis(rate: u64, count: nat) -> int
    recommends
        is_positive_finite(rate),
{
    ((count * 1000 * denominator(rate)) as int) / (numerator(rate) as int)
}

/// The whole milliseconds that `count` cycles of a rate take, as a 64-bit
/// count: `whole_millis` for a positive finite rate, `None` where that does
/// not fit, and no time at all for a rate that is no positive finite number.
pub open spec fn millis_of_cycles(rate: u64, count: u64) -> Option<u64> {
    if is_positive_finite(rate) {
        if whole_millis(rate, count as nat) > u64::MAX {
            None
        } else {
            Some(whole_millis(rate, count as nat) as u64)
        }
    } else {
        Some(0u64)
    }
}

/// Tells whether the encoding is a NaN.
pub fn nan(bits: u64) -> (r: bool)
    ensures
        r == is_nan(bits),
{
    let m: u64 = if bits >= SIGN_BIT {
        bits - SIGN_BIT
    } else {
        bits
    };
    m > INFINITY
}

/// Tells whether `a < b` holds of the two numbers.
pub fn lt(a: u64, b: u64) -> (r: bool)
    ensures
        r == less_than(a, b),
{
    if nan(a) || nan(b) {
        return false;
    }
    if a >= SIGN_BIT {
        if b >= SIGN_BIT {
            a > b
        } else {
            a > SIGN_BIT || b > 0
        }
    } else {
        b < SIGN_BIT && a < b
    }
}

/// Tells whether the number is greater than zero and finite.
pub fn positive_finite(bits: u64) -> (r: bool)
    ensures
        r == is_positive_finite(bits),
{
    0 < bits && bits < INFINITY
}

/// Tells whether the number lies between zero and one, both included.
pub fn probability(bits: u64) -> (r: bool)
    ensures
        r == is_probability(bits),
{
    bits <= ONE || bits == SIGN_BIT
}

/// The powers of two that bound the operands of the divisions below.
proof fn lemma_pow2_values()
    ensures
        pow2(22) == 0x40_0000,
        pow2(42) == 0x400_0000_0000,
        pow2(52) == 0x10_0000_0000_0000,
        pow2(53) == 0x20_0000_0000_0000,
        pow2(64) == 0x1_0000_0000_0000_0000,
        pow2(107) == 0x800_0000_0000_0000_0000_0000_0000,
        pow2(117) == 0x20_0000_0000_0000_0000_0000_0000_0000,
        pow2(126) == 0x4000_0000_0000_0000_0000_0000_0000_0000,
{
    lemma2_to64();
    lemma2_to64_rest();
    lemma_pow2_adds(64, 43);
    lemma_pow2_adds(64, 53);
    lemma_pow2_adds(64, 62);
}

/// Two to the power `k`, as far as it fits.
fn power_of_two(k: u64) -> (p: u128)
    requires
        k <= 126,
    ensures
        p == pow2(k as nat),
{
    let mut p: u128 = 1;
    let mut i: u64 = 0;
    proof {
        lemma2_to64();
    }
    while i < k
        invariant
            i <= k <= 126,
            p == pow2(i as nat),
        decreases k - i,
    {
        proof {
            lemma_pow2_unfold((i + 1) as nat);
            lemma_pow2_values();
            if i + 1 < 126 {
                lemma_pow2_strictly_increases((i + 1) as nat, 126);
            }
        }
        p = p * 2;
        i = i + 1;
    }
    p
}

/// A quotient whose dividend is at least `bound` times its divisor is at
/// least `bound`.
proof fn lemma_quotient_at_least(dividend: int, divisor: int, bound: int)
    requires
        divisor > 0,
        dividend >= bound * divisor,
    ensures
        dividend / divisor >= bound,
{
    assert(bound * divisor == divisor * bound) by (nonlinear_arith);
    lemma_div_is_ordered(divisor * bound, dividend, divisor);
    lemma_div_multiples_vanish(bound, divisor);
}

/// The whole cycles of a rate that fit in `elapsed` nanoseconds.
pub fn cycles(rate: u64, elapsed: u64) -> (count: u64)
    ensures
        count == cycles_elapsed(rate, elapsed),
{
    if rate == ZERO {
        return 0;
    }
    if rate >= INFINITY {
        return u64::MAX;
    }
    let biased: u64 = rate / HIDDEN_BIT;
    let fraction: u64 = rate % HIDDEN_BIT;
    let s: u64 = if biased == 0 {
        fraction
    } else {
        fraction + HIDDEN_BIT
    };
    proof {
        lemma_pow2_values();
    }
    assert(elapsed * s < 0x20_0000_0000_0000_0000_0000_0000_0000 && elapsed * s >= 0)
        by (nonlinear_arith)
        requires
            0 <= elapsed < 0x1_0000_0000_0000_0000,
            0 <= s < 0x20_0000_0000_0000,
    ;
    let product: u128 = (elapsed as u128) * (s as u128);
    if biased >= 1075 {
        let e: u64 = biased - 1075;
        let ghost num = numerator(rate) as int;
        proof {
            lemma_pow2_pos(e as nat);
            assert(elapsed * num == product * pow2(e as nat)) by (nonlinear_arith)
                requires
                    num == s * pow2(e as nat),
                    product == elapsed * s,
            ;
        }
        if elapsed == 0 {
            assert(product * pow2(e as nat) == 0) by (nonlinear_arith)
                requires
                    product == elapsed * s,
                    elapsed == 0,
            ;
            return 0;
        }
        assert(product >= 0x10_0000_0000_0000) by (nonlinear_arith)
            requires
                product == elapsed * s,
                elapsed >= 1,
                s >= 0x10_0000_0000_0000,
        ;
        if e >= 42 {
            proof {
                if e > 42 {
                    lemma_pow2_strictly_increases(42, e as nat);
                }
                assert(product * pow2(e as nat) >= 0x1_0000_0000_0000_0000 * 1_000_000_000)
                    by (nonlinear_arith)
                    requires
                        product >= 0x10_0000_0000_0000,
                        pow2(e as nat) >= 0x400_0000_0000,
                ;
                lemma_quotient_at_least(
                    product * pow2(e as nat),
                    1_000_000_000,
                    0x1_0000_0000_0000_0000,
                );
            }
            return u64::MAX;
        }
        let scale: u128 = power_of_two(e);
        match product.checked_mul(scale) {
            Some(scaled) => {
                let quotient: u128 = scaled / (NANOS_PER_SECOND as u128);
                if quotient > u64::MAX as u128 {
                    u64::MAX
                } else {
                    quotient as u64
                }
            },
            None => {
                proof {
                    lemma_quotient_at_least(
                        product * pow2(e as nat),
                        1_000_000_000,
                        0x1_0000_0000_0000_0000,
                    );
                }
                u64::MAX
            },
        }
    } else {
        let k: u64 = if biased == 0 {
            1074
        } else {
            1075 - biased
        };
        let ghost den = pow2(k as nat) as int;
        proof {
            lemma_pow2_pos(k as nat);
        }
        if k >= 117 {
            proof {
                if k > 117 {
                    lemma_pow2_strictly_increases(117, k as nat);
                }
                assert(product < 1_000_000_000 * den) by (nonlinear_arith)
                    requires
                        product < 0x20_0000_0000_0000_0000_0000_0000_0000,
                        den >= 0x20_0000_0000_0000_0000_0000_0000_0000,
                ;
                lemma_basic_div(product as int, 1_000_000_000 * den);
            }
            return 0;
        }
        let scale: u128 = power_of_two(k);
        let quotient: u128 = (product / scale) / (NANOS_PER_SECOND as u128);
        proof {
            lemma_div_denominator(product as int, den, 1_000_000_000);
            assert(den * 1_000_000_000 == 1_000_000_000 * den) by (nonlinear_arith);
        }
        if quotient > u64::MAX as u128 {
            u64::MAX
        } else {
            quotient as u64
        }
    }
}

/// The whole milliseconds that `count` cycles of a rate take, or `None`
/// where they do not fit in 64 bits.
pub fn millis_for(rate: u64, count: u64) -> (millis: Option<u64>)
    ensures
        millis == millis_of_cycles(rate, count),
{
    if rate == ZERO || rate >= INFINITY {
        return Some(0);
    }
    let biased: u64 = rate / HIDDEN_BIT;
    let fraction: u64 = rate % HIDDEN_BIT;
    let s: u64 = if biased == 0 {
        fraction
    } else {
        fraction + HIDDEN_BIT
    };
    proof {
        lemma_pow2_values();
    }
    let thousands: u128 = (count as u128) * 1000;
    if biased >= 1075 {
        let e: u64 = biased - 1075;
        proof {
            lemma_pow2_pos(e as nat);
            assert(count * 1000 * 1 == thousands);
        }
        if e >= 22 {
            proof {
                if e > 22 {
                    lemma_pow2_strictly_increases(22, e as nat);
                }
                assert(thousands < s * pow2(e as nat)) by (nonlinear_arith)
                    requires
                        thousands < 0x400_0000_0000_0000_0000,
                        s >= 0x10_0000_0000_0000,
                        pow2(e as nat) >= 0x40_0000,
                ;
                lemma_basic_div(thousands as int, (s * pow2(e as nat)) as int);
            }
            return Some(0);
        }
        let scale: u128 = power_of_two(e);
        proof {
            if e < 22 {
                lemma_pow2_strictly_increases(e as nat, 22);
            }
            assert(s * scale < 0x20_0000_0000_0000 * 0x40_0000 && s * scale > 0)
                by (nonlinear_arith)
                requires
                    0 < s < 0x20_0000_0000_0000,
                    0 < scale < 0x40_0000,
            ;
        }
        let divisor: u128 = (s as u128) * scale;
        let quotient: u128 = thousands / divisor;
        if quotient > u64::MAX as u128 {
            None
        } else {
            Some(quotient as u64)
        }
    } else {
        let k: u64 = if biased == 0 {
            1074
        } else {
            1075 - biased
        };
        let ghost den = pow2(k as nat) as int;
        proof {
            lemma_pow2_pos(k as nat);
        }
        if count == 0 {
            proof {
                assert(count * 1000 * den == 0) by (nonlinear_arith)
                    requires
                        count == 0,
                ;
            }
            return Some(0);
        }
        if k >= 117 {
            proof {
                if k > 117 {
                    lemma_pow2_strictly_increases(117, k as nat);
                }
                assert(thousands * den >= 0x1_0000_0000_0000_0000 * (s as int))
                    by (nonlinear_arith)
                    requires
                        thousands >= 1000,
                        den >= 0x20_0000_0000_0000_0000_0000_0000_0000,
                        0 < s < 0x20_0000_0000_0000,
                ;
                lemma_quotient_at_least(thousands * den, s as int, 0x1_0000_0000_0000_0000);
            }
            return None;
        }
        let scale: u128 = power_of_two(k);
        match thousands.checked_mul(scale) {
            Some(scaled) => {
                let quotient: u128 = scaled / (s as u128);
                if quotient > u64::MAX as u128 {
                    None
                } else {
                    Some(quotient as u64)
                }
            },
            None => {
                proof {
                    assert(thousands * den >= 0x1_0000_0000_0000_0000 * (s as int))
                        by (nonlinear_arith)
                        requires
                            thousands * den > 0xFFFF_FFFF_FFFF_FFFF_FFFF_FFFF_FFFF_FFFF,
                            0 < s < 0x20_0000_0000_0000,
                    ;
                    lemma_quotient_at_least(thousands * den, s as int, 0x1_0000_0000_0000_0000);
                }
                None
            },
        }
    }
}

/// A positive finite number is a fraction of two positive whole numbers.
pub proof fn lemma_fraction_positive(bits: u64)
    requires
        is_positive_finite(bits),
    ensures
        numerator(bits) > 0,
        denominator(bits) > 0,
{
    if exponent(bits) >= 0 {
        lemma_pow2_pos(exponent(bits) as nat);
        assert(significand(bits) * pow2(exponent(bits) as nat) > 0) by (nonlinear_arith)
            requires
                significand(bits) > 0,
                pow2(exponent(bits) as nat) > 0,
        ;
    } else {
        lemma_pow2_pos((-exponent(bits)) as nat);
    }
}

/// More cycles take more time: the whole milliseconds of `fewer` cycles are
/// no more than those of `more`.
pub proof fn lemma_whole_millis_rises(rate: u64, fewer: nat, more: nat)
    requires
        is_positive_finite(rate),
        fewer <= more,
    ensures
        0 <= whole_millis(rate, fewer) <= whole_millis(rate, more),
{
    lemma_fraction_positive(rate);
    let den = denominator(rate) as int;
    let num = numerator(rate) as int;
    assert(0 <= fewer * 1000 * den <= more * 1000 * den) by (nonlinear_arith)
        requires
            0 <= fewer <= more,
            den > 0,
    ;
    lemma_div_is_ordered(fewer * 1000 * den, more * 1000 * den, num);
    lemma_div_is_ordered(0, fewer * 1000 * den, num);
}

/// How the whole cycles of a rate grow with time: none have passed at time
/// zero, and one nanosecond more never takes a cycle back. Where the rate is
/// no more than a cycle in a nanosecond, a nanosecond completes at most one
/// cycle, and the cycles in a time never outnumber its nanoseconds; where the
/// rate is no less, the cycles are never fewer than the nanoseconds.
pub proof fn lemma_whole_cycles_step(rate: u64, elapsed: nat)
    requires
        is_positive_finite(rate),
    ensures
        whole_cycles(rate, 0) == 0,
        0 <= whole_cycles(rate, elapsed) <= whole_cycles(rate, elapsed + 1),
        numerator(rate) <= NANOS_PER_SECOND * denominator(rate) ==> {
            &&& whole_cycles(rate, elapsed + 1) <= whole_cycles(rate, elapsed) + 1
            &&& whole_cycles(rate, elapsed) <= elapsed
        },
        numerator(rate) >= NANOS_PER_SECOND * denominator(rate) ==> whole_cycles(rate, elapsed)
            >= elapsed,
{
    lemma_fraction_positive(rate);
    let num = numerator(rate) as int;
    let unit = (NANOS_PER_SECOND * denominator(rate)) as int;
    let before = elapsed * num;
    let after = (elapsed + 1) * num;
    assert(unit > 0) by (nonlinear_arith)
        requires
            unit == 1_000_000_000 * denominator(rate),
            denominator(rate) > 0,
    ;
    lemma_div_basics(unit);
    assert(0 <= before && after == before + num) by (nonlinear_arith)
        requires
            before == elapsed * num,
            after == (elapsed + 1) * num,
            num > 0,
            elapsed >= 0,
    ;
    lemma_div_pos_is_pos(before, unit);
    lemma_div_is_ordered(before, after, unit);
    if num <= unit {
        lemma_div_is_ordered(after, before + unit, unit);
        lemma_div_plus_one(before, unit);
        assert(before <= elapsed * unit) by (nonlinear_arith)
            requires
                before == elapsed * num,
                num <= unit,
                elapsed >= 0,
        ;
        lemma_div_is_ordered(before, elapsed * unit, unit);
        assert(elapsed * unit == unit * elapsed) by (nonlinear_arith);
        lemma_div_multiples_vanish(elapsed as int, unit);
    }
    if num >= unit {
        assert(before >= elapsed * unit) by (nonlinear_arith)
            requires
                before == elapsed * num,
                num >= unit,
                elapsed >= 0,
        ;
        lemma_div_is_ordered(elapsed * unit, before, unit);
        assert(elapsed * unit == unit * elapsed) by (nonlinear_arith);
        lemma_div_multiples_vanish(elapsed as int, unit);
    }
}

/// The whole cycles of a rate in whole seconds are `floor(rate * seconds)`.
pub proof fn lemma_whole_cycles_of_seconds(rate: u64, seconds: nat)
    requires
        is_positive_finite(rate),
    ensures
        whole_cycles(rate, seconds * (NANOS_PER_SECOND as nat)) == whole_product(rate, seconds),
{
    lemma_fraction_positive(rate);
    let num = numerator(rate) as int;
    let den = denominator(rate) as int;
    assert((seconds * 1_000_000_000) * num == 1_000_000_000 * (num * seconds))
        by (nonlinear_arith);
    assert(num * seconds >= 0) by (nonlinear_arith)
        requires
            num > 0,
            seconds >= 0,
    ;
    lemma_div_multiples_vanish_quotient(1_000_000_000, num * seconds, den);
}

/// More time holds no fewer cycles: the cycles of a rate in `shorter`
/// nanoseconds are no more than those in `longer`.
pub proof fn lemma_cycles_rise(rate: u64, shorter: u64, longer: u64)
    requires
        shorter <= longer,
    ensures
        cycles_elapsed(rate, shorter) <= cycles_elapsed(rate, longer),
{
    if is_positive_finite(rate) {
        lemma_fraction_positive(rate);
        let num = numerator(rate) as int;
        let unit = (NANOS_PER_SECOND * denominator(rate)) as int;
        assert(unit > 0) by (nonlinear_arith)
            requires
                unit == 1_000_000_000 * denominator(rate),
                denominator(rate) > 0,
        ;
        assert(0 <= shorter * num <= longer * num) by (nonlinear_arith)
            requires
                0 <= shorter <= longer,
                num > 0,
        ;
        lemma_div_is_ordered(shorter * num, longer * num, unit);
        lemma_div_pos_is_pos(shorter * num, unit);
    }
}

} // verus!
