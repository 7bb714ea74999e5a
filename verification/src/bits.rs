//! Floating-point numbers as the 64 bits of their IEEE 754 encoding, for
//! the few things that are asked of them here.

use vstd::arithmetic::div_mod::{lemma_basic_div, lemma_div_denominator};
use vstd::arithmetic::power2::{
    lemma2_to64, lemma_pow2_pos, lemma_pow2_strictly_increases, lemma_pow2_unfold, pow2,
};
use vstd::prelude::*;

verus! {

/// The bits of positive infinity. Every number that is zero, positive or
/// infinite has bits up to these, and among such numbers the bits grow
/// with the number.
pub const INFINITY_BITS: u64 = 0x7ff0_0000_0000_0000;

/// The bits of negative zero.
pub const NEGATIVE_ZERO_BITS: u64 = 0x8000_0000_0000_0000;

/// The bits of the number 0.2.
pub const ONE_FIFTH_BITS: u64 = 0x3fc9_9999_9999_999a;

/// The bits of the number 1.5.
pub const THREE_HALVES_BITS: u64 = 0x3ff8_0000_0000_0000;

/// The number with these bits is zero or above: it is neither negative nor
/// not a number. Negative zero counts as zero.
pub open spec fn not_below_zero(bits: u64) -> bool {
    bits <= INFINITY_BITS || bits == NEGATIVE_ZERO_BITS
}

/// Whether the number with these bits is zero or above.
pub fn is_not_below_zero(bits: u64) -> (ok: bool)
    ensures
        ok == not_below_zero(bits),
{
    bits <= INFINITY_BITS || bits == NEGATIVE_ZERO_BITS
}

/// The bit of the sign.
pub const SIGN_BIT: u64 = 0x8000_0000_0000_0000;

/// Two to the power of 52: one more than the largest fraction field.
pub const FRACTION_SPAN: u64 = 0x10_0000_0000_0000;

/// The exponent field of a number that is infinite or not a number.
pub const EXPONENT_TOP: u64 = 2047;

/// The eleven bits of the exponent.
pub open spec fn exponent_field(bits: u64) -> nat {
    ((bits % SIGN_BIT) / FRACTION_SPAN) as nat
}

/// The fifty-two bits of the fraction.
pub open spec fn fraction_field(bits: u64) -> nat {
    (bits % FRACTION_SPAN) as nat
}

/// The number with these bits is zero or above and not infinite, so that
/// it can be counted with.
pub open spec fn countable(bits: u64) -> bool {
    not_below_zero(bits) && exponent_field(bits) < EXPONENT_TOP
}

/// The whole number that the magnitude is a multiple of a power of two of.
pub open spec fn mantissa(bits: u64) -> nat {
    if exponent_field(bits) == 0 {
        fraction_field(bits)
    } else {
        fraction_field(bits) + FRACTION_SPAN as nat
    }
}

/// The power of two that the mantissa is multiplied by: the magnitude of
/// the number is `mantissa * 2^exponent`.
pub open spec fn exponent(bits: u64) -> int {
    if exponent_field(bits) == 0 {
        -1074
    } else {
        exponent_field(bits) - 1075
    }
}

/// The magnitude of the number times two to the power of `shift`, rounded
/// down to a whole number.
pub open spec fn scaled(bits: u64, shift: nat) -> nat {
    let e = exponent(bits) + shift;
    if e >= 0 {
        mantissa(bits) * pow2(e as nat)
    } else {
        mantissa(bits) / pow2((-e) as nat)
    }
}

/// Whether the number with these bits is zero or above and not infinite.
pub fn is_countable(bits: u64) -> (ok: bool)
    ensures
        ok == countable(bits),
{
    is_not_below_zero(bits) && (bits % SIGN_BIT) / FRACTION_SPAN < EXPONENT_TOP
}

/// The number with these bits times two to the power of `shift`, rounded
/// down, or nothing where that is more than 64 bits hold.
pub fn scale(bits: u64, shift: u8) -> (count: Option<u64>)
    requires
        countable(bits),
    ensures
        match count {
            Some(n) => n == scaled(bits, shift as nat),
            None => scaled(bits, shift as nat) > u64::MAX,
        },
{
    let field: u64 = (bits % SIGN_BIT) / FRACTION_SPAN;
    let fraction: u64 = bits % FRACTION_SPAN;
    let start: u64 = if field == 0 {
        fraction
    } else {
        fraction + FRACTION_SPAN
    };
    let e: i32 = if field == 0 {
        -1074 + shift as i32
    } else {
        field as i32 - 1075 + shift as i32
    };
    let mut m: u64 = start;
    let ghost target = scaled(bits, shift as nat);
    proof {
        lemma2_to64();
    }
    if e >= 0 {
        let mut left: i32 = e;
        while left > 0 && m > 0
            invariant
                0 <= left <= e,
                target == scaled(bits, shift as nat),
                m * pow2(left as nat) == target,
            decreases left,
        {
            proof {
                lemma_pow2_unfold(left as nat);
                lemma_pow2_pos((left - 1) as nat);
            }
            if m > u64::MAX / 2 {
                assert(m * pow2(left as nat) > u64::MAX) by (nonlinear_arith)
                    requires
                        m > u64::MAX / 2,
                        pow2(left as nat) == 2 * pow2((left - 1) as nat),
                        pow2((left - 1) as nat) >= 1,
                ;
                return None;
            }
            assert((m * 2) * pow2((left - 1) as nat) == m * pow2(left as nat)) by (nonlinear_arith)
                requires
                    pow2(left as nat) == 2 * pow2((left - 1) as nat),
            ;
            m = m * 2;
            left = left - 1;
        }
        proof {
            lemma2_to64();
            lemma_pow2_pos(left as nat);
        }
        assert(m == target) by (nonlinear_arith)
            requires
                m * pow2(left as nat) == target,
                left == 0 && pow2(left as nat) == 1 || m == 0 && pow2(left as nat) > 0,
        ;
        Some(m)
    } else {
        let total: i32 = -e;
        let mut left: i32 = total;
        assert(start as nat / pow2(0) == start);
        while left > 0 && m > 0
            invariant
                0 < total,
                0 <= left <= total,
                target == start as nat / pow2(total as nat),
                m == start as nat / pow2((total - left) as nat),
            decreases left,
        {
            proof {
                let done = (total - left) as nat;
                lemma_pow2_pos(done);
                lemma_pow2_unfold(done + 1);
                lemma_div_denominator(start as int, pow2(done) as int, 2);
            }
            m = m / 2;
            left = left - 1;
        }
        proof {
            let done = (total - left) as nat;
            if left > 0 {
                lemma_pow2_pos(done);
                lemma_pow2_strictly_increases(done, total as nat);
                assert(start < pow2(done)) by (nonlinear_arith)
                    requires
                        start as nat / pow2(done) == 0,
                        pow2(done) > 0,
                ;
                lemma_basic_div(start as int, pow2(total as nat) as int);
            }
        }
        Some(m)
    }
}

} // verus!
