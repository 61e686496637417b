//! IEEE-754 values as bit patterns.
//!
//! The sessions never compute with floating-point numbers. They carry them as bits,
//! ask whether they are finite, and move them between single and double precision.

use vstd::arithmetic::power2::pow2;
use vstd::prelude::*;

verus! {

/// The exponent field of a single-precision value.
pub open spec fn single_exponent(bits: u32) -> int {
    bits as int / 0x80_0000 % 0x100
}

/// The exponent field of a half-precision value.
pub open spec fn half_exponent(bits: u16) -> int {
    bits as int / 0x400 % 0x20
}

/// The exponent field of a double-precision value.
pub open spec fn double_exponent(bits: u64) -> int {
    bits as int / 0x10_0000_0000_0000 % 0x800
}

/// Whether a single-precision value is finite: neither an infinity nor a NaN.
pub open spec fn single_finite(bits: u32) -> bool {
    single_exponent(bits) != 0xff
}

/// Whether a half-precision value is finite.
pub open spec fn half_finite(bits: u16) -> bool {
    half_exponent(bits) != 0x1f
}

/// Whether a double-precision value is finite.
pub open spec fn double_finite(bits: u64) -> bool {
    double_exponent(bits) != 0x7ff
}

/// Whether a single-precision value is a zero of either sign.
pub open spec fn single_zero(bits: u32) -> bool {
    bits == 0 || bits == 0x8000_0000
}

/// Whether single-precision bits are no number.
pub open spec fn single_nan(bits: u32) -> bool {
    bits % 0x8000_0000 > 0x7f80_0000
}

/// Whether two single-precision values compare equal: the same number, or two zeros.
pub open spec fn single_equal(left: u32, right: u32) -> bool {
    !single_nan(left) && (left == right || (single_zero(left) && single_zero(right)))
}

/// Whether a finite single-precision value is greater than zero.
pub open spec fn single_positive(bits: u32) -> bool {
    0 < bits < 0x8000_0000
}

/// `value / unit`, rounded to the nearest integer, and to the even one of two that are
/// equally near.
pub open spec fn rounded(value: int, unit: int) -> int {
    let quotient = value / unit;
    let remainder = value % unit;
    if 2 * remainder > unit || (2 * remainder == unit && quotient % 2 == 1) {
        quotient + 1
    } else {
        quotient
    }
}

/// The magnitude bits of the single-precision value nearest to a finite double, ties going
/// to the even significand. The value `significand * 2^(exponent - 1075)` is counted in
/// units of the last place of the single-precision result; a carry out of the significand
/// moves into the exponent, and past the largest finite value into infinity.
pub open spec fn narrowed_magnitude(exponent: int, significand: int) -> int {
    if exponent >= 897 {
        let bits = (exponent - 897) * 0x80_0000 + rounded(significand, 0x2000_0000);
        if bits >= 0x7f80_0000 {
            0x7f80_0000
        } else {
            bits
        }
    } else if exponent >= 873 {
        rounded(significand, pow2((926 - exponent) as nat) as int)
    } else {
        0
    }
}

/// The single-precision value nearest to a finite double-precision value.
pub open spec fn narrowed(bits: u64) -> u32 {
    let exponent = double_exponent(bits);
    let fraction = bits as int % 0x10_0000_0000_0000;
    let significand = if exponent == 0 {
        fraction
    } else {
        0x10_0000_0000_0000 + fraction
    };
    ((bits as int / 0x8000_0000_0000_0000) * 0x8000_0000 + narrowed_magnitude(
        exponent,
        significand,
    )) as u32
}

/// The double-precision value nearest to an integer, ties going to the even significand. The
/// significand counts units of the last place below the top bit of the integer; a carry out of it
/// moves into the exponent.
pub open spec fn nearest_double(integer: int) -> u64 {
    let magnitude = if integer < 0 {
        -integer
    } else {
        integer
    };
    let sign = if integer < 0 {
        0x8000_0000_0000_0000int
    } else {
        0
    };
    let top = vstd::arithmetic::logarithm::log(2, magnitude);
    let significand = if top <= 52 {
        magnitude * pow2((52 - top) as nat)
    } else {
        rounded(magnitude, pow2((top - 52) as nat) as int)
    };
    if integer == 0 {
        0
    } else {
        (sign + (1022 + top) * 0x10_0000_0000_0000 + significand) as u64
    }
}

/// Whether a single-precision value is finite.
pub fn single_is_finite(bits: u32) -> (finite: bool)
    ensures
        finite == single_finite(bits),
{
    bits / 0x80_0000 % 0x100 != 0xff
}

/// Whether a half-precision value is finite.
pub fn half_is_finite(bits: u16) -> (finite: bool)
    ensures
        finite == half_finite(bits),
{
    bits / 0x400 % 0x20 != 0x1f
}

/// Whether two single-precision values compare equal.
pub fn single_equals(left: u32, right: u32) -> (equal: bool)
    ensures
        equal == single_equal(left, right),
{
    let number: bool = left % 0x8000_0000 <= 0x7f80_0000;
    number && (left == right || ((left == 0 || left == 0x8000_0000) && (right == 0 || right
        == 0x8000_0000)))
}

fn round_half_even(value: u64, unit: u64) -> (result: u64)
    requires
        0 < unit <= 0x40_0000_0000_0000,
        value <= 0x40_0000_0000_0000,
    ensures
        result == rounded(value as int, unit as int),
        result <= value + 1,
{
    let quotient: u64 = value / unit;
    let remainder: u64 = value % unit;
    proof {
        assert(quotient <= value) by (nonlinear_arith)
            requires
                quotient == value / unit,
                unit > 0,
        ;
    }
    if 2 * remainder > unit || (2 * remainder == unit && quotient % 2 == 1) {
        quotient + 1
    } else {
        quotient
    }
}

/// The single-precision value nearest to a finite double-precision value.
pub fn narrow(bits: u64) -> (single: u32)
    requires
        double_finite(bits),
    ensures
        single == narrowed(bits),
{
    let exponent: u64 = bits / 0x10_0000_0000_0000 % 0x800;
    let fraction: u64 = bits % 0x10_0000_0000_0000;
    let sign: u64 = bits / 0x8000_0000_0000_0000;
    let significand: u64 = if exponent == 0 {
        fraction
    } else {
        0x10_0000_0000_0000 + fraction
    };
    let magnitude: u64 = if exponent >= 897 {
        let last_places: u64 = round_half_even(significand, 0x2000_0000);
        let whole: u64 = (exponent - 897) * 0x80_0000 + last_places;
        if whole >= 0x7f80_0000 {
            0x7f80_0000
        } else {
            whole
        }
    } else if exponent >= 873 {
        let shift: u64 = 926 - exponent;
        proof {
            vstd::arithmetic::power2::lemma_pow2_strictly_increases(shift as nat, 54);
            vstd::arithmetic::power2::lemma2_to64();
            vstd::arithmetic::power2::lemma2_to64_rest();
            vstd::arithmetic::power2::lemma_pow2_pos(shift as nat);
            vstd::bits::lemma_u64_shl_is_mul(1, shift);
        }
        let unit: u64 = 1u64 << shift;
        let places: u64 = round_half_even(significand, unit);
        proof {
            if shift > 30 {
                vstd::arithmetic::power2::lemma_pow2_strictly_increases(30, shift as nat);
            }
            assert(unit >= 0x4000_0000);
            assert(places <= 0x80_0000) by (nonlinear_arith)
                requires
                    significand < 0x20_0000_0000_0000,
                    unit >= 0x4000_0000,
                    places <= significand as int / unit as int + 1,
            ;
        }
        places
    } else {
        0
    };
    (sign * 0x8000_0000 + magnitude) as u32
}

/// A positive significand below `2^23`, doubled until its top bit is the one of `2^22`, and the
/// place where that bit was.
pub open spec fn scaled_up(significand: int, place: int) -> (int, int)
    decreases place,
{
    if significand >= 0x40_0000 || place <= 0 {
        (significand, place)
    } else {
        scaled_up(2 * significand, place - 1)
    }
}

/// The magnitude bits of the double-precision value that equals a finite single-precision one.
/// One below the normal range is `significand * 2^-149`; as a double it is normal.
pub open spec fn widened_magnitude(exponent: int, fraction: int) -> int {
    if exponent != 0 {
        (exponent + 896) * 0x10_0000_0000_0000 + fraction * 0x2000_0000
    } else if fraction == 0 {
        0
    } else {
        let (scaled, place) = scaled_up(fraction, 22);
        (place + 874) * 0x10_0000_0000_0000 + (scaled - 0x40_0000) * 0x4000_0000
    }
}

/// The double-precision value that equals a finite single-precision value.
pub open spec fn widened(bits: u32) -> u64 {
    ((bits as int / 0x8000_0000) * 0x8000_0000_0000_0000 + widened_magnitude(
        single_exponent(bits),
        bits as int % 0x80_0000,
    )) as u64
}

proof fn lemma_scaled_up(start: int, significand: int, place: int)
    requires
        0 <= place <= 22,
        1 <= start,
        significand < 0x80_0000,
        significand == start * pow2((22 - place) as nat),
    ensures
        ({
            let (scaled, top) = scaled_up(significand, place);
            &&& 0 <= top <= 22
            &&& 0x40_0000 <= scaled < 0x80_0000
            &&& scaled == start * pow2((22 - top) as nat)
        }),
    decreases place,
{
    vstd::arithmetic::power2::lemma2_to64();
    if significand >= 0x40_0000 {
    } else if place == 0 {
        assert(significand >= 0x40_0000) by (nonlinear_arith)
            requires
                significand == start * 0x40_0000,
                1 <= start,
        ;
    } else {
        vstd::arithmetic::power2::lemma_pow2_unfold((22 - place + 1) as nat);
        assert(2 * significand == start * pow2((22 - (place - 1)) as nat)) by (nonlinear_arith)
            requires
                significand == start * pow2((22 - place) as nat),
                pow2((22 - (place - 1)) as nat) == 2 * pow2((22 - place) as nat),
        ;
        lemma_scaled_up(start, 2 * significand, place - 1);
    }
}

/// The double-precision value that equals a finite single-precision value.
pub fn widen(bits: u32) -> (double: u64)
    requires
        single_finite(bits),
    ensures
        double == widened(bits),
        double_finite(double),
{
    let exponent: u64 = (bits / 0x80_0000 % 0x100) as u64;
    let fraction: u64 = (bits % 0x80_0000) as u64;
    let sign: u64 = (bits / 0x8000_0000) as u64;
    let magnitude: u64 = if exponent != 0 {
        (exponent + 896) * 0x10_0000_0000_0000 + fraction * 0x2000_0000
    } else if fraction == 0 {
        0
    } else {
        let mut scaled: u64 = fraction;
        let mut place: u64 = 22;
        proof {
            vstd::arithmetic::power2::lemma2_to64();
            let start = fraction as int;
            assert(start == start * pow2(0));
            lemma_scaled_up(start, start, 22);
        }
        while scaled < 0x40_0000 && place > 0
            invariant
                place <= 22,
                scaled < 0x80_0000,
                scaled_up(fraction as int, 22) == scaled_up(scaled as int, place as int),
            decreases place,
        {
            scaled = 2 * scaled;
            place = place - 1;
        }
        (place + 874) * 0x10_0000_0000_0000 + (scaled - 0x40_0000) * 0x4000_0000
    };
    assert(magnitude < 0x7ff0_0000_0000_0000);
    let double: u64 = sign * 0x8000_0000_0000_0000 + magnitude;
    double
}

/// Narrowing a widened finite value gives the value back.
pub proof fn law_widening_is_undone(bits: u32)
    requires
        single_finite(bits),
    ensures
        narrowed(widened(bits)) == bits,
{
    let exponent = single_exponent(bits);
    let fraction = bits as int % 0x80_0000;
    let sign = bits as int / 0x8000_0000;
    let magnitude = widened_magnitude(exponent, fraction);
    let double = widened(bits);
    assert(bits == sign * 0x8000_0000 + exponent * 0x80_0000 + fraction);
    if exponent != 0 {
        assert(0 <= magnitude < 0x7ff0_0000_0000_0000);
        assert(double == sign * 0x8000_0000_0000_0000 + magnitude);
        assert(double_exponent(double) == exponent + 896);
        assert(double as int % 0x10_0000_0000_0000 == fraction * 0x2000_0000);
        let significand = 0x10_0000_0000_0000 + fraction * 0x2000_0000;
        assert(significand / 0x2000_0000 == 0x80_0000 + fraction);
        assert(significand % 0x2000_0000 == 0);
    } else if fraction != 0 {
        vstd::arithmetic::power2::lemma2_to64();
        lemma_scaled_up(fraction, fraction, 22);
        let (scaled, place) = scaled_up(fraction, 22);
        assert(0 <= magnitude < 0x7ff0_0000_0000_0000);
        assert(double == sign * 0x8000_0000_0000_0000 + magnitude);
        assert(double_exponent(double) == place + 874);
        assert(double as int % 0x10_0000_0000_0000 == (scaled - 0x40_0000) * 0x4000_0000);
        let significand = 0x10_0000_0000_0000 + (scaled - 0x40_0000) * 0x4000_0000;
        assert(significand == scaled * 0x4000_0000);
        let unit = pow2((926 - (place + 874)) as nat) as int;
        vstd::arithmetic::power2::lemma_pow2_adds((22 - place) as nat, 30);
        vstd::arithmetic::power2::lemma_pow2_pos((52 - place) as nat);
        assert(significand == fraction * unit) by (nonlinear_arith)
            requires
                significand == scaled * 0x4000_0000,
                scaled == fraction * pow2((22 - place) as nat),
                unit == pow2((22 - place) as nat) * 0x4000_0000,
        ;
        vstd::arithmetic::div_mod::lemma_div_multiples_vanish(fraction, unit);
        vstd::arithmetic::div_mod::lemma_mod_multiples_basic(fraction, unit);
        assert(significand / unit == fraction && significand % unit == 0) by {
            assert(fraction * unit == unit * fraction) by (nonlinear_arith);
        }
        assert(rounded(significand, unit) == fraction);
    }
}

proof fn lemma_top_bit(magnitude: int)
    requires
        1 <= magnitude,
    ensures
        vstd::arithmetic::logarithm::log(2, magnitude) >= 0,
        pow2(vstd::arithmetic::logarithm::log(2, magnitude) as nat) <= magnitude < 2 * pow2(
            vstd::arithmetic::logarithm::log(2, magnitude) as nat,
        ),
    decreases magnitude,
{
    vstd::arithmetic::power2::lemma2_to64();
    if magnitude < 2 {
        vstd::arithmetic::logarithm::lemma_log0(2, magnitude);
    } else {
        vstd::arithmetic::logarithm::lemma_log_s(2, magnitude);
        lemma_top_bit(magnitude / 2);
        let top = vstd::arithmetic::logarithm::log(2, magnitude);
        vstd::arithmetic::power2::lemma_pow2_unfold(top as nat);
    }
}

/// Every 64-bit integer, signed or not, has a finite nearest double, with its sign and with the
/// exponent of its top bit, or of the next where rounding carries into it.
pub proof fn law_integers_are_finite_doubles(integer: int)
    requires
        i64::MIN <= integer <= u64::MAX,
    ensures
        double_finite(nearest_double(integer)),
        nearest_double(integer) >= 0x8000_0000_0000_0000 <==> integer < 0,
        integer != 0 ==> {
            let top = vstd::arithmetic::logarithm::log(2, if integer < 0 {
                -integer
            } else {
                integer
            });
            0 <= top <= 63 && 1023 + top <= double_exponent(nearest_double(integer)) <= 1024 + top
        },
{
    if integer != 0 {
        let magnitude = if integer < 0 {
            -integer
        } else {
            integer
        };
        let top = vstd::arithmetic::logarithm::log(2, magnitude);
        lemma_top_bit(magnitude);
        vstd::arithmetic::power2::lemma2_to64();
        vstd::arithmetic::power2::lemma2_to64_rest();
        if top > 63 {
            if top > 64 {
                vstd::arithmetic::power2::lemma_pow2_strictly_increases(64, top as nat);
            }
            assert(false);
        }
        let significand = if top <= 52 {
            magnitude * pow2((52 - top) as nat)
        } else {
            rounded(magnitude, pow2((top - 52) as nat) as int)
        };
        assert(0x10_0000_0000_0000 <= significand <= 0x20_0000_0000_0000) by {
            let bit = pow2(top as nat) as int;
            if top <= 52 {
                let unit = pow2((52 - top) as nat) as int;
                vstd::arithmetic::power2::lemma_pow2_adds(top as nat, (52 - top) as nat);
                assert(0x10_0000_0000_0000 <= magnitude * unit <= 0x20_0000_0000_0000)
                    by (nonlinear_arith)
                    requires
                        bit <= magnitude < 2 * bit,
                        bit * unit == 0x10_0000_0000_0000,
                        unit > 0,
                ;
            } else {
                let unit = pow2((top - 52) as nat) as int;
                vstd::arithmetic::power2::lemma_pow2_adds(52, (top - 52) as nat);
                vstd::arithmetic::power2::lemma_pow2_pos((top - 52) as nat);
                assert(0x10_0000_0000_0000 <= magnitude / unit < 0x20_0000_0000_0000)
                    by (nonlinear_arith)
                    requires
                        bit <= magnitude < 2 * bit,
                        bit == 0x10_0000_0000_0000 * unit,
                        unit > 0,
                ;
            }
        }
    }
}

} // verus!
