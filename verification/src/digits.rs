//! The mathematical model of digit counting, the lemmas that characterise it,
//! and the executable counting loop shared by every integer width.

use vstd::arithmetic::div_mod::{
    lemma_div_is_ordered, lemma_div_is_strictly_smaller, lemma_div_multiples_vanish,
    lemma_fundamental_div_mod, lemma_mod_division_less_than_divisor, lemma_multiply_divide_lt,
};
use vstd::arithmetic::mul::{
    lemma_mul_inequality, lemma_mul_is_distributive_add, lemma_mul_is_distributive_sub,
    lemma_mul_upper_bound,
};
use vstd::arithmetic::power::{
    lemma_pow0, lemma_pow1, lemma_pow_adds, lemma_pow_increases, lemma_pow_multiplies,
    lemma_pow_positive, lemma_pow_strictly_increases, pow,
};
use vstd::arithmetic::power2::{
    lemma2_to64, lemma2_to64_rest, lemma_pow2, lemma_pow2_adds, lemma_pow2_strictly_increases,
    pow2,
};
use vstd::math::abs;
use vstd::prelude::*;

verus! {

/// Count of digits in the base-`radix` positional rendering of `value`:
/// `1 + floor(log_radix(value))`, with zero occupying exactly one digit.
/// Bases below 2 have no positional rendering; the definition defaults to 1
/// there, and every counting contract in this crate demands a base of at
/// least 2.
pub open spec fn spec_digit_count(radix: nat, value: nat) -> nat
    decreases value,
    via spec_digit_count_decreases
{
    if radix < 2 || value < radix {
        1
    } else {
        1 + spec_digit_count(radix, value / radix)
    }
}

#[via_fn]
proof fn spec_digit_count_decreases(radix: nat, value: nat) {
    if 2 <= radix && radix <= value {
        lemma_div_is_strictly_smaller(value as int, radix as int);
    }
}

/// Digit count reported for a value of a fixed-width integer type. A negative
/// value is counted as the magnitude of the type's most negative value in
/// every base but 10 (the two's-complement width convention), and as its own
/// magnitude in base 10 and whenever it is non-negative.
pub open spec fn spec_radix_count(
    radix: nat,
    negative: bool,
    magnitude: nat,
    min_magnitude: nat,
) -> nat {
    if negative && radix != 10 {
        spec_digit_count(radix, min_magnitude)
    } else {
        spec_digit_count(radix, magnitude)
    }
}

/// Every value occupies at least one digit in every base.
pub proof fn lemma_digit_count_at_least_one(radix: nat, value: nat)
    ensures
        1 <= spec_digit_count(radix, value),
{
}

/// Zero occupies exactly one digit in every valid base.
pub proof fn lemma_digit_count_of_zero(radix: nat)
    requires
        2 <= radix,
    ensures
        spec_digit_count(radix, 0) == 1,
{
}

/// Base 10 counts the magnitude alone, so a value and its negation have
/// equal decimal digit counts.
pub proof fn lemma_decimal_count_ignores_sign(value: int)
    ensures
        spec_digit_count(10, abs(value)) == spec_digit_count(10, abs(-value)),
{
}

/// Base 10 is exempt from the two's-complement width convention: the
/// reported decimal count is the magnitude's count whatever the sign, so
/// the decimal counting operation and the general one agree at base 10.
pub proof fn lemma_radix_ten_counts_magnitude(negative: bool, magnitude: nat, min_magnitude: nat)
    ensures
        spec_radix_count(10, negative, magnitude, min_magnitude) == spec_digit_count(
            10,
            magnitude,
        ),
{
}

/// A value below `radix^digits` occupies at most `digits` digits.
pub proof fn lemma_digit_count_bounded(radix: nat, value: nat, digits: nat)
    requires
        2 <= radix,
        1 <= digits,
        value < pow(radix as int, digits),
    ensures
        spec_digit_count(radix, value) <= digits,
    decreases digits,
{
    if radix <= value {
        assert(pow(radix as int, 1) == radix as int) by {
            lemma_pow1(radix as int);
        }
        assert(2 <= digits);
        assert(pow(radix as int, digits) == radix * pow(radix as int, (digits - 1) as nat)) by {
            lemma_pow_adds(radix as int, 1, (digits - 1) as nat);
            lemma_pow1(radix as int);
        }
        lemma_multiply_divide_lt(
            value as int,
            radix as int,
            pow(radix as int, (digits - 1) as nat),
        );
        lemma_digit_count_bounded(radix, value / radix, (digits - 1) as nat);
    }
}

/// A value of at least `radix^digits` occupies more than `digits` digits.
pub proof fn lemma_digit_count_at_least(radix: nat, value: nat, digits: nat)
    requires
        2 <= radix,
        pow(radix as int, digits) <= value,
    ensures
        digits + 1 <= spec_digit_count(radix, value),
    decreases digits,
{
    if digits != 0 {
        assert(pow(radix as int, 1) == radix as int) by {
            lemma_pow1(radix as int);
        }
        lemma_pow_increases(radix, 1, digits);
        assert(pow(radix as int, digits) == radix * pow(radix as int, (digits - 1) as nat)) by {
            lemma_pow_adds(radix as int, 1, (digits - 1) as nat);
            lemma_pow1(radix as int);
        }
        lemma_div_is_ordered(
            radix * pow(radix as int, (digits - 1) as nat),
            value as int,
            radix as int,
        );
        lemma_div_multiples_vanish(pow(radix as int, (digits - 1) as nat), radix as int);
        lemma_digit_count_at_least(radix, value / radix, (digits - 1) as nat);
    }
}

/// Every value lies below `radix` raised to its own digit count.
pub proof fn lemma_value_below_pow_of_count(radix: nat, value: nat)
    requires
        2 <= radix,
    ensures
        (value as int) < pow(radix as int, spec_digit_count(radix, value)),
    decreases value,
{
    if value < radix {
        lemma_pow1(radix as int);
    } else {
        let quotient = value / radix;
        let inner = spec_digit_count(radix, quotient);
        lemma_div_is_strictly_smaller(value as int, radix as int);
        lemma_value_below_pow_of_count(radix, quotient);
        lemma_fundamental_div_mod(value as int, radix as int);
        lemma_mod_division_less_than_divisor(value as int, radix as int);
        assert(pow(radix as int, inner + 1) == radix * pow(radix as int, inner)) by {
            lemma_pow_adds(radix as int, 1, inner);
            lemma_pow1(radix as int);
        }
        assert(radix * quotient <= radix * (pow(radix as int, inner) - 1)) by {
            lemma_mul_inequality(quotient as int, pow(radix as int, inner) - 1, radix as int);
        }
        assert(radix * (pow(radix as int, inner) - 1) == radix * pow(radix as int, inner) - radix)
            by {
            lemma_mul_is_distributive_sub(radix as int, pow(radix as int, inner), 1);
        }
    }
}

/// Raising a larger base to the same exponent gives at least as large a power.
pub proof fn lemma_pow_base_increases(small: nat, large: nat, exp: nat)
    requires
        1 <= small <= large,
    ensures
        pow(small as int, exp) <= pow(large as int, exp),
    decreases exp,
{
    if exp == 0 {
        lemma_pow0(small as int);
        lemma_pow0(large as int);
    } else {
        lemma_pow_base_increases(small, large, (exp - 1) as nat);
        lemma_pow_positive(small as int, (exp - 1) as nat);
        assert(pow(small as int, exp) == small * pow(small as int, (exp - 1) as nat)) by {
            lemma_pow_adds(small as int, 1, (exp - 1) as nat);
            lemma_pow1(small as int);
        }
        assert(pow(large as int, exp) == large * pow(large as int, (exp - 1) as nat)) by {
            lemma_pow_adds(large as int, 1, (exp - 1) as nat);
            lemma_pow1(large as int);
        }
        lemma_mul_upper_bound(
            small as int,
            large as int,
            pow(small as int, (exp - 1) as nat),
            pow(large as int, (exp - 1) as nat),
        );
    }
}

/// A larger base never needs more digits for the same value.
pub proof fn lemma_digit_count_anti_monotone(small_radix: nat, large_radix: nat, value: nat)
    requires
        2 <= small_radix <= large_radix,
    ensures
        spec_digit_count(large_radix, value) <= spec_digit_count(small_radix, value),
{
    let digits = spec_digit_count(small_radix, value);
    lemma_digit_count_at_least_one(small_radix, value);
    lemma_value_below_pow_of_count(small_radix, value);
    lemma_pow_base_increases(small_radix, large_radix, digits);
    lemma_digit_count_bounded(large_radix, value, digits);
}

/// The reported count of a fixed-width value never grows as the base grows,
/// as long as a negative value is not compared across base 10, where the
/// count switches from the width convention to the magnitude.
pub proof fn lemma_radix_count_anti_monotone(
    small_radix: nat,
    large_radix: nat,
    negative: bool,
    magnitude: nat,
    min_magnitude: nat,
)
    requires
        2 <= small_radix <= large_radix,
        negative ==> small_radix != 10 && large_radix != 10,
    ensures
        spec_radix_count(large_radix, negative, magnitude, min_magnitude) <= spec_radix_count(
            small_radix,
            negative,
            magnitude,
            min_magnitude,
        ),
{
    if negative {
        lemma_digit_count_anti_monotone(small_radix, large_radix, min_magnitude);
    } else {
        lemma_digit_count_anti_monotone(small_radix, large_radix, magnitude);
    }
}

/// The largest value writable with `digits` digits in base `radix` is
/// `radix^digits - 1`; the next value up needs one digit more.
pub proof fn lemma_digit_count_power_boundary(radix: nat, digits: nat)
    requires
        2 <= radix,
        1 <= digits,
    ensures
        spec_digit_count(radix, (pow(radix as int, digits) - 1) as nat) == digits,
        spec_digit_count(radix, pow(radix as int, digits) as nat) == digits + 1,
{
    let boundary = pow(radix as int, digits);
    lemma_pow_positive(radix as int, digits);
    lemma_pow_positive(radix as int, (digits - 1) as nat);
    lemma_pow_strictly_increases(radix, (digits - 1) as nat, digits);
    lemma_pow_strictly_increases(radix, digits, digits + 1);
    lemma_digit_count_bounded(radix, (boundary - 1) as nat, digits);
    lemma_digit_count_at_least(radix, (boundary - 1) as nat, (digits - 1) as nat);
    lemma_digit_count_at_least(radix, boundary as nat, digits);
    lemma_digit_count_bounded(radix, boundary as nat, digits + 1);
}

/// In a base that is itself a power of two, `2^b`, the count of a power of
/// two `2^m` is one more than `m / b`: each digit stands for `b` bits.
pub proof fn lemma_digit_count_in_pow2_base(group: nat, exp: nat)
    requires
        1 <= group,
    ensures
        spec_digit_count(pow2(group), pow2(exp)) == 1 + exp / group,
{
    let quotient = exp / group;
    lemma_fundamental_div_mod(exp as int, group as int);
    lemma_mod_division_less_than_divisor(exp as int, group as int);
    lemma_mul_is_distributive_add(group as int, quotient as int, 1);
    lemma2_to64();
    lemma_pow2_strictly_increases(0, group);
    lemma_pow2(group);
    lemma_pow2(exp);
    lemma_pow2((group * quotient) as nat);
    lemma_pow2((group * (quotient + 1)) as nat);
    assert(pow(pow2(group) as int, quotient) == pow2((group * quotient) as nat)) by {
        lemma_pow_multiplies(2, group, quotient);
        lemma_pow2(group);
        lemma_pow2((group * quotient) as nat);
    }
    assert(pow(pow2(group) as int, quotient + 1) == pow2((group * (quotient + 1)) as nat)) by {
        lemma_pow_multiplies(2, group, quotient + 1);
        lemma_pow2(group);
        lemma_pow2((group * (quotient + 1)) as nat);
    }
    lemma_pow_increases(2, (group * quotient) as nat, exp);
    lemma_pow_strictly_increases(2, exp, (group * (quotient + 1)) as nat);
    lemma_digit_count_at_least(pow2(group), pow2(exp), quotient);
    lemma_digit_count_bounded(pow2(group), pow2(exp), quotient + 1);
}

/// Digit counts of the magnitude of a signed type's most negative value,
/// `2^(width - 1)`, in the three power-of-two bases: the full bit width in
/// binary, one digit for every three started bits in octal, and one for
/// every four started bits in hexadecimal.
pub proof fn lemma_min_value_digit_counts(width: nat)
    requires
        1 <= width,
    ensures
        spec_digit_count(2, pow2((width - 1) as nat)) == width,
        spec_digit_count(8, pow2((width - 1) as nat)) == 1 + (width - 1) as nat / 3,
        spec_digit_count(16, pow2((width - 1) as nat)) == 1 + (width - 1) as nat / 4,
{
    lemma2_to64();
    lemma_digit_count_in_pow2_base(1, (width - 1) as nat);
    lemma_digit_count_in_pow2_base(3, (width - 1) as nat);
    lemma_digit_count_in_pow2_base(4, (width - 1) as nat);
}

/// Minimum-value digit counts for 8-bit signed values.
pub proof fn lemma_width_8_min_counts()
    ensures
        spec_digit_count(2, 0x80) == 8,
        spec_digit_count(8, 0x80) == 3,
        spec_digit_count(16, 0x80) == 2,
{
    lemma2_to64();
    lemma_min_value_digit_counts(8);
}

/// Minimum-value digit counts for 16-bit signed values.
pub proof fn lemma_width_16_min_counts()
    ensures
        spec_digit_count(2, 0x8000) == 16,
        spec_digit_count(8, 0x8000) == 6,
        spec_digit_count(16, 0x8000) == 4,
{
    lemma2_to64();
    lemma_min_value_digit_counts(16);
}

/// Minimum-value digit counts for 32-bit signed values.
pub proof fn lemma_width_32_min_counts()
    ensures
        spec_digit_count(2, 0x8000_0000) == 32,
        spec_digit_count(8, 0x8000_0000) == 11,
        spec_digit_count(16, 0x8000_0000) == 8,
{
    lemma2_to64();
    lemma_min_value_digit_counts(32);
}

/// Minimum-value digit counts for 64-bit signed values.
pub proof fn lemma_width_64_min_counts()
    ensures
        spec_digit_count(2, 0x8000_0000_0000_0000) == 64,
        spec_digit_count(8, 0x8000_0000_0000_0000) == 22,
        spec_digit_count(16, 0x8000_0000_0000_0000) == 16,
{
    lemma2_to64();
    lemma2_to64_rest();
    lemma_min_value_digit_counts(64);
}

/// Minimum-value digit counts for 128-bit signed values.
pub proof fn lemma_width_128_min_counts()
    ensures
        spec_digit_count(2, 0x8000_0000_0000_0000_0000_0000_0000_0000) == 128,
        spec_digit_count(8, 0x8000_0000_0000_0000_0000_0000_0000_0000) == 43,
        spec_digit_count(16, 0x8000_0000_0000_0000_0000_0000_0000_0000) == 32,
{
    lemma2_to64();
    lemma2_to64_rest();
    assert(pow2(127) == 0x8000_0000_0000_0000_0000_0000_0000_0000) by {
        lemma_pow2_adds(64, 63);
        lemma2_to64();
        lemma2_to64_rest();
    }
    lemma_min_value_digit_counts(128);
}

/// No 128-bit value needs more than 128 digits in any valid base.
pub proof fn lemma_digit_count_fits_width(radix: nat, value: nat)
    requires
        2 <= radix,
        value < pow2(128),
    ensures
        spec_digit_count(radix, value) <= 128,
{
    lemma_pow2(128);
    lemma_pow_base_increases(2, radix, 128);
    lemma_digit_count_bounded(radix, value, 128);
}

/// Counting loop for a value known to be positive: the unfallible logarithm
/// path, shared by the non-zero wrapper types. Divides by the base until the
/// value is a single digit.
pub(crate) fn digit_count_positive(value: u128, radix: u128) -> (count: u32)
    requires
        2 <= radix,
        1 <= value,
    ensures
        count == spec_digit_count(radix as nat, value as nat),
        1 <= count <= 128,
{
    proof {
        assert(pow2(128) == 0x1_0000_0000_0000_0000_0000_0000_0000_0000) by {
            lemma_pow2_adds(64, 64);
            lemma2_to64();
        }
        lemma_digit_count_fits_width(radix as nat, value as nat);
    }
    let mut remaining: u128 = value;
    let mut count: u32 = 1;
    while remaining >= radix
        invariant
            2 <= radix,
            1 <= count,
            count + spec_digit_count(radix as nat, remaining as nat) == 1 + spec_digit_count(
                radix as nat,
                value as nat,
            ),
            spec_digit_count(radix as nat, value as nat) <= 128,
        decreases remaining,
    {
        proof {
            lemma_digit_count_at_least_one(radix as nat, (remaining / radix) as nat);
            lemma_div_is_strictly_smaller(remaining as int, radix as int);
        }
        remaining = remaining / radix;
        count = count + 1;
    }
    count
}

/// Counting entry point for a value that may be zero: zero occupies one
/// digit, and anything else takes the positive path.
pub(crate) fn digit_count(value: u128, radix: u128) -> (count: u32)
    requires
        2 <= radix,
    ensures
        count == spec_digit_count(radix as nat, value as nat),
        1 <= count <= 128,
{
    if value == 0 {
        1
    } else {
        digit_count_positive(value, radix)
    }
}

} // verus!
