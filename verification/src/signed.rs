//! [`CountDigits`] for the signed primitive integer types.
//!
//! Negative values follow the two's-complement width convention: in every
//! base but 10 they count as the type's most negative value, whose magnitude
//! is `2^(width - 1)`. Base 10 counts the value's own magnitude, and the
//! sign is never a digit.

use crate::count_digits::CountDigits;
use crate::digits::{
    digit_count, lemma_width_128_min_counts, lemma_width_16_min_counts, lemma_width_32_min_counts,
    lemma_width_64_min_counts, lemma_width_8_min_counts,
};
use vstd::math::abs;
use vstd::prelude::*;

verus! {

/// Magnitude of an 8-bit signed value, widened so that even the most
/// negative value has a representable magnitude.
pub(crate) fn magnitude_i8(value: i8) -> (magnitude: u128)
    ensures
        magnitude == abs(value as int),
{
    if value < 0 {
        (-(value as i64)) as u128
    } else {
        value as u128
    }
}

/// Magnitude of a 16-bit signed value.
pub(crate) fn magnitude_i16(value: i16) -> (magnitude: u128)
    ensures
        magnitude == abs(value as int),
{
    if value < 0 {
        (-(value as i64)) as u128
    } else {
        value as u128
    }
}

/// Magnitude of a 32-bit signed value.
pub(crate) fn magnitude_i32(value: i32) -> (magnitude: u128)
    ensures
        magnitude == abs(value as int),
{
    if value < 0 {
        (-(value as i64)) as u128
    } else {
        value as u128
    }
}

/// Magnitude of a 64-bit signed value.
pub(crate) fn magnitude_i64(value: i64) -> (magnitude: u128)
    ensures
        magnitude == abs(value as int),
{
    if value < 0 {
        (-(value as i128)) as u128
    } else {
        value as u128
    }
}

/// Magnitude of a 128-bit signed value. The most negative value is the one
/// whose magnitude does not fit its own signed type.
pub(crate) fn magnitude_i128(value: i128) -> (magnitude: u128)
    ensures
        magnitude == abs(value as int),
{
    if value == i128::MIN {
        0x8000_0000_0000_0000_0000_0000_0000_0000u128
    } else if value < 0 {
        (-value) as u128
    } else {
        value as u128
    }
}

/// Magnitude of a pointer-sized signed value.
pub(crate) fn magnitude_isize(value: isize) -> (magnitude: u128)
    ensures
        magnitude == abs(value as int),
{
    if value < 0 {
        (-(value as i128)) as u128
    } else {
        value as u128
    }
}

impl CountDigits for i8 {
    type Radix = u8;

    open spec fn abs_value(self) -> nat {
        abs(self as int)
    }

    open spec fn negative(self) -> bool {
        self < 0
    }

    open spec fn min_abs_value(self) -> nat {
        0x80
    }

    open spec fn radix_value(radix: u8) -> nat {
        radix as nat
    }

    fn count_bits(self) -> (count: u32) {
        if self < 0 {
            proof {
                lemma_width_8_min_counts();
            }
            8
        } else {
            digit_count(self as u128, 2)
        }
    }

    fn count_octal_digits(self) -> (count: u32) {
        if self < 0 {
            proof {
                lemma_width_8_min_counts();
            }
            3
        } else {
            digit_count(self as u128, 8)
        }
    }

    fn count_hex_digits(self) -> (count: u32) {
        if self < 0 {
            proof {
                lemma_width_8_min_counts();
            }
            2
        } else {
            digit_count(self as u128, 16)
        }
    }

    fn count_digits(self) -> (count: usize) {
        digit_count(magnitude_i8(self), 10) as usize
    }

    fn count_digits_radix(self, radix: u8) -> (count: usize) {
        if radix == 2 {
            self.count_bits() as usize
        } else if radix == 8 {
            self.count_octal_digits() as usize
        } else if radix == 10 {
            self.count_digits()
        } else if radix == 16 {
            self.count_hex_digits() as usize
        } else if self < 0 {
            digit_count(0x80u128, radix as u128) as usize
        } else {
            digit_count(self as u128, radix as u128) as usize
        }
    }

    fn checked_count_digits_radix(self, radix: u8) -> (count: Option<usize>) {
        if radix < 2 {
            None
        } else {
            Some(self.count_digits_radix(radix))
        }
    }
}

impl CountDigits for i16 {
    type Radix = u16;

    open spec fn abs_value(self) -> nat {
        abs(self as int)
    }

    open spec fn negative(self) -> bool {
        self < 0
    }

    open spec fn min_abs_value(self) -> nat {
        0x8000
    }

    open spec fn radix_value(radix: u16) -> nat {
        radix as nat
    }

    fn count_bits(self) -> (count: u32) {
        if self < 0 {
            proof {
                lemma_width_16_min_counts();
            }
            16
        } else {
            digit_count(self as u128, 2)
        }
    }

    fn count_octal_digits(self) -> (count: u32) {
        if self < 0 {
            proof {
                lemma_width_16_min_counts();
            }
            6
        } else {
            digit_count(self as u128, 8)
        }
    }

    fn count_hex_digits(self) -> (count: u32) {
        if self < 0 {
            proof {
                lemma_width_16_min_counts();
            }
            4
        } else {
            digit_count(self as u128, 16)
        }
    }

    fn count_digits(self) -> (count: usize) {
        digit_count(magnitude_i16(self), 10) as usize
    }

    fn count_digits_radix(self, radix: u16) -> (count: usize) {
        if radix == 2 {
            self.count_bits() as usize
        } else if radix == 8 {
            self.count_octal_digits() as usize
        } else if radix == 10 {
            self.count_digits()
        } else if radix == 16 {
            self.count_hex_digits() as usize
        } else if self < 0 {
            digit_count(0x8000u128, radix as u128) as usize
        } else {
            digit_count(self as u128, radix as u128) as usize
        }
    }

    fn checked_count_digits_radix(self, radix: u16) -> (count: Option<usize>) {
        if radix < 2 {
            None
        } else {
            Some(self.count_digits_radix(radix))
        }
    }
}

impl CountDigits for i32 {
    type Radix = u32;

    open spec fn abs_value(self) -> nat {
        abs(self as int)
    }

    open spec fn negative(self) -> bool {
        self < 0
    }

    open spec fn min_abs_value(self) -> nat {
        0x8000_0000
    }

    open spec fn radix_value(radix: u32) -> nat {
        radix as nat
    }

    fn count_bits(self) -> (count: u32) {
        if self < 0 {
            proof {
                lemma_width_32_min_counts();
            }
            32
        } else {
            digit_count(self as u128, 2)
        }
    }

    fn count_octal_digits(self) -> (count: u32) {
        if self < 0 {
            proof {
                lemma_width_32_min_counts();
            }
            11
        } else {
            digit_count(self as u128, 8)
        }
    }

    fn count_hex_digits(self) -> (count: u32) {
        if self < 0 {
            proof {
                lemma_width_32_min_counts();
            }
            8
        } else {
            digit_count(self as u128, 16)
        }
    }

    fn count_digits(self) -> (count: usize) {
        digit_count(magnitude_i32(self), 10) as usize
    }

    fn count_digits_radix(self, radix: u32) -> (count: usize) {
        if radix == 2 {
            self.count_bits() as usize
        } else if radix == 8 {
            self.count_octal_digits() as usize
        } else if radix == 10 {
            self.count_digits()
        } else if radix == 16 {
            self.count_hex_digits() as usize
        } else if self < 0 {
            digit_count(0x8000_0000u128, radix as u128) as usize
        } else {
            digit_count(self as u128, radix as u128) as usize
        }
    }

    fn checked_count_digits_radix(self, radix: u32) -> (count: Option<usize>) {
        if radix < 2 {
            None
        } else {
            Some(self.count_digits_radix(radix))
        }
    }
}

impl CountDigits for i64 {
    type Radix = u64;

    open spec fn abs_value(self) -> nat {
        abs(self as int)
    }

    open spec fn negative(self) -> bool {
        self < 0
    }

    open spec fn min_abs_value(self) -> nat {
        0x8000_0000_0000_0000
    }

    open spec fn radix_value(radix: u64) -> nat {
        radix as nat
    }

    fn count_bits(self) -> (count: u32) {
        if self < 0 {
            proof {
                lemma_width_64_min_counts();
            }
            64
        } else {
            digit_count(self as u128, 2)
        }
    }

    fn count_octal_digits(self) -> (count: u32) {
        if self < 0 {
            proof {
                lemma_width_64_min_counts();
            }
            22
        } else {
            digit_count(self as u128, 8)
        }
    }

    fn count_hex_digits(self) -> (count: u32) {
        if self < 0 {
            proof {
                lemma_width_64_min_counts();
            }
            16
        } else {
            digit_count(self as u128, 16)
        }
    }

    fn count_digits(self) -> (count: usize) {
        digit_count(magnitude_i64(self), 10) as usize
    }

    fn count_digits_radix(self, radix: u64) -> (count: usize) {
        if radix == 2 {
            self.count_bits() as usize
        } else if radix == 8 {
            self.count_octal_digits() as usize
        } else if radix == 10 {
            self.count_digits()
        } else if radix == 16 {
            self.count_hex_digits() as usize
        } else if self < 0 {
            digit_count(0x8000_0000_0000_0000u128, radix as u128) as usize
        } else {
            digit_count(self as u128, radix as u128) as usize
        }
    }

    fn checked_count_digits_radix(self, radix: u64) -> (count: Option<usize>) {
        if radix < 2 {
            None
        } else {
            Some(self.count_digits_radix(radix))
        }
    }
}

impl CountDigits for i128 {
    type Radix = u128;

    open spec fn abs_value(self) -> nat {
        abs(self as int)
    }

    open spec fn negative(self) -> bool {
        self < 0
    }

    open spec fn min_abs_value(self) -> nat {
        0x8000_0000_0000_0000_0000_0000_0000_0000
    }

    open spec fn radix_value(radix: u128) -> nat {
        radix as nat
    }

    fn count_bits(self) -> (count: u32) {
        if self < 0 {
            proof {
                lemma_width_128_min_counts();
            }
            128
        } else {
            digit_count(self as u128, 2)
        }
    }

    fn count_octal_digits(self) -> (count: u32) {
        if self < 0 {
            proof {
                lemma_width_128_min_counts();
            }
            43
        } else {
            digit_count(self as u128, 8)
        }
    }

    fn count_hex_digits(self) -> (count: u32) {
        if self < 0 {
            proof {
                lemma_width_128_min_counts();
            }
            32
        } else {
            digit_count(self as u128, 16)
        }
    }

    fn count_digits(self) -> (count: usize) {
        digit_count(magnitude_i128(self), 10) as usize
    }

    fn count_digits_radix(self, radix: u128) -> (count: usize) {
        if radix == 2 {
            self.count_bits() as usize
        } else if radix == 8 {
            self.count_octal_digits() as usize
        } else if radix == 10 {
            self.count_digits()
        } else if radix == 16 {
            self.count_hex_digits() as usize
        } else if self < 0 {
            digit_count(0x8000_0000_0000_0000_0000_0000_0000_0000u128, radix) as usize
        } else {
            digit_count(self as u128, radix) as usize
        }
    }

    fn checked_count_digits_radix(self, radix: u128) -> (count: Option<usize>) {
        if radix < 2 {
            None
        } else {
            Some(self.count_digits_radix(radix))
        }
    }
}

impl CountDigits for isize {
    type Radix = usize;

    open spec fn abs_value(self) -> nat {
        abs(self as int)
    }

    open spec fn negative(self) -> bool {
        self < 0
    }

    open spec fn min_abs_value(self) -> nat {
        abs(isize::MIN as int)
    }

    open spec fn radix_value(radix: usize) -> nat {
        radix as nat
    }

    fn count_bits(self) -> (count: u32) {
        if self < 0 {
            digit_count(magnitude_isize(isize::MIN), 2)
        } else {
            digit_count(self as u128, 2)
        }
    }

    fn count_octal_digits(self) -> (count: u32) {
        if self < 0 {
            digit_count(magnitude_isize(isize::MIN), 8)
        } else {
            digit_count(self as u128, 8)
        }
    }

    fn count_hex_digits(self) -> (count: u32) {
        if self < 0 {
            digit_count(magnitude_isize(isize::MIN), 16)
        } else {
            digit_count(self as u128, 16)
        }
    }

    fn count_digits(self) -> (count: usize) {
        digit_count(magnitude_isize(self), 10) as usize
    }

    fn count_digits_radix(self, radix: usize) -> (count: usize) {
        if radix == 2 {
            self.count_bits() as usize
        } else if radix == 8 {
            self.count_octal_digits() as usize
        } else if radix == 10 {
            self.count_digits()
        } else if radix == 16 {
            self.count_hex_digits() as usize
        } else if self < 0 {
            digit_count(magnitude_isize(isize::MIN), radix as u128) as usize
        } else {
            digit_count(self as u128, radix as u128) as usize
        }
    }

    fn checked_count_digits_radix(self, radix: usize) -> (count: Option<usize>) {
        if radix < 2 {
            None
        } else {
            Some(self.count_digits_radix(radix))
        }
    }
}

} // verus!
