//! [`CountDigits`] for the unsigned primitive integer types.
//!
//! An unsigned value is its own magnitude, so every base counts it directly
//! and the two's-complement width convention never applies.

use crate::count_digits::CountDigits;
use crate::digits::digit_count;
use vstd::prelude::*;

verus! {

impl CountDigits for u8 {
    type Radix = u8;

    open spec fn abs_value(self) -> nat {
        self as nat
    }

    open spec fn negative(self) -> bool {
        false
    }

    open spec fn min_abs_value(self) -> nat {
        0
    }

    open spec fn radix_value(radix: u8) -> nat {
        radix as nat
    }

    fn count_bits(self) -> (count: u32) {
        digit_count(self as u128, 2)
    }

    fn count_octal_digits(self) -> (count: u32) {
        digit_count(self as u128, 8)
    }

    fn count_hex_digits(self) -> (count: u32) {
        digit_count(self as u128, 16)
    }

    fn count_digits(self) -> (count: usize) {
        digit_count(self as u128, 10) as usize
    }

    fn count_digits_radix(self, radix: u8) -> (count: usize) {
        if radix == 2 {
            self.count_bits() as usize
        } else if radix == 8 {
            self.count_octal_digits() as usize
        } else if radix == 10 {
            self.count_digits()
        } else if radix == 16 {
            self.count_hex_digits() as usize
        } else {
            digit_count(self as u128, radix as u128) as usize
        }
    }

    fn checked_count_digits_radix(self, radix: u8) -> (count: Option<usize>) {
        if radix < 2 {
            None
        } else {
            Some(self.count_digits_radix(radix))
        }
    }
}

impl CountDigits for u16 {
    type Radix = u16;

    open spec fn abs_value(self) -> nat {
        self as nat
    }

    open spec fn negative(self) -> bool {
        false
    }

    open spec fn min_abs_value(self) -> nat {
        0
    }

    open spec fn radix_value(radix: u16) -> nat {
        radix as nat
    }

    fn count_bits(self) -> (count: u32) {
        digit_count(self as u128, 2)
    }

    fn count_octal_digits(self) -> (count: u32) {
        digit_count(self as u128, 8)
    }

    fn count_hex_digits(self) -> (count: u32) {
        digit_count(self as u128, 16)
    }

    fn count_digits(self) -> (count: usize) {
        digit_count(self as u128, 10) as usize
    }

    fn count_digits_radix(self, radix: u16) -> (count: usize) {
        if radix == 2 {
            self.count_bits() as usize
        } else if radix == 8 {
            self.count_octal_digits() as usize
        } else if radix == 10 {
            self.count_digits()
        } else if radix == 16 {
            self.count_hex_digits() as usize
        } else {
            digit_count(self as u128, radix as u128) as usize
        }
    }

    fn checked_count_digits_radix(self, radix: u16) -> (count: Option<usize>) {
        if radix < 2 {
            None
        } else {
            Some(self.count_digits_radix(radix))
        }
    }
}

impl CountDigits for u32 {
    type Radix = u32;

    open spec fn abs_value(self) -> nat {
        self as nat
    }

    open spec fn negative(self) -> bool {
        false
    }

    open spec fn min_abs_value(self) -> nat {
        0
    }

    open spec fn radix_value(radix: u32) -> nat {
        radix as nat
    }

    fn count_bits(self) -> (count: u32) {
        digit_count(self as u128, 2)
    }

    fn count_octal_digits(self) -> (count: u32) {
        digit_count(self as u128, 8)
    }

    fn count_hex_digits(self) -> (count: u32) {
        digit_count(self as u128, 16)
    }

    fn count_digits(self) -> (count: usize) {
        digit_count(self as u128, 10) as usize
    }

    fn count_digits_radix(self, radix: u32) -> (count: usize) {
        if radix == 2 {
            self.count_bits() as usize
        } else if radix == 8 {
            self.count_octal_digits() as usize
        } else if radix == 10 {
            self.count_digits()
        } else if radix == 16 {
            self.count_hex_digits() as usize
        } else {
            digit_count(self as u128, radix as u128) as usize
        }
    }

    fn checked_count_digits_radix(self, radix: u32) -> (count: Option<usize>) {
        if radix < 2 {
            None
        } else {
            Some(self.count_digits_radix(radix))
        }
    }
}

impl CountDigits for u64 {
    type Radix = u64;

    open spec fn abs_value(self) -> nat {
        self as nat
    }

    open spec fn negative(self) -> bool {
        false
    }

    open spec fn min_abs_value(self) -> nat {
        0
    }

    open spec fn radix_value(radix: u64) -> nat {
        radix as nat
    }

    fn count_bits(self) -> (count: u32) {
        digit_count(self as u128, 2)
    }

    fn count_octal_digits(self) -> (count: u32) {
        digit_count(self as u128, 8)
    }

    fn count_hex_digits(self) -> (count: u32) {
        digit_count(self as u128, 16)
    }

    fn count_digits(self) -> (count: usize) {
        digit_count(self as u128, 10) as usize
    }

    fn count_digits_radix(self, radix: u64) -> (count: usize) {
        if radix == 2 {
            self.count_bits() as usize
        } else if radix == 8 {
            self.count_octal_digits() as usize
        } else if radix == 10 {
            self.count_digits()
        } else if radix == 16 {
            self.count_hex_digits() as usize
        } else {
            digit_count(self as u128, radix as u128) as usize
        }
    }

    fn checked_count_digits_radix(self, radix: u64) -> (count: Option<usize>) {
        if radix < 2 {
            None
        } else {
            Some(self.count_digits_radix(radix))
        }
    }
}

impl CountDigits for u128 {
    type Radix = u128;

    open spec fn abs_value(self) -> nat {
        self as nat
    }

    open spec fn negative(self) -> bool {
        false
    }

    open spec fn min_abs_value(self) -> nat {
        0
    }

    open spec fn radix_value(radix: u128) -> nat {
        radix as nat
    }

    fn count_bits(self) -> (count: u32) {
        digit_count(self, 2)
    }

    fn count_octal_digits(self) -> (count: u32) {
        digit_count(self, 8)
    }

    fn count_hex_digits(self) -> (count: u32) {
        digit_count(self, 16)
    }

    fn count_digits(self) -> (count: usize) {
        digit_count(self, 10) as usize
    }

    fn count_digits_radix(self, radix: u128) -> (count: usize) {
        if radix == 2 {
            self.count_bits() as usize
        } else if radix == 8 {
            self.count_octal_digits() as usize
        } else if radix == 10 {
            self.count_digits()
        } else if radix == 16 {
            self.count_hex_digits() as usize
        } else {
            digit_count(self, radix) as usize
        }
    }

    fn checked_count_digits_radix(self, radix: u128) -> (count: Option<usize>) {
        if radix < 2 {
            None
        } else {
            Some(self.count_digits_radix(radix))
        }
    }
}

impl CountDigits for usize {
    type Radix = usize;

    open spec fn abs_value(self) -> nat {
        self as nat
    }

    open spec fn negative(self) -> bool {
        false
    }

    open spec fn min_abs_value(self) -> nat {
        0
    }

    open spec fn radix_value(radix: usize) -> nat {
        radix as nat
    }

    fn count_bits(self) -> (count: u32) {
        digit_count(self as u128, 2)
    }

    fn count_octal_digits(self) -> (count: u32) {
        digit_count(self as u128, 8)
    }

    fn count_hex_digits(self) -> (count: u32) {
        digit_count(self as u128, 16)
    }

    fn count_digits(self) -> (count: usize) {
        digit_count(self as u128, 10) as usize
    }

    fn count_digits_radix(self, radix: usize) -> (count: usize) {
        if radix == 2 {
            self.count_bits() as usize
        } else if radix == 8 {
            self.count_octal_digits() as usize
        } else if radix == 10 {
            self.count_digits()
        } else if radix == 16 {
            self.count_hex_digits() as usize
        } else {
            digit_count(self as u128, radix as u128) as usize
        }
    }

    fn checked_count_digits_radix(self, radix: usize) -> (count: Option<usize>) {
        if radix < 2 {
            None
        } else {
            Some(self.count_digits_radix(radix))
        }
    }
}

} // verus!
