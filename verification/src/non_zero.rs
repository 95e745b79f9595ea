//! Non-zero refinement wrappers: integer types whose values are never zero.
//!
//! Each wrapper enforces its invariant at construction and counts digits
//! through the unfallible positive counting path, which needs no zero
//! fallback. The view functions of each wrapper are those of the wrapped
//! primitive, so a wrapper and its primitive report identical counts for
//! every shared value, by contract.

use crate::count_digits::CountDigits;
use crate::digits::{
    digit_count_positive, lemma_width_128_min_counts, lemma_width_16_min_counts,
    lemma_width_32_min_counts, lemma_width_64_min_counts, lemma_width_8_min_counts,
};
use crate::signed::{magnitude_i128, magnitude_i16, magnitude_i32, magnitude_i64, magnitude_i8,
    magnitude_isize};
use vstd::prelude::*;

verus! {


/// A `i8` that is never zero, so its magnitude always has a well-defined
/// logarithm and counting it never needs the zero fallback.
#[derive(Clone, Copy)]
pub struct NonZeroI8 {
    value: i8,
}

impl NonZeroI8 {
    /// The wrapped primitive value.
    pub closed spec fn spec_get(self) -> i8 {
        self.value
    }

    #[verifier::type_invariant]
    closed spec fn non_zero(self) -> bool {
        self.value != 0
    }

    /// Wraps `value`; zero has no wrapped form.
    pub fn new(value: i8) -> (result: Option<NonZeroI8>)
        ensures
            value == 0 <==> result is None,
            result matches Some(wrapped) ==> wrapped.spec_get() == value,
    {
        if value == 0 {
            None
        } else {
            Some(NonZeroI8 { value })
        }
    }

    /// Returns the wrapped value, which is never zero.
    pub fn get(self) -> (value: i8)
        ensures
            value == self.spec_get(),
            value != 0,
    {
        proof {
            use_type_invariant(&self);
        }
        self.value
    }
}

/// Counts exactly as the wrapped `i8` does for every shared value, via
/// the same view functions, but along the unfallible positive path.
impl CountDigits for NonZeroI8 {
    type Radix = u8;

    open spec fn abs_value(self) -> nat {
        self.spec_get().abs_value()
    }

    open spec fn negative(self) -> bool {
        self.spec_get().negative()
    }

    open spec fn min_abs_value(self) -> nat {
        self.spec_get().min_abs_value()
    }

    open spec fn radix_value(radix: u8) -> nat {
        <i8 as CountDigits>::radix_value(radix)
    }

    fn count_bits(self) -> (count: u32) {
        let value = self.get();
        if value < 0 {
            proof {
                lemma_width_8_min_counts();
            }
            8
        } else {
            digit_count_positive(value as u128, 2)
        }
    }

    fn count_octal_digits(self) -> (count: u32) {
        let value = self.get();
        if value < 0 {
            proof {
                lemma_width_8_min_counts();
            }
            3
        } else {
            digit_count_positive(value as u128, 8)
        }
    }

    fn count_hex_digits(self) -> (count: u32) {
        let value = self.get();
        if value < 0 {
            proof {
                lemma_width_8_min_counts();
            }
            2
        } else {
            digit_count_positive(value as u128, 16)
        }
    }

    fn count_digits(self) -> (count: usize) {
        digit_count_positive(magnitude_i8(self.get()), 10) as usize
    }

    fn count_digits_radix(self, radix: u8) -> (count: usize) {
        if radix == 2 {
            self.count_bits() as usize
        } else if radix == 8 {
            self.count_octal_digits() as usize
        } else if radix == 10 {
            self.count_digits()
        } else if radix == 16 {
            self.count_hex_digits() as usize
        } else {
            let value = self.get();
            if value < 0 {
                digit_count_positive(0x80u128, radix as u128) as usize
            } else {
                digit_count_positive(value as u128, radix as u128) as usize
            }
        }
    }

    fn checked_count_digits_radix(self, radix: u8) -> (count: Option<usize>) {
        if radix < 2 {
            None
        } else {
            Some(self.count_digits_radix(radix))
        }
    }
}

/// A `i16` that is never zero, so its magnitude always has a well-defined
/// logarithm and counting it never needs the zero fallback.
#[derive(Clone, Copy)]
pub struct NonZeroI16 {
    value: i16,
}

impl NonZeroI16 {
    /// The wrapped primitive value.
    pub closed spec fn spec_get(self) -> i16 {
        self.value
    }

    #[verifier::type_invariant]
    closed spec fn non_zero(self) -> bool {
        self.value != 0
    }

    /// Wraps `value`; zero has no wrapped form.
    pub fn new(value: i16) -> (result: Option<NonZeroI16>)
        ensures
            value == 0 <==> result is None,
            result matches Some(wrapped) ==> wrapped.spec_get() == value,
    {
        if value == 0 {
            None
        } else {
            Some(NonZeroI16 { value })
        }
    }

    /// Returns the wrapped value, which is never zero.
    pub fn get(self) -> (value: i16)
        ensures
            value == self.spec_get(),
            value != 0,
    {
        proof {
            use_type_invariant(&self);
        }
        self.value
    }
}

/// Counts exactly as the wrapped `i16` does for every shared value, via
/// the same view functions, but along the unfallible positive path.
impl CountDigits for NonZeroI16 {
    type Radix = u16;

    open spec fn abs_value(self) -> nat {
        self.spec_get().abs_value()
    }

    open spec fn negative(self) -> bool {
        self.spec_get().negative()
    }

    open spec fn min_abs_value(self) -> nat {
        self.spec_get().min_abs_value()
    }

    open spec fn radix_value(radix: u16) -> nat {
        <i16 as CountDigits>::radix_value(radix)
    }

    fn count_bits(self) -> (count: u32) {
        let value = self.get();
        if value < 0 {
            proof {
                lemma_width_16_min_counts();
            }
            16
        } else {
            digit_count_positive(value as u128, 2)
        }
    }

    fn count_octal_digits(self) -> (count: u32) {
        let value = self.get();
        if value < 0 {
            proof {
                lemma_width_16_min_counts();
            }
            6
        } else {
            digit_count_positive(value as u128, 8)
        }
    }

    fn count_hex_digits(self) -> (count: u32) {
        let value = self.get();
        if value < 0 {
            proof {
                lemma_width_16_min_counts();
            }
            4
        } else {
            digit_count_positive(value as u128, 16)
        }
    }

    fn count_digits(self) -> (count: usize) {
        digit_count_positive(magnitude_i16(self.get()), 10) as usize
    }

    fn count_digits_radix(self, radix: u16) -> (count: usize) {
        if radix == 2 {
            self.count_bits() as usize
        } else if radix == 8 {
            self.count_octal_digits() as usize
        } else if radix == 10 {
            self.count_digits()
        } else if radix == 16 {
            self.count_hex_digits() as usize
        } else {
            let value = self.get();
            if value < 0 {
                digit_count_positive(0x8000u128, radix as u128) as usize
            } else {
                digit_count_positive(value as u128, radix as u128) as usize
            }
        }
    }

    fn checked_count_digits_radix(self, radix: u16) -> (count: Option<usize>) {
        if radix < 2 {
            None
        } else {
            Some(self.count_digits_radix(radix))
        }
    }
}

/// A `i32` that is never zero, so its magnitude always has a well-defined
/// logarithm and counting it never needs the zero fallback.
#[derive(Clone, Copy)]
pub struct NonZeroI32 {
    value: i32,
}

impl NonZeroI32 {
    /// The wrapped primitive value.
    pub closed spec fn spec_get(self) -> i32 {
        self.value
    }

    #[verifier::type_invariant]
    closed spec fn non_zero(self) -> bool {
        self.value != 0
    }

    /// Wraps `value`; zero has no wrapped form.
    pub fn new(value: i32) -> (result: Option<NonZeroI32>)
        ensures
            value == 0 <==> result is None,
            result matches Some(wrapped) ==> wrapped.spec_get() == value,
    {
        if value == 0 {
            None
        } else {
            Some(NonZeroI32 { value })
        }
    }

    /// Returns the wrapped value, which is never zero.
    pub fn get(self) -> (value: i32)
        ensures
            value == self.spec_get(),
            value != 0,
    {
        proof {
            use_type_invariant(&self);
        }
        self.value
    }
}

/// Counts exactly as the wrapped `i32` does for every shared value, via
/// the same view functions, but along the unfallible positive path.
impl CountDigits for NonZeroI32 {
    type Radix = u32;

    open spec fn abs_value(self) -> nat {
        self.spec_get().abs_value()
    }

    open spec fn negative(self) -> bool {
        self.spec_get().negative()
    }

    open spec fn min_abs_value(self) -> nat {
        self.spec_get().min_abs_value()
    }

    open spec fn radix_value(radix: u32) -> nat {
        <i32 as CountDigits>::radix_value(radix)
    }

    fn count_bits(self) -> (count: u32) {
        let value = self.get();
        if value < 0 {
            proof {
                lemma_width_32_min_counts();
            }
            32
        } else {
            digit_count_positive(value as u128, 2)
        }
    }

    fn count_octal_digits(self) -> (count: u32) {
        let value = self.get();
        if value < 0 {
            proof {
                lemma_width_32_min_counts();
            }
            11
        } else {
            digit_count_positive(value as u128, 8)
        }
    }

    fn count_hex_digits(self) -> (count: u32) {
        let value = self.get();
        if value < 0 {
            proof {
                lemma_width_32_min_counts();
            }
            8
        } else {
            digit_count_positive(value as u128, 16)
        }
    }

    fn count_digits(self) -> (count: usize) {
        digit_count_positive(magnitude_i32(self.get()), 10) as usize
    }

    fn count_digits_radix(self, radix: u32) -> (count: usize) {
        if radix == 2 {
            self.count_bits() as usize
        } else if radix == 8 {
            self.count_octal_digits() as usize
        } else if radix == 10 {
            self.count_digits()
        } else if radix == 16 {
            self.count_hex_digits() as usize
        } else {
            let value = self.get();
            if value < 0 {
                digit_count_positive(0x8000_0000u128, radix as u128) as usize
            } else {
                digit_count_positive(value as u128, radix as u128) as usize
            }
        }
    }

    fn checked_count_digits_radix(self, radix: u32) -> (count: Option<usize>) {
        if radix < 2 {
            None
        } else {
            Some(self.count_digits_radix(radix))
        }
    }
}

/// A `i64` that is never zero, so its magnitude always has a well-defined
/// logarithm and counting it never needs the zero fallback.
#[derive(Clone, Copy)]
pub struct NonZeroI64 {
    value: i64,
}

impl NonZeroI64 {
    /// The wrapped primitive value.
    pub closed spec fn spec_get(self) -> i64 {
        self.value
    }

    #[verifier::type_invariant]
    closed spec fn non_zero(self) -> bool {
        self.value != 0
    }

    /// Wraps `value`; zero has no wrapped form.
    pub fn new(value: i64) -> (result: Option<NonZeroI64>)
        ensures
            value == 0 <==> result is None,
            result matches Some(wrapped) ==> wrapped.spec_get() == value,
    {
        if value == 0 {
            None
        } else {
            Some(NonZeroI64 { value })
        }
    }

    /// Returns the wrapped value, which is never zero.
    pub fn get(self) -> (value: i64)
        ensures
            value == self.spec_get(),
            value != 0,
    {
        proof {
            use_type_invariant(&self);
        }
        self.value
    }
}

/// Counts exactly as the wrapped `i64` does for every shared value, via
/// the same view functions, but along the unfallible positive path.
impl CountDigits for NonZeroI64 {
    type Radix = u64;

    open spec fn abs_value(self) -> nat {
        self.spec_get().abs_value()
    }

    open spec fn negative(self) -> bool {
        self.spec_get().negative()
    }

    open spec fn min_abs_value(self) -> nat {
        self.spec_get().min_abs_value()
    }

    open spec fn radix_value(radix: u64) -> nat {
        <i64 as CountDigits>::radix_value(radix)
    }

    fn count_bits(self) -> (count: u32) {
        let value = self.get();
        if value < 0 {
            proof {
                lemma_width_64_min_counts();
            }
            64
        } else {
            digit_count_positive(value as u128, 2)
        }
    }

    fn count_octal_digits(self) -> (count: u32) {
        let value = self.get();
        if value < 0 {
            proof {
                lemma_width_64_min_counts();
            }
            22
        } else {
            digit_count_positive(value as u128, 8)
        }
    }

    fn count_hex_digits(self) -> (count: u32) {
        let value = self.get();
        if value < 0 {
            proof {
                lemma_width_64_min_counts();
            }
            16
        } else {
            digit_count_positive(value as u128, 16)
        }
    }

    fn count_digits(self) -> (count: usize) {
        digit_count_positive(magnitude_i64(self.get()), 10) as usize
    }

    fn count_digits_radix(self, radix: u64) -> (count: usize) {
        if radix == 2 {
            self.count_bits() as usize
        } else if radix == 8 {
            self.count_octal_digits() as usize
        } else if radix == 10 {
            self.count_digits()
        } else if radix == 16 {
            self.count_hex_digits() as usize
        } else {
            let value = self.get();
            if value < 0 {
                digit_count_positive(0x8000_0000_0000_0000u128, radix as u128) as usize
            } else {
                digit_count_positive(value as u128, radix as u128) as usize
            }
        }
    }

    fn checked_count_digits_radix(self, radix: u64) -> (count: Option<usize>) {
        if radix < 2 {
            None
        } else {
            Some(self.count_digits_radix(radix))
        }
    }
}

/// A `i128` that is never zero, so its magnitude always has a well-defined
/// logarithm and counting it never needs the zero fallback.
#[derive(Clone, Copy)]
pub struct NonZeroI128 {
    value: i128,
}

impl NonZeroI128 {
    /// The wrapped primitive value.
    pub closed spec fn spec_get(self) -> i128 {
        self.value
    }

    #[verifier::type_invariant]
    closed spec fn non_zero(self) -> bool {
        self.value != 0
    }

    /// Wraps `value`; zero has no wrapped form.
    pub fn new(value: i128) -> (result: Option<NonZeroI128>)
        ensures
            value == 0 <==> result is None,
            result matches Some(wrapped) ==> wrapped.spec_get() == value,
    {
        if value == 0 {
            None
        } else {
            Some(NonZeroI128 { value })
        }
    }

    /// Returns the wrapped value, which is never zero.
    pub fn get(self) -> (value: i128)
        ensures
            value == self.spec_get(),
            value != 0,
    {
        proof {
            use_type_invariant(&self);
        }
        self.value
    }
}

/// Counts exactly as the wrapped `i128` does for every shared value, via
/// the same view functions, but along the unfallible positive path.
impl CountDigits for NonZeroI128 {
    type Radix = u128;

    open spec fn abs_value(self) -> nat {
        self.spec_get().abs_value()
    }

    open spec fn negative(self) -> bool {
        self.spec_get().negative()
    }

    open spec fn min_abs_value(self) -> nat {
        self.spec_get().min_abs_value()
    }

    open spec fn radix_value(radix: u128) -> nat {
        <i128 as CountDigits>::radix_value(radix)
    }

    fn count_bits(self) -> (count: u32) {
        let value = self.get();
        if value < 0 {
            proof {
                lemma_width_128_min_counts();
            }
            128
        } else {
            digit_count_positive(value as u128, 2)
        }
    }

    fn count_octal_digits(self) -> (count: u32) {
        let value = self.get();
        if value < 0 {
            proof {
                lemma_width_128_min_counts();
            }
            43
        } else {
            digit_count_positive(value as u128, 8)
        }
    }

    fn count_hex_digits(self) -> (count: u32) {
        let value = self.get();
        if value < 0 {
            proof {
                lemma_width_128_min_counts();
            }
            32
        } else {
            digit_count_positive(value as u128, 16)
        }
    }

    fn count_digits(self) -> (count: usize) {
        digit_count_positive(magnitude_i128(self.get()), 10) as usize
    }

    fn count_digits_radix(self, radix: u128) -> (count: usize) {
        if radix == 2 {
            self.count_bits() as usize
        } else if radix == 8 {
            self.count_octal_digits() as usize
        } else if radix == 10 {
            self.count_digits()
        } else if radix == 16 {
            self.count_hex_digits() as usize
        } else {
            let value = self.get();
            if value < 0 {
                digit_count_positive(0x8000_0000_0000_0000_0000_0000_0000_0000u128, radix as u128) as usize
            } else {
                digit_count_positive(value as u128, radix as u128) as usize
            }
        }
    }

    fn checked_count_digits_radix(self, radix: u128) -> (count: Option<usize>) {
        if radix < 2 {
            None
        } else {
            Some(self.count_digits_radix(radix))
        }
    }
}

/// A `isize` that is never zero, so its magnitude always has a well-defined
/// logarithm and counting it never needs the zero fallback.
#[derive(Clone, Copy)]
pub struct NonZeroIsize {
    value: isize,
}

impl NonZeroIsize {
    /// The wrapped primitive value.
    pub closed spec fn spec_get(self) -> isize {
        self.value
    }

    #[verifier::type_invariant]
    closed spec fn non_zero(self) -> bool {
        self.value != 0
    }

    /// Wraps `value`; zero has no wrapped form.
    pub fn new(value: isize) -> (result: Option<NonZeroIsize>)
        ensures
            value == 0 <==> result is None,
            result matches Some(wrapped) ==> wrapped.spec_get() == value,
    {
        if value == 0 {
            None
        } else {
            Some(NonZeroIsize { value })
        }
    }

    /// Returns the wrapped value, which is never zero.
    pub fn get(self) -> (value: isize)
        ensures
            value == self.spec_get(),
            value != 0,
    {
        proof {
            use_type_invariant(&self);
        }
        self.value
    }
}

/// Counts exactly as the wrapped `isize` does for every shared value, via
/// the same view functions, but along the unfallible positive path. The
/// width convention counts are computed from the magnitude of `isize::MIN`,
/// which depends on the pointer width.
impl CountDigits for NonZeroIsize {
    type Radix = usize;

    open spec fn abs_value(self) -> nat {
        self.spec_get().abs_value()
    }

    open spec fn negative(self) -> bool {
        self.spec_get().negative()
    }

    open spec fn min_abs_value(self) -> nat {
        self.spec_get().min_abs_value()
    }

    open spec fn radix_value(radix: usize) -> nat {
        <isize as CountDigits>::radix_value(radix)
    }

    fn count_bits(self) -> (count: u32) {
        let value = self.get();
        if value < 0 {
            digit_count_positive(magnitude_isize(isize::MIN), 2)
        } else {
            digit_count_positive(value as u128, 2)
        }
    }

    fn count_octal_digits(self) -> (count: u32) {
        let value = self.get();
        if value < 0 {
            digit_count_positive(magnitude_isize(isize::MIN), 8)
        } else {
            digit_count_positive(value as u128, 8)
        }
    }

    fn count_hex_digits(self) -> (count: u32) {
        let value = self.get();
        if value < 0 {
            digit_count_positive(magnitude_isize(isize::MIN), 16)
        } else {
            digit_count_positive(value as u128, 16)
        }
    }

    fn count_digits(self) -> (count: usize) {
        digit_count_positive(magnitude_isize(self.get()), 10) as usize
    }

    fn count_digits_radix(self, radix: usize) -> (count: usize) {
        if radix == 2 {
            self.count_bits() as usize
        } else if radix == 8 {
            self.count_octal_digits() as usize
        } else if radix == 10 {
            self.count_digits()
        } else if radix == 16 {
            self.count_hex_digits() as usize
        } else {
            let value = self.get();
            if value < 0 {
                digit_count_positive(magnitude_isize(isize::MIN), radix as u128) as usize
            } else {
                digit_count_positive(value as u128, radix as u128) as usize
            }
        }
    }

    fn checked_count_digits_radix(self, radix: usize) -> (count: Option<usize>) {
        if radix < 2 {
            None
        } else {
            Some(self.count_digits_radix(radix))
        }
    }
}

/// A `u8` that is never zero, so its magnitude always has a well-defined
/// logarithm and counting it never needs the zero fallback.
#[derive(Clone, Copy)]
pub struct NonZeroU8 {
    value: u8,
}

impl NonZeroU8 {
    /// The wrapped primitive value.
    pub closed spec fn spec_get(self) -> u8 {
        self.value
    }

    #[verifier::type_invariant]
    closed spec fn non_zero(self) -> bool {
        self.value != 0
    }

    /// Wraps `value`; zero has no wrapped form.
    pub fn new(value: u8) -> (result: Option<NonZeroU8>)
        ensures
            value == 0 <==> result is None,
            result matches Some(wrapped) ==> wrapped.spec_get() == value,
    {
        if value == 0 {
            None
        } else {
            Some(NonZeroU8 { value })
        }
    }

    /// Returns the wrapped value, which is never zero.
    pub fn get(self) -> (value: u8)
        ensures
            value == self.spec_get(),
            value != 0,
    {
        proof {
            use_type_invariant(&self);
        }
        self.value
    }
}

/// Counts exactly as the wrapped `u8` does for every shared value, via
/// the same view functions, but along the unfallible positive path.
impl CountDigits for NonZeroU8 {
    type Radix = u8;

    open spec fn abs_value(self) -> nat {
        self.spec_get().abs_value()
    }

    open spec fn negative(self) -> bool {
        self.spec_get().negative()
    }

    open spec fn min_abs_value(self) -> nat {
        self.spec_get().min_abs_value()
    }

    open spec fn radix_value(radix: u8) -> nat {
        <u8 as CountDigits>::radix_value(radix)
    }

    fn count_bits(self) -> (count: u32) {
        digit_count_positive(self.get() as u128, 2)
    }

    fn count_octal_digits(self) -> (count: u32) {
        digit_count_positive(self.get() as u128, 8)
    }

    fn count_hex_digits(self) -> (count: u32) {
        digit_count_positive(self.get() as u128, 16)
    }

    fn count_digits(self) -> (count: usize) {
        digit_count_positive(self.get() as u128, 10) as usize
    }

    fn count_digits_radix(self, radix: u8) -> (count: usize) {
        if radix == 2 {
            self.count_bits() as usize
        } else if radix == 8 {
            self.count_octal_digits() as usize
        } else if radix == 10 {
            self.count_digits()
        } else if radix == 16 {
            self.count_hex_digits() as usize
        } else {
            digit_count_positive(self.get() as u128, radix as u128) as usize
        }
    }

    fn checked_count_digits_radix(self, radix: u8) -> (count: Option<usize>) {
        if radix < 2 {
            None
        } else {
            Some(self.count_digits_radix(radix))
        }
    }
}

/// A `u16` that is never zero, so its magnitude always has a well-defined
/// logarithm and counting it never needs the zero fallback.
#[derive(Clone, Copy)]
pub struct NonZeroU16 {
    value: u16,
}

impl NonZeroU16 {
    /// The wrapped primitive value.
    pub closed spec fn spec_get(self) -> u16 {
        self.value
    }

    #[verifier::type_invariant]
    closed spec fn non_zero(self) -> bool {
        self.value != 0
    }

    /// Wraps `value`; zero has no wrapped form.
    pub fn new(value: u16) -> (result: Option<NonZeroU16>)
        ensures
            value == 0 <==> result is None,
            result matches Some(wrapped) ==> wrapped.spec_get() == value,
    {
        if value == 0 {
            None
        } else {
            Some(NonZeroU16 { value })
        }
    }

    /// Returns the wrapped value, which is never zero.
    pub fn get(self) -> (value: u16)
        ensures
            value == self.spec_get(),
            value != 0,
    {
        proof {
            use_type_invariant(&self);
        }
        self.value
    }
}

/// Counts exactly as the wrapped `u16` does for every shared value, via
/// the same view functions, but along the unfallible positive path.
impl CountDigits for NonZeroU16 {
    type Radix = u16;

    open spec fn abs_value(self) -> nat {
        self.spec_get().abs_value()
    }

    open spec fn negative(self) -> bool {
        self.spec_get().negative()
    }

    open spec fn min_abs_value(self) -> nat {
        self.spec_get().min_abs_value()
    }

    open spec fn radix_value(radix: u16) -> nat {
        <u16 as CountDigits>::radix_value(radix)
    }

    fn count_bits(self) -> (count: u32) {
        digit_count_positive(self.get() as u128, 2)
    }

    fn count_octal_digits(self) -> (count: u32) {
        digit_count_positive(self.get() as u128, 8)
    }

    fn count_hex_digits(self) -> (count: u32) {
        digit_count_positive(self.get() as u128, 16)
    }

    fn count_digits(self) -> (count: usize) {
        digit_count_positive(self.get() as u128, 10) as usize
    }

    fn count_digits_radix(self, radix: u16) -> (count: usize) {
        if radix == 2 {
            self.count_bits() as usize
        } else if radix == 8 {
            self.count_octal_digits() as usize
        } else if radix == 10 {
            self.count_digits()
        } else if radix == 16 {
            self.count_hex_digits() as usize
        } else {
            digit_count_positive(self.get() as u128, radix as u128) as usize
        }
    }

    fn checked_count_digits_radix(self, radix: u16) -> (count: Option<usize>) {
        if radix < 2 {
            None
        } else {
            Some(self.count_digits_radix(radix))
        }
    }
}

/// A `u32` that is never zero, so its magnitude always has a well-defined
/// logarithm and counting it never needs the zero fallback.
#[derive(Clone, Copy)]
pub struct NonZeroU32 {
    value: u32,
}

impl NonZeroU32 {
    /// The wrapped primitive value.
    pub closed spec fn spec_get(self) -> u32 {
        self.value
    }

    #[verifier::type_invariant]
    closed spec fn non_zero(self) -> bool {
        self.value != 0
    }

    /// Wraps `value`; zero has no wrapped form.
    pub fn new(value: u32) -> (result: Option<NonZeroU32>)
        ensures
            value == 0 <==> result is None,
            result matches Some(wrapped) ==> wrapped.spec_get() == value,
    {
        if value == 0 {
            None
        } else {
            Some(NonZeroU32 { value })
        }
    }

    /// Returns the wrapped value, which is never zero.
    pub fn get(self) -> (value: u32)
        ensures
            value == self.spec_get(),
            value != 0,
    {
        proof {
            use_type_invariant(&self);
        }
        self.value
    }
}

/// Counts exactly as the wrapped `u32` does for every shared value, via
/// the same view functions, but along the unfallible positive path.
impl CountDigits for NonZeroU32 {
    type Radix = u32;

    open spec fn abs_value(self) -> nat {
        self.spec_get().abs_value()
    }

    open spec fn negative(self) -> bool {
        self.spec_get().negative()
    }

    open spec fn min_abs_value(self) -> nat {
        self.spec_get().min_abs_value()
    }

    open spec fn radix_value(radix: u32) -> nat {
        <u32 as CountDigits>::radix_value(radix)
    }

    fn count_bits(self) -> (count: u32) {
        digit_count_positive(self.get() as u128, 2)
    }

    fn count_octal_digits(self) -> (count: u32) {
        digit_count_positive(self.get() as u128, 8)
    }

    fn count_hex_digits(self) -> (count: u32) {
        digit_count_positive(self.get() as u128, 16)
    }

    fn count_digits(self) -> (count: usize) {
        digit_count_positive(self.get() as u128, 10) as usize
    }

    fn count_digits_radix(self, radix: u32) -> (count: usize) {
        if radix == 2 {
            self.count_bits() as usize
        } else if radix == 8 {
            self.count_octal_digits() as usize
        } else if radix == 10 {
            self.count_digits()
        } else if radix == 16 {
            self.count_hex_digits() as usize
        } else {
            digit_count_positive(self.get() as u128, radix as u128) as usize
        }
    }

    fn checked_count_digits_radix(self, radix: u32) -> (count: Option<usize>) {
        if radix < 2 {
            None
        } else {
            Some(self.count_digits_radix(radix))
        }
    }
}

/// A `u64` that is never zero, so its magnitude always has a well-defined
/// logarithm and counting it never needs the zero fallback.
#[derive(Clone, Copy)]
pub struct NonZeroU64 {
    value: u64,
}

impl NonZeroU64 {
    /// The wrapped primitive value.
    pub closed spec fn spec_get(self) -> u64 {
        self.value
    }

    #[verifier::type_invariant]
    closed spec fn non_zero(self) -> bool {
        self.value != 0
    }

    /// Wraps `value`; zero has no wrapped form.
    pub fn new(value: u64) -> (result: Option<NonZeroU64>)
        ensures
            value == 0 <==> result is None,
            result matches Some(wrapped) ==> wrapped.spec_get() == value,
    {
        if value == 0 {
            None
        } else {
            Some(NonZeroU64 { value })
        }
    }

    /// Returns the wrapped value, which is never zero.
    pub fn get(self) -> (value: u64)
        ensures
            value == self.spec_get(),
            value != 0,
    {
        proof {
            use_type_invariant(&self);
        }
        self.value
    }
}

/// Counts exactly as the wrapped `u64` does for every shared value, via
/// the same view functions, but along the unfallible positive path.
impl CountDigits for NonZeroU64 {
    type Radix = u64;

    open spec fn abs_value(self) -> nat {
        self.spec_get().abs_value()
    }

    open spec fn negative(self) -> bool {
        self.spec_get().negative()
    }

    open spec fn min_abs_value(self) -> nat {
        self.spec_get().min_abs_value()
    }

    open spec fn radix_value(radix: u64) -> nat {
        <u64 as CountDigits>::radix_value(radix)
    }

    fn count_bits(self) -> (count: u32) {
        digit_count_positive(self.get() as u128, 2)
    }

    fn count_octal_digits(self) -> (count: u32) {
        digit_count_positive(self.get() as u128, 8)
    }

    fn count_hex_digits(self) -> (count: u32) {
        digit_count_positive(self.get() as u128, 16)
    }

    fn count_digits(self) -> (count: usize) {
        digit_count_positive(self.get() as u128, 10) as usize
    }

    fn count_digits_radix(self, radix: u64) -> (count: usize) {
        if radix == 2 {
            self.count_bits() as usize
        } else if radix == 8 {
            self.count_octal_digits() as usize
        } else if radix == 10 {
            self.count_digits()
        } else if radix == 16 {
            self.count_hex_digits() as usize
        } else {
            digit_count_positive(self.get() as u128, radix as u128) as usize
        }
    }

    fn checked_count_digits_radix(self, radix: u64) -> (count: Option<usize>) {
        if radix < 2 {
            None
        } else {
            Some(self.count_digits_radix(radix))
        }
    }
}

/// A `u128` that is never zero, so its magnitude always has a well-defined
/// logarithm and counting it never needs the zero fallback.
#[derive(Clone, Copy)]
pub struct NonZeroU128 {
    value: u128,
}

impl NonZeroU128 {
    /// The wrapped primitive value.
    pub closed spec fn spec_get(self) -> u128 {
        self.value
    }

    #[verifier::type_invariant]
    closed spec fn non_zero(self) -> bool {
        self.value != 0
    }

    /// Wraps `value`; zero has no wrapped form.
    pub fn new(value: u128) -> (result: Option<NonZeroU128>)
        ensures
            value == 0 <==> result is None,
            result matches Some(wrapped) ==> wrapped.spec_get() == value,
    {
        if value == 0 {
            None
        } else {
            Some(NonZeroU128 { value })
        }
    }

    /// Returns the wrapped value, which is never zero.
    pub fn get(self) -> (value: u128)
        ensures
            value == self.spec_get(),
            value != 0,
    {
        proof {
            use_type_invariant(&self);
        }
        self.value
    }
}

/// Counts exactly as the wrapped `u128` does for every shared value, via
/// the same view functions, but along the unfallible positive path.
impl CountDigits for NonZeroU128 {
    type Radix = u128;

    open spec fn abs_value(self) -> nat {
        self.spec_get().abs_value()
    }

    open spec fn negative(self) -> bool {
        self.spec_get().negative()
    }

    open spec fn min_abs_value(self) -> nat {
        self.spec_get().min_abs_value()
    }

    open spec fn radix_value(radix: u128) -> nat {
        <u128 as CountDigits>::radix_value(radix)
    }

    fn count_bits(self) -> (count: u32) {
        digit_count_positive(self.get() as u128, 2)
    }

    fn count_octal_digits(self) -> (count: u32) {
        digit_count_positive(self.get() as u128, 8)
    }

    fn count_hex_digits(self) -> (count: u32) {
        digit_count_positive(self.get() as u128, 16)
    }

    fn count_digits(self) -> (count: usize) {
        digit_count_positive(self.get() as u128, 10) as usize
    }

    fn count_digits_radix(self, radix: u128) -> (count: usize) {
        if radix == 2 {
            self.count_bits() as usize
        } else if radix == 8 {
            self.count_octal_digits() as usize
        } else if radix == 10 {
            self.count_digits()
        } else if radix == 16 {
            self.count_hex_digits() as usize
        } else {
            digit_count_positive(self.get() as u128, radix as u128) as usize
        }
    }

    fn checked_count_digits_radix(self, radix: u128) -> (count: Option<usize>) {
        if radix < 2 {
            None
        } else {
            Some(self.count_digits_radix(radix))
        }
    }
}

/// A `usize` that is never zero, so its magnitude always has a well-defined
/// logarithm and counting it never needs the zero fallback.
#[derive(Clone, Copy)]
pub struct NonZeroUsize {
    value: usize,
}

impl NonZeroUsize {
    /// The wrapped primitive value.
    pub closed spec fn spec_get(self) -> usize {
        self.value
    }

    #[verifier::type_invariant]
    closed spec fn non_zero(self) -> bool {
        self.value != 0
    }

    /// Wraps `value`; zero has no wrapped form.
    pub fn new(value: usize) -> (result: Option<NonZeroUsize>)
        ensures
            value == 0 <==> result is None,
            result matches Some(wrapped) ==> wrapped.spec_get() == value,
    {
        if value == 0 {
            None
        } else {
            Some(NonZeroUsize { value })
        }
    }

    /// Returns the wrapped value, which is never zero.
    pub fn get(self) -> (value: usize)
        ensures
            value == self.spec_get(),
            value != 0,
    {
        proof {
            use_type_invariant(&self);
        }
        self.value
    }
}

/// Counts exactly as the wrapped `usize` does for every shared value, via
/// the same view functions, but along the unfallible positive path.
impl CountDigits for NonZeroUsize {
    type Radix = usize;

    open spec fn abs_value(self) -> nat {
        self.spec_get().abs_value()
    }

    open spec fn negative(self) -> bool {
        self.spec_get().negative()
    }

    open spec fn min_abs_value(self) -> nat {
        self.spec_get().min_abs_value()
    }

    open spec fn radix_value(radix: usize) -> nat {
        <usize as CountDigits>::radix_value(radix)
    }

    fn count_bits(self) -> (count: u32) {
        digit_count_positive(self.get() as u128, 2)
    }

    fn count_octal_digits(self) -> (count: u32) {
        digit_count_positive(self.get() as u128, 8)
    }

    fn count_hex_digits(self) -> (count: u32) {
        digit_count_positive(self.get() as u128, 16)
    }

    fn count_digits(self) -> (count: usize) {
        digit_count_positive(self.get() as u128, 10) as usize
    }

    fn count_digits_radix(self, radix: usize) -> (count: usize) {
        if radix == 2 {
            self.count_bits() as usize
        } else if radix == 8 {
            self.count_octal_digits() as usize
        } else if radix == 10 {
            self.count_digits()
        } else if radix == 16 {
            self.count_hex_digits() as usize
        } else {
            digit_count_positive(self.get() as u128, radix as u128) as usize
        }
    }

    fn checked_count_digits_radix(self, radix: usize) -> (count: Option<usize>) {
        if radix < 2 {
            None
        } else {
            Some(self.count_digits_radix(radix))
        }
    }
}

} // verus!
