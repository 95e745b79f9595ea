//! The digit-counting trait: one family of counting operations per integer
//! type, each pinned to the mathematical model in [`crate::digits`].

use crate::digits::{spec_digit_count, spec_radix_count};
use vstd::prelude::*;

verus! {

/// Counts the digits of an integer value in various number bases.
///
/// Each implementing type exposes its value through three spec functions:
/// the magnitude [`abs_value`](CountDigits::abs_value), the sign
/// [`negative`](CountDigits::negative), and the magnitude of the type's most
/// negative value [`min_abs_value`](CountDigits::min_abs_value) (zero for
/// unsigned types). All six counting operations promise exactly
/// [`spec_radix_count`] over that view, so the named operations agree with
/// [`count_digits_radix`](CountDigits::count_digits_radix) at bases 2, 8, 10
/// and 16 by contract alone.
///
/// Negative values follow the two's-complement width convention in every
/// base but 10: they count as the type's most negative value. Base 10 counts
/// the magnitude alone, and the sign is never a digit.
pub trait CountDigits: Copy + Sized {
    /// The type of the base argument of
    /// [`count_digits_radix`](CountDigits::count_digits_radix): the unsigned
    /// type of the same width as `Self`.
    type Radix: Copy;

    /// Magnitude of the value: its absolute value, ignoring the sign.
    spec fn abs_value(self) -> nat;

    /// Whether the value lies below zero; never true for unsigned types.
    spec fn negative(self) -> bool;

    /// Magnitude of the type's most negative value; zero for unsigned types.
    spec fn min_abs_value(self) -> nat;

    /// The base carried by a `Self::Radix` argument, as a natural number.
    spec fn radix_value(radix: Self::Radix) -> nat;

    /// Returns the count of bits in the value.
    fn count_bits(self) -> (count: u32)
        ensures
            count == spec_radix_count(2, self.negative(), self.abs_value(), self.min_abs_value()),
    ;

    /// Returns the count of octal digits in the value.
    fn count_octal_digits(self) -> (count: u32)
        ensures
            count == spec_radix_count(8, self.negative(), self.abs_value(), self.min_abs_value()),
    ;

    /// Returns the count of hexadecimal digits in the value.
    fn count_hex_digits(self) -> (count: u32)
        ensures
            count == spec_radix_count(16, self.negative(), self.abs_value(), self.min_abs_value()),
    ;

    /// Returns the count of decimal digits in the value's magnitude. The
    /// negative sign is not a digit and is never counted.
    fn count_digits(self) -> (count: usize)
        ensures
            count == spec_digit_count(10, self.abs_value()),
    ;

    /// Returns the count of digits in the value as rendered in the given
    /// base, which must be at least 2.
    fn count_digits_radix(self, radix: Self::Radix) -> (count: usize)
        requires
            2 <= Self::radix_value(radix),
        ensures
            count == spec_radix_count(
                Self::radix_value(radix),
                self.negative(),
                self.abs_value(),
                self.min_abs_value(),
            ),
    ;

    /// Returns the count of digits in the value as rendered in the given
    /// base, or `None` when the base is 0 or 1.
    fn checked_count_digits_radix(self, radix: Self::Radix) -> (count: Option<usize>)
        ensures
            Self::radix_value(radix) < 2 ==> count is None,
            2 <= Self::radix_value(radix) ==> (count matches Some(digits) && digits
                == spec_radix_count(
                Self::radix_value(radix),
                self.negative(),
                self.abs_value(),
                self.min_abs_value(),
            )),
    ;
}

/// A reference counts exactly as the value it points to: referencing never
/// alters the contract.
impl<T: CountDigits> CountDigits for &T {
    type Radix = T::Radix;

    open spec fn abs_value(self) -> nat {
        (*self).abs_value()
    }

    open spec fn negative(self) -> bool {
        (*self).negative()
    }

    open spec fn min_abs_value(self) -> nat {
        (*self).min_abs_value()
    }

    open spec fn radix_value(radix: T::Radix) -> nat {
        T::radix_value(radix)
    }

    fn count_bits(self) -> (count: u32) {
        (*self).count_bits()
    }

    fn count_octal_digits(self) -> (count: u32) {
        (*self).count_octal_digits()
    }

    fn count_hex_digits(self) -> (count: u32) {
        (*self).count_hex_digits()
    }

    fn count_digits(self) -> (count: usize) {
        (*self).count_digits()
    }

    fn count_digits_radix(self, radix: T::Radix) -> (count: usize) {
        (*self).count_digits_radix(radix)
    }

    fn checked_count_digits_radix(self, radix: T::Radix) -> (count: Option<usize>) {
        (*self).checked_count_digits_radix(radix)
    }
}

} // verus!
