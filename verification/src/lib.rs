//! Digit counting for fixed-width integers in positional number bases.
//!
//! The [`CountDigits`] trait reports how many digits a value occupies when
//! rendered in binary, octal, decimal, hexadecimal, or an arbitrary base of
//! at least 2. Every counting function carries a contract pinning its result
//! to the mathematical digit count of the value's magnitude.

pub mod count_digits;
pub mod digits;
pub mod non_zero;
pub mod signed;
pub mod unsigned;

pub use crate::count_digits::CountDigits;
pub use crate::non_zero::NonZeroI128;
pub use crate::non_zero::NonZeroI16;
pub use crate::non_zero::NonZeroI32;
pub use crate::non_zero::NonZeroI64;
pub use crate::non_zero::NonZeroI8;
pub use crate::non_zero::NonZeroIsize;
pub use crate::non_zero::NonZeroU128;
pub use crate::non_zero::NonZeroU16;
pub use crate::non_zero::NonZeroU32;
pub use crate::non_zero::NonZeroU64;
pub use crate::non_zero::NonZeroU8;
pub use crate::non_zero::NonZeroUsize;
