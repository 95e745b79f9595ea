//! Scenario tests for the primitive implementations: named-function
//! agreement, boundary values, sign handling, base ordering, and invalid
//! bases.

use count_digits::CountDigits;

#[test]
fn radix_dispatch_matches_named_functions() {
    for n in 0..100i32 {
        assert_eq!(n.count_digits_radix(2u32) as u32, n.count_bits());
        assert_eq!(n.count_digits_radix(8u32) as u32, n.count_octal_digits());
        assert_eq!(n.count_digits_radix(10u32), n.count_digits());
        assert_eq!(n.count_digits_radix(16u32) as u32, n.count_hex_digits());
    }
    for n in -100..0i32 {
        assert_eq!(n.count_digits_radix(2u32) as u32, n.count_bits());
        assert_eq!(n.count_digits_radix(8u32) as u32, n.count_octal_digits());
        assert_eq!(n.count_digits_radix(10u32), n.count_digits());
        assert_eq!(n.count_digits_radix(16u32) as u32, n.count_hex_digits());
    }
    for n in 0..100u64 {
        assert_eq!(n.count_digits_radix(2u64) as u32, n.count_bits());
        assert_eq!(n.count_digits_radix(8u64) as u32, n.count_octal_digits());
        assert_eq!(n.count_digits_radix(10u64), n.count_digits());
        assert_eq!(n.count_digits_radix(16u64) as u32, n.count_hex_digits());
    }
}

#[test]
fn checked_dispatch_matches_named_functions() {
    for n in -50..50i16 {
        assert_eq!(
            n.checked_count_digits_radix(2u16).unwrap() as u32,
            n.count_bits()
        );
        assert_eq!(
            n.checked_count_digits_radix(8u16).unwrap() as u32,
            n.count_octal_digits()
        );
        assert_eq!(n.checked_count_digits_radix(10u16).unwrap(), n.count_digits());
        assert_eq!(
            n.checked_count_digits_radix(16u16).unwrap() as u32,
            n.count_hex_digits()
        );
    }
}

#[test]
fn eight_bit_boundaries() {
    assert_eq!(127i8.count_digits(), 3);
    assert_eq!((-128i8).count_digits(), 3);
    assert_eq!(127i8.count_bits(), 7);
    assert_eq!((-128i8).count_bits(), 8);
    assert_eq!(255u8.count_hex_digits(), 2);
    assert_eq!(0u8.count_digits(), 1);
}

#[test]
fn zero_counts_one_digit_in_every_base() {
    for radix in 2..=36u32 {
        assert_eq!(0i32.count_digits_radix(radix), 1);
        assert_eq!(0u32.count_digits_radix(radix), 1);
        assert_eq!(0i32.checked_count_digits_radix(radix), Some(1));
        assert_eq!(0u32.checked_count_digits_radix(radix), Some(1));
    }
    assert_eq!(0u8.count_bits(), 1);
    assert_eq!(0u8.count_octal_digits(), 1);
    assert_eq!(0u8.count_hex_digits(), 1);
    assert_eq!(0i128.count_bits(), 1);
    assert_eq!(0usize.count_digits(), 1);
}

#[test]
fn invalid_radix_is_absent_on_checked() {
    assert_eq!(1i8.checked_count_digits_radix(0u8), None);
    assert_eq!(1i8.checked_count_digits_radix(1u8), None);
    assert_eq!(1i16.checked_count_digits_radix(0u16), None);
    assert_eq!(1i16.checked_count_digits_radix(1u16), None);
    assert_eq!(1i32.checked_count_digits_radix(0u32), None);
    assert_eq!(1i32.checked_count_digits_radix(1u32), None);
    assert_eq!(1i64.checked_count_digits_radix(0u64), None);
    assert_eq!(1i64.checked_count_digits_radix(1u64), None);
    assert_eq!(1i128.checked_count_digits_radix(0u128), None);
    assert_eq!(1i128.checked_count_digits_radix(1u128), None);
    assert_eq!(1isize.checked_count_digits_radix(0usize), None);
    assert_eq!(1isize.checked_count_digits_radix(1usize), None);
    assert_eq!(1u8.checked_count_digits_radix(0u8), None);
    assert_eq!(1u8.checked_count_digits_radix(1u8), None);
    assert_eq!(1u16.checked_count_digits_radix(0u16), None);
    assert_eq!(1u16.checked_count_digits_radix(1u16), None);
    assert_eq!(1u32.checked_count_digits_radix(0u32), None);
    assert_eq!(1u32.checked_count_digits_radix(1u32), None);
    assert_eq!(1u64.checked_count_digits_radix(0u64), None);
    assert_eq!(1u64.checked_count_digits_radix(1u64), None);
    assert_eq!(1u128.checked_count_digits_radix(0u128), None);
    assert_eq!(1u128.checked_count_digits_radix(1u128), None);
    assert_eq!(1usize.checked_count_digits_radix(0usize), None);
    assert_eq!(1usize.checked_count_digits_radix(1usize), None);
}

#[test]
fn decimal_count_ignores_sign() {
    assert_eq!(12345i32.wrapping_neg().count_digits(), 5);
    assert_eq!(12345i32.wrapping_neg().count_digits_radix(10u32), 5);
    assert_eq!(867_5309i32.count_digits(), 867_5309i32.wrapping_neg().count_digits());
    for n in 1..1000i64 {
        assert_eq!(n.count_digits(), (-n).count_digits());
    }
    assert_eq!((i32::MIN + 1).count_digits(), i32::MAX.count_digits());
}

#[test]
fn non_decimal_counts_follow_width_convention() {
    for radix in 2..=16u32 {
        if radix == 10 {
            assert_eq!(
                0xF00Di32.count_digits_radix(radix),
                0xF00Di32.wrapping_neg().count_digits_radix(radix),
            );
        } else {
            assert_ne!(
                0xBADi32.count_digits_radix(radix),
                0xBADi32.wrapping_neg().count_digits_radix(radix),
            );
        }
    }
    // every negative value counts as the most negative one
    assert_eq!((-1i8).count_bits(), 8);
    assert_eq!((-1i8).count_octal_digits(), 3);
    assert_eq!((-1i8).count_hex_digits(), 2);
    assert_eq!((-1i8).count_digits_radix(3u8), (-128i8).count_digits_radix(3u8));
}

#[test]
fn counts_never_grow_with_the_base() {
    let radices: [u32; 14] = [2, 3, 4, 5, 6, 7, 8, 9, 11, 12, 13, 14, 15, 16];
    for n in [-100_000i32, -77i32, -1i32, 0i32, 1i32, 42i32, 99_999i32] {
        let counts: Vec<usize> = radices.iter().map(|r| n.count_digits_radix(*r)).collect();
        assert!(counts.windows(2).all(|window| window[0] >= window[1]));
        let checked: Vec<usize> = radices
            .iter()
            .map(|r| n.checked_count_digits_radix(*r).unwrap())
            .collect();
        assert!(checked.windows(2).all(|window| window[0] >= window[1]));
    }
    for n in [0u64, 1u64, 255u64, 100_000u64, u64::MAX] {
        for pair in [(2u64, 3u64), (3, 8), (8, 10), (10, 16), (16, 36)] {
            assert!(n.count_digits_radix(pair.0) >= n.count_digits_radix(pair.1));
        }
    }
}

#[test]
fn power_boundaries_cross_exactly() {
    for radix in 2..20u128 {
        let mut power: u128 = radix;
        let mut digits: usize = 1;
        loop {
            assert_eq!((power - 1).count_digits_radix(radix), digits);
            assert_eq!(power.count_digits_radix(radix), digits + 1);
            match power.checked_mul(radix) {
                Some(next) => power = next,
                None => break,
            }
            digits += 1;
        }
    }
}

#[test]
fn signed_min_and_max_counts() {
    assert_eq!(i8::MIN.count_bits(), 8);
    assert_eq!(i8::MAX.count_bits(), 7);
    assert_eq!(i8::MIN.count_octal_digits(), 3);
    assert_eq!(i8::MAX.count_octal_digits(), 3);
    assert_eq!(i8::MIN.count_hex_digits(), 2);
    assert_eq!(i8::MAX.count_hex_digits(), 2);
    assert_eq!(i8::MIN.count_digits(), 3);
    assert_eq!(i8::MAX.count_digits(), 3);

    assert_eq!(i16::MIN.count_bits(), 16);
    assert_eq!(i16::MAX.count_bits(), 15);
    assert_eq!(i16::MIN.count_octal_digits(), 6);
    assert_eq!(i16::MAX.count_octal_digits(), 5);
    assert_eq!(i16::MIN.count_hex_digits(), 4);
    assert_eq!(i16::MAX.count_hex_digits(), 4);
    assert_eq!(i16::MIN.count_digits(), 5);
    assert_eq!(i16::MAX.count_digits(), 5);

    assert_eq!(i32::MIN.count_bits(), 32);
    assert_eq!(i32::MAX.count_bits(), 31);
    assert_eq!(i32::MIN.count_octal_digits(), 11);
    assert_eq!(i32::MAX.count_octal_digits(), 11);
    assert_eq!(i32::MIN.count_hex_digits(), 8);
    assert_eq!(i32::MAX.count_hex_digits(), 8);
    assert_eq!(i32::MIN.count_digits(), 10);
    assert_eq!(i32::MAX.count_digits(), 10);

    assert_eq!(i64::MIN.count_bits(), 64);
    assert_eq!(i64::MAX.count_bits(), 63);
    assert_eq!(i64::MIN.count_octal_digits(), 22);
    assert_eq!(i64::MAX.count_octal_digits(), 21);
    assert_eq!(i64::MIN.count_hex_digits(), 16);
    assert_eq!(i64::MAX.count_hex_digits(), 16);
    assert_eq!(i64::MIN.count_digits(), 19);
    assert_eq!(i64::MAX.count_digits(), 19);

    assert_eq!(i128::MIN.count_bits(), 128);
    assert_eq!(i128::MAX.count_bits(), 127);
    assert_eq!(i128::MIN.count_octal_digits(), 43);
    assert_eq!(i128::MAX.count_octal_digits(), 43);
    assert_eq!(i128::MIN.count_hex_digits(), 32);
    assert_eq!(i128::MAX.count_hex_digits(), 32);
    assert_eq!(i128::MIN.count_digits(), 39);
    assert_eq!(i128::MAX.count_digits(), 39);
}

#[test]
fn unsigned_min_and_max_counts() {
    assert_eq!(u8::MIN.count_bits(), 1);
    assert_eq!(u8::MAX.count_bits(), 8);
    assert_eq!(u8::MIN.count_octal_digits(), 1);
    assert_eq!(u8::MAX.count_octal_digits(), 3);
    assert_eq!(u8::MIN.count_hex_digits(), 1);
    assert_eq!(u8::MAX.count_hex_digits(), 2);
    assert_eq!(u8::MIN.count_digits(), 1);
    assert_eq!(u8::MAX.count_digits(), 3);

    assert_eq!(u16::MAX.count_bits(), 16);
    assert_eq!(u16::MAX.count_octal_digits(), 6);
    assert_eq!(u16::MAX.count_hex_digits(), 4);
    assert_eq!(u16::MAX.count_digits(), 5);

    assert_eq!(u32::MAX.count_bits(), 32);
    assert_eq!(u32::MAX.count_octal_digits(), 11);
    assert_eq!(u32::MAX.count_hex_digits(), 8);
    assert_eq!(u32::MAX.count_digits(), 10);

    assert_eq!(u64::MAX.count_bits(), 64);
    assert_eq!(u64::MAX.count_octal_digits(), 22);
    assert_eq!(u64::MAX.count_hex_digits(), 16);
    assert_eq!(u64::MAX.count_digits(), 20);

    assert_eq!(u128::MAX.count_bits(), 128);
    assert_eq!(u128::MAX.count_octal_digits(), 43);
    assert_eq!(u128::MAX.count_hex_digits(), 32);
    assert_eq!(u128::MAX.count_digits(), 39);
}

#[test]
fn pointer_width_counts_match_fixed_width() {
    assert_eq!(isize::MIN.count_bits(), i64::MIN.count_bits());
    assert_eq!(isize::MAX.count_bits(), i64::MAX.count_bits());
    assert_eq!(isize::MIN.count_octal_digits(), i64::MIN.count_octal_digits());
    assert_eq!(isize::MAX.count_octal_digits(), i64::MAX.count_octal_digits());
    assert_eq!(isize::MIN.count_hex_digits(), i64::MIN.count_hex_digits());
    assert_eq!(isize::MAX.count_hex_digits(), i64::MAX.count_hex_digits());
    assert_eq!(isize::MIN.count_digits(), i64::MIN.count_digits());
    assert_eq!(isize::MAX.count_digits(), i64::MAX.count_digits());

    assert_eq!(usize::MIN.count_bits(), u64::MIN.count_bits());
    assert_eq!(usize::MAX.count_bits(), u64::MAX.count_bits());
    assert_eq!(usize::MIN.count_digits(), u64::MIN.count_digits());
    assert_eq!(usize::MAX.count_digits(), u64::MAX.count_digits());

    for radix in 2..20usize {
        assert_eq!(
            (-7isize).count_digits_radix(radix),
            (-7i64).count_digits_radix(radix as u64)
        );
        assert_eq!(
            700usize.count_digits_radix(radix),
            700u64.count_digits_radix(radix as u64)
        );
    }
}

#[test]
fn references_count_like_their_values() {
    for radix in 2..20u32 {
        for n in [i32::MIN, -4097i32, -1, 0, 1, 4096, i32::MAX] {
            assert_eq!(CountDigits::count_bits(n), CountDigits::count_bits(&n));
            assert_eq!(
                CountDigits::count_octal_digits(n),
                CountDigits::count_octal_digits(&n)
            );
            assert_eq!(
                CountDigits::count_hex_digits(n),
                CountDigits::count_hex_digits(&n)
            );
            assert_eq!(CountDigits::count_digits(n), CountDigits::count_digits(&n));
            assert_eq!(
                CountDigits::count_digits_radix(n, radix),
                CountDigits::count_digits_radix(&n, radix)
            );
            assert_eq!(
                CountDigits::checked_count_digits_radix(n, radix),
                CountDigits::checked_count_digits_radix(&n, radix)
            );
        }
    }
}

#[test]
fn exhaustive_small_ranges_match_rendered_length() {
    for n in i16::MIN..=i16::MAX {
        assert_eq!(n.count_bits(), format!("{:b}", n).len() as u32);
        assert_eq!(n.count_octal_digits(), format!("{:o}", n).len() as u32);
        assert_eq!(n.count_hex_digits(), format!("{:x}", n).len() as u32);
        let rendered = format!("{}", n);
        let rendered = rendered.strip_prefix('-').unwrap_or(&rendered);
        assert_eq!(n.count_digits(), rendered.len());
    }
    for n in u16::MIN..=u16::MAX {
        assert_eq!(n.count_bits(), format!("{:b}", n).len() as u32);
        assert_eq!(n.count_octal_digits(), format!("{:o}", n).len() as u32);
        assert_eq!(n.count_hex_digits(), format!("{:x}", n).len() as u32);
        assert_eq!(n.count_digits(), format!("{}", n).len());
    }
}
