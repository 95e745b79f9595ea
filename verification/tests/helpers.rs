//! The iteration helpers used by the boundary-walking tests, checked on
//! known values before anything else relies on them.

use count_digits::CountDigits;

/// Pairs `[n, m]` of boundaries for the given radix, where `n` is the
/// largest value of its digit-count group and `m` the smallest of the next.
fn radix_boundaries_i8(radix: i8) -> Vec<[i8; 2]> {
    std::iter::successors(Some(radix), move |n| n.checked_mul(radix))
        .map(|n| [n - 1, n])
        .collect()
}

/// Boundary pairs for 16-bit values; see [`radix_boundaries_i8`].
fn radix_boundaries_i16(radix: i16) -> Vec<[i16; 2]> {
    std::iter::successors(Some(radix), move |n| n.checked_mul(radix))
        .map(|n| [n - 1, n])
        .collect()
}

/// Returns an iterator of increasing pairs starting with (1, 2).
fn increasing_pairs() -> impl Iterator<Item = (usize, usize)> {
    std::iter::successors(Some(1usize), move |n| n.checked_add(1)).zip(std::iter::successors(
        Some(2usize),
        move |n| n.checked_add(1),
    ))
}

#[test]
fn helper_radix_boundaries() {
    assert_eq!(
        radix_boundaries_i8(2),
        [[1, 2], [3, 4], [7, 8], [15, 16], [31, 32], [63, 64]],
    );
    assert_eq!(
        radix_boundaries_i16(10),
        [[9, 10], [99, 100], [999, 1000], [9999, 10000]],
    );
    assert_eq!(
        radix_boundaries_i16(16),
        [[0xF, 0x10], [0xFF, 0x100], [0xFFF, 0x1000]],
    );
}

#[test]
fn helper_increasing_pairs() {
    assert_eq!(
        increasing_pairs().take(5).collect::<Vec<_>>(),
        [(1, 2), (2, 3), (3, 4), (4, 5), (5, 6)],
    );
}

#[test]
fn boundaries_count_their_own_digits() {
    for radix in 2..20i16 {
        for ([high, low], (high_digits, low_digits)) in
            radix_boundaries_i16(radix).into_iter().zip(increasing_pairs())
        {
            assert_eq!(high.count_digits_radix(radix as u16), high_digits);
            assert_eq!(low.count_digits_radix(radix as u16), low_digits);
            assert_eq!(
                high.checked_count_digits_radix(radix as u16),
                Some(high_digits)
            );
            assert_eq!(
                low.checked_count_digits_radix(radix as u16),
                Some(low_digits)
            );
        }
    }
}
