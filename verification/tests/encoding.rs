use fhe_game::board::Direction;
use fhe_game::encoding::{binary_to_coords, coords_to_binary, u8_to_binary};

#[test]
fn u8_to_binary_is_little_endian() {
    assert_eq!(u8_to_binary::<8>(5), vec![true, false, true, false, false, false, false, false]);
    assert_eq!(u8_to_binary::<8>(0), vec![false; 8]);
    assert_eq!(u8_to_binary::<8>(255), vec![true; 8]);
    assert_eq!(u8_to_binary::<2>(3), vec![true, true]);
    assert_eq!(u8_to_binary::<3>(4), vec![false, false, true]);
    assert_eq!(u8_to_binary::<0>(0), Vec::<bool>::new());
}

#[test]
fn direction_codes_and_bits() {
    assert_eq!(Direction::Up.code(), 0);
    assert_eq!(Direction::Down.code(), 1);
    assert_eq!(Direction::Left.code(), 2);
    assert_eq!(Direction::Right.code(), 3);
    assert_eq!(u8_to_binary::<8>(Direction::Right.code())[..2], [true, true]);
    assert_eq!(u8_to_binary::<8>(Direction::Left.code())[..2], [false, true]);
}

#[test]
fn coords_to_binary_keeps_each_bit_in_place() {
    // x fills positions 0..4, y's own bits 4..8 fill positions 4..8.
    assert_eq!(
        coords_to_binary::<8>(0b0000_0101, 0b1010_0000),
        vec![true, false, true, false, false, true, false, true]
    );
    assert_eq!(coords_to_binary::<8>(0xff, 0x0f), vec![true, true, true, true, false, false, false, false]);
    assert_eq!(coords_to_binary::<4>(3, 4), vec![true, true, true, false]);
}

#[test]
fn binary_to_coords_reads_both_halves() {
    let bits = [true, false, true, false, true, true, false, false];
    assert_eq!(binary_to_coords::<8>(&bits), [5, 3]);
    let bits = [true; 16];
    assert_eq!(binary_to_coords::<16>(&bits), [255, 255]);
    assert_eq!(binary_to_coords::<16>(&[false, true, true, false, false, false, false, false, true, true, false, false, false, false, false, true]), [6, 131]);
    // Only the first N bits are read.
    assert_eq!(binary_to_coords::<4>(&[true, true, false, true, true, true]), [3, 2]);
}

#[test]
fn binary_to_coords_wraps_long_values() {
    let mut bits = vec![false; 18];
    bits[8] = true; // 2^8 in the first half
    bits[0] = true;
    assert_eq!(binary_to_coords::<18>(&bits), [1, 0]);
}

#[test]
fn coords_round_trip() {
    for x in 0..16u8 {
        for y in 0..=255u8 {
            let bits = coords_to_binary::<8>(x, y);
            assert_eq!(binary_to_coords::<8>(&bits), [x, (y >> 4) & 0x0f]);
        }
    }
    // Bits of y below N/2 are not encoded.
    assert_eq!(binary_to_coords::<8>(&coords_to_binary::<8>(0, 1)), [0, 0]);
}
