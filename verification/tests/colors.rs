use rtree_test::color::{
    ColorHSV, IntoRGB, UnpackRGB, BEGIN_EDIT_COLOR, DATA_COLOR, DEFAULT_COLOR, FOUND_COLOR, SEARCH_COLOR,
};
use rtree_test::digit::{num_to_digits, Digit};

#[test]
fn channels_pack_into_one_word() {
    assert_eq!((0x12u8, 0x34u8, 0x56u8).into_rgb(), 0x00123456);
    assert_eq!((0u8, 0u8, 0u8).into_rgb(), 0);
    assert_eq!((255u8, 255u8, 255u8).into_rgb(), 0x00ffffff);
    assert_eq!((255u8, 0u8, 0u8).into_rgb(), 0x00ff0000);
    assert_eq!((0u8, 255u8, 0u8).into_rgb(), 0x0000ff00);
    assert_eq!((0u8, 0u8, 255u8).into_rgb(), 0x000000ff);
}

#[test]
fn a_word_unpacks_into_its_channels() {
    assert_eq!(0x00123456u32.unpack_rgb(), (0x12, 0x34, 0x56));
    assert_eq!(0x00ffffffu32.unpack_rgb(), (255, 255, 255));
    assert_eq!(0xab123456u32.unpack_rgb(), (0x12, 0x34, 0x56));
}

#[test]
fn unpack_inverts_pack_on_samples() {
    for r in [0u8, 1, 127, 128, 255] {
        for g in [0u8, 3, 200, 255] {
            for b in [0u8, 77, 255] {
                assert_eq!((r, g, b).into_rgb().unpack_rgb(), (r, g, b));
            }
        }
    }
}

#[test]
fn primary_hues_convert_to_primary_colours() {
    assert_eq!(ColorHSV(0, 100, 100).into_rgb(), 0x00ff0000);
    assert_eq!(ColorHSV(120, 100, 100).into_rgb(), 0x0000ff00);
    assert_eq!(ColorHSV(240, 100, 100).into_rgb(), 0x000000ff);
}

#[test]
fn each_sector_of_the_wheel_has_its_order_of_channels() {
    // value 100, floor 0, ramp 50: channel values 255, 0 and 127
    assert_eq!(ColorHSV(30, 100, 100).into_rgb(), 0x00ff7f00);
    assert_eq!(ColorHSV(90, 100, 100).into_rgb(), 0x007fff00);
    assert_eq!(ColorHSV(150, 100, 100).into_rgb(), 0x0000ff7f);
    assert_eq!(ColorHSV(210, 100, 100).into_rgb(), 0x00007fff);
    assert_eq!(ColorHSV(255, 100, 100).into_rgb(), 0x003f00ff);
    assert_eq!(ColorHSV(60, 100, 100).into_rgb(), 0x00ffff00);
}

#[test]
fn scaling_a_percentage_drops_the_fraction() {
    // 255 * 50 / 100 is 127.5
    assert_eq!(ColorHSV(0, 0, 50).into_rgb(), 0x007f7f7f);
    // 255 * 1 / 100 is 2.55
    assert_eq!(ColorHSV(0, 0, 1).into_rgb(), 0x00020202);
    // 255 * 99 / 100 is 252.45
    assert_eq!(ColorHSV(0, 0, 99).into_rgb(), 0x00fcfcfc);
    assert_eq!(ColorHSV(0, 0, 0).into_rgb(), 0);
}

#[test]
fn a_value_above_a_hundred_percent_is_capped() {
    assert_eq!(ColorHSV(0, 0, 200).into_rgb(), 0x00ffffff);
}

#[test]
fn half_saturation_lifts_the_weak_channels() {
    // floor 50 -> 127, ramp 0
    assert_eq!(ColorHSV(0, 50, 100).into_rgb(), 0x00ff7f7f);
    // floor 40, ramp (80 - 40) * 20 / 60 = 13: falling channel 67 -> 170, floor 40 -> 102, value 80 -> 204
    assert_eq!(ColorHSV(80, 50, 80).into_rgb(), 0x00aacc66);
}

#[test]
fn the_palette_is_fixed() {
    assert_eq!(DEFAULT_COLOR, 0x00ffffff);
    assert_eq!(DATA_COLOR, 0);
    assert_eq!(FOUND_COLOR, 0x0000ff00);
    assert_eq!(SEARCH_COLOR, 0x00ff0000);
    assert_eq!(BEGIN_EDIT_COLOR, 0x000000ff);
}

#[test]
fn digits_come_least_significant_first() {
    assert_eq!(num_to_digits(0), vec![0]);
    assert_eq!(num_to_digits(7), vec![7]);
    assert_eq!(num_to_digits(9), vec![9]);
    assert_eq!(num_to_digits(10), vec![0, 1]);
    assert_eq!(num_to_digits(1234), vec![4, 3, 2, 1]);
    assert_eq!(num_to_digits(100), vec![0, 0, 1]);
}

#[test]
fn the_largest_index_has_twenty_digits() {
    let digits = num_to_digits(18446744073709551615);
    assert_eq!(digits, vec![5, 1, 6, 1, 5, 5, 9, 0, 7, 3, 7, 0, 4, 4, 7, 6, 4, 4, 8, 1]);
}

#[test]
fn digits_stand_for_the_number() {
    for n in [0usize, 5, 10, 99, 100, 4096, 65535, 1000000007] {
        let mut value = 0usize;
        for d in num_to_digits(n).iter().rev() {
            assert!(*d < 10);
            value = value * 10 + *d as usize;
        }
        assert_eq!(value, n);
    }
}

#[test]
fn glyph_rows_are_the_bytes_of_the_mask() {
    let one = Digit::of(1);
    assert_eq!(one.0, 0x7820202020203830);
    // row 0 is 0x30: columns 4 and 5
    for col in 0..8 {
        assert_eq!(one.bit_at(0, col), col == 4 || col == 5);
    }
    // row 7 is 0x78: columns 3 to 6
    for col in 0..8 {
        assert_eq!(one.bit_at(7, col), (3..=6).contains(&col));
    }
}

#[test]
fn a_glyph_bit_is_a_bit_of_the_mask() {
    for digit in 0..10u8 {
        let glyph = Digit::of(digit);
        for row in 0..8usize {
            for col in 0..8usize {
                let expected = (glyph.0 >> (row * 8 + col)) & 1 == 1;
                assert_eq!(glyph.bit_at(row, col), expected);
            }
        }
    }
}

#[test]
fn a_single_bit_mask_has_a_single_dot() {
    let glyph = Digit::new(1 << 19);
    for row in 0..8usize {
        for col in 0..8usize {
            assert_eq!(glyph.bit_at(row, col), row == 2 && col == 3);
        }
    }
    assert!(Digit::new(1 << 63).bit_at(7, 7));
    assert!(!Digit::new(0).bit_at(0, 0));
}
