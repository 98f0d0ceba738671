//! The bitmap font: ten glyphs of eight rows by eight columns, and the
//! decimal digits of an index.

use vstd::prelude::*;
use crate::Coord;

verus! {

/// The side of the square that one dot of a glyph is painted as.
pub const DIGIT_RECT_SIZE: Coord = 2;

/// The rows of a glyph.
pub const DIGIT_ROWS: Coord = 8;

/// The columns of a glyph.
pub const DIGIT_COLS: Coord = 8;

/// The width and the height of a painted glyph, in pixels.
pub const DIGIT_WIDTH: Coord = 16;

/// Whether bit `index` of `mask` is set, counting from the least significant.
pub open spec fn bit_is_set(mask: u64, index: int) -> bool {
    0 <= index < 64 && mask & (1u64 << (index as u64)) != 0
}

/// The glyph of a decimal digit, row by row from the least significant byte.
pub open spec fn glyph_mask(digit: int) -> u64 {
    if digit == 0 {
        0x3c4242424242423c
    } else if digit == 1 {
        0x7820202020203830
    } else if digit == 2 {
        0x7c0c183060606438
    } else if digit == 3 {
        0x3c2220301830223c
    } else if digit == 4 {
        0x7020203e22242830
    } else if digit == 5 {
        0x1e304040301e027e
    } else if digit == 6 {
        0x3c46463e060c1830
    } else if digit == 7 {
        0x04040c183060627e
    } else if digit == 8 {
        0x3c4242423c42423c
    } else {
        0x0c1830607c62623c
    }
}

/// Reads one bit of a 64-bit mask with `bitmaps::Bitmap::from_value` and
/// `bitmaps::Bitmap::get`: the mask is the bitmap's store, and `get` tests
/// it against `1 << index`. `get` expects an index below the bitmap's size.
#[verifier::external_body]
fn bitmap_bit(mask: u64, index: usize) -> (set: bool)
    requires
        index < 64,
    ensures
        set == bit_is_set(mask, index as int),
{
    bitmaps::Bitmap::<typenum::U64>::from_value(mask).get(index)
}

/// One glyph: 64 dots, row-major, a set bit for a painted dot.
#[derive(Debug, Clone, Copy)]
pub struct Digit(pub u64);

impl Digit {
    /// The dot at `row` and `col` is painted.
    pub open spec fn dot(self, row: int, col: int) -> bool {
        0 <= row < 8 && 0 <= col < 8 && bit_is_set(self.0, row * 8 + col)
    }

    pub fn new(bitmap: u64) -> (digit: Digit)
        ensures
            digit.0 == bitmap,
    {
        Digit(bitmap)
    }

    /// The glyph of the decimal digit `digit`.
    pub fn of(digit: u8) -> (glyph: Digit)
        requires
            digit < 10,
        ensures
            glyph.0 == glyph_mask(digit as int),
    {
        if digit == 0 {
            Digit::new(0x3c4242424242423c)
        } else if digit == 1 {
            Digit::new(0x7820202020203830)
        } else if digit == 2 {
            Digit::new(0x7c0c183060606438)
        } else if digit == 3 {
            Digit::new(0x3c2220301830223c)
        } else if digit == 4 {
            Digit::new(0x7020203e22242830)
        } else if digit == 5 {
            Digit::new(0x1e304040301e027e)
        } else if digit == 6 {
            Digit::new(0x3c46463e060c1830)
        } else if digit == 7 {
            Digit::new(0x04040c183060627e)
        } else if digit == 8 {
            Digit::new(0x3c4242423c42423c)
        } else {
            Digit::new(0x0c1830607c62623c)
        }
    }

    /// Whether the dot at `row` and `col` is painted.
    pub fn bit_at(&self, row: usize, col: usize) -> (set: bool)
        requires
            row < 8,
            col < 8,
        ensures
            set == self.dot(row as int, col as int),
    {
        bitmap_bit(self.0, row * 8 + col)
    }
}

/// The decimal digits of `n`, the least significant first; one digit for 0.
pub open spec fn decimal_digits(n: nat) -> Seq<u8>
    decreases n,
{
    if n < 10 {
        seq![n as u8]
    } else {
        seq![(n % 10) as u8] + decimal_digits(n / 10)
    }
}

/// The number that a sequence of decimal digits stands for, the least
/// significant digit first.
pub open spec fn digits_value(digits: Seq<u8>) -> nat
    decreases digits.len(),
{
    if digits.len() == 0 {
        0
    } else {
        digits[0] as nat + 10 * digits_value(digits.drop_first())
    }
}

/// The digits of a number are decimal digits, at least one, without a
/// leading zero unless the number is 0, and they stand for the number.
pub proof fn decimal_digits_are_exact(n: nat)
    ensures
        decimal_digits(n).len() >= 1,
        forall|k: int| 0 <= k < decimal_digits(n).len() ==> #[trigger] decimal_digits(n)[k] < 10,
        n > 0 ==> decimal_digits(n).last() != 0,
        digits_value(decimal_digits(n)) == n,
    decreases n,
{
    if n < 10 {
        let one = decimal_digits(n);
        assert(one.drop_first().len() == 0);
        assert(digits_value(one) == one[0] as nat + 10 * digits_value(one.drop_first()));
    } else {
        decimal_digits_are_exact(n / 10);
        let all = decimal_digits(n);
        let rest = decimal_digits(n / 10);
        assert(all.drop_first() =~= rest);
        assert(all.last() == rest.last());
        assert(digits_value(all) == all[0] as nat + 10 * digits_value(all.drop_first()));
    }
}

/// A number below `10^k` has at most `k` digits; so an index of 64 bits has
/// at most twenty.
pub proof fn decimal_digits_are_few(n: nat)
    ensures
        n < 10 ==> decimal_digits(n).len() == 1,
        n <= 0xffff_ffff_ffff_ffff ==> decimal_digits(n).len() <= 20,
{
    reveal_with_fuel(decimal_digits, 21);
}

/// Splits a number into its decimal digits, the least significant first.
pub fn num_to_digits(num: usize) -> (digits: Vec<u8>)
    ensures
        digits@ == decimal_digits(num as nat),
{
    if num < 10 {
        let mut single: Vec<u8> = Vec::new();
        single.push(num as u8);
        assert(single@ =~= decimal_digits(num as nat));
        return single;
    }
    let mut digits: Vec<u8> = Vec::new();
    let radix: usize = 10;
    let mut rest: usize = num;

    while rest != 0
        invariant
            radix == 10,
            rest > 0 ==> digits@ + decimal_digits(rest as nat) == decimal_digits(num as nat),
            rest == 0 ==> digits@ == decimal_digits(num as nat),
        decreases rest,
    {
        proof {
            let before = digits@;
            let low = seq![(rest % 10) as u8];
            if rest < 10 {
                assert(before.push((rest % 10) as u8) =~= before + decimal_digits(rest as nat));
            } else {
                assert(before.push((rest % 10) as u8) + decimal_digits((rest / 10) as nat)
                    =~= before + (low + decimal_digits((rest / 10) as nat)));
            }
        }
        digits.push((rest % radix) as u8);
        rest /= radix;
    }

    digits
}

} // verus!
