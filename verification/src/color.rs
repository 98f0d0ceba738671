//! Packed 24-bit colours and the conversion from hue, saturation and value.

use vstd::prelude::*;

verus! {

/// A colour packed as `0x00RRGGBB`.
pub type ColorRGB = u32;

/// Hue in degrees, saturation and value in percent.
pub struct ColorHSV(pub u8, pub u8, pub u8);

const COLOR_CHANNEL_SIZE: u32 = 8;

/// The colour of an untouched canvas.
pub const DEFAULT_COLOR: ColorRGB = 0x00FFFFFF;

/// The colour of a data rectangle outside the search rectangle.
pub const DATA_COLOR: ColorRGB = 0;

/// The colour of a data rectangle that the search rectangle hits.
pub const FOUND_COLOR: ColorRGB = 0x0000ff00;

/// The colour of the search rectangle.
pub const SEARCH_COLOR: ColorRGB = 0x00ff0000;

/// The colour of the marker at the anchor of a gesture in progress.
pub const BEGIN_EDIT_COLOR: ColorRGB = 0x000000ff;

/// The packed colour with the given red, green and blue channels.
pub open spec fn packed(r: u8, g: u8, b: u8) -> ColorRGB {
    (r as int * 65536 + g as int * 256 + b as int) as u32
}

/// A percentage scaled to the range of a channel: `255 * percent / 100`
/// without its fraction, and 255 where that is larger.
pub open spec fn percent_value(percent: int) -> u8 {
    if 255 * percent / 100 > 255 {
        255u8
    } else {
        (255 * percent / 100) as u8
    }
}

/// Values that turn into a packed colour.
pub trait IntoRGB: Sized {
    /// The values for which the conversion is defined.
    spec fn convertible(self) -> bool;

    /// The packed colour that the value stands for.
    spec fn rgb(self) -> ColorRGB;

    fn into_rgb(self) -> (color: ColorRGB)
        requires
            self.convertible(),
        ensures
            color == self.rgb(),
    ;
}

impl IntoRGB for (u8, u8, u8) {
    open spec fn convertible(self) -> bool {
        true
    }

    open spec fn rgb(self) -> ColorRGB {
        packed(self.0, self.1, self.2)
    }

    fn into_rgb(self) -> (color: ColorRGB) {
        let red: u32 = self.0 as ColorRGB;
        let green: u32 = self.1 as ColorRGB;
        let blue: u32 = self.2 as ColorRGB;
        assert(((red << 16u32) | (green << 8u32) | blue) == red * 65536 + green * 256 + blue
            && (8u32 << 1u32) == 16u32) by (bit_vector)
            requires
                red < 256,
                green < 256,
                blue < 256,
        ;
        let r = red << (COLOR_CHANNEL_SIZE << 1);
        let g = green << COLOR_CHANNEL_SIZE;
        let b = blue;

        r | g | b
    }
}

impl ColorHSV {
    /// The sixth of the colour wheel that the hue falls in.
    pub open spec fn sector(self) -> int {
        (self.0 as int / 60) % 6
    }

    /// The level of the weakest channel, in percent.
    pub open spec fn floor_level(self) -> int {
        (100 - self.1) * self.2 / 100
    }

    /// How far the moving channel is from its end of the sector, in percent.
    pub open spec fn slope(self) -> int {
        (self.2 - self.floor_level()) * (self.0 as int % 60) / 60
    }
}

/// `part * whole / scale` lies between 0 and `whole` when `part` is at most `scale`.
proof fn share_is_bounded(part: int, whole: int, scale: int)
    requires
        0 <= part <= scale,
        0 <= whole,
        0 < scale,
    ensures
        0 <= part * whole <= scale * whole,
        0 <= part * whole / scale <= whole,
{
    assert(0 <= part * whole <= scale * whole) by (nonlinear_arith)
        requires
            0 <= part <= scale,
            0 <= whole,
    ;
    vstd::arithmetic::div_mod::lemma_div_is_ordered(part * whole, scale * whole, scale);
    vstd::arithmetic::div_mod::lemma_div_is_ordered(0, part * whole, scale);
    vstd::arithmetic::div_mod::lemma_div_multiples_vanish(whole, scale);
    assert(scale * whole == whole * scale) by (nonlinear_arith);
}

fn percent_to_value(percent: u8) -> (value: u8)
    ensures
        value == percent_value(percent as int),
{
    let scaled: u32 = 255 * (percent as u32) / 100;
    if scaled > 255 {
        255
    } else {
        scaled as u8
    }
}

impl IntoRGB for ColorHSV {
    open spec fn convertible(self) -> bool {
        self.1 <= 100
    }

    open spec fn rgb(self) -> ColorRGB {
        let v = percent_value(self.2 as int);
        let v_min = percent_value(self.floor_level());
        let v_inc = percent_value(self.floor_level() + self.slope());
        let v_dec = percent_value(self.2 - self.slope());
        if self.sector() == 0 {
            packed(v, v_inc, v_min)
        } else if self.sector() == 1 {
            packed(v_dec, v, v_min)
        } else if self.sector() == 2 {
            packed(v_min, v, v_inc)
        } else if self.sector() == 3 {
            packed(v_min, v_dec, v)
        } else if self.sector() == 4 {
            packed(v_inc, v_min, v)
        } else {
            packed(v, v_min, v_dec)
        }
    }

    fn into_rgb(self) -> (color: ColorRGB) {
        let ColorHSV(h, s, v) = self;
        let h_i: u8 = (h / 60) % 6;
        proof {
            share_is_bounded(100 - s as int, v as int, 100);
        }
        let v_min: u8 = (((100 - s as u16) * v as u16) / 100) as u8;
        proof {
            share_is_bounded((h % 60) as int, (v - v_min) as int, 60);
            assert((v - v_min) * (h % 60) == (h % 60) * (v - v_min)) by (nonlinear_arith);
        }
        let a: u8 = ((v - v_min) as u16 * (h % 60) as u16 / 60) as u8;

        let v_inc: u8 = v_min + a;
        let v_dec: u8 = v - a;

        let v = percent_to_value(v);
        let v_min = percent_to_value(v_min);
        let v_dec = percent_to_value(v_dec);
        let v_inc = percent_to_value(v_inc);

        if h_i == 0 {
            (v, v_inc, v_min).into_rgb()
        } else if h_i == 1 {
            (v_dec, v, v_min).into_rgb()
        } else if h_i == 2 {
            (v_min, v, v_inc).into_rgb()
        } else if h_i == 3 {
            (v_min, v_dec, v).into_rgb()
        } else if h_i == 4 {
            (v_inc, v_min, v).into_rgb()
        } else {
            (v, v_min, v_dec).into_rgb()
        }
    }
}

/// Colours that come apart into their channels.
pub trait UnpackRGB {
    /// The red, green and blue channels.
    spec fn channels(&self) -> (u8, u8, u8);

    fn unpack_rgb(&self) -> (rgb: (u8, u8, u8))
        ensures
            rgb == self.channels(),
    ;
}

impl UnpackRGB for ColorRGB {
    open spec fn channels(&self) -> (u8, u8, u8) {
        (((*self / 65536) % 256) as u8, ((*self / 256) % 256) as u8, (*self % 256) as u8)
    }

    fn unpack_rgb(&self) -> (rgb: (u8, u8, u8)) {
        let packed: u32 = *self;
        assert(((packed >> 16u32) & 0xFF) == (packed / 65536) % 256
            && ((packed >> 8u32) & 0xFF) == (packed / 256) % 256
            && (packed & 0xFF) == packed % 256
            && (8u32 << 1u32) == 16u32) by (bit_vector);
        let r = ((packed >> (COLOR_CHANNEL_SIZE << 1)) & 0xFF) as u8;
        let g = ((packed >> COLOR_CHANNEL_SIZE) & 0xFF) as u8;
        let b = (packed & 0xFF) as u8;

        (r, g, b)
    }
}

/// Unpacking a packed colour gives back the three channels it was packed from.
pub proof fn unpack_inverts_pack(r: u8, g: u8, b: u8)
    ensures
        packed(r, g, b).channels() == (r, g, b),
        packed(r, g, b) <= DEFAULT_COLOR,
{
}

/// Packing the channels of a 24-bit colour gives back the colour.
pub proof fn pack_inverts_unpack(color: ColorRGB)
    requires
        color <= DEFAULT_COLOR,
    ensures
        packed(color.channels().0, color.channels().1, color.channels().2) == color,
{
}

/// Without saturation the hue does not matter: the three channels are
/// equal, each the scaled value.
pub proof fn unsaturated_is_grey(h: u8, v: u8)
    ensures
        ColorHSV(h, 0, v).rgb() == packed(
            percent_value(v as int),
            percent_value(v as int),
            percent_value(v as int),
        ),
{
    let grey = ColorHSV(h, 0, v);
    assert((100 - grey.1) * grey.2 == 100 * v);
    assert(grey.floor_level() == v);
    assert((grey.2 - grey.floor_level()) * (h as int % 60) == 0) by (nonlinear_arith)
        requires
            grey.2 - grey.floor_level() == 0,
    ;
    assert(grey.slope() == 0);
}

/// Where the conversion is defined, the floor lies between 0 and the value,
/// the slope between 0 and their distance, the hue in one of the first five
/// sectors, and the colour has 24 bits.
pub proof fn converted_channels_are_ordered(color: ColorHSV)
    requires
        color.convertible(),
    ensures
        color.rgb() <= DEFAULT_COLOR,
        0 <= color.floor_level() <= color.2,
        0 <= color.slope() <= color.2 - color.floor_level(),
        0 <= color.sector() <= 4,
{
    share_is_bounded(100 - color.1 as int, color.2 as int, 100);
    share_is_bounded(color.0 as int % 60, color.2 - color.floor_level(), 60);
    assert((color.2 - color.floor_level()) * (color.0 as int % 60) == (color.0 as int % 60) * (color.2
        - color.floor_level())) by (nonlinear_arith);
}

} // verus!
