//! Colors usable with the terminal, and their brightness.

mod brightness;
mod error;
mod basic;
mod rgb;
mod eight_bit;
mod pair;
pub mod transform;

pub use self::brightness::{
    compress_level, lemma_compress_bound, lemma_spread_fits, spread_level, spread_fits, ApproxBrightness,
    Brightness,
};
pub use self::error::{BadBasicColor, BadCmyColor, BadGrayColor};
pub use self::basic::{
    BasicColor, lemma_basic_invert_involutive, lemma_basic_invert_keeps_hue, lemma_basic_code_roundtrip,
};
pub use self::rgb::{RgbColor, lemma_rgb_black_adapted, lemma_rgb_invert_involutive};
pub use self::eight_bit::{
    CmyColor, Color8, Color8Kind, GrayColor, lemma_cmy_black_adapted, lemma_cmy_components, lemma_cmy_invert_involutive,
    code_of_kind, kind_of_code, lemma_color8_code_kind_roundtrip, lemma_color8_invert_involutive,
    lemma_color8_kind_roundtrip, lemma_gray_adapted, lemma_gray_invert_involutive,
};
pub use self::pair::{
    AdaptBgToFg, AdaptFgToBg, Color2, ContrastBgWithFg, ContrastFgWithBg, UpdateBg, UpdateFg,
    Updater, lemma_opposite_involutive, lemma_pair_invert_involutive, opposite,
};
pub(crate) use self::pair::opposite_of;
use vstd::prelude::*;

verus! {

/// A color usable in the terminal.
#[derive(Debug, Clone, Copy, PartialEq, Eq, Structural, PartialOrd, Ord, Hash)]
pub enum Color {
    /// A basic color. Totals 16 colors. By far, the most portable color set.
    Basic(BasicColor),
    /// ANSI 8-bit color. Totals 256 colors: 16 basic colors (likely the same
    /// as `Color::Basic`), 216 CMY Colors and 24 gray-scale colors. Not as
    /// portable as `Color::Basic`, but still portable (it's ANSI).
    EightBit(Color8),
    /// RGB color (Red-Green-Blue). Not very portable, but some terminals do
    /// implement it.
    Rgb(RgbColor),
}

impl Color {
    /// The inverted color, of the same kind.
    pub open spec fn inverted(self) -> Color {
        match self {
            Color::Basic(color) => Color::Basic(color.inverted()),
            Color::EightBit(color) => Color::EightBit(color.inverted()),
            Color::Rgb(color) => Color::Rgb(color.inverted()),
        }
    }

    /// The inverted color, of the same kind.
    pub fn invert(self) -> (r: Self)
        ensures
            r == self.inverted(),
    {
        match self {
            Color::Basic(color) => Color::Basic(color.invert()),
            Color::EightBit(color) => Color::EightBit(color.invert()),
            Color::Rgb(color) => Color::Rgb(color.invert()),
        }
    }
}

impl ApproxBrightness for Color {
    open spec fn brightness_of(&self) -> Brightness {
        match *self {
            Color::Basic(color) => color.brightness_of(),
            Color::EightBit(color) => color.brightness_of(),
            Color::Rgb(color) => color.brightness_of(),
        }
    }

    open spec fn adaptable(&self, brightness: Brightness) -> bool {
        true
    }

    open spec fn adapted(&self, brightness: Brightness) -> Self {
        match *self {
            Color::Basic(color) => Color::Basic(color.adapted(brightness)),
            Color::EightBit(color) => Color::EightBit(color.adapted(brightness)),
            Color::Rgb(color) => Color::Rgb(color.adapted(brightness)),
        }
    }

    fn approx_brightness(&self) -> (r: Brightness) {
        match self {
            Color::Basic(color) => color.approx_brightness(),
            Color::EightBit(color) => color.approx_brightness(),
            Color::Rgb(color) => color.approx_brightness(),
        }
    }

    fn set_approx_brightness(&mut self, brightness: Brightness) {
        *self = match *self {
            Color::Basic(color) => Color::Basic(color.with_approx_brightness(brightness)),
            Color::EightBit(color) => Color::EightBit(color.with_approx_brightness(brightness)),
            Color::Rgb(color) => Color::Rgb(color.with_approx_brightness(brightness)),
        };
    }
}

impl core::ops::Not for Color {
    type Output = Self;

    /// The inverted color, of the same kind.
    fn not(self) -> (r: Self) {
        self.invert()
    }
}

impl vstd::std_specs::ops::NotSpecImpl for Color {
    open spec fn obeys_not_spec() -> bool {
        true
    }

    open spec fn not_req(self) -> bool {
        true
    }

    open spec fn not_spec(self) -> Self {
        self.inverted()
    }
}

impl From<BasicColor> for Color {
    fn from(color: BasicColor) -> (r: Self) {
        Color::Basic(color)
    }
}

impl vstd::std_specs::convert::FromSpecImpl<BasicColor> for Color {
    open spec fn obeys_from_spec() -> bool {
        true
    }

    open spec fn from_spec(color: BasicColor) -> Self {
        Color::Basic(color)
    }
}

impl From<Color8> for Color {
    fn from(color: Color8) -> (r: Self) {
        Color::EightBit(color)
    }
}

impl vstd::std_specs::convert::FromSpecImpl<Color8> for Color {
    open spec fn obeys_from_spec() -> bool {
        true
    }

    open spec fn from_spec(color: Color8) -> Self {
        Color::EightBit(color)
    }
}

impl From<Color8Kind> for Color {
    fn from(kind: Color8Kind) -> (r: Self) {
        Color::EightBit(Color8::from_color_kind(kind))
    }
}

impl vstd::std_specs::convert::FromSpecImpl<Color8Kind> for Color {
    open spec fn obeys_from_spec() -> bool {
        true
    }

    open spec fn from_spec(kind: Color8Kind) -> Self {
        Color::EightBit(Color8::from_kind(kind))
    }
}

impl From<CmyColor> for Color {
    fn from(color: CmyColor) -> (r: Self) {
        Color::EightBit(Color8::cmy(color))
    }
}

impl vstd::std_specs::convert::FromSpecImpl<CmyColor> for Color {
    open spec fn obeys_from_spec() -> bool {
        true
    }

    open spec fn from_spec(color: CmyColor) -> Self {
        Color::EightBit(Color8::from_kind(Color8Kind::Cmy(color)))
    }
}

impl From<GrayColor> for Color {
    fn from(color: GrayColor) -> (r: Self) {
        Color::EightBit(Color8::gray(color))
    }
}

impl vstd::std_specs::convert::FromSpecImpl<GrayColor> for Color {
    open spec fn obeys_from_spec() -> bool {
        true
    }

    open spec fn from_spec(color: GrayColor) -> Self {
        Color::EightBit(Color8::from_kind(Color8Kind::Gray(color)))
    }
}

impl From<RgbColor> for Color {
    fn from(color: RgbColor) -> (r: Self) {
        Color::Rgb(color)
    }
}

impl vstd::std_specs::convert::FromSpecImpl<RgbColor> for Color {
    open spec fn obeys_from_spec() -> bool {
        true
    }

    open spec fn from_spec(color: RgbColor) -> Self {
        Color::Rgb(color)
    }
}

/// Inverting a color gives a color of the same kind, and inverting it again
/// gives the color back.
pub proof fn lemma_color_invert_involutive(color: Color)
    ensures
        color.inverted().inverted() == color,
{
    match color {
        Color::Basic(basic) => lemma_basic_invert_involutive(basic),
        Color::EightBit(eight_bit) => lemma_color8_invert_involutive(eight_bit),
        Color::Rgb(rgb) => lemma_rgb_invert_involutive(rgb),
    }
}

} // verus!
