//! The sixteen basic colors.

use crate::color::{brightness::MAX_LEVEL, ApproxBrightness, BadBasicColor, Brightness};
use vstd::prelude::*;

verus! {

/// A basic color used by the terminal.
#[derive(Debug, Clone, Copy, PartialEq, Eq, Structural, PartialOrd, Ord, Hash)]
pub enum BasicColor {
    /// Black.
    Black,
    /// Dark red/red.
    DarkRed,
    /// Dark green/green.
    DarkGreen,
    /// Dark yellow/yellow.
    DarkYellow,
    /// Dark blue/blue.
    DarkBlue,
    /// Dark magenta/magenta.
    DarkMagenta,
    /// Dark cyan/cyan.
    DarkCyan,
    /// Light gray/dark white.
    LightGray,
    /// Dark gray/light black.
    DarkGray,
    /// Light red.
    LightRed,
    /// Light green.
    LightGreen,
    /// Light yellow.
    LightYellow,
    /// Light blue.
    LightBlue,
    /// Light magenta.
    LightMagenta,
    /// Light cyan.
    LightCyan,
    /// White
    White,
}

/// The half of the brightness range: colors at least as bright are taken as
/// light.
pub const HALF_LEVEL: u16 = 32767;

impl BasicColor {
    /// The code of this color (`0 .. 16`, in declaration order).
    pub open spec fn code_of(self) -> u8 {
        match self {
            BasicColor::Black => 0,
            BasicColor::DarkRed => 1,
            BasicColor::DarkGreen => 2,
            BasicColor::DarkYellow => 3,
            BasicColor::DarkBlue => 4,
            BasicColor::DarkMagenta => 5,
            BasicColor::DarkCyan => 6,
            BasicColor::LightGray => 7,
            BasicColor::DarkGray => 8,
            BasicColor::LightRed => 9,
            BasicColor::LightGreen => 10,
            BasicColor::LightYellow => 11,
            BasicColor::LightBlue => 12,
            BasicColor::LightMagenta => 13,
            BasicColor::LightCyan => 14,
            BasicColor::White => 15,
        }
    }

    /// Whether this is one of the light colors.
    pub open spec fn is_light(self) -> bool {
        match self {
            BasicColor::LightGray | BasicColor::White | BasicColor::LightRed
            | BasicColor::LightGreen | BasicColor::LightYellow | BasicColor::LightBlue
            | BasicColor::LightMagenta | BasicColor::LightCyan => true,
            _ => false,
        }
    }

    /// The dark counterpart of a light color and the light counterpart of a
    /// dark color.
    pub open spec fn inverted(self) -> BasicColor {
        match self {
            BasicColor::Black => BasicColor::White,
            BasicColor::White => BasicColor::Black,
            BasicColor::DarkGray => BasicColor::LightGray,
            BasicColor::LightGray => BasicColor::DarkGray,
            BasicColor::DarkRed => BasicColor::LightRed,
            BasicColor::LightRed => BasicColor::DarkRed,
            BasicColor::DarkGreen => BasicColor::LightGreen,
            BasicColor::LightGreen => BasicColor::DarkGreen,
            BasicColor::DarkYellow => BasicColor::LightYellow,
            BasicColor::LightYellow => BasicColor::DarkYellow,
            BasicColor::DarkBlue => BasicColor::LightBlue,
            BasicColor::LightBlue => BasicColor::DarkBlue,
            BasicColor::DarkMagenta => BasicColor::LightMagenta,
            BasicColor::LightMagenta => BasicColor::DarkMagenta,
            BasicColor::DarkCyan => BasicColor::LightCyan,
            BasicColor::LightCyan => BasicColor::DarkCyan,
        }
    }

    /// The color whose code is the given one, if any.
    pub open spec fn from_code(code: u8) -> Option<BasicColor> {
        if code == 0 {
            Some(BasicColor::Black)
        } else if code == 1 {
            Some(BasicColor::DarkRed)
        } else if code == 2 {
            Some(BasicColor::DarkGreen)
        } else if code == 3 {
            Some(BasicColor::DarkYellow)
        } else if code == 4 {
            Some(BasicColor::DarkBlue)
        } else if code == 5 {
            Some(BasicColor::DarkMagenta)
        } else if code == 6 {
            Some(BasicColor::DarkCyan)
        } else if code == 7 {
            Some(BasicColor::LightGray)
        } else if code == 8 {
            Some(BasicColor::DarkGray)
        } else if code == 9 {
            Some(BasicColor::LightRed)
        } else if code == 10 {
            Some(BasicColor::LightGreen)
        } else if code == 11 {
            Some(BasicColor::LightYellow)
        } else if code == 12 {
            Some(BasicColor::LightBlue)
        } else if code == 13 {
            Some(BasicColor::LightMagenta)
        } else if code == 14 {
            Some(BasicColor::LightCyan)
        } else if code == 15 {
            Some(BasicColor::White)
        } else {
            None
        }
    }

    /// The code of this color.
    pub fn code(self) -> (r: u8)
        ensures
            r == self.code_of(),
            r < 16,
    {
        match self {
            BasicColor::Black => 0,
            BasicColor::DarkRed => 1,
            BasicColor::DarkGreen => 2,
            BasicColor::DarkYellow => 3,
            BasicColor::DarkBlue => 4,
            BasicColor::DarkMagenta => 5,
            BasicColor::DarkCyan => 6,
            BasicColor::LightGray => 7,
            BasicColor::DarkGray => 8,
            BasicColor::LightRed => 9,
            BasicColor::LightGreen => 10,
            BasicColor::LightYellow => 11,
            BasicColor::LightBlue => 12,
            BasicColor::LightMagenta => 13,
            BasicColor::LightCyan => 14,
            BasicColor::White => 15,
        }
    }
}

/// A code names a basic color exactly when it is below sixteen, and the code
/// of the color a code names is that code.
pub proof fn lemma_basic_code_roundtrip(code: u8)
    ensures
        BasicColor::from_code(code) is Some <==> code < 16,
        BasicColor::from_code(code) matches Some(c) ==> c.code_of() == code,
{
}

/// The code of a color names that color again.
pub proof fn lemma_basic_code_names_color(color: BasicColor)
    ensures
        BasicColor::from_code(color.code_of()) == Some(color),
{
}

/// Inverting a basic color keeps its hue and flips its side of the palette:
/// a chromatic color (red, green, yellow, blue, magenta or cyan) becomes the
/// same hue on the other side (its code moves by 8), and the achromatic ones
/// (black, the two grays, white) mirror each other (code `c` becomes
/// `15 - c`).
pub proof fn lemma_basic_invert_keeps_hue(color: BasicColor)
    ensures
        color.code_of() % 8 != 0 && color.code_of() % 8 != 7 ==> {
            &&& color.inverted().code_of() % 8 == color.code_of() % 8
            &&& (color.inverted().code_of() < 8 <==> color.code_of() >= 8)
        },
        color.code_of() % 8 == 0 || color.code_of() % 8 == 7 ==> color.inverted().code_of() == 15
            - color.code_of(),
{
}

/// Inverting a basic color twice gives it back, and inverting flips between
/// light and dark.
pub proof fn lemma_basic_invert_involutive(color: BasicColor)
    ensures
        color.inverted().inverted() == color,
        color.inverted().is_light() != color.is_light(),
{
}

impl BasicColor {
    /// The basic color of the given code, or an error if the code is not
    /// below sixteen.
    pub(crate) fn try_from_code(code: u8) -> (r: Result<Self, BadBasicColor>)
        ensures
            r == (match BasicColor::from_code(code) {
                Some(color) => Ok(color),
                None => Err(BadBasicColor { code }),
            }),
    {
        if code == 0 {
            Ok(BasicColor::Black)
        } else if code == 1 {
            Ok(BasicColor::DarkRed)
        } else if code == 2 {
            Ok(BasicColor::DarkGreen)
        } else if code == 3 {
            Ok(BasicColor::DarkYellow)
        } else if code == 4 {
            Ok(BasicColor::DarkBlue)
        } else if code == 5 {
            Ok(BasicColor::DarkMagenta)
        } else if code == 6 {
            Ok(BasicColor::DarkCyan)
        } else if code == 7 {
            Ok(BasicColor::LightGray)
        } else if code == 8 {
            Ok(BasicColor::DarkGray)
        } else if code == 9 {
            Ok(BasicColor::LightRed)
        } else if code == 10 {
            Ok(BasicColor::LightGreen)
        } else if code == 11 {
            Ok(BasicColor::LightYellow)
        } else if code == 12 {
            Ok(BasicColor::LightBlue)
        } else if code == 13 {
            Ok(BasicColor::LightMagenta)
        } else if code == 14 {
            Ok(BasicColor::LightCyan)
        } else if code == 15 {
            Ok(BasicColor::White)
        } else {
            Err(BadBasicColor { code })
        }
    }
}

impl TryFrom<u8> for BasicColor {
    type Error = BadBasicColor;

    /// The basic color of the given code, or an error if the code is not
    /// below sixteen.
    fn try_from(code: u8) -> (r: Result<Self, Self::Error>) {
        Self::try_from_code(code)
    }
}

impl vstd::std_specs::convert::TryFromSpecImpl<u8> for BasicColor {
    open spec fn obeys_try_from_spec() -> bool {
        true
    }

    open spec fn try_from_spec(code: u8) -> Result<Self, BadBasicColor> {
        match BasicColor::from_code(code) {
            Some(color) => Ok(color),
            None => Err(BadBasicColor { code }),
        }
    }
}

impl ApproxBrightness for BasicColor {
    open spec fn brightness_of(&self) -> Brightness {
        if self.is_light() {
            Brightness { level: MAX_LEVEL }
        } else {
            Brightness { level: 0 }
        }
    }

    open spec fn adaptable(&self, brightness: Brightness) -> bool {
        true
    }

    open spec fn adapted(&self, brightness: Brightness) -> Self {
        if (self.brightness_of().level >= HALF_LEVEL) == (brightness.level >= HALF_LEVEL) {
            *self
        } else {
            self.inverted()
        }
    }

    fn approx_brightness(&self) -> (r: Brightness) {
        let min = Brightness::min();
        let max = Brightness::max();
        match self {
            BasicColor::Black => min,
            BasicColor::White => max,
            BasicColor::DarkGray => min,
            BasicColor::LightGray => max,
            BasicColor::DarkRed => min,
            BasicColor::LightRed => max,
            BasicColor::DarkGreen => min,
            BasicColor::LightGreen => max,
            BasicColor::DarkYellow => min,
            BasicColor::LightYellow => max,
            BasicColor::DarkBlue => min,
            BasicColor::LightBlue => max,
            BasicColor::DarkMagenta => min,
            BasicColor::LightMagenta => max,
            BasicColor::DarkCyan => min,
            BasicColor::LightCyan => max,
        }
    }

    fn set_approx_brightness(&mut self, brightness: Brightness) {
        let half = Brightness { level: HALF_LEVEL };
        let self_white = self.approx_brightness().level >= half.level;
        let other_white = brightness.level >= half.level;

        *self = if self_white == other_white {
            *self
        } else {
            self.invert()
        };
    }
}

impl BasicColor {
    /// The dark counterpart of a light color and the light counterpart of a
    /// dark color.
    pub(crate) fn invert(self) -> (r: Self)
        ensures
            r == self.inverted(),
    {
        match self {
            BasicColor::Black => BasicColor::White,
            BasicColor::White => BasicColor::Black,
            BasicColor::DarkGray => BasicColor::LightGray,
            BasicColor::LightGray => BasicColor::DarkGray,
            BasicColor::DarkRed => BasicColor::LightRed,
            BasicColor::LightRed => BasicColor::DarkRed,
            BasicColor::DarkGreen => BasicColor::LightGreen,
            BasicColor::LightGreen => BasicColor::DarkGreen,
            BasicColor::DarkYellow => BasicColor::LightYellow,
            BasicColor::LightYellow => BasicColor::DarkYellow,
            BasicColor::DarkBlue => BasicColor::LightBlue,
            BasicColor::LightBlue => BasicColor::DarkBlue,
            BasicColor::DarkMagenta => BasicColor::LightMagenta,
            BasicColor::LightMagenta => BasicColor::DarkMagenta,
            BasicColor::DarkCyan => BasicColor::LightCyan,
            BasicColor::LightCyan => BasicColor::DarkCyan,
        }
    }
}

impl core::ops::Not for BasicColor {
    type Output = Self;

    /// The dark counterpart of a light color and the light counterpart of a
    /// dark color.
    fn not(self) -> (r: Self) {
        self.invert()
    }
}

impl vstd::std_specs::ops::NotSpecImpl for BasicColor {
    open spec fn obeys_not_spec() -> bool {
        true
    }

    open spec fn not_req(self) -> bool {
        true
    }

    open spec fn not_spec(self) -> Self {
        self.inverted()
    }
}

} // verus!
