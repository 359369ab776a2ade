//! 8-bit colors: the basic colors, the CMY cube and the gray scale.

use crate::color::{
    brightness::{
        compress_level, lemma_compress_bound, lemma_hue_kept_bound, scaling_overflows, spread_level,
        MAX_LEVEL,
    },
    rgb::{adapted3, max3, channels3_adapted, channels3_brightness, channels3_level},
    ApproxBrightness, BadCmyColor, BadGrayColor, BasicColor, Brightness,
};
use vstd::prelude::*;

verus! {

/// A CMY (Cyan-Magenta-Yellow) color. The lower one of its component is, the
/// more it subtracts.
#[derive(Debug, Clone, Copy, PartialEq, Eq, Structural, PartialOrd, Ord, Hash)]
pub struct CmyColor {
    /// `(0 .. 216)` Color code.
    code: u8,
}

/// Whether the three components are valid CMY components.
pub open spec fn valid_cmy(cyan: int, magenta: int, yellow: int) -> bool {
    0 <= cyan < 6 && 0 <= magenta < 6 && 0 <= yellow < 6
}

/// The code of the CMY color with the given components.
pub open spec fn cmy_code(cyan: int, magenta: int, yellow: int) -> int {
    cyan * 36 + magenta * 6 + yellow
}

/// A channel value adapted to a brightness never exceeds the maximum value of
/// the channels.
proof fn lemma_adapted3_bound(value: int, a: int, b: int, c: int, soft_max: int, level: int)
    requires
        value == a || value == b || value == c,
        0 <= a <= 255,
        0 <= b <= 255,
        0 <= c <= 255,
        0 <= soft_max,
        soft_max * 100 <= 65535,
        0 <= level <= 65535,
    ensures
        0 <= adapted3(value, a, b, c, soft_max, level) <= soft_max,
{
    lemma_compress_bound(level, soft_max * 100);
    let compressed = compress_level(level, soft_max * 100);
    assert(compressed / 100 <= soft_max);
    let total = 30 * a + 59 * b + 11 * c;
    let max = max3(a, b, c);
    if total != 0 {
        assert(total > 0);
        if scaling_overflows(max, compressed, total, soft_max) {
            assert(max > 0) by (nonlinear_arith)
                requires
                    max * compressed > soft_max * total,
                    soft_max * total >= 0,
                    max >= 0,
                    compressed >= 0,
            ;
            lemma_hue_kept_bound(value, max, soft_max);
        } else {
            assert((value * compressed + total / 2 + 1) / total >= 0) by (nonlinear_arith)
                requires
                    value >= 0,
                    compressed >= 0,
                    total > 0,
            ;
        }
    }
}

impl CmyColor {
    /// Base of CMY colors (6).
    pub const BASE: u8 = 6;

    /// Every CMY color has a code below `216`.
    #[verifier::type_invariant]
    spec fn code_in_range(self) -> bool {
        self.code < 216
    }

    /// The code of this color.
    pub closed spec fn code_spec(self) -> u8 {
        self.code
    }

    /// The CMY color with the given code.
    pub closed spec fn with_code(code: u8) -> CmyColor {
        CmyColor { code }
    }

    /// The color with the given components.
    pub open spec fn from_components(cyan: int, magenta: int, yellow: int) -> CmyColor {
        CmyColor::with_code(cmy_code(cyan, magenta, yellow) as u8)
    }

    /// The level of cyan component.
    pub open spec fn cyan_of(self) -> u8 {
        (self.code_spec() / 36 % 6) as u8
    }

    /// The level of magenta component.
    pub open spec fn magenta_of(self) -> u8 {
        (self.code_spec() / 6 % 6) as u8
    }

    /// The level of yellow component.
    pub open spec fn yellow_of(self) -> u8 {
        (self.code_spec() % 6) as u8
    }

    /// The inverted color: each component `c` becomes `BASE - 1 - c`, so
    /// that the darkest and the lightest components map onto each other.
    pub open spec fn inverted(self) -> CmyColor {
        CmyColor::from_components(
            5 - self.cyan_of(),
            5 - self.magenta_of(),
            5 - self.yellow_of(),
        )
    }

    /// Creates a new `CmyColor` given its components. Returns an error if any
    /// of the components is `>= `[`Self::BASE`].
    pub fn try_new(cyan: u8, magenta: u8, yellow: u8) -> (r: Result<Self, BadCmyColor>)
        ensures
            r is Ok <==> valid_cmy(cyan as int, magenta as int, yellow as int),
            r matches Ok(color) ==> {
                &&& color == CmyColor::from_components(cyan as int, magenta as int, yellow as int)
                &&& color.code_spec() == cmy_code(cyan as int, magenta as int, yellow as int)
                &&& color.cyan_of() == cyan
                &&& color.magenta_of() == magenta
                &&& color.yellow_of() == yellow
            },
            r matches Err(error) ==> error == (BadCmyColor { cyan, magenta, yellow }),
    {
        if cyan >= Self::BASE || magenta >= Self::BASE || yellow >= Self::BASE {
            Err(BadCmyColor { cyan, magenta, yellow })
        } else {
            proof {
                lemma_cmy_components(cyan as int, magenta as int, yellow as int);
            }
            Ok(Self { code: cyan * 36 + magenta * 6 + yellow })
        }
    }

    /// Creates a new `CmyColor` given its components.
    pub fn new(cyan: u8, magenta: u8, yellow: u8) -> (r: Self)
        requires
            valid_cmy(cyan as int, magenta as int, yellow as int),
        ensures
            r == CmyColor::from_components(cyan as int, magenta as int, yellow as int),
            r.code_spec() == cmy_code(cyan as int, magenta as int, yellow as int),
            r.cyan_of() == cyan,
            r.magenta_of() == magenta,
            r.yellow_of() == yellow,
    {
        match Self::try_new(cyan, magenta, yellow) {
            Ok(color) => color,
            Err(_) => {
                assert(false);
                Self { code: 0 }
            },
        }
    }

    /// The level of cyan component.
    pub fn cyan(self) -> (r: u8)
        ensures
            r == self.cyan_of(),
            r < 6,
    {
        self.code / Self::BASE / Self::BASE % Self::BASE
    }

    /// The level of magenta component.
    pub fn magenta(self) -> (r: u8)
        ensures
            r == self.magenta_of(),
            r < 6,
    {
        self.code / Self::BASE % Self::BASE
    }

    /// The level of yellow component.
    pub fn yellow(self) -> (r: u8)
        ensures
            r == self.yellow_of(),
            r < 6,
    {
        self.code % Self::BASE
    }

    /// The resulting code of the color.
    pub fn code(self) -> (r: u8)
        ensures
            r == self.code_spec(),
            r < 216,
    {
        proof {
            use_type_invariant(&self);
        }
        self.code
    }

    /// Sets the cyan component.
    pub fn set_cyan(self, cyan: u8) -> (r: Self)
        requires
            cyan < 6,
        ensures
            r == CmyColor::from_components(
                cyan as int,
                self.magenta_of() as int,
                self.yellow_of() as int,
            ),
            r.cyan_of() == cyan,
            r.magenta_of() == self.magenta_of(),
            r.yellow_of() == self.yellow_of(),
    {
        Self::new(cyan, self.magenta(), self.yellow())
    }

    /// Sets the magenta component.
    pub fn set_magenta(self, magenta: u8) -> (r: Self)
        requires
            magenta < 6,
        ensures
            r == CmyColor::from_components(
                self.cyan_of() as int,
                magenta as int,
                self.yellow_of() as int,
            ),
            r.cyan_of() == self.cyan_of(),
            r.magenta_of() == magenta,
            r.yellow_of() == self.yellow_of(),
    {
        Self::new(self.cyan(), magenta, self.yellow())
    }

    /// Sets the yellow component.
    pub fn set_yellow(self, yellow: u8) -> (r: Self)
        requires
            yellow < 6,
        ensures
            r == CmyColor::from_components(
                self.cyan_of() as int,
                self.magenta_of() as int,
                yellow as int,
            ),
            r.cyan_of() == self.cyan_of(),
            r.magenta_of() == self.magenta_of(),
            r.yellow_of() == yellow,
    {
        Self::new(self.cyan(), self.magenta(), yellow)
    }

    /// The inverted color: each component `c` becomes `BASE - 1 - c`.
    pub(crate) fn invert(self) -> (r: Self)
        ensures
            r == self.inverted(),
    {
        Self::new(
            Self::BASE - 1 - self.cyan(),
            Self::BASE - 1 - self.magenta(),
            Self::BASE - 1 - self.yellow(),
        )
    }
}

/// The components of a color built from valid components are those
/// components.
pub proof fn lemma_cmy_components(cyan: int, magenta: int, yellow: int)
    requires
        valid_cmy(cyan, magenta, yellow),
    ensures
        CmyColor::from_components(cyan, magenta, yellow).cyan_of() == cyan,
        CmyColor::from_components(cyan, magenta, yellow).magenta_of() == magenta,
        CmyColor::from_components(cyan, magenta, yellow).yellow_of() == yellow,
        CmyColor::from_components(cyan, magenta, yellow).code_spec() == cmy_code(
            cyan,
            magenta,
            yellow,
        ),
        cmy_code(cyan, magenta, yellow) < 216,
{
    let c = cyan as u8;
    let m = magenta as u8;
    let y = yellow as u8;
    assert(((c * 36 + m * 6 + y) as u8) / 36 % 6 == c && ((c * 36 + m * 6 + y) as u8) / 6 % 6 == m
        && ((c * 36 + m * 6 + y) as u8) % 6 == y && c * 36 + m * 6 + y < 216) by (bit_vector)
        requires
            c < 6,
            m < 6,
            y < 6,
    ;
}

/// Inverting a CMY color twice gives it back.
pub proof fn lemma_cmy_invert_involutive(color: CmyColor)
    requires
        color.code_spec() < 216,
    ensures
        color.inverted().code_spec() < 216,
        color.inverted().inverted() == color,
{
    let c = color.cyan_of() as int;
    let m = color.magenta_of() as int;
    let y = color.yellow_of() as int;
    lemma_cmy_components(5 - c, 5 - m, 5 - y);
    lemma_cmy_components(c, m, y);
    assert(color.code_spec() == cmy_code(c, m, y));
}

impl ApproxBrightness for CmyColor {
    open spec fn brightness_of(&self) -> Brightness {
        Brightness {
            level: channels3_level(
                self.cyan_of() as int,
                self.magenta_of() as int,
                self.yellow_of() as int,
                5,
            ) as u16,
        }
    }

    open spec fn adaptable(&self, brightness: Brightness) -> bool {
        true
    }

    open spec fn adapted(&self, brightness: Brightness) -> Self {
        let (c, m, y) = (self.cyan_of() as int, self.magenta_of() as int, self.yellow_of() as int);
        let l = brightness.level as int;
        CmyColor::from_components(
            adapted3(c, c, m, y, 5, l),
            adapted3(m, c, m, y, 5, l),
            adapted3(y, c, m, y, 5, l),
        )
    }

    fn approx_brightness(&self) -> (r: Brightness) {
        channels3_brightness(self.cyan(), self.magenta(), self.yellow(), Self::BASE - 1)
    }

    fn set_approx_brightness(&mut self, brightness: Brightness) {
        let (c, m, y) = (self.cyan(), self.magenta(), self.yellow());
        let channels = channels3_adapted(c, m, y, Self::BASE - 1, brightness);
        proof {
            let l = brightness.level as int;
            lemma_adapted3_bound(c as int, c as int, m as int, y as int, 5, l);
            lemma_adapted3_bound(m as int, c as int, m as int, y as int, 5, l);
            lemma_adapted3_bound(y as int, c as int, m as int, y as int, 5, l);
        }
        *self = Self::new(channels.0, channels.1, channels.2);
    }
}

/// Setting the brightness of the CMY black fills all components with one
/// value: the color is a gray whose brightness is within one component step
/// of the level asked, and black set to the full brightness is white.
pub proof fn lemma_cmy_black_adapted(black: CmyColor, brightness: Brightness)
    requires
        black.cyan_of() == 0,
        black.magenta_of() == 0,
        black.yellow_of() == 0,
    ensures
        black.adapted(brightness).cyan_of() == black.adapted(brightness).magenta_of(),
        black.adapted(brightness).magenta_of() == black.adapted(brightness).yellow_of(),
        black.adapted(brightness).cyan_of() * 65535 <= brightness.level * 5 + 328,
        brightness.level * 5 < (black.adapted(brightness).cyan_of() + 1) * 65535 + 328,
        brightness.level == 65535 ==> black.adapted(brightness).cyan_of() == 5,
        brightness.level == 0 ==> black.adapted(brightness).cyan_of() == 0,
{
    crate::color::rgb::lemma_black_filled(brightness.level as int, 5);
    let v = adapted3(0, 0, 0, 0, 5, brightness.level as int);
    lemma_cmy_components(v, v, v);
}

impl core::ops::Not for CmyColor {
    type Output = Self;

    /// The inverted color: each component `c` becomes `BASE - 1 - c`.
    fn not(self) -> (r: Self) {
        self.invert()
    }
}

impl vstd::std_specs::ops::NotSpecImpl for CmyColor {
    open spec fn obeys_not_spec() -> bool {
        true
    }

    open spec fn not_req(self) -> bool {
        true
    }

    open spec fn not_spec(self) -> Self {
        self.inverted()
    }
}

/// A gray-scale color. Goes from white, to gray, to black.
#[derive(Debug, Clone, Copy, PartialEq, Eq, Structural, PartialOrd, Ord, Hash)]
pub struct GrayColor {
    /// Level of white.
    brightness: u8,
}

/// The largest gray-scale brightness.
pub const GRAY_MAX: u8 = 23;

impl GrayColor {
    /// Minimum gray-scale brightness (0, black).
    pub fn min() -> (r: Self)
        ensures
            r.brightness_spec() == 0,
    {
        Self { brightness: 0 }
    }

    /// Half of maximum gray-scale brightness (gray).
    pub fn half() -> (r: Self)
        ensures
            r.brightness_spec() == 12,
    {
        Self { brightness: 12 }
    }

    /// Maximum gray-scale brightness (white).
    pub fn max() -> (r: Self)
        ensures
            r.brightness_spec() == GRAY_MAX,
    {
        Self { brightness: GRAY_MAX }
    }

    /// Every gray-scale color has a brightness of at most `23`.
    #[verifier::type_invariant]
    spec fn brightness_in_range(self) -> bool {
        self.brightness <= GRAY_MAX
    }

    /// The brightness of this color.
    pub closed spec fn brightness_spec(self) -> u8 {
        self.brightness
    }

    /// The gray-scale color of the given brightness.
    pub closed spec fn with_brightness(brightness: u8) -> GrayColor {
        GrayColor { brightness }
    }

    /// The inverted color: brightness `b` becomes `MAX - b`, so that black
    /// and white map onto each other.
    pub open spec fn inverted(self) -> GrayColor {
        GrayColor::with_brightness((GRAY_MAX - self.brightness_spec()) as u8)
    }

    /// Creates a new gray-scale color given its brightness. Returns an error if
    /// `brightness > MAX`.
    pub fn try_new(brightness: u8) -> (r: Result<Self, BadGrayColor>)
        ensures
            r is Ok <==> brightness <= GRAY_MAX,
            r matches Ok(color) ==> color == GrayColor::with_brightness(brightness)
                && color.brightness_spec() == brightness,
            r matches Err(error) ==> error == (BadGrayColor { brightness }),
    {
        if brightness > GRAY_MAX {
            Err(BadGrayColor { brightness })
        } else {
            Ok(Self { brightness })
        }
    }

    /// Creates a new gray-scale color given its brightness.
    pub fn new(brightness: u8) -> (r: Self)
        requires
            brightness <= GRAY_MAX,
        ensures
            r == GrayColor::with_brightness(brightness),
            r.brightness_spec() == brightness,
    {
        match Self::try_new(brightness) {
            Ok(color) => color,
            Err(_) => {
                assert(false);
                Self { brightness: 0 }
            },
        }
    }

    /// Returns the brightness of this color.
    pub fn brightness(self) -> (r: u8)
        ensures
            r == self.brightness_spec(),
            r <= GRAY_MAX,
    {
        proof {
            use_type_invariant(&self);
        }
        self.brightness
    }

    /// The inverted color: brightness `b` becomes `MAX - b`.
    pub(crate) fn invert(self) -> (r: Self)
        ensures
            r == self.inverted(),
    {
        Self::new(GRAY_MAX - self.brightness())
    }
}

/// The brightness of a color built from a brightness is that brightness.
pub proof fn lemma_gray_brightness(brightness: u8)
    ensures
        GrayColor::with_brightness(brightness).brightness_spec() == brightness,
{
}

/// Inverting a gray-scale color twice gives it back, and black and white
/// are the inverses of each other.
pub proof fn lemma_gray_invert_involutive(color: GrayColor)
    requires
        color.brightness_spec() <= GRAY_MAX,
    ensures
        color.inverted().brightness_spec() <= GRAY_MAX,
        color.inverted().inverted() == color,
        GrayColor::with_brightness(0).inverted() == GrayColor::with_brightness(GRAY_MAX),
        GrayColor::with_brightness(GRAY_MAX).inverted() == GrayColor::with_brightness(0),
{
}

/// Adapting a gray-scale color to a brightness gives the gray whose
/// brightness is that brightness compressed into `0 ..= MAX`, and adapting a
/// gray to its own brightness gives it back.
pub proof fn lemma_gray_adapted(color: GrayColor, brightness: Brightness)
    requires
        color.brightness_spec() <= GRAY_MAX,
    ensures
        color.adapted(brightness).brightness_spec() == compress_level(
            brightness.level as int,
            GRAY_MAX as int,
        ),
        color.adapted(brightness).brightness_spec() <= GRAY_MAX,
        color.brightness_of().level == spread_level(color.brightness_spec() as int, GRAY_MAX as int),
        color.adapted(color.brightness_of()) == color,
{
    crate::color::brightness::lemma_compress_bound(brightness.level as int, GRAY_MAX as int);
    let g: u8 = color.brightness_spec();
    crate::color::brightness::lemma_spread_fits(g as int, GRAY_MAX as int);
    assert(((g as int * 65535 + 12) / 23 * 23 + 32768) / 65535 == g as int) by (bit_vector)
        requires
            g <= 23,
    ;
    assert(color.adapted(color.brightness_of()) == GrayColor::with_brightness(g));
}

impl ApproxBrightness for GrayColor {
    open spec fn brightness_of(&self) -> Brightness {
        Brightness { level: spread_level(self.brightness_spec() as int, GRAY_MAX as int) as u16 }
    }

    open spec fn adaptable(&self, brightness: Brightness) -> bool {
        true
    }

    open spec fn adapted(&self, brightness: Brightness) -> Self {
        GrayColor::with_brightness(compress_level(brightness.level as int, GRAY_MAX as int) as u8)
    }

    fn approx_brightness(&self) -> (r: Brightness) {
        let level = self.brightness() as u16;
        proof {
            crate::color::brightness::lemma_spread_fits(level as int, GRAY_MAX as int);
        }
        Brightness { level }.spread(GRAY_MAX as u16)
    }

    fn set_approx_brightness(&mut self, brightness: Brightness) {
        let compressed = brightness.compress(GRAY_MAX as u16);
        *self = Self::new(compressed.level as u8);
    }
}

impl core::ops::Not for GrayColor {
    type Output = Self;

    /// The inverted color: brightness `b` becomes `MAX - b`.
    fn not(self) -> (r: Self) {
        self.invert()
    }
}

impl vstd::std_specs::ops::NotSpecImpl for GrayColor {
    open spec fn obeys_not_spec() -> bool {
        true
    }

    open spec fn not_req(self) -> bool {
        true
    }

    open spec fn not_spec(self) -> Self {
        self.inverted()
    }
}

/// The kind of a color. `enum` representation of an 8-bit color.
#[derive(Debug, Clone, Copy, PartialEq, Eq, Structural, Hash)]
pub enum Color8Kind {
    /// 16 Basic colors.
    Basic(BasicColor),
    /// 216 CMY colors.
    Cmy(CmyColor),
    /// 24 Gray-scale colors.
    Gray(GrayColor),
}

impl Color8Kind {
    /// The components hold valid values (true of every executable value).
    pub open spec fn valid(self) -> bool {
        match self {
            Color8Kind::Basic(_) => true,
            Color8Kind::Cmy(color) => color.code_spec() < 216,
            Color8Kind::Gray(color) => color.brightness_spec() <= GRAY_MAX,
        }
    }

    /// The inverted color, of the same kind.
    pub open spec fn inverted(self) -> Color8Kind {
        match self {
            Color8Kind::Basic(color) => Color8Kind::Basic(color.inverted()),
            Color8Kind::Cmy(color) => Color8Kind::Cmy(color.inverted()),
            Color8Kind::Gray(color) => Color8Kind::Gray(color.inverted()),
        }
    }

    /// The inverted color, of the same kind.
    pub(crate) fn invert(self) -> (r: Self)
        ensures
            r == self.inverted(),
    {
        match self {
            Color8Kind::Basic(color) => Color8Kind::Basic(color.invert()),
            Color8Kind::Cmy(color) => Color8Kind::Cmy(color.invert()),
            Color8Kind::Gray(color) => Color8Kind::Gray(color.invert()),
        }
    }
}

impl core::ops::Not for Color8Kind {
    type Output = Self;

    /// The inverted color, of the same kind.
    fn not(self) -> (r: Self) {
        self.invert()
    }
}

impl vstd::std_specs::ops::NotSpecImpl for Color8Kind {
    open spec fn obeys_not_spec() -> bool {
        true
    }

    open spec fn not_req(self) -> bool {
        true
    }

    open spec fn not_spec(self) -> Self {
        self.inverted()
    }
}

impl From<BasicColor> for Color8Kind {
    fn from(color: BasicColor) -> (r: Self) {
        Color8Kind::Basic(color)
    }
}

impl vstd::std_specs::convert::FromSpecImpl<BasicColor> for Color8Kind {
    open spec fn obeys_from_spec() -> bool {
        true
    }

    open spec fn from_spec(color: BasicColor) -> Self {
        Color8Kind::Basic(color)
    }
}

impl From<CmyColor> for Color8Kind {
    fn from(color: CmyColor) -> (r: Self) {
        Color8Kind::Cmy(color)
    }
}

impl vstd::std_specs::convert::FromSpecImpl<CmyColor> for Color8Kind {
    open spec fn obeys_from_spec() -> bool {
        true
    }

    open spec fn from_spec(color: CmyColor) -> Self {
        Color8Kind::Cmy(color)
    }
}

impl From<GrayColor> for Color8Kind {
    fn from(color: GrayColor) -> (r: Self) {
        Color8Kind::Gray(color)
    }
}

impl vstd::std_specs::convert::FromSpecImpl<GrayColor> for Color8Kind {
    open spec fn obeys_from_spec() -> bool {
        true
    }

    open spec fn from_spec(color: GrayColor) -> Self {
        Color8Kind::Gray(color)
    }
}

impl From<Color8> for Color8Kind {
    fn from(color: Color8) -> (r: Self) {
        color.kind()
    }
}

impl vstd::std_specs::convert::FromSpecImpl<Color8> for Color8Kind {
    open spec fn obeys_from_spec() -> bool {
        true
    }

    open spec fn from_spec(color: Color8) -> Self {
        color.kind_of()
    }
}

impl ApproxBrightness for Color8Kind {
    open spec fn brightness_of(&self) -> Brightness {
        match *self {
            Color8Kind::Basic(color) => color.brightness_of(),
            Color8Kind::Cmy(color) => color.brightness_of(),
            Color8Kind::Gray(color) => color.brightness_of(),
        }
    }

    open spec fn adaptable(&self, brightness: Brightness) -> bool {
        true
    }

    open spec fn adapted(&self, brightness: Brightness) -> Self {
        match *self {
            Color8Kind::Basic(color) => Color8Kind::Basic(color.adapted(brightness)),
            Color8Kind::Cmy(color) => Color8Kind::Cmy(color.adapted(brightness)),
            Color8Kind::Gray(color) => Color8Kind::Gray(color.adapted(brightness)),
        }
    }

    fn approx_brightness(&self) -> (r: Brightness) {
        match self {
            Color8Kind::Basic(color) => color.approx_brightness(),
            Color8Kind::Cmy(color) => color.approx_brightness(),
            Color8Kind::Gray(color) => color.approx_brightness(),
        }
    }

    fn set_approx_brightness(&mut self, brightness: Brightness) {
        *self = match *self {
            Color8Kind::Basic(color) => Color8Kind::Basic(color.with_approx_brightness(brightness)),
            Color8Kind::Cmy(color) => Color8Kind::Cmy(color.with_approx_brightness(brightness)),
            Color8Kind::Gray(color) => Color8Kind::Gray(color.with_approx_brightness(brightness)),
        };
    }
}

/// Number of basic colors among the 8-bit colors.
pub const BASIC_SIZE: u8 = 16;
/// Number of basic colors and CMY colors among the 8-bit colors.
pub const BASIC_CMY_SIZE: u8 = 232;

/// The kind of the 8-bit color of the given code: codes below `16` are basic
/// colors, codes below `232` are CMY colors and the rest are gray-scale colors.
pub open spec fn kind_of_code(code: u8) -> Color8Kind {
    if code < BASIC_SIZE {
        Color8Kind::Basic(BasicColor::from_code(code).unwrap())
    } else if code < BASIC_CMY_SIZE {
        Color8Kind::Cmy(CmyColor::with_code((code - BASIC_SIZE) as u8))
    } else {
        Color8Kind::Gray(GrayColor::with_brightness((code - BASIC_CMY_SIZE) as u8))
    }
}

/// The 8-bit code of a color kind.
pub open spec fn code_of_kind(kind: Color8Kind) -> u8 {
    match kind {
        Color8Kind::Basic(color) => color.code_of(),
        Color8Kind::Cmy(color) => (color.code_spec() + BASIC_SIZE) as u8,
        Color8Kind::Gray(color) => (color.brightness_spec() + BASIC_CMY_SIZE) as u8,
    }
}

/// An 8-bit encoded color for the terminal.
#[derive(Debug, Clone, Copy, PartialEq, Eq, Structural, PartialOrd, Ord, Hash)]
pub struct Color8 {
    code: u8,
}

impl Color8 {
    /// The code of this color.
    pub closed spec fn code_spec(self) -> u8 {
        self.code
    }

    /// The 8-bit color of the given code.
    pub closed spec fn with_code(code: u8) -> Color8 {
        Color8 { code }
    }

    /// The `enum` representation of this color.
    pub open spec fn kind_of(self) -> Color8Kind {
        kind_of_code(self.code_spec())
    }

    /// The 8-bit color of the given kind.
    pub open spec fn from_kind(kind: Color8Kind) -> Color8 {
        Color8::with_code(code_of_kind(kind))
    }

    /// Creates a color that is basic.
    pub fn basic(color: BasicColor) -> (r: Self)
        ensures
            r.code_spec() == color.code_of(),
            r == Color8::from_kind(Color8Kind::Basic(color)),
    {
        Self { code: color.code() }
    }

    /// Creates a color that is CMY.
    pub fn cmy(color: CmyColor) -> (r: Self)
        ensures
            r.code_spec() == color.code_spec() + BASIC_SIZE,
            r == Color8::from_kind(Color8Kind::Cmy(color)),
    {
        Self { code: color.code() + BASIC_SIZE }
    }

    /// Creates a color that is gray-scale.
    pub fn gray(color: GrayColor) -> (r: Self)
        ensures
            r.code_spec() == color.brightness_spec() + BASIC_CMY_SIZE,
            r == Color8::from_kind(Color8Kind::Gray(color)),
    {
        Self { code: color.brightness() + BASIC_CMY_SIZE }
    }

    /// Returns the color code.
    pub fn code(self) -> (r: u8)
        ensures
            r == self.code_spec(),
    {
        self.code
    }

    /// Converts to an `enum` representation.
    pub fn kind(self) -> (r: Color8Kind)
        ensures
            r == self.kind_of(),
    {
        if self.code < BASIC_SIZE {
            match BasicColor::try_from_code(self.code) {
                Ok(color) => Color8Kind::Basic(color),
                Err(_) => {
                    assert(false);
                    Color8Kind::Basic(BasicColor::Black)
                },
            }
        } else if self.code < BASIC_CMY_SIZE {
            Color8Kind::Cmy(CmyColor { code: self.code - BASIC_SIZE })
        } else {
            Color8Kind::Gray(GrayColor { brightness: self.code - BASIC_CMY_SIZE })
        }
    }

    /// The 8-bit color of the given kind.
    pub(crate) fn from_color_kind(kind: Color8Kind) -> (r: Self)
        ensures
            r == Color8::from_kind(kind),
            r.code_spec() == code_of_kind(kind),
    {
        match kind {
            Color8Kind::Basic(color) => Self::basic(color),
            Color8Kind::Cmy(color) => Self::cmy(color),
            Color8Kind::Gray(color) => Self::gray(color),
        }
    }

    /// The inverted color, of the same kind.
    pub open spec fn inverted(self) -> Color8 {
        Color8::from_kind(self.kind_of().inverted())
    }

    /// The inverted color, of the same kind.
    pub(crate) fn invert(self) -> (r: Self)
        ensures
            r == self.inverted(),
    {
        Self::from_color_kind(self.kind().invert())
    }
}

/// Every code is the code of its kind, and every valid kind is the kind of its
/// code.
pub proof fn lemma_color8_code_kind_roundtrip(code: u8, kind: Color8Kind)
    ensures
        kind_of_code(code).valid(),
        code_of_kind(kind_of_code(code)) == code,
        kind.valid() ==> kind_of_code(code_of_kind(kind)) == kind,
{
    lemma_gray_brightness((code - BASIC_CMY_SIZE) as u8);
    match kind {
        Color8Kind::Basic(color) => {
            crate::color::basic::lemma_basic_code_names_color(color);
        },
        Color8Kind::Cmy(color) => {
            assert(CmyColor::with_code(color.code_spec()) == color);
        },
        Color8Kind::Gray(color) => {
            assert(GrayColor::with_brightness(color.brightness_spec()) == color);
        },
    }
}

/// An 8-bit color is the color of its kind, the color of a kind has that
/// kind's code, and a valid kind is the kind of its color. The code tells the
/// kind: below `16` basic, below `232` CMY, gray-scale above.
pub proof fn lemma_color8_kind_roundtrip(color: Color8, kind: Color8Kind)
    ensures
        Color8::with_code(color.code_spec()) == color,
        Color8::from_kind(color.kind_of()) == color,
        Color8::from_kind(kind).code_spec() == code_of_kind(kind),
        kind.valid() ==> Color8::from_kind(kind).kind_of() == kind,
        color.code_spec() < BASIC_SIZE <==> color.kind_of() is Basic,
        BASIC_SIZE <= color.code_spec() < BASIC_CMY_SIZE <==> color.kind_of() is Cmy,
        color.code_spec() >= BASIC_CMY_SIZE <==> color.kind_of() is Gray,
{
    lemma_color8_code_kind_roundtrip(color.code_spec(), kind);
}

impl core::ops::Not for Color8 {
    type Output = Self;

    /// The inverted color, of the same kind.
    fn not(self) -> (r: Self) {
        self.invert()
    }
}

impl vstd::std_specs::ops::NotSpecImpl for Color8 {
    open spec fn obeys_not_spec() -> bool {
        true
    }

    open spec fn not_req(self) -> bool {
        true
    }

    open spec fn not_spec(self) -> Self {
        self.inverted()
    }
}

impl From<BasicColor> for Color8 {
    fn from(color: BasicColor) -> (r: Self) {
        Self::basic(color)
    }
}

impl vstd::std_specs::convert::FromSpecImpl<BasicColor> for Color8 {
    open spec fn obeys_from_spec() -> bool {
        true
    }

    open spec fn from_spec(color: BasicColor) -> Self {
        Color8::from_kind(Color8Kind::Basic(color))
    }
}

impl From<CmyColor> for Color8 {
    fn from(color: CmyColor) -> (r: Self) {
        Self::cmy(color)
    }
}

impl vstd::std_specs::convert::FromSpecImpl<CmyColor> for Color8 {
    open spec fn obeys_from_spec() -> bool {
        true
    }

    open spec fn from_spec(color: CmyColor) -> Self {
        Color8::from_kind(Color8Kind::Cmy(color))
    }
}

impl From<GrayColor> for Color8 {
    fn from(color: GrayColor) -> (r: Self) {
        Self::gray(color)
    }
}

impl vstd::std_specs::convert::FromSpecImpl<GrayColor> for Color8 {
    open spec fn obeys_from_spec() -> bool {
        true
    }

    open spec fn from_spec(color: GrayColor) -> Self {
        Color8::from_kind(Color8Kind::Gray(color))
    }
}

impl From<Color8Kind> for Color8 {
    fn from(kind: Color8Kind) -> (r: Self) {
        Self::from_color_kind(kind)
    }
}

impl vstd::std_specs::convert::FromSpecImpl<Color8Kind> for Color8 {
    open spec fn obeys_from_spec() -> bool {
        true
    }

    open spec fn from_spec(kind: Color8Kind) -> Self {
        Color8::from_kind(kind)
    }
}

impl ApproxBrightness for Color8 {
    open spec fn brightness_of(&self) -> Brightness {
        self.kind_of().brightness_of()
    }

    open spec fn adaptable(&self, brightness: Brightness) -> bool {
        true
    }

    open spec fn adapted(&self, brightness: Brightness) -> Self {
        Color8::from_kind(self.kind_of().adapted(brightness))
    }

    fn approx_brightness(&self) -> (r: Brightness) {
        self.kind().approx_brightness()
    }

    fn set_approx_brightness(&mut self, brightness: Brightness) {
        *self = Self::from_color_kind(self.kind().with_approx_brightness(brightness));
    }
}

/// Inverting an 8-bit color twice gives it back.
pub proof fn lemma_color8_invert_involutive(color: Color8)
    ensures
        color.inverted().inverted() == color,
{
    let kind = color.kind_of();
    lemma_color8_code_kind_roundtrip(color.code_spec(), kind);
    let inverted = kind.inverted();
    match kind {
        Color8Kind::Basic(basic) => {
            crate::color::basic::lemma_basic_invert_involutive(basic);
        },
        Color8Kind::Cmy(cmy) => {
            lemma_cmy_invert_involutive(cmy);
            lemma_cmy_components(
                5 - cmy.cyan_of(),
                5 - cmy.magenta_of(),
                5 - cmy.yellow_of(),
            );
        },
        Color8Kind::Gray(gray) => {
            lemma_gray_invert_involutive(gray);
        },
    }
    lemma_color8_code_kind_roundtrip(code_of_kind(inverted), inverted);
    assert(color.inverted().kind_of() == inverted);
    lemma_color8_code_kind_roundtrip(code_of_kind(inverted.inverted()), kind);
}

} // verus!
