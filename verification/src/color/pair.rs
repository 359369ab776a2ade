//! Pairs of colors (foreground and background) and their updaters.

use crate::color::{ApproxBrightness, BasicColor, Brightness, Color};
use vstd::prelude::*;
use vstd::std_specs::convert::IntoSpec;

verus! {

/// A pair of colors (foreground and background).
#[derive(Debug, Clone, Copy, PartialEq, Eq, Structural, PartialOrd, Ord, Hash)]
pub struct Color2 {
    /// The foreground of this pair.
    pub foreground: Color,
    /// The background of this pair.
    pub background: Color,
}

/// The opposite of a brightness.
pub open spec fn opposite(brightness: Brightness) -> Brightness {
    Brightness { level: (65535 - brightness.level) as u16 }
}

/// The opposite of a brightness.
pub(crate) fn opposite_of(brightness: Brightness) -> (r: Brightness)
    ensures
        r == opposite(brightness),
{
    Brightness { level: 65535 - brightness.level }
}

impl Color2 {
    /// The default pair: white foreground over black background.
    pub open spec fn default_pair() -> Color2 {
        Color2 {
            foreground: Color::Basic(BasicColor::White),
            background: Color::Basic(BasicColor::Black),
        }
    }

    /// The pair with both colors inverted.
    pub open spec fn inverted(self) -> Color2 {
        Color2 { foreground: self.foreground.inverted(), background: self.background.inverted() }
    }

    /// Just a convenience method for creating color pairs with conversion.
    pub fn new<F, B>(foreground: F, background: B) -> (r: Self) where
        F: Into<Color>,
        B: Into<Color>,

        ensures
            <F as IntoSpec<Color>>::obeys_into_spec() ==> r.foreground == foreground.into_spec(),
            <B as IntoSpec<Color>>::obeys_into_spec() ==> r.background == background.into_spec(),
    {
        Self { foreground: foreground.into(), background: background.into() }
    }

    /// The pair with both colors inverted.
    pub fn invert(self) -> (r: Self)
        ensures
            r == self.inverted(),
    {
        Color2 { foreground: self.foreground.invert(), background: self.background.invert() }
    }
}

impl Default for Color2 {
    /// White foreground over black background.
    fn default() -> (r: Self)
        ensures
            r == Color2::default_pair(),
    {
        Color2 {
            foreground: Color::Basic(BasicColor::White),
            background: Color::Basic(BasicColor::Black),
        }
    }
}

impl core::ops::Not for Color2 {
    type Output = Color2;

    /// The pair with both colors inverted.
    fn not(self) -> (r: Self::Output) {
        self.invert()
    }
}

impl vstd::std_specs::ops::NotSpecImpl for Color2 {
    open spec fn obeys_not_spec() -> bool {
        true
    }

    open spec fn not_req(self) -> bool {
        true
    }

    open spec fn not_spec(self) -> Self {
        self.inverted()
    }
}

/// A function that updates a [`Color2`].
pub trait Updater {
    /// The pair this updater yields from the given one.
    spec fn updated(&self, pair: Color2) -> Color2;

    /// Receives a pair of color and yields a new one.
    fn update(&self, pair: Color2) -> (r: Color2)
        ensures
            r == self.updated(pair),
    ;
}

impl Updater for Color2 {
    open spec fn updated(&self, pair: Color2) -> Color2 {
        *self
    }

    fn update(&self, _pair: Color2) -> (r: Color2) {
        *self
    }
}

impl<'this, T> Updater for &'this T where T: Updater {
    open spec fn updated(&self, pair: Color2) -> Color2 {
        (**self).updated(pair)
    }

    fn update(&self, pair: Color2) -> (r: Color2) {
        (**self).update(pair)
    }
}

/// Updates the foreground of a pair of colors ([`Color2`]) to the given color.
#[derive(Debug, Clone, PartialEq, Eq, Structural, PartialOrd, Ord, Hash)]
pub struct UpdateFg(pub Color);

impl Updater for UpdateFg {
    open spec fn updated(&self, pair: Color2) -> Color2 {
        Color2 { foreground: self.0, background: pair.background }
    }

    fn update(&self, pair: Color2) -> (r: Color2) {
        Color2 { foreground: self.0, background: pair.background }
    }
}

/// Updates the background of a pair of colors ([`Color2`]) to the given color.
#[derive(Debug, Clone, PartialEq, Eq, Structural, PartialOrd, Ord, Hash)]
pub struct UpdateBg(pub Color);

impl Updater for UpdateBg {
    open spec fn updated(&self, pair: Color2) -> Color2 {
        Color2 { foreground: pair.foreground, background: self.0 }
    }

    fn update(&self, pair: Color2) -> (r: Color2) {
        Color2 { foreground: pair.foreground, background: self.0 }
    }
}

/// The pair with its foreground adapted to the brightness of its background.
pub open spec fn fg_adapted_to_bg(pair: Color2) -> Color2 {
    Color2 {
        background: pair.background,
        foreground: pair.foreground.adapted(pair.background.brightness_of()),
    }
}

/// The pair with its background adapted to the brightness of its foreground.
pub open spec fn bg_adapted_to_fg(pair: Color2) -> Color2 {
    Color2 {
        foreground: pair.foreground,
        background: pair.background.adapted(pair.foreground.brightness_of()),
    }
}

/// The pair with its foreground contrasting the brightness of its background.
pub open spec fn fg_contrasted_with_bg(pair: Color2) -> Color2 {
    Color2 {
        background: pair.background,
        foreground: pair.foreground.adapted(opposite(pair.background.brightness_of())),
    }
}

/// The pair with its background contrasting the brightness of its foreground.
pub open spec fn bg_contrasted_with_fg(pair: Color2) -> Color2 {
    Color2 {
        foreground: pair.foreground,
        background: pair.background.adapted(opposite(pair.foreground.brightness_of())),
    }
}

/// Adapts the brightness of the foreground color to match the background color
/// of a pair of colors ([`Color2`]). This means foreground is modified.
#[derive(Debug, Clone, PartialEq, Eq, Structural, PartialOrd, Ord, Hash)]
pub struct AdaptFgToBg;

impl Updater for AdaptFgToBg {
    open spec fn updated(&self, pair: Color2) -> Color2 {
        fg_adapted_to_bg(pair)
    }

    fn update(&self, pair: Color2) -> (r: Color2) {
        Color2 {
            background: pair.background,
            foreground: pair.foreground.with_approx_brightness(
                pair.background.approx_brightness(),
            ),
        }
    }
}

/// Adapts the brightness of the background color to match the foreground color
/// of a pair of colors ([`Color2`]). This means background is modified.
#[derive(Debug, Clone, PartialEq, Eq, Structural, PartialOrd, Ord, Hash)]
pub struct AdaptBgToFg;

impl Updater for AdaptBgToFg {
    open spec fn updated(&self, pair: Color2) -> Color2 {
        bg_adapted_to_fg(pair)
    }

    fn update(&self, pair: Color2) -> (r: Color2) {
        Color2 {
            foreground: pair.foreground,
            background: pair.background.with_approx_brightness(
                pair.foreground.approx_brightness(),
            ),
        }
    }
}

/// Contrasts the brightness of the foreground color against the background
/// color of a pair of colors ([`Color2`]). This means foreground is modified.
#[derive(Debug, Clone, PartialEq, Eq, Structural, PartialOrd, Ord, Hash)]
pub struct ContrastFgWithBg;

impl Updater for ContrastFgWithBg {
    open spec fn updated(&self, pair: Color2) -> Color2 {
        fg_contrasted_with_bg(pair)
    }

    fn update(&self, pair: Color2) -> (r: Color2) {
        Color2 {
            background: pair.background,
            foreground: pair.foreground.with_approx_brightness(
                opposite_of(pair.background.approx_brightness()),
            ),
        }
    }
}

/// Contrasts the brightness of the background color against the foreground
/// color of a pair of colors ([`Color2`]). This means background is modified.
#[derive(Debug, Clone, PartialEq, Eq, Structural, PartialOrd, Ord, Hash)]
pub struct ContrastBgWithFg;

impl Updater for ContrastBgWithFg {
    open spec fn updated(&self, pair: Color2) -> Color2 {
        bg_contrasted_with_fg(pair)
    }

    fn update(&self, pair: Color2) -> (r: Color2) {
        Color2 {
            foreground: pair.foreground,
            background: pair.background.with_approx_brightness(
                opposite_of(pair.foreground.approx_brightness()),
            ),
        }
    }
}

impl<A0> Updater for (A0,) where A0: Updater {
    open spec fn updated(&self, pair: Color2) -> Color2 {
        self.0.updated(pair)
    }

    fn update(&self, pair: Color2) -> (r: Color2) {
        self.0.update(pair)
    }
}

impl<A0, A1> Updater for (A0, A1) where A0: Updater, A1: Updater {
    open spec fn updated(&self, pair: Color2) -> Color2 {
        self.1.updated(self.0.updated(pair))
    }

    fn update(&self, pair: Color2) -> (r: Color2) {
        let result = self.0.update(pair);
        self.1.update(result)
    }
}

impl<A0, A1, A2> Updater for (A0, A1, A2) where A0: Updater, A1: Updater, A2: Updater {
    open spec fn updated(&self, pair: Color2) -> Color2 {
        self.2.updated(self.1.updated(self.0.updated(pair)))
    }

    fn update(&self, pair: Color2) -> (r: Color2) {
        let result = self.0.update(pair);
        let result = self.1.update(result);
        self.2.update(result)
    }
}

impl<A0, A1, A2, A3> Updater for (A0, A1, A2, A3) where
    A0: Updater,
    A1: Updater,
    A2: Updater,
    A3: Updater,
 {
    open spec fn updated(&self, pair: Color2) -> Color2 {
        self.3.updated(self.2.updated(self.1.updated(self.0.updated(pair))))
    }

    fn update(&self, pair: Color2) -> (r: Color2) {
        let result = self.0.update(pair);
        let result = self.1.update(result);
        let result = self.2.update(result);
        self.3.update(result)
    }
}

/// The opposite of the opposite of a brightness is the brightness itself.
pub proof fn lemma_opposite_involutive(brightness: Brightness)
    ensures
        opposite(opposite(brightness)) == brightness,
{
}

/// Inverting a pair twice gives it back.
pub proof fn lemma_pair_invert_involutive(pair: Color2)
    ensures
        pair.inverted().inverted() == pair,
{
    crate::color::lemma_color_invert_involutive(pair.foreground);
    crate::color::lemma_color_invert_involutive(pair.background);
}

} // verus!
