//! RGB colors.

use crate::color::brightness::{
    adapted_value, max_value, compress_level, filled_value, lemma_spread_fits, raw_level, rescaled_value,
    spread_level, weight_total, weighted_total, ApproxBrightness, Brightness, Channel,
    ChannelVector,
};
use vstd::prelude::*;

verus! {

/// An RGB color (Red-Green-Blue). This is an additive color model, where the
/// value of a color channel is how much the channel is added to the color. All
/// channels zeroed are black.
#[derive(Debug, Clone, Copy, PartialEq, Eq, Structural, PartialOrd, Ord, Hash)]
pub struct RgbColor {
    /// The red channel of this RGB color. Higher values means more red to the
    /// color.
    pub red: u8,
    /// The green channel of this RGB color. Higher values means more green to
    /// the color.
    pub green: u8,
    /// The blue channel of this RGB color. Higher values means more blue to
    /// the color.
    pub blue: u8,
}

/// Weight of the red channel in the brightness of an RGB color.
pub const RED_WEIGHT: u8 = 30;
/// Weight of the green channel in the brightness of an RGB color.
pub const GREEN_WEIGHT: u8 = 59;
/// Weight of the blue channel in the brightness of an RGB color.
pub const BLUE_WEIGHT: u8 = 11;

/// The weighted sum of three channel values, with the weights of red, green
/// and blue.
pub open spec fn weighted3(a: int, b: int, c: int) -> int {
    30 * a + 59 * b + 11 * c
}

/// The brightness level of three channel values out of `soft_max`.
pub open spec fn channels3_level(a: int, b: int, c: int, soft_max: int) -> int {
    spread_level(raw_level(weighted3(a, b, c), 100), soft_max)
}

/// The value a channel takes when the brightness of the three channels
/// `(a, b, c)`, each out of `soft_max`, is set to `level`.
pub open spec fn adapted3(value: int, a: int, b: int, c: int, soft_max: int, level: int) -> int {
    let total = weighted3(a, b, c);
    let compressed = compress_level(level, soft_max * 100);
    if total == 0 {
        filled_value(compressed, 100, soft_max)
    } else {
        rescaled_value(value, max3(a, b, c), compressed, total, soft_max)
    }
}

/// The largest of three values.
pub open spec fn max3(a: int, b: int, c: int) -> int {
    let ab = if b > a {
        b
    } else {
        a
    };
    if c > ab {
        c
    } else {
        ab
    }
}

/// The totals of three weighted channels.
pub(crate) proof fn lemma_three_channels(chans: Seq<Channel>)
    requires
        chans.len() == 3,
        chans[0].weight == 30,
        chans[1].weight == 59,
        chans[2].weight == 11,
    ensures
        weighted_total(chans) == weighted3(
            chans[0].value as int,
            chans[1].value as int,
            chans[2].value as int,
        ),
        weight_total(chans) == 100,
        max_value(chans) == max3(
            chans[0].value as int,
            chans[1].value as int,
            chans[2].value as int,
        ),
{
    reveal_with_fuel(weighted_total, 4);
    reveal_with_fuel(weight_total, 4);
    reveal_with_fuel(max_value, 4);
    assert(chans.drop_last().drop_last().drop_last() =~= Seq::<Channel>::empty());
    assert(chans.drop_last().drop_last().last() == chans[0]);
    assert(chans.drop_last().last() == chans[1]);
}

/// Raw brightness of three channels out of `soft_max` does not exceed it.
pub(crate) proof fn lemma_raw3_bound(a: int, b: int, c: int, soft_max: int)
    requires
        0 <= a <= soft_max,
        0 <= b <= soft_max,
        0 <= c <= soft_max,
    ensures
        0 <= raw_level(weighted3(a, b, c), 100) <= soft_max,
{
}

/// Builds the three weighted channels of the given values.
pub(crate) fn weighted_channels(a: u8, b: u8, c: u8) -> (r: Vec<Channel>)
    ensures
        r@.len() == 3,
        r@[0].value == a && r@[0].weight == 30,
        r@[1].value == b && r@[1].weight == 59,
        r@[2].value == c && r@[2].weight == 11,
        forall|i: int| 0 <= i < 3 ==> (#[trigger] r@[i]).wf(),
        weighted_total(r@) == weighted3(a as int, b as int, c as int),
        weight_total(r@) == 100,
        max_value(r@) == max3(a as int, b as int, c as int),
{
    let mut channels: Vec<Channel> = Vec::new();
    channels.push(Channel::new(a, RED_WEIGHT));
    channels.push(Channel::new(b, GREEN_WEIGHT));
    channels.push(Channel::new(c, BLUE_WEIGHT));
    proof {
        lemma_three_channels(channels@);
    }
    channels
}

/// The brightness of three channels each out of `soft_max`.
pub(crate) fn channels3_brightness(a: u8, b: u8, c: u8, soft_max: u8) -> (r: Brightness)
    requires
        a <= soft_max,
        b <= soft_max,
        c <= soft_max,
        3 <= soft_max,
    ensures
        r.level == channels3_level(a as int, b as int, c as int, soft_max as int),
{
    let vector = ChannelVector::new(weighted_channels(a, b, c), soft_max);
    proof {
        lemma_raw3_bound(a as int, b as int, c as int, soft_max as int);
        lemma_spread_fits(vector.raw(), soft_max as int);
    }
    vector.approx_brightness()
}

/// The three channels each out of `soft_max` with their brightness set to the
/// given one.
pub(crate) fn channels3_adapted(a: u8, b: u8, c: u8, soft_max: u8, brightness: Brightness) -> (r: (
    u8,
    u8,
    u8,
))
    requires
        soft_max <= 255,
    ensures
        r.0 == adapted3(a as int, a as int, b as int, c as int, soft_max as int, brightness.level as int),
        r.1 == adapted3(b as int, a as int, b as int, c as int, soft_max as int, brightness.level as int),
        r.2 == adapted3(c as int, a as int, b as int, c as int, soft_max as int, brightness.level as int),
{
    let mut vector = ChannelVector::new(weighted_channels(a, b, c), soft_max);
    let ghost old_chans = vector.channels@;
    vector.set_approx_brightness(brightness);
    let channels = vector.into_channels();
    proof {
        assert(adapted_value(old_chans, 0, soft_max as int, brightness.level as int) == adapted3(
            a as int, a as int, b as int, c as int, soft_max as int, brightness.level as int));
        assert(adapted_value(old_chans, 1, soft_max as int, brightness.level as int) == adapted3(
            b as int, a as int, b as int, c as int, soft_max as int, brightness.level as int));
        assert(adapted_value(old_chans, 2, soft_max as int, brightness.level as int) == adapted3(
            c as int, a as int, b as int, c as int, soft_max as int, brightness.level as int));
    }
    (channels[0].value(), channels[1].value(), channels[2].value())
}

impl RgbColor {
    /// Creates an RGB color from the given channels.
    fn from_channels(channels: (u8, u8, u8)) -> (r: Self)
        ensures
            r.red == channels.0,
            r.green == channels.1,
            r.blue == channels.2,
    {
        Self { red: channels.0, green: channels.1, blue: channels.2 }
    }

    /// The inverted color: every channel is replaced by its complement.
    pub open spec fn inverted(self) -> RgbColor {
        RgbColor {
            red: (255 - self.red) as u8,
            green: (255 - self.green) as u8,
            blue: (255 - self.blue) as u8,
        }
    }

    /// The inverted color: every channel is replaced by its complement.
    pub(crate) fn invert(self) -> (r: Self)
        ensures
            r == self.inverted(),
    {
        let max = u8::MAX;
        Self { red: max - self.red, green: max - self.green, blue: max - self.blue }
    }
}

impl ApproxBrightness for RgbColor {
    open spec fn brightness_of(&self) -> Brightness {
        Brightness {
            level: channels3_level(self.red as int, self.green as int, self.blue as int, 255) as u16,
        }
    }

    open spec fn adaptable(&self, brightness: Brightness) -> bool {
        true
    }

    open spec fn adapted(&self, brightness: Brightness) -> Self {
        let (r, g, b) = (self.red as int, self.green as int, self.blue as int);
        RgbColor {
            red: adapted3(r, r, g, b, 255, brightness.level as int) as u8,
            green: adapted3(g, r, g, b, 255, brightness.level as int) as u8,
            blue: adapted3(b, r, g, b, 255, brightness.level as int) as u8,
        }
    }

    fn approx_brightness(&self) -> (r: Brightness) {
        channels3_brightness(self.red, self.green, self.blue, u8::MAX)
    }

    fn set_approx_brightness(&mut self, brightness: Brightness) {
        let channels = channels3_adapted(self.red, self.green, self.blue, u8::MAX, brightness);
        *self = Self::from_channels(channels);
    }
}

impl core::ops::Not for RgbColor {
    type Output = Self;

    /// The inverted color: every channel is replaced by its complement.
    fn not(self) -> (r: Self) {
        self.invert()
    }
}

impl vstd::std_specs::ops::NotSpecImpl for RgbColor {
    open spec fn obeys_not_spec() -> bool {
        true
    }

    open spec fn not_req(self) -> bool {
        true
    }

    open spec fn not_spec(self) -> Self {
        self.inverted()
    }
}

/// Inverting an RGB color twice gives it back.
pub proof fn lemma_rgb_invert_involutive(color: RgbColor)
    ensures
        color.inverted().inverted() == color,
{
}

/// The value the channels of a black color take when its brightness is set
/// to `level`, out of `soft_max`, is within one channel step of the level:
/// none at the lowest level, the maximum at the highest.
pub(crate) proof fn lemma_black_filled(level: int, soft_max: int)
    requires
        0 <= level <= 65535,
        1 <= soft_max <= 255,
    ensures
        0 <= adapted3(0, 0, 0, 0, soft_max, level) <= soft_max,
        adapted3(0, 0, 0, 0, soft_max, level) * 65535 <= level * soft_max + 328,
        level * soft_max < (adapted3(0, 0, 0, 0, soft_max, level) + 1) * 65535 + 328,
        level == 65535 ==> adapted3(0, 0, 0, 0, soft_max, level) == soft_max,
        level == 0 ==> adapted3(0, 0, 0, 0, soft_max, level) == 0,
{
    let c = compress_level(level, soft_max * 100);
    assert(c == (level * soft_max * 100 + 32768) / 65535) by (nonlinear_arith)
        requires
            c == (level * (soft_max * 100) + 32768) / 65535,
    ;
    assert(0 <= c <= soft_max * 100) by (nonlinear_arith)
        requires
            c == (level * soft_max * 100 + 32768) / 65535,
            0 <= level <= 65535,
            1 <= soft_max <= 255,
    ;
    assert(c * 65535 <= level * soft_max * 100 + 32768 < c * 65535 + 65535) by (nonlinear_arith)
        requires
            c == (level * soft_max * 100 + 32768) / 65535,
            0 <= level,
            1 <= soft_max,
    ;
    let v = c / 100;
    assert(v * 100 <= c < v * 100 + 100);
    assert(v <= soft_max);
    assert(adapted3(0, 0, 0, 0, soft_max, level) == v);
    assert(v * 65535 <= level * soft_max + 328) by (nonlinear_arith)
        requires
            v * 100 <= c,
            c * 65535 <= level * soft_max * 100 + 32768,
    ;
    assert(level * soft_max < (v + 1) * 65535 + 328) by (nonlinear_arith)
        requires
            c < v * 100 + 100,
            level * soft_max * 100 + 32768 < c * 65535 + 65535,
    ;
    if level == 65535 {
        assert(c == soft_max * 100) by (nonlinear_arith)
            requires
                level == 65535,
                c * 65535 <= level * soft_max * 100 + 32768 < c * 65535 + 65535,
        ;
    }
    if level == 0 {
        assert(v == 0) by (nonlinear_arith)
            requires
                level == 0,
                v * 65535 <= level * soft_max + 328,
                v >= 0,
        ;
    }
}

/// Setting the brightness of black fills all channels with one value: the
/// color is a gray whose brightness is within one channel step of the level
/// asked, and black set to the full brightness is white.
pub proof fn lemma_rgb_black_adapted(black: RgbColor, brightness: Brightness)
    requires
        black.red == 0,
        black.green == 0,
        black.blue == 0,
    ensures
        black.adapted(brightness).red == black.adapted(brightness).green,
        black.adapted(brightness).green == black.adapted(brightness).blue,
        black.adapted(brightness).red * 65535 <= brightness.level * 255 + 328,
        brightness.level * 255 < (black.adapted(brightness).red + 1) * 65535 + 328,
        brightness.level == 65535 ==> black.adapted(brightness).red == 255,
        brightness.level == 0 ==> black.adapted(brightness).red == 0,
{
    lemma_black_filled(brightness.level as int, 255);
}

} // verus!
