//! Color brightness utilities.

use vstd::prelude::*;

verus! {

/// The largest brightness level.
pub const MAX_LEVEL: u16 = 65535;

/// Level obtained by spreading `level`, taken out of `soft_max`, over the
/// whole range of brightness levels (rounded).
pub open spec fn spread_level(level: int, soft_max: int) -> int {
    (level * 65535 + soft_max / 2 + 1) / soft_max
}

/// Whether spreading `level` out of `soft_max` is defined and fits a level.
pub open spec fn spread_fits(level: int, soft_max: int) -> bool {
    &&& 0 <= level <= soft_max
    &&& soft_max > 0
    &&& spread_level(level, soft_max) <= 65535
}

/// Level obtained by compressing `level` into the range `0 ..= soft_max`
/// (rounded).
pub open spec fn compress_level(level: int, soft_max: int) -> int {
    (level * soft_max + 32768) / 65535
}

/// The brightness of a color.
#[derive(Debug, Clone, Copy, PartialEq, Eq, Structural, PartialOrd, Ord, Hash)]
pub struct Brightness {
    /// Level of brightness. The lower the brightness, the darker the color is.
    pub level: u16,
}

proof fn lemma_spread_small_max(level: int, soft_max: int)
    requires
        0 <= level <= soft_max,
        3 <= soft_max <= 65535,
    ensures
        spread_level(level, soft_max) <= 65535,
        spread_level(level, soft_max) >= 0,
{
    assert(level * 65535 <= soft_max * 65535) by (nonlinear_arith)
        requires
            0 <= level <= soft_max,
    ;
    assert(soft_max / 2 + 1 < soft_max);
    assert((level * 65535 + soft_max / 2 + 1) < soft_max * 65536) by (nonlinear_arith)
        requires
            level * 65535 <= soft_max * 65535,
            soft_max / 2 + 1 < soft_max,
    ;
    assert((level * 65535 + soft_max / 2 + 1) / soft_max < 65536) by (nonlinear_arith)
        requires
            (level * 65535 + soft_max / 2 + 1) < soft_max * 65536,
            soft_max > 0,
    ;
    assert((level * 65535 + soft_max / 2 + 1) / soft_max >= 0) by (nonlinear_arith)
        requires
            level >= 0,
            soft_max > 0,
    ;
}

/// Spreading is defined for every level that does not exceed a maximum of at
/// least three.
pub proof fn lemma_spread_fits(level: int, soft_max: int)
    requires
        0 <= level <= soft_max,
        3 <= soft_max <= 65535,
    ensures
        spread_fits(level, soft_max),
{
    lemma_spread_small_max(level, soft_max);
}

/// A compressed level never exceeds the maximum it is compressed into.
pub proof fn lemma_compress_bound(level: int, soft_max: int)
    requires
        0 <= level <= 65535,
        0 <= soft_max <= 65535,
    ensures
        0 <= compress_level(level, soft_max) <= soft_max,
{
    assert(level * soft_max <= 65535 * soft_max) by (nonlinear_arith)
        requires
            0 <= level <= 65535,
            0 <= soft_max,
    ;
    assert(level * soft_max >= 0) by (nonlinear_arith)
        requires
            0 <= level,
            0 <= soft_max,
    ;
    assert((level * soft_max + 32768) / 65535 <= soft_max) by (nonlinear_arith)
        requires
            level * soft_max <= 65535 * soft_max,
            level * soft_max >= 0,
    ;
}

impl Brightness {
    /// Minimum brightness (i.e. dark).
    pub fn min() -> (r: Self)
        ensures
            r.level == 0,
    {
        Self { level: 0 }
    }

    /// Maximum brightness (i.e. white).
    pub fn max() -> (r: Self)
        ensures
            r.level == MAX_LEVEL,
    {
        Self { level: MAX_LEVEL }
    }

    /// Spreads this brightness so it becomes distributed along the range of
    /// brightness, assuming the maximum value it could be is the one given
    /// by `soft_max`.
    pub fn spread(self, soft_max: u16) -> (r: Self)
        requires
            spread_fits(self.level as int, soft_max as int),
        ensures
            r.level == spread_level(self.level as int, soft_max as int),
    {
        let level = self.level as u32;
        let soft: u32 = soft_max as u32;
        let max: u32 = MAX_LEVEL as u32;
        assert(level * max <= 65535 * 65535) by (nonlinear_arith)
            requires
                level <= 65535,
                max == 65535,
        ;
        let converted = (level * max + soft / 2 + 1) / soft;
        Self { level: converted as u16 }
    }

    /// Compresses this brightness so it becomes a value between zero and the
    /// maximum value, given by `soft_max`.
    pub fn compress(self, soft_max: u16) -> (r: Self)
        ensures
            r.level == compress_level(self.level as int, soft_max as int),
            r.level <= soft_max,
    {
        let level = self.level as u32;
        let soft: u32 = soft_max as u32;
        let max: u32 = MAX_LEVEL as u32;
        assert(level * soft <= 65535 * 65535) by (nonlinear_arith)
            requires
                level <= 65535,
                soft <= 65535,
        ;
        proof {
            lemma_compress_bound(level as int, soft as int);
        }
        let converted = (level * soft + max / 2 + 1) / max;
        Self { level: converted as u16 }
    }
}

impl Default for Brightness {
    /// The default brightness is the maximum one.
    fn default() -> (r: Self)
        ensures
            r.level == MAX_LEVEL,
    {
        Self::max()
    }
}

impl core::ops::Not for Brightness {
    type Output = Self;

    /// The opposite brightness.
    fn not(self) -> (r: Self) {
        Self { level: MAX_LEVEL - self.level }
    }
}

impl vstd::std_specs::ops::NotSpecImpl for Brightness {
    open spec fn obeys_not_spec() -> bool {
        true
    }

    open spec fn not_req(self) -> bool {
        true
    }

    open spec fn not_spec(self) -> Self {
        Brightness { level: (65535 - self.level) as u16 }
    }
}

/// A trait for types that can approximate their brightness.
pub trait ApproxBrightness: Sized {
    /// The approximate brightness of the color.
    spec fn brightness_of(&self) -> Brightness;

    /// Whether the brightness of the color can be set to the given one.
    spec fn adaptable(&self, brightness: Brightness) -> bool;

    /// The color with its brightness set to the given one.
    spec fn adapted(&self, brightness: Brightness) -> Self;

    /// Approximate the brightness of the color.
    fn approx_brightness(&self) -> (r: Brightness)
        ensures
            r == self.brightness_of(),
    ;

    /// Set the approximate brightness of the color.
    fn set_approx_brightness(&mut self, brightness: Brightness)
        requires
            old(self).adaptable(brightness),
        ensures
            *final(self) == old(self).adapted(brightness),
    ;

    /// Like [`Self::set_approx_brightness`] but takes and returns `self`
    /// instead of mutating it.
    fn with_approx_brightness(self, brightness: Brightness) -> (r: Self)
        requires
            self.adaptable(brightness),
        ensures
            r == self.adapted(brightness),
    {
        let mut this = self;
        this.set_approx_brightness(brightness);
        this
    }
}

/// A channel's data.
#[derive(Debug, Clone, Copy)]
pub struct Channel {
    /// Channel actual value.
    pub(crate) value: u8,
    /// Channel's weight.
    pub(crate) weight: u8,
    /// Computed weighted value.
    pub(crate) weighted: u16,
}

impl Channel {
    /// The computed weighted value agrees with value and weight.
    pub(crate) open spec fn wf(self) -> bool {
        self.weighted == self.value * self.weight
    }

    /// Creates channel data from value and weight.
    pub(crate) fn new(value: u8, weight: u8) -> (r: Self)
        ensures
            r.wf(),
            r.value == value,
            r.weight == weight,
    {
        assert(value * weight <= 255 * 255) by (nonlinear_arith)
            requires
                value <= 255,
                weight <= 255,
        ;
        let weighted = (value as u16) * (weight as u16);
        Self { value, weight, weighted }
    }

    /// Channel's value.
    pub(crate) fn value(self) -> (r: u8)
        ensures
            r == self.value,
    {
        self.value
    }

    /// Channel's weight.
    pub(crate) fn weight(self) -> (r: u8)
        ensures
            r == self.weight,
    {
        self.weight
    }

    /// Computed channel's value applied to the weight.
    fn weighted(self) -> (r: u16)
        requires
            self.wf(),
        ensures
            r == self.value * self.weight,
    {
        self.weighted
    }

    /// Sets the channel's value and updates computed values.
    fn set_value(&mut self, value: u8)
        ensures
            final(self).wf(),
            final(self).value == value,
            final(self).weight == old(self).weight,
    {
        *self = Channel::new(value, self.weight);
    }
}

/// Sum of the weighted values of the channels.
pub(crate) open spec fn weighted_total(chans: Seq<Channel>) -> int
    decreases chans.len(),
{
    if chans.len() == 0 {
        0
    } else {
        weighted_total(chans.drop_last()) + chans.last().value * chans.last().weight
    }
}

/// Sum of the weights of the channels.
pub(crate) open spec fn weight_total(chans: Seq<Channel>) -> int
    decreases chans.len(),
{
    if chans.len() == 0 {
        0
    } else {
        weight_total(chans.drop_last()) + chans.last().weight
    }
}

/// The weighted mean of the channels' values (rounded).
pub open spec fn raw_level(total_value: int, total_weights: int) -> int {
    (total_value + total_weights / 2 + 1) / total_weights
}

/// The value every channel takes when the brightness of a black vector is
/// set to the compressed `level`.
pub open spec fn filled_value(level: int, total_weights: int, soft_max: int) -> int {
    let q = level / total_weights;
    if q <= 255 {
        q
    } else {
        soft_max
    }
}

/// The largest value among the channels.
pub(crate) open spec fn max_value(chans: Seq<Channel>) -> int
    decreases chans.len(),
{
    if chans.len() == 0 {
        0
    } else if chans.last().value > max_value(chans.drop_last()) {
        chans.last().value as int
    } else {
        max_value(chans.drop_last())
    }
}

/// Whether scaling the channels by `level` over `total_value` would push the
/// largest one, `max`, past `soft_max`.
pub open spec fn scaling_overflows(max: int, level: int, total_value: int, soft_max: int) -> bool {
    max * level > soft_max * total_value
}

/// The new value of a channel when the brightness of a non-black vector is
/// set to the compressed `level`. The values are scaled by `level` over the
/// current total, rounded and capped at `soft_max`. Where that would push the
/// largest value, `max`, past `soft_max`, the values are instead scaled by
/// `soft_max` over `max` (rounded), which keeps the proportions between the
/// channels: the color becomes as bright as it can with the same hue.
pub open spec fn rescaled_value(
    value: int,
    max: int,
    level: int,
    total_value: int,
    soft_max: int,
) -> int {
    if scaling_overflows(max, level, total_value, soft_max) {
        (2 * value * soft_max + max) / (2 * max)
    } else {
        let divided = (value * level + total_value / 2 + 1) / total_value;
        let v = if divided <= 255 {
            divided
        } else {
            soft_max
        };
        if v <= soft_max {
            v
        } else {
            soft_max
        }
    }
}

/// A value scaled by `soft_max` over a larger or equal `max` stays within
/// `0 ..= soft_max`.
pub proof fn lemma_hue_kept_bound(value: int, max: int, soft_max: int)
    requires
        0 <= value <= max,
        max > 0,
        soft_max >= 0,
    ensures
        0 <= (2 * value * soft_max + max) / (2 * max) <= soft_max,
{
    assert(2 * value * soft_max <= 2 * max * soft_max) by (nonlinear_arith)
        requires
            0 <= value <= max,
            soft_max >= 0,
    ;
    assert((2 * value * soft_max + max) / (2 * max) <= soft_max) by (nonlinear_arith)
        requires
            2 * value * soft_max <= 2 * max * soft_max,
            max > 0,
    ;
    assert(0 <= (2 * value * soft_max + max) / (2 * max)) by (nonlinear_arith)
        requires
            value >= 0,
            max > 0,
            soft_max >= 0,
    ;
}

/// The value of a channel after the vector's brightness is set to the given
/// brightness level.
pub(crate) open spec fn adapted_value(
    chans: Seq<Channel>,
    i: int,
    soft_max: int,
    brightness: int,
) -> int {
    let total_weights = weight_total(chans);
    let total_value = weighted_total(chans);
    let level = compress_level(brightness, soft_max * total_weights);
    if total_value == 0 {
        filled_value(level, total_weights, soft_max)
    } else {
        rescaled_value(chans[i].value as int, max_value(chans), level, total_value, soft_max)
    }
}

proof fn lemma_totals_prefix(chans: Seq<Channel>, i: int)
    requires
        0 <= i < chans.len(),
    ensures
        weighted_total(chans.take(i + 1)) == weighted_total(chans.take(i)) + chans[i].value
            * chans[i].weight,
        weight_total(chans.take(i + 1)) == weight_total(chans.take(i)) + chans[i].weight,
{
    assert(chans.take(i + 1).drop_last() =~= chans.take(i));
}

proof fn lemma_max_value_prefix(chans: Seq<Channel>, i: int)
    requires
        0 <= i < chans.len(),
    ensures
        max_value(chans.take(i + 1)) == if chans[i].value > max_value(chans.take(i)) {
            chans[i].value as int
        } else {
            max_value(chans.take(i))
        },
{
    assert(chans.take(i + 1).drop_last() =~= chans.take(i));
}

/// Every value is at most the largest one, which is itself a byte.
proof fn lemma_max_value_bound(chans: Seq<Channel>)
    ensures
        0 <= max_value(chans) <= 255,
        forall|j: int| 0 <= j < chans.len() ==> (#[trigger] chans[j]).value <= max_value(chans),
    decreases chans.len(),
{
    if chans.len() > 0 {
        lemma_max_value_bound(chans.drop_last());
        assert forall|j: int| 0 <= j < chans.len() implies (#[trigger] chans[j]).value <= max_value(
            chans,
        ) by {
            if j < chans.len() - 1 {
                assert(chans.drop_last()[j] == chans[j]);
            }
        }
    }
}

proof fn lemma_totals_bound(chans: Seq<Channel>)
    ensures
        0 <= weighted_total(chans) <= 65025 * chans.len(),
        0 <= weight_total(chans) <= 255 * chans.len(),
    decreases chans.len(),
{
    if chans.len() > 0 {
        lemma_totals_bound(chans.drop_last());
        let c = chans.last();
        assert(0 <= c.value * c.weight <= 65025) by (nonlinear_arith)
            requires
                0 <= c.value <= 255,
                0 <= c.weight <= 255,
        ;
    }
}

/// A vector of color channels.
#[derive(Debug)]
pub struct ChannelVector {
    /// The maximum value of the channels.
    pub(crate) soft_max: u8,
    /// The channels' data.
    pub(crate) channels: Vec<Channel>,
    /// Computed total sum of channels' values.
    pub(crate) total_value: u64,
    /// Computed total sum of channels' weights.
    pub(crate) total_weights: u64,
}

impl ChannelVector {
    /// The cached totals agree with the channels.
    pub(crate) open spec fn wf(&self) -> bool {
        &&& forall|i: int| 0 <= i < self.channels@.len() ==> (#[trigger] self.channels@[i]).wf()
        &&& self.total_value == weighted_total(self.channels@)
        &&& self.total_weights == weight_total(self.channels@)
        &&& self.total_weights > 0
        &&& self.channels@.len() <= u32::MAX
    }

    /// The raw brightness of the vector, out of `soft_max`.
    pub(crate) open spec fn raw(&self) -> int {
        raw_level(self.total_value as int, self.total_weights as int)
    }

    /// Creates a new vector given the channels' data and a maximum value for
    /// the channels.
    pub(crate) fn new(channels: Vec<Channel>, soft_max: u8) -> (r: Self)
        requires
            forall|i: int| 0 <= i < channels@.len() ==> (#[trigger] channels@[i]).wf(),
            weight_total(channels@) > 0,
            channels@.len() <= u32::MAX,
        ensures
            r.wf(),
            r.soft_max == soft_max,
            r.channels@ == channels@,
    {
        let mut this = Self { total_value: 0, channels, soft_max, total_weights: 0 };
        this.update_cache();
        this
    }

    /// Updates cached computed values.
    fn update_cache(&mut self)
        requires
            forall|i: int|
                0 <= i < old(self).channels@.len() ==> (#[trigger] old(self).channels@[i]).wf(),
            weight_total(old(self).channels@) > 0,
            old(self).channels@.len() <= u32::MAX,
        ensures
            final(self).wf(),
            final(self).channels@ == old(self).channels@,
            final(self).soft_max == old(self).soft_max,
    {
        let len = self.channels.len();
        let mut total_value: u64 = 0;
        let mut total_weights: u64 = 0;
        let mut i: usize = 0;
        while i < len
            invariant
                len == self.channels@.len(),
                len <= u32::MAX,
                i <= len,
                forall|j: int| 0 <= j < self.channels@.len() ==> (#[trigger] self.channels@[j]).wf(),
                total_value == weighted_total(self.channels@.take(i as int)),
                total_weights == weight_total(self.channels@.take(i as int)),
            decreases len - i,
        {
            proof {
                lemma_totals_prefix(self.channels@, i as int);
                lemma_totals_bound(self.channels@.take(i as int));
            }
            let chan = self.channels[i];
            total_value = total_value + chan.weighted() as u64;
            total_weights = total_weights + chan.weight() as u64;
            i = i + 1;
        }
        assert(self.channels@.take(len as int) =~= self.channels@);
        self.total_value = total_value;
        self.total_weights = total_weights;
    }

    /// Returns the raw brightness of this vector.
    fn raw_brightness(&self) -> (r: u64)
        requires
            self.wf(),
        ensures
            r == self.raw(),
    {
        proof {
            lemma_totals_bound(self.channels@);
        }
        (self.total_value + self.total_weights / 2 + 1) / self.total_weights
    }

    /// Gives the channels back.
    pub(crate) fn into_channels(self) -> (r: Vec<Channel>)
        ensures
            r@ == self.channels@,
    {
        self.channels
    }

    /// Sets the brightness when total channels value is `0`.
    fn set_brightness_total_zero(&mut self, level: u64)
        requires
            old(self).wf(),
            old(self).total_value == 0,
        ensures
            final(self).wf(),
            final(self).soft_max == old(self).soft_max,
            final(self).channels@.len() == old(self).channels@.len(),
            forall|i: int|
                0 <= i < old(self).channels@.len() ==> {
                    &&& (#[trigger] final(self).channels@[i]).weight == old(self).channels@[i].weight
                    &&& final(self).channels@[i].value == filled_value(
                        level as int,
                        old(self).total_weights as int,
                        old(self).soft_max as int,
                    )
                },
    {
        let quotient = level / self.total_weights;
        let value: u8 = if quotient <= 255 {
            quotient as u8
        } else {
            self.soft_max
        };
        let ghost old_chans = self.channels@;
        let len = self.channels.len();
        let mut i: usize = 0;
        while i < len
            invariant
                len == self.channels@.len(),
                len == old_chans.len(),
                len <= u32::MAX,
                i <= len,
                self.soft_max == old(self).soft_max,
                forall|j: int| 0 <= j < len ==> (#[trigger] self.channels@[j]).wf(),
                forall|j: int| 0 <= j < len ==> (#[trigger] self.channels@[j]).weight == old_chans[j].weight,
                forall|j: int| 0 <= j < i ==> (#[trigger] self.channels@[j]).value == value,
            decreases len - i,
        {
            let mut chan = self.channels[i];
            chan.set_value(value);
            self.channels.set(i, chan);
            i = i + 1;
        }
        proof {
            assert(weight_total(self.channels@) == weight_total(old_chans)) by {
                lemma_same_weights(self.channels@, old_chans);
            }
        }
        self.update_cache();
    }

    /// The largest value among the channels.
    fn max_channel_value(&self) -> (r: u8)
        ensures
            r == max_value(self.channels@),
    {
        let len = self.channels.len();
        let mut max: u8 = 0;
        let mut i: usize = 0;
        while i < len
            invariant
                len == self.channels@.len(),
                i <= len,
                max == max_value(self.channels@.take(i as int)),
            decreases len - i,
        {
            proof {
                lemma_max_value_prefix(self.channels@, i as int);
            }
            let value = self.channels[i].value();
            if value > max {
                max = value;
            }
            i = i + 1;
        }
        assert(self.channels@.take(len as int) =~= self.channels@);
        max
    }

    /// Sets the brightness when total channels value is not `0`.
    fn set_brightness_total_nonzero(&mut self, level: u64)
        requires
            old(self).wf(),
            old(self).total_value != 0,
            level <= 65535,
        ensures
            final(self).wf(),
            final(self).soft_max == old(self).soft_max,
            final(self).channels@.len() == old(self).channels@.len(),
            forall|i: int|
                0 <= i < old(self).channels@.len() ==> {
                    &&& (#[trigger] final(self).channels@[i]).weight == old(self).channels@[i].weight
                    &&& final(self).channels@[i].value == rescaled_value(
                        old(self).channels@[i].value as int,
                        max_value(old(self).channels@),
                        level as int,
                        old(self).total_value as int,
                        old(self).soft_max as int,
                    )
                },
    {
        let new_total = level;
        let total_value = self.total_value;
        let soft_max = self.soft_max;
        let max = self.max_channel_value();
        let ghost old_chans = self.channels@;
        let len = self.channels.len();
        proof {
            lemma_totals_bound(self.channels@);
            lemma_max_value_bound(self.channels@);
        }
        assert(max as u64 * new_total <= 255 * 65535) by (nonlinear_arith)
            requires
                max <= 255,
                new_total <= 65535,
        ;
        assert(soft_max as u64 * total_value <= 255 * 65025 * 4294967295) by (nonlinear_arith)
            requires
                soft_max <= 255,
                total_value <= 65025 * len,
                len <= 4294967295,
        ;
        let overflows = (max as u64) * new_total > (soft_max as u64) * total_value;
        let mut i: usize = 0;
        while i < len
            invariant
                len == self.channels@.len(),
                len == old_chans.len(),
                len <= u32::MAX,
                i <= len,
                self.soft_max == old(self).soft_max,
                total_value != 0,
                total_value == weighted_total(old_chans),
                total_value <= 65025 * len,
                new_total <= 65535,
                max == max_value(old_chans),
                max <= 255,
                overflows == scaling_overflows(
                    max as int,
                    new_total as int,
                    total_value as int,
                    soft_max as int,
                ),
                forall|j: int| 0 <= j < len ==> old_chans[j].value <= max,
                forall|j: int| 0 <= j < len ==> (#[trigger] self.channels@[j]).wf(),
                forall|j: int| 0 <= j < len ==> (#[trigger] self.channels@[j]).weight == old_chans[j].weight,
                forall|j: int|
                    i <= j < len ==> (#[trigger] self.channels@[j]).value == old_chans[j].value,
                forall|j: int|
                    0 <= j < i ==> (#[trigger] self.channels@[j]).value == rescaled_value(
                        old_chans[j].value as int,
                        max as int,
                        new_total as int,
                        total_value as int,
                        soft_max as int,
                    ),
            decreases len - i,
        {
            let mut chan = self.channels[i];
            let value = chan.value() as u64;
            let new_value: u8 = if overflows {
                assert(old_chans[i as int].value <= max);
                assert(max > 0) by (nonlinear_arith)
                    requires
                        max * new_total > soft_max * total_value,
                        soft_max * total_value >= 0,
                        max >= 0,
                        new_total >= 0,
                ;
                proof {
                    lemma_hue_kept_bound(value as int, max as int, soft_max as int);
                }
                assert(2 * value * soft_max as u64 <= 2 * 255 * 255) by (nonlinear_arith)
                    requires
                        value <= 255,
                        soft_max <= 255,
                ;
                let kept = (2 * value * soft_max as u64 + max as u64) / (2 * max as u64);
                kept as u8
            } else {
                assert(value * new_total <= 255 * 65535) by (nonlinear_arith)
                    requires
                        value <= 255,
                        new_total <= 65535,
                ;
                let lifted = value * new_total;
                let divided = (lifted + total_value / 2 + 1) / total_value;
                let res: u8 = if divided <= 255 {
                    divided as u8
                } else {
                    soft_max
                };
                if res <= soft_max {
                    res
                } else {
                    soft_max
                }
            };
            chan.set_value(new_value);
            self.channels.set(i, chan);
            i = i + 1;
        }
        proof {
            assert(weight_total(self.channels@) == weight_total(old_chans)) by {
                lemma_same_weights(self.channels@, old_chans);
            }
        }
        self.update_cache();
    }
}

proof fn lemma_same_weights(a: Seq<Channel>, b: Seq<Channel>)
    requires
        a.len() == b.len(),
        forall|j: int| 0 <= j < a.len() ==> (#[trigger] a[j]).weight == b[j].weight,
    ensures
        weight_total(a) == weight_total(b),
    decreases a.len(),
{
    if a.len() > 0 {
        lemma_same_weights(a.drop_last(), b.drop_last());
    }
}

impl ChannelVector {
    /// The approximate brightness of the vector.
    pub(crate) fn approx_brightness(&self) -> (r: Brightness)
        requires
            self.wf(),
            spread_fits(self.raw(), self.soft_max as int),
        ensures
            r.level == spread_level(self.raw(), self.soft_max as int),
    {
        let max = self.soft_max as u16;
        let level = self.raw_brightness() as u16;
        Brightness { level }.spread(max)
    }

    /// Sets the approximate brightness of the vector.
    pub(crate) fn set_approx_brightness(&mut self, brightness: Brightness)
        requires
            old(self).wf(),
            old(self).soft_max * old(self).total_weights <= 65535,
        ensures
            final(self).wf(),
            final(self).soft_max == old(self).soft_max,
            final(self).channels@.len() == old(self).channels@.len(),
            forall|i: int|
                0 <= i < old(self).channels@.len() ==> {
                    &&& (#[trigger] final(self).channels@[i]).weight == old(self).channels@[i].weight
                    &&& final(self).channels@[i].value == adapted_value(
                        old(self).channels@,
                        i,
                        old(self).soft_max as int,
                        brightness.level as int,
                    )
                },
    {
        let max = self.soft_max as u64 * self.total_weights;
        let max = max as u16;
        let level = brightness.compress(max).level as u64;
        if self.total_value == 0 {
            self.set_brightness_total_zero(level);
        } else {
            self.set_brightness_total_nonzero(level);
        }
    }
}

} // verus!
