//! Color transformers. A color [`Transformer`] is a function over [`Color`]s;
//! a [`PairTransformer`] is a function over [`Color2`]s. A plain function
//! becomes a transformer with [`FromFn`].

use crate::color::pair::{
    bg_adapted_to_fg, bg_contrasted_with_fg, fg_adapted_to_bg, fg_contrasted_with_bg, opposite,
    opposite_of,
};
use crate::color::{ApproxBrightness, Brightness, Color, Color2};
use vstd::prelude::*;

verus! {

/// A color transformer. Changes a color.
pub trait Transformer {
    /// Whether the transformer can be applied to the given color.
    spec fn transform_requires(&self, color: Color) -> bool;

    /// Whether `result` is a possible output of the transformer on `color`.
    spec fn transform_ensures(&self, color: Color, result: Color) -> bool;

    /// Given an input [`Color`], generates a new color to replace the input.
    fn transform(&self, color: Color) -> (r: Color)
        requires
            self.transform_requires(color),
        ensures
            self.transform_ensures(color, r),
    ;
}

impl<'this, T> Transformer for &'this T where T: Transformer {
    open spec fn transform_requires(&self, color: Color) -> bool {
        (**self).transform_requires(color)
    }

    open spec fn transform_ensures(&self, color: Color, result: Color) -> bool {
        (**self).transform_ensures(color, result)
    }

    fn transform(&self, color: Color) -> (r: Color) {
        (**self).transform(color)
    }
}

/// A color pair transformer. Changes a color pair.
pub trait PairTransformer {
    /// Whether the transformer can be applied to the given pair.
    spec fn transform_pair_requires(&self, colors: Color2) -> bool;

    /// Whether `result` is a possible output of the transformer on `colors`.
    spec fn transform_pair_ensures(&self, colors: Color2, result: Color2) -> bool;

    /// Given an input [`Color2`], generates a new color pair to replace the
    /// input.
    fn transform_pair(&self, colors: Color2) -> (r: Color2)
        requires
            self.transform_pair_requires(colors),
        ensures
            self.transform_pair_ensures(colors, r),
    ;
}

impl<'this, T> PairTransformer for &'this T where T: PairTransformer {
    open spec fn transform_pair_requires(&self, colors: Color2) -> bool {
        (**self).transform_pair_requires(colors)
    }

    open spec fn transform_pair_ensures(&self, colors: Color2, result: Color2) -> bool {
        (**self).transform_pair_ensures(colors, result)
    }

    fn transform_pair(&self, colors: Color2) -> (r: Color2) {
        (**self).transform_pair(colors)
    }
}

/// Identity transformer. Preserves the input [`Color`] or [`Color2`].
#[derive(Debug, Clone, Copy, Default)]
pub struct Id;

impl Transformer for Id {
    open spec fn transform_requires(&self, color: Color) -> bool {
        true
    }

    open spec fn transform_ensures(&self, color: Color, result: Color) -> bool {
        result == color
    }

    fn transform(&self, color: Color) -> (r: Color) {
        color
    }
}

impl PairTransformer for Id {
    open spec fn transform_pair_requires(&self, colors: Color2) -> bool {
        true
    }

    open spec fn transform_pair_ensures(&self, colors: Color2, result: Color2) -> bool {
        result == colors
    }

    fn transform_pair(&self, colors: Color2) -> (r: Color2) {
        colors
    }
}

/// Sequence transformer. Applies the two given transformers in sequence on a
/// color. `Sequence(t, u)` is analogous to `u(t(color))`.
#[derive(Debug, Clone, Copy, Default)]
pub struct Sequence<T, U>(
    /// This is the first transformer applied.
    pub T,
    /// This is the second transformer applied.
    pub U,
);

impl<T, U> Transformer for Sequence<T, U> where T: Transformer, U: Transformer {
    open spec fn transform_requires(&self, color: Color) -> bool {
        &&& self.0.transform_requires(color)
        &&& forall|middle: Color|
            self.0.transform_ensures(color, middle) ==> #[trigger] self.1.transform_requires(middle)
    }

    open spec fn transform_ensures(&self, color: Color, result: Color) -> bool {
        exists|middle: Color|
            self.0.transform_ensures(color, middle) && #[trigger] self.1.transform_ensures(
                middle,
                result,
            )
    }

    fn transform(&self, color: Color) -> (r: Color) {
        let middle = self.0.transform(color);
        let r = self.1.transform(middle);
        assert(self.0.transform_ensures(color, middle) && self.1.transform_ensures(middle, r));
        r
    }
}

impl<T, U> PairTransformer for Sequence<T, U> where T: PairTransformer, U: PairTransformer {
    open spec fn transform_pair_requires(&self, colors: Color2) -> bool {
        &&& self.0.transform_pair_requires(colors)
        &&& forall|middle: Color2|
            self.0.transform_pair_ensures(colors, middle)
                ==> #[trigger] self.1.transform_pair_requires(middle)
    }

    open spec fn transform_pair_ensures(&self, colors: Color2, result: Color2) -> bool {
        exists|middle: Color2|
            self.0.transform_pair_ensures(colors, middle)
                && #[trigger] self.1.transform_pair_ensures(middle, result)
    }

    fn transform_pair(&self, colors: Color2) -> (r: Color2) {
        let middle = self.0.transform_pair(colors);
        let r = self.1.transform_pair(middle);
        assert(self.0.transform_pair_ensures(colors, middle) && self.1.transform_pair_ensures(
            middle,
            r,
        ));
        r
    }
}

/// Creates a transformer from a given function if the function has a signature
/// similar to a [`Transformer`] or [`PairTransformer`].
#[derive(Debug, Clone, Copy, Default)]
pub struct FromFn<F>(
    /// The function used to transform colors.
    pub F,
);

impl<F> Transformer for FromFn<F> where F: Fn(Color) -> Color {
    open spec fn transform_requires(&self, color: Color) -> bool {
        call_requires(self.0, (color,))
    }

    open spec fn transform_ensures(&self, color: Color, result: Color) -> bool {
        call_ensures(self.0, (color,), result)
    }

    fn transform(&self, color: Color) -> (r: Color) {
        (self.0)(color)
    }
}

impl<F> PairTransformer for FromFn<F> where F: Fn(Color2) -> Color2 {
    open spec fn transform_pair_requires(&self, colors: Color2) -> bool {
        call_requires(self.0, (colors,))
    }

    open spec fn transform_pair_ensures(&self, colors: Color2, result: Color2) -> bool {
        call_ensures(self.0, (colors,), result)
    }

    fn transform_pair(&self, colors: Color2) -> (r: Color2) {
        (self.0)(colors)
    }
}

/// Replaces a single color entirely.
#[derive(Debug, Clone, Copy)]
pub struct Const(
    /// The new color.
    pub Color,
);

impl Transformer for Const {
    open spec fn transform_requires(&self, color: Color) -> bool {
        true
    }

    open spec fn transform_ensures(&self, color: Color, result: Color) -> bool {
        result == self.0
    }

    fn transform(&self, _color: Color) -> (r: Color) {
        self.0
    }
}

/// Inverts a single color.
#[derive(Debug, Clone, Copy, Default)]
pub struct Invert;

impl Transformer for Invert {
    open spec fn transform_requires(&self, color: Color) -> bool {
        true
    }

    open spec fn transform_ensures(&self, color: Color, result: Color) -> bool {
        result == color.inverted()
    }

    fn transform(&self, color: Color) -> (r: Color) {
        color.invert()
    }
}

/// Adapts a single color to **match** the given brightness.
#[derive(Debug, Clone, Copy)]
pub struct Adapt(
    /// Brightness of the new color.
    pub Brightness,
);

impl Transformer for Adapt {
    open spec fn transform_requires(&self, color: Color) -> bool {
        true
    }

    open spec fn transform_ensures(&self, color: Color, result: Color) -> bool {
        result == color.adapted(self.0)
    }

    fn transform(&self, color: Color) -> (r: Color) {
        color.with_approx_brightness(self.0)
    }
}

/// Adapts a single color to **contrast** the given brightness.
#[derive(Debug, Clone, Copy)]
pub struct Contrast(
    /// Inverse brightness of the new color.
    pub Brightness,
);

impl Transformer for Contrast {
    open spec fn transform_requires(&self, color: Color) -> bool {
        true
    }

    open spec fn transform_ensures(&self, color: Color, result: Color) -> bool {
        result == color.adapted(opposite(self.0))
    }

    fn transform(&self, color: Color) -> (r: Color) {
        color.with_approx_brightness(opposite_of(self.0))
    }
}

/// Updates a [`Color2`] using the given foreground and background
/// [`Transformer`]s, each over a single color, by matching output foreground
/// with color produced by foreground transformer, and output background with
/// color produced by background transformer.
#[derive(Debug, Clone, Copy, Default)]
pub struct PairWith<F, B> {
    /// The transformer of the foreground.
    pub foreground: F,
    /// The transformer of the background.
    pub background: B,
}

impl<F, B> PairTransformer for PairWith<F, B> where F: Transformer, B: Transformer {
    open spec fn transform_pair_requires(&self, colors: Color2) -> bool {
        self.foreground.transform_requires(colors.foreground)
            && self.background.transform_requires(colors.background)
    }

    open spec fn transform_pair_ensures(&self, colors: Color2, result: Color2) -> bool {
        self.foreground.transform_ensures(colors.foreground, result.foreground)
            && self.background.transform_ensures(colors.background, result.background)
    }

    fn transform_pair(&self, colors: Color2) -> (r: Color2) {
        Color2 {
            foreground: self.foreground.transform(colors.foreground),
            background: self.background.transform(colors.background),
        }
    }
}

/// Updates a [`Color2`] using the given foreground and background
/// [`Transformer`]s, like [`PairWith`], but swapping foreground and
/// background: input foreground is fed to a transformer which produces
/// background, and input background is fed to a transformer which produces
/// foreground.
#[derive(Debug, Clone, Copy, Default)]
pub struct SwapPairUsing<F, B> {
    /// Foreground to background conversor.
    pub fg_to_bg: F,
    /// Background to foreground conversor.
    pub bg_to_fg: B,
}

impl<F, B> PairTransformer for SwapPairUsing<F, B> where F: Transformer, B: Transformer {
    open spec fn transform_pair_requires(&self, colors: Color2) -> bool {
        self.fg_to_bg.transform_requires(colors.foreground)
            && self.bg_to_fg.transform_requires(colors.background)
    }

    open spec fn transform_pair_ensures(&self, colors: Color2, result: Color2) -> bool {
        self.fg_to_bg.transform_ensures(colors.foreground, result.background)
            && self.bg_to_fg.transform_ensures(colors.background, result.foreground)
    }

    fn transform_pair(&self, colors: Color2) -> (r: Color2) {
        Color2 {
            background: self.fg_to_bg.transform(colors.foreground),
            foreground: self.bg_to_fg.transform(colors.background),
        }
    }
}

/// Adapts foreground to **match** background.
#[derive(Debug, Clone, Copy, Default)]
pub struct AdaptFgToBg;

impl PairTransformer for AdaptFgToBg {
    open spec fn transform_pair_requires(&self, colors: Color2) -> bool {
        true
    }

    open spec fn transform_pair_ensures(&self, colors: Color2, result: Color2) -> bool {
        result == fg_adapted_to_bg(colors)
    }

    fn transform_pair(&self, colors: Color2) -> (r: Color2) {
        Color2 {
            foreground: colors.foreground.with_approx_brightness(
                colors.background.approx_brightness(),
            ),
            background: colors.background,
        }
    }
}

/// Adapts background to **match** foreground.
#[derive(Debug, Clone, Copy, Default)]
pub struct AdaptBgToFg;

impl PairTransformer for AdaptBgToFg {
    open spec fn transform_pair_requires(&self, colors: Color2) -> bool {
        true
    }

    open spec fn transform_pair_ensures(&self, colors: Color2, result: Color2) -> bool {
        result == bg_adapted_to_fg(colors)
    }

    fn transform_pair(&self, colors: Color2) -> (r: Color2) {
        Color2 {
            foreground: colors.foreground,
            background: colors.background.with_approx_brightness(
                colors.foreground.approx_brightness(),
            ),
        }
    }
}

/// Adapts foreground to **contrast** background.
#[derive(Debug, Clone, Copy, Default)]
pub struct ContrastFgWithBg;

impl PairTransformer for ContrastFgWithBg {
    open spec fn transform_pair_requires(&self, colors: Color2) -> bool {
        true
    }

    open spec fn transform_pair_ensures(&self, colors: Color2, result: Color2) -> bool {
        result == fg_contrasted_with_bg(colors)
    }

    fn transform_pair(&self, colors: Color2) -> (r: Color2) {
        Color2 {
            foreground: colors.foreground.with_approx_brightness(
                opposite_of(colors.background.approx_brightness()),
            ),
            background: colors.background,
        }
    }
}

/// Adapts background to **contrast** foreground.
#[derive(Debug, Clone, Copy, Default)]
pub struct ContrastBgWithFg;

impl PairTransformer for ContrastBgWithFg {
    open spec fn transform_pair_requires(&self, colors: Color2) -> bool {
        true
    }

    open spec fn transform_pair_ensures(&self, colors: Color2, result: Color2) -> bool {
        result == bg_contrasted_with_fg(colors)
    }

    fn transform_pair(&self, colors: Color2) -> (r: Color2) {
        Color2 {
            foreground: colors.foreground,
            background: colors.background.with_approx_brightness(
                opposite_of(colors.foreground.approx_brightness()),
            ),
        }
    }
}

/// Applying two transformers in sequence yields exactly the outputs of the
/// second transformer on the outputs of the first.
pub proof fn lemma_seq_composes<T: Transformer, U: Transformer>(
    first: T,
    second: U,
    color: Color,
    middle: Color,
    result: Color,
)
    requires
        first.transform_ensures(color, middle),
        second.transform_ensures(middle, result),
    ensures
        Sequence(first, second).transform_ensures(color, result),
{
    let s = Sequence(first, second);
    assert(s.0 == first);
    assert(s.1.transform_ensures(middle, result));
    assert(s.0.transform_ensures(color, middle) && s.1.transform_ensures(middle, result));
}

/// Whether a transformer gives at most one result for each color.
pub open spec fn deterministic<T: Transformer>(t: T) -> bool {
    forall|color: Color, a: Color, b: Color|
        #![trigger t.transform_ensures(color, a), t.transform_ensures(color, b)]
        t.transform_ensures(color, a) && t.transform_ensures(color, b) ==> a == b
}

/// For transformers that give one result per color, `Sequence(t, u)` gives
/// exactly `u` applied to what `t` gives, and is itself such a transformer.
pub proof fn lemma_seq_applies_first_then_second<T: Transformer, U: Transformer>(
    first: T,
    second: U,
    color: Color,
    middle: Color,
    result: Color,
)
    requires
        deterministic(first),
        deterministic(second),
        first.transform_ensures(color, middle),
        second.transform_ensures(middle, result),
    ensures
        forall|r: Color|
            #[trigger] Sequence(first, second).transform_ensures(color, r) <==> r == result,
        deterministic(Sequence(first, second)),
{
    let s = Sequence(first, second);
    lemma_seq_composes(first, second, color, middle, result);
    assert forall|r: Color| #[trigger] s.transform_ensures(color, r) implies r == result by {
        let m = choose|m: Color|
            s.0.transform_ensures(color, m) && #[trigger] s.1.transform_ensures(m, r);
        assert(first.transform_ensures(color, m));
        assert(m == middle);
        assert(second.transform_ensures(middle, r));
    }
    assert forall|c: Color, a: Color, b: Color|
        s.transform_ensures(c, a) && s.transform_ensures(c, b) implies a == b by {
        let ma = choose|m: Color|
            s.0.transform_ensures(c, m) && #[trigger] s.1.transform_ensures(m, a);
        let mb = choose|m: Color|
            s.0.transform_ensures(c, m) && #[trigger] s.1.transform_ensures(m, b);
        assert(first.transform_ensures(c, ma) && first.transform_ensures(c, mb));
        assert(ma == mb);
        assert(second.transform_ensures(ma, a) && second.transform_ensures(ma, b));
    }
}

/// The identity transformer is neutral on both sides of a sequence.
pub proof fn lemma_seq_identity<T: Transformer>(t: T, color: Color, result: Color)
    ensures
        Sequence(Id, t).transform_ensures(color, result) <==> t.transform_ensures(color, result),
        Sequence(t, Id).transform_ensures(color, result) <==> t.transform_ensures(color, result),
{
    let left = Sequence(Id, t);
    let right = Sequence(t, Id);
    if t.transform_ensures(color, result) {
        assert(left.0.transform_ensures(color, color) && left.1.transform_ensures(color, result));
        assert(right.0.transform_ensures(color, result) && right.1.transform_ensures(
            result,
            result,
        ));
    }
    if left.transform_ensures(color, result) {
        let middle = choose|middle: Color|
            left.0.transform_ensures(color, middle) && #[trigger] left.1.transform_ensures(
                middle,
                result,
            );
        assert(middle == color);
    }
    if right.transform_ensures(color, result) {
        let middle = choose|middle: Color|
            right.0.transform_ensures(color, middle) && #[trigger] right.1.transform_ensures(
                middle,
                result,
            );
        assert(middle == result);
    }
}

} // verus!
