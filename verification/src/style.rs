//! Styles for terminal text: margins, size limits, alignment and colors.

use crate::color::{Color2, Updater};
use crate::coord::{Coord, Coord2};
use vstd::prelude::*;

verus! {

/// Alignment, margin and other settings for texts.
#[derive(Debug, Clone, Copy, PartialEq, Eq, Hash)]
pub struct Style<C = Color2> {
    /// Left margin.
    pub left_margin: Coord,
    /// Right margin.
    pub right_margin: Coord,
    /// Top margin.
    pub top_margin: Coord,
    /// Bottom margin.
    pub bottom_margin: Coord,
    /// Minimum width.
    pub min_width: Coord,
    /// Maximum width.
    pub max_width: Coord,
    /// Minimum height.
    pub min_height: Coord,
    /// Maximum height.
    pub max_height: Coord,
    /// Alignment numerator.
    pub align_numer: Coord,
    /// Alignment denominator.
    pub align_denom: Coord,
    /// Foreground-background color pair.
    pub colors: C,
}

/// `a - b`, or zero where `b > a`.
pub open spec fn sat_sub(a: int, b: int) -> int {
    if a >= b {
        a - b
    } else {
        0
    }
}

/// The smaller of two integers.
pub open spec fn min_of(a: int, b: int) -> int {
    if a <= b {
        a
    } else {
        b
    }
}

impl Default for Style {
    /// No margin, no size limit, left alignment and the default colors.
    fn default() -> (r: Self)
        ensures
            r == Style::<Color2>::plain(Color2::default_pair()),
    {
        Self::with_colors(Color2::default())
    }
}

impl<C> Style<C> where C: Updater {
    /// The style with the given colors and no margin, no size limit and left
    /// alignment.
    pub open spec fn plain(colors: C) -> Style<C> {
        Style {
            left_margin: 0,
            right_margin: 0,
            top_margin: 0,
            bottom_margin: 0,
            min_width: 0,
            max_width: Coord::MAX,
            min_height: 0,
            max_height: Coord::MAX,
            align_numer: 0,
            align_denom: 1,
            colors,
        }
    }

    /// The size available to a text in a screen of the given size: the
    /// screen's size minus the margins (never below zero), capped at the
    /// maximum sizes.
    pub open spec fn size_in(&self, screen_size: Coord2) -> Coord2 {
        Coord2 {
            y: min_of(
                sat_sub(sat_sub(screen_size.y as int, self.top_margin as int), self.bottom_margin as int),
                self.max_height as int,
            ) as Coord,
            x: min_of(
                sat_sub(sat_sub(screen_size.x as int, self.left_margin as int), self.right_margin as int),
                self.max_width as int,
            ) as Coord,
        }
    }

    /// Creates a style with the given colors.
    pub fn with_colors(colors: C) -> (r: Self)
        ensures
            r == Style::plain(colors),
    {
        Self {
            left_margin: 0,
            right_margin: 0,
            top_margin: 0,
            bottom_margin: 0,
            min_width: 0,
            max_width: Coord::MAX,
            min_height: 0,
            max_height: Coord::MAX,
            align_numer: 0,
            align_denom: 1,
            colors,
        }
    }

    /// Updates the style to the given color updater.
    pub fn colors<D>(self, colors: D) -> (r: Style<D>) where D: Updater
        ensures
            r == (Style {
                left_margin: self.left_margin,
                right_margin: self.right_margin,
                top_margin: self.top_margin,
                bottom_margin: self.bottom_margin,
                min_width: self.min_width,
                max_width: self.max_width,
                min_height: self.min_height,
                max_height: self.max_height,
                align_numer: self.align_numer,
                align_denom: self.align_denom,
                colors,
            }),
    {
        Style {
            left_margin: self.left_margin,
            right_margin: self.right_margin,
            top_margin: self.top_margin,
            bottom_margin: self.bottom_margin,
            min_width: self.min_width,
            max_width: self.max_width,
            min_height: self.min_height,
            max_height: self.max_height,
            align_numer: self.align_numer,
            align_denom: self.align_denom,
            colors,
        }
    }

    /// Sets left margin.
    pub fn left_margin(self, left_margin: Coord) -> (r: Self)
        ensures
            r == (Style { left_margin, ..self }),
    {
        Self { left_margin, ..self }
    }

    /// Sets right margin.
    pub fn right_margin(self, right_margin: Coord) -> (r: Self)
        ensures
            r == (Style { right_margin, ..self }),
    {
        Self { right_margin, ..self }
    }

    /// Sets top margin.
    pub fn top_margin(self, top_margin: Coord) -> (r: Self)
        ensures
            r == (Style { top_margin, ..self }),
    {
        Self { top_margin, ..self }
    }

    /// Sets bottom margin.
    pub fn bottom_margin(self, bottom_margin: Coord) -> (r: Self)
        ensures
            r == (Style { bottom_margin, ..self }),
    {
        Self { bottom_margin, ..self }
    }

    /// Sets minimum width.
    pub fn min_width(self, min_width: Coord) -> (r: Self)
        ensures
            r == (Style { min_width, ..self }),
    {
        Self { min_width, ..self }
    }

    /// Sets maximum width.
    pub fn max_width(self, max_width: Coord) -> (r: Self)
        ensures
            r == (Style { max_width, ..self }),
    {
        Self { max_width, ..self }
    }

    /// Sets minimum height.
    pub fn min_height(self, min_height: Coord) -> (r: Self)
        ensures
            r == (Style { min_height, ..self }),
    {
        Self { min_height, ..self }
    }

    /// Sets maximum height.
    pub fn max_height(self, max_height: Coord) -> (r: Self)
        ensures
            r == (Style { max_height, ..self }),
    {
        Self { max_height, ..self }
    }

    /// Sets alignment. Numerator and denominator are used such that
    /// `line[index] * align_numer / align_denom == screen[index]`.
    pub fn align(self, align_numer: Coord, align_denom: Coord) -> (r: Self)
        ensures
            r == (Style { align_numer, align_denom, ..self }),
    {
        Self { align_numer, align_denom, ..self }
    }

    /// Makes a coordinate pair that contains the margin dimensions that are
    /// "less".
    pub fn make_margin_below(&self) -> (r: Coord2)
        ensures
            r == (Coord2 { x: self.left_margin, y: self.top_margin }),
    {
        Coord2 { x: self.left_margin, y: self.top_margin }
    }

    /// Makes a coordinate pair that contains the margin dimensions that are
    /// "greater".
    pub fn make_margin_above(&self) -> (r: Coord2)
        ensures
            r == (Coord2 { x: self.right_margin, y: self.bottom_margin }),
    {
        Coord2 { x: self.right_margin, y: self.bottom_margin }
    }

    /// Makes a coordinate pair that contains the minima sizes.
    pub fn make_min_size(&self) -> (r: Coord2)
        ensures
            r == (Coord2 { x: self.min_width, y: self.min_height }),
    {
        Coord2 { x: self.min_width, y: self.min_height }
    }

    /// Makes a coordinate pair that contains the maxima sizes.
    pub fn make_max_size(&self) -> (r: Coord2)
        ensures
            r == (Coord2 { x: self.max_width, y: self.max_height }),
    {
        Coord2 { x: self.max_width, y: self.max_height }
    }

    /// Makes a coordinate pair that contains the actual sizes.
    pub fn make_size(&self, screen_size: Coord2) -> (r: Coord2)
        ensures
            r == self.size_in(screen_size),
            r.x <= screen_size.x,
            r.y <= screen_size.y,
    {
        let y = screen_size.y.saturating_sub(self.make_margin_below().y).saturating_sub(
            self.make_margin_above().y,
        );
        let max_y = self.make_max_size().y;
        let x = screen_size.x.saturating_sub(self.make_margin_below().x).saturating_sub(
            self.make_margin_above().x,
        );
        let max_x = self.make_max_size().x;
        Coord2 {
            y: if y <= max_y {
                y
            } else {
                max_y
            },
            x: if x <= max_x {
                x
            } else {
                max_x
            },
        }
    }
}

} // verus!
