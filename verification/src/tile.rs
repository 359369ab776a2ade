//! Updates of a tile in the screen, i.e. of the grapheme it shows and of its
//! foreground and background colors.

pub use crate::screen::Tile;
use crate::color::{opposite, opposite_of, ApproxBrightness, Color, Color2};
use crate::screen::TileView;
use crate::string::TermGrapheme;
use vstd::prelude::*;

verus! {

/// A function that updates a [`Tile`].
pub trait Updater {
    /// What the tile shows after the update, from what it showed before.
    spec fn updated(&self, tile: TileView) -> TileView;

    /// Receives a mutable reference to a tile and updates it.
    fn update(self, tile: &mut Tile)
        ensures
            final(tile)@ == self.updated(old(tile)@),
    ;
}

impl Updater for Tile {
    open spec fn updated(&self, tile: TileView) -> TileView {
        self@
    }

    fn update(self, tile: &mut Tile) {
        *tile = self;
    }
}

/// Updates a [`Tile`] to set the foreground to the given character and color,
/// but the color will be adapted to contrast the background.
#[derive(Debug, Clone)]
pub struct Foreground {
    /// The new displayed grapheme.
    pub grapheme: TermGrapheme,
    /// Foreground color to be contrasted with the background.
    pub color: Color,
}

impl Updater for Foreground {
    open spec fn updated(&self, tile: TileView) -> TileView {
        (
            self.grapheme@,
            Color2 {
                foreground: self.color.adapted(opposite(tile.1.background.brightness_of())),
                background: tile.1.background,
            },
        )
    }

    fn update(self, tile: &mut Tile) {
        let contrast = opposite_of(tile.colors.background.approx_brightness());
        tile.grapheme = self.grapheme;
        tile.colors.foreground = self.color.with_approx_brightness(contrast);
    }
}

/// Updates a [`Tile`] to set the background to the given color, but the
/// foreground will be adapted to contast the color.
#[derive(Debug, Clone, Copy, PartialEq, Eq, Structural, PartialOrd, Ord, Hash)]
pub struct Background {
    /// Background color to be contrasted with the foreground.
    pub color: Color,
}

impl Updater for Background {
    open spec fn updated(&self, tile: TileView) -> TileView {
        (
            tile.0,
            Color2 {
                foreground: tile.1.foreground.adapted(opposite(self.color.brightness_of())),
                background: self.color,
            },
        )
    }

    fn update(self, tile: &mut Tile) {
        tile.colors.background = self.color;
        let contrast = opposite_of(tile.colors.background.approx_brightness());
        tile.colors.foreground = tile.colors.foreground.with_approx_brightness(contrast);
    }
}

} // verus!
