//! Types related to the coordinate system.

use vstd::prelude::*;

verus! {

/// A single scalar coordinate used in the terminal.
pub type Coord = u16;

/// A coordinate made of two components `x` and `y`.
#[derive(Debug, Clone, Copy, PartialEq, Eq, Structural, PartialOrd, Ord, Hash, Default)]
pub struct Coord2 {
    /// The axis that varies up-down-wise. The smallest value of `y` is in the
    /// top.
    pub y: Coord,
    /// The axis that varies left-right-wise. The smallest value of `x` is in
    /// the left.
    pub x: Coord,
}

/// Another name for a coordinate pair.
pub type Vec2 = Coord2;

} // verus!
