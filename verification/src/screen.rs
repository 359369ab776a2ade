//! The (double) buffer of the screen and its tiles.

mod render;
mod text;

pub use self::render::{
    are_changed_points, cursor_after, in_row_order, indexes_a_point, lemma_render_shows_buffer,
    render_steps, step_effect, steps_effect, tile_steps, tiles_steps, RenderOp, RenderStep,
    TerminalView,
};
pub use self::text::{
    after_last_space, lemma_styled_lines_fit_the_area, lemma_styled_text_stays_in_area, line_break,
    line_start, line_tiles,
    styled_tiles, text_tiles, view_size, width_between_margins, written_tile,
};
use crate::color::transform::PairTransformer;
use crate::color::{BasicColor, Color, Color2};
use crate::coord::{Coord, Coord2};
use crate::string::TermGrapheme;
use std::collections::BTreeSet;
use vstd::prelude::*;

verus! {

broadcast use vstd::laws_cmp::group_laws_cmp, vstd::std_specs::btree::group_btree_axioms;

/// A [`Tile`] in the terminal, i.e. a single character with foreground and
/// background colors.
#[derive(Debug)]
pub struct Tile {
    /// Grapheme shown in this [`Tile`].
    pub grapheme: TermGrapheme,
    /// The foreground-background pair of colors.
    pub colors: Color2,
}

/// What a tile shows: its grapheme's characters and its colors.
pub type TileView = (Seq<char>, Color2);

impl View for Tile {
    type V = TileView;

    open spec fn view(&self) -> TileView {
        (self.grapheme@, self.colors)
    }
}

impl Clone for Tile {
    fn clone(&self) -> (r: Self)
        ensures
            r@ == self@,
    {
        Tile { grapheme: self.grapheme.clone(), colors: self.colors }
    }
}

impl Tile {
    /// Whether two tiles show the same thing.
    pub fn same_as(&self, other: &Tile) -> (r: bool)
        ensures
            r == (self@ == other@),
    {
        self.grapheme.eq(&other.grapheme) && self.colors == other.colors
    }

    /// The default tile: a space, white over black.
    pub open spec fn default_view() -> TileView {
        (seq![' '], Color2::default_pair())
    }

    /// The tile a cleared screen shows: a space over the given background,
    /// with the default foreground.
    pub open spec fn cleared_view(background: Color) -> TileView {
        (seq![' '], Color2 { background, foreground: Color2::default_pair().foreground })
    }
}

impl PartialEq for Tile {
    fn eq(&self, other: &Self) -> (r: bool) {
        self.same_as(other)
    }
}

impl Eq for Tile {

}

impl vstd::std_specs::cmp::PartialEqSpecImpl for Tile {
    open spec fn obeys_eq_spec() -> bool {
        true
    }

    open spec fn eq_spec(&self, other: &Self) -> bool {
        self@ == other@
    }
}

impl Default for Tile {
    /// A space, white over black.
    fn default() -> (r: Self)
        ensures
            r@ == Tile::default_view(),
    {
        Tile { grapheme: TermGrapheme::space(), colors: Color2::default() }
    }
}

/// The product of two coordinates fits a coordinate.
pub open spec fn area_fits(size: Coord2) -> bool {
    size.y * size.x <= Coord::MAX
}

/// The abstract state of a screen buffer.
pub struct ScreenView {
    /// Whether the screen has a valid size.
    pub valid: bool,
    /// Width of the screen.
    pub width: nat,
    /// Height of the screen.
    pub height: nat,
    /// Tiles last rendered, row by row.
    pub old: Seq<TileView>,
    /// Tiles being edited, row by row.
    pub curr: Seq<TileView>,
    /// Points, as `(y, x)`, whose tile changed since the last render.
    pub changed: Set<(Coord, Coord)>,
}

impl ScreenView {
    /// Whether the point lies within the screen.
    pub open spec fn contains(self, point: Coord2) -> bool {
        point.x < self.width && point.y < self.height
    }

    /// The position of a point in the rows of tiles.
    pub open spec fn index_of(self, point: Coord2) -> int {
        point.y * self.width + point.x
    }

    /// Whether the tile at the point differs from the one last rendered.
    pub open spec fn differs(self, point: Coord2) -> bool {
        self.old[self.index_of(point)] != self.curr[self.index_of(point)]
    }
}

/// The (double) buffer of a screen.
#[derive(Debug)]
pub struct ScreenBuffer {
    /// Width of the screen.
    width: usize,
    /// Whether this has a valid screen size.
    pub valid: bool,
    /// Old screen.
    old: Vec<Tile>,
    /// Currently editing screen.
    curr: Vec<Tile>,
    /// List of changed tiles, as `(y, x)`.
    changed: BTreeSet<(Coord, Coord)>,
}

impl View for ScreenBuffer {
    type V = ScreenView;

    closed spec fn view(&self) -> ScreenView {
        ScreenView {
            valid: self.valid,
            width: self.width as nat,
            height: if self.width == 0 {
                0
            } else {
                (self.curr@.len() / (self.width as nat)) as nat
            },
            old: self.old@.map_values(|t: Tile| t@),
            curr: self.curr@.map_values(|t: Tile| t@),
            changed: self.changed@,
        }
    }
}

/// A point within the given bounds lies in the rows of tiles.
proof fn lemma_index_in_bounds(y: int, x: int, width: int, height: int)
    requires
        0 <= y < height,
        0 <= x < width,
    ensures
        0 <= y * width + x < height * width,
        height * width == width * height,
{
    assert(height * width == width * height) by (nonlinear_arith);
    assert(y * width + x < height * width) by (nonlinear_arith)
        requires
            0 <= y < height,
            0 <= x < width,
    ;
    assert(0 <= y * width) by (nonlinear_arith)
        requires
            0 <= y,
            0 <= x < width,
    ;
}

/// Two points within the bounds have the same position only if they are the
/// same point.
proof fn lemma_index_injective(y1: int, x1: int, y2: int, x2: int, width: int)
    requires
        0 <= y1,
        0 <= y2,
        0 <= x1 < width,
        0 <= x2 < width,
        y1 * width + x1 == y2 * width + x2,
    ensures
        y1 == y2,
        x1 == x2,
{
    if y1 < y2 {
        assert(y1 * width + x1 < y2 * width + x2) by (nonlinear_arith)
            requires
                y1 < y2,
                0 <= x1 < width,
                0 <= x2,
        ;
    } else if y2 < y1 {
        assert(y2 * width + x2 < y1 * width + x1) by (nonlinear_arith)
            requires
                y2 < y1,
                0 <= x2 < width,
                0 <= x1,
        ;
    }
}

impl ScreenBuffer {
    /// The buffer is consistent: both screens have one tile per point and the
    /// changed points are exactly those whose tile differs.
    pub closed spec fn wf(&self) -> bool {
        &&& self.old@.len() == self.curr@.len()
        &&& self.width <= Coord::MAX
        &&& self.width == 0 ==> self.curr@.len() == 0
        &&& self.width > 0 ==> self.curr@.len() % (self.width as nat) == 0
        &&& self.curr@.len() <= Coord::MAX
        &&& forall|p: (Coord, Coord)|
            #[trigger] self@.changed.contains(p) ==> self@.contains(Coord2 { y: p.0, x: p.1 })
        &&& forall|p: (Coord, Coord)|
            self@.contains(Coord2 { y: p.0, x: p.1 }) ==> (#[trigger] self@.changed.contains(p)
                <==> self@.differs(Coord2 { y: p.0, x: p.1 }))
    }

    /// In a consistent buffer, the changed points are exactly the points of
    /// the screen whose tile differs from the one last rendered.
    pub proof fn lemma_changed_are_differences(&self)
        requires
            self.wf(),
        ensures
            forall|p: Coord2|
                self@.contains(p) ==> (#[trigger] self@.changed.contains((p.y, p.x))
                    <==> self@.differs(p)),
            forall|p: (Coord, Coord)|
                #[trigger] self@.changed.contains(p) ==> self@.contains(Coord2 { y: p.0, x: p.1 }),
    {
        assert forall|p: Coord2| self@.contains(p) implies (#[trigger] self@.changed.contains(
            (p.y, p.x),
        ) <==> self@.differs(p)) by {
            assert(Coord2 { y: p.y, x: p.x } == p);
        }
    }

    /// Lengths of the abstract rows.
    proof fn lemma_view_lengths(&self)
        requires
            self.wf(),
        ensures
            self@.curr.len() == self.curr@.len(),
            self@.old.len() == self.curr@.len(),
            self@.curr.len() == self@.width * self@.height,
            self@.width <= Coord::MAX,
            self@.height <= Coord::MAX,
            self@.width == self.width,
    {
        if self.width > 0 {
            let w = self.width as int;
            let len = self.curr@.len() as int;
            assert(len == w * (len / w)) by (nonlinear_arith)
                requires
                    w > 0,
                    len % w == 0,
            ;
            assert(len / w <= len) by (nonlinear_arith)
                requires
                    w > 0,
                    len >= 0,
            ;
            let h = self@.height as int;
            assert(h == len / w);
            assert(self@.width == w);
            assert(self@.curr.len() == len);
            assert(len == w * h);
            assert(self@.curr.len() == self@.width * self@.height);
        } else {
            assert(self@.curr.len() == 0);
            assert(self@.height == 0);
            assert(self@.curr.len() == self@.width * self@.height);
        }
    }

    /// A blank screen.
    pub fn blank(size: Coord2) -> (r: Self)
        requires
            area_fits(size),
        ensures
            r.wf(),
            r@.valid,
            r@.width == size.x,
            r@.height == (if size.x == 0 { 0 } else { size.y as nat }),
            r@.curr.len() == size.y * size.x,
            r@.old.len() == size.y * size.x,
            forall|i: int| 0 <= i < r@.curr.len() ==> #[trigger] r@.curr[i] == Tile::default_view(),
            forall|i: int| 0 <= i < r@.old.len() ==> #[trigger] r@.old[i] == Tile::default_view(),
            r@.changed.is_empty(),
    {
        let len = (size.y * size.x) as usize;
        let mut curr: Vec<Tile> = Vec::new();
        let mut old: Vec<Tile> = Vec::new();
        let mut i: usize = 0;
        while i < len
            invariant
                i <= len,
                curr@.len() == i,
                old@.len() == i,
                forall|j: int| 0 <= j < i ==> (#[trigger] curr@[j])@ == Tile::default_view(),
                forall|j: int| 0 <= j < i ==> (#[trigger] old@[j])@ == Tile::default_view(),
            decreases len - i,
        {
            curr.push(Tile::default());
            old.push(Tile::default());
            i = i + 1;
        }
        let r = Self {
            width: size.x as usize,
            valid: true,
            curr,
            old,
            changed: BTreeSet::new(),
        };
        proof {
            if size.x > 0 {
                let w = size.x as int;
                assert((size.y * w) % w == 0) by (nonlinear_arith)
                    requires
                        w > 0,
                ;
                assert((size.y * w) / w == size.y) by (nonlinear_arith)
                    requires
                        w > 0,
                ;
            }
            assert forall|p: (Coord, Coord)| r@.contains(Coord2 { y: p.0, x: p.1 }) implies (
            #[trigger] r@.changed.contains(p) <==> r@.differs(Coord2 { y: p.0, x: p.1 })) by {
                lemma_index_in_bounds(p.0 as int, p.1 as int, size.x as int, size.y as int);
            }
        }
        r
    }

    /// Resizes the screen using the given size. Every tile is reset to the
    /// default tile.
    pub fn resize(&mut self, size: Coord2)
        requires
            old(self).wf(),
            area_fits(size),
        ensures
            final(self).wf(),
            final(self)@.valid == old(self)@.valid,
            final(self)@.width == size.x,
            final(self)@.height == (if size.x == 0 { 0 } else { size.y as nat }),
            final(self)@.curr.len() == size.y * size.x,
            final(self)@.old.len() == size.y * size.x,
            forall|i: int|
                0 <= i < final(self)@.curr.len() ==> #[trigger] final(self)@.curr[i]
                    == Tile::default_view(),
            forall|i: int|
                0 <= i < final(self)@.old.len() ==> #[trigger] final(self)@.old[i]
                    == Tile::default_view(),
            final(self)@.changed.is_empty(),
    {
        let valid = self.valid;
        let fresh = Self::blank(size);
        let ghost fresh_view = fresh@;
        *self = ScreenBuffer { valid, ..fresh };
        proof {
            assert(self@.old == fresh_view.old);
            assert(self@.curr == fresh_view.curr);
            assert(self@.changed == fresh_view.changed);
        }
    }

    /// Advances the buffer in one tick. I.e., `old` is discarded, `curr`
    /// becomes both `curr` and `old`.
    pub fn next_tick(&mut self)
        requires
            old(self).wf(),
        ensures
            final(self).wf(),
            final(self)@.valid == old(self)@.valid,
            final(self)@.width == old(self)@.width,
            final(self)@.height == old(self)@.height,
            final(self)@.curr == old(self)@.curr,
            final(self)@.old == old(self)@.curr,
            final(self)@.changed.is_empty(),
    {
        self.changed.clear();
        let mut old: Vec<Tile> = Vec::new();
        let mut i: usize = 0;
        while i < self.curr.len()
            invariant
                i <= self.curr@.len(),
                old@.len() == i,
                forall|j: int| 0 <= j < i ==> (#[trigger] old@[j])@ == self.curr@[j]@,
            decreases self.curr@.len() - i,
        {
            old.push(self.curr[i].clone());
            i = i + 1;
        }
        self.old = old;
        proof {
            assert(self@.old =~= self@.curr);
        }
    }

    /// Size of the buffer in coordinates: the width, and the number of rows,
    /// which is the number of tiles over the width (zero for a zero width).
    pub fn size(&self) -> (r: Coord2)
        requires
            self.wf(),
        ensures
            r.x == self@.width,
            r.y == self@.height,
            self@.width == 0 ==> r == (Coord2 { y: 0, x: 0 }),
            self@.width > 0 ==> r.y == self@.curr.len() / self@.width,
            self@.curr.len() == self@.width * self@.height,
            self@.old.len() == self@.curr.len(),
    {
        proof {
            self.lemma_view_lengths();
        }
        let height = if self.width == 0 {
            0
        } else {
            self.curr.len() / self.width
        };
        Coord2 { y: height as Coord, x: self.width as Coord }
    }

    /// Makes an index from a coordinate.
    pub fn make_index(&self, point: Coord2) -> (r: Option<usize>)
        requires
            self.wf(),
        ensures
            r is Some <==> self@.contains(point),
            r matches Some(i) ==> i == self@.index_of(point) && i < self@.curr.len(),
    {
        proof {
            self.lemma_view_lengths();
        }
        let x = point.x as usize;
        let y = point.y as usize;
        if x >= self.width || self.curr.len() / self.width <= y {
            None
        } else {
            proof {
                lemma_index_in_bounds(y as int, x as int, self.width as int, self@.height as int);
            }
            proof {
                vstd::arithmetic::div_mod::lemma_small_mod(x as nat, self.width as nat);
            }
            Some(y * self.width + x % self.width)
        }
    }

    /// The tile at the given point, regardless of being rendered yet or not.
    pub fn get(&self, point: Coord2) -> (r: &Tile)
        requires
            self.wf(),
            self@.contains(point),
        ensures
            r@ == self@.curr[self@.index_of(point)],
    {
        match self.make_index(point) {
            Some(index) => &self.curr[index],
            None => {
                assert(false);
                &self.curr[0]
            },
        }
    }

    /// Sets the tile at the given point. The point is recorded as changed
    /// exactly when the new tile differs from the one last rendered.
    pub fn set(&mut self, point: Coord2, tile: Tile)
        requires
            old(self).wf(),
            old(self)@.contains(point),
        ensures
            final(self).wf(),
            final(self)@.valid == old(self)@.valid,
            final(self)@.width == old(self)@.width,
            final(self)@.height == old(self)@.height,
            final(self)@.old == old(self)@.old,
            final(self)@.curr == old(self)@.curr.update(old(self)@.index_of(point), tile@),
            final(self)@.changed == (if old(self)@.old[old(self)@.index_of(point)] != tile@ {
                old(self)@.changed.insert((point.y, point.x))
            } else {
                old(self)@.changed.remove((point.y, point.x))
            }),
    {
        proof {
            self.lemma_view_lengths();
        }
        let index = match self.make_index(point) {
            Some(index) => index,
            None => {
                assert(false);
                0
            },
        };
        let ghost before = self@;
        let differs = !self.old[index].same_as(&tile);
        self.curr.set(index, tile);
        if differs {
            self.changed.insert((point.y, point.x));
        } else {
            self.changed.remove(&(point.y, point.x));
        }
        proof {
            assert(self@.curr =~= before.curr.update(before.index_of(point), tile@));
            assert(self@.old =~= before.old);
            assert(self@.height == before.height);
            assert forall|p: (Coord, Coord)|
                #[trigger] self@.changed.contains(p) implies self@.contains(
                Coord2 { y: p.0, x: p.1 },
            ) by {
                if p != (point.y, point.x) {
                    assert(before.changed.contains(p));
                }
            }
            assert forall|p: (Coord, Coord)| self@.contains(Coord2 { y: p.0, x: p.1 }) implies (
            #[trigger] self@.changed.contains(p) <==> self@.differs(Coord2 { y: p.0, x: p.1 })) by {
                let q = Coord2 { y: p.0, x: p.1 };
                lemma_index_in_bounds(p.0 as int, p.1 as int, self@.width as int, self@.height as int);
                if p != (point.y, point.x) {
                    if before.index_of(q) == before.index_of(point) {
                        lemma_index_injective(
                            p.0 as int,
                            p.1 as int,
                            point.y as int,
                            point.x as int,
                            self@.width as int,
                        );
                    }
                    assert(before.changed.contains(p) <==> before.differs(q));
                }
            }
        }
    }

    /// Applies an update function to the tile at the given point and returns
    /// what the function returns. The point is recorded as changed exactly
    /// when the updated tile differs from the one last rendered.
    pub fn update<F, T>(&mut self, point: Coord2, updater: F) -> (r: T) where
        F: FnOnce(&mut Tile) -> T,
        requires
            old(self).wf(),
            old(self)@.contains(point),
            forall|tile: &mut Tile| #[trigger] call_requires(updater, (tile,)),
        ensures
            final(self).wf(),
            final(self)@.valid == old(self)@.valid,
            final(self)@.width == old(self)@.width,
            final(self)@.height == old(self)@.height,
            final(self)@.old == old(self)@.old,
            0 <= old(self)@.index_of(point) < old(self)@.curr.len(),
            final(self)@.curr.len() == old(self)@.curr.len(),
            final(self)@.changed == (if final(self)@.differs(point) {
                old(self)@.changed.insert((point.y, point.x))
            } else {
                old(self)@.changed.remove((point.y, point.x))
            }),
            exists|tile: &mut Tile|
                {
                    &&& (*tile)@ == old(self)@.curr[old(self)@.index_of(point)]
                    &&& call_ensures(updater, (tile,), r)
                    &&& final(self)@.curr == old(self)@.curr.update(
                        old(self)@.index_of(point),
                        (*final(tile))@,
                    )
                },
    {
        proof {
            self.lemma_view_lengths();
            lemma_index_in_bounds(
                point.y as int,
                point.x as int,
                self@.width as int,
                self@.height as int,
            );
        }
        let mut tile = self.get(point).clone();
        let r = updater(&mut tile);
        self.set(point, tile);
        r
    }

    /// Sets every tile into a whitespace grapheme with the given background
    /// and the default foreground.
    pub fn clear(&mut self, background: Color)
        requires
            old(self).wf(),
        ensures
            final(self).wf(),
            final(self)@.valid == old(self)@.valid,
            final(self)@.width == old(self)@.width,
            final(self)@.height == old(self)@.height,
            final(self)@.old == old(self)@.old,
            forall|i: int|
                0 <= i < final(self)@.curr.len() ==> #[trigger] final(self)@.curr[i]
                    == Tile::cleared_view(background),
    {
        let size = self.size();
        let tile = Tile {
            colors: Color2 { background, foreground: Color::Basic(BasicColor::White) },
            grapheme: TermGrapheme::space(),
        };
        let ghost start = self@;
        proof {
            self.lemma_view_lengths();
        }
        let mut y: Coord = 0;
        while y < size.y
            invariant
                self.wf(),
                self@.valid == old(self)@.valid,
                self@.width == start.width,
                self@.height == start.height,
                self@.old == start.old,
                self@.curr.len() == start.curr.len(),
                start.curr.len() == start.width * start.height,
                size.y == start.height,
                size.x == start.width,
                y <= size.y,
                tile@ == Tile::cleared_view(background),
                forall|i: int|
                    0 <= i < y * start.width ==> #[trigger] self@.curr[i] == Tile::cleared_view(
                        background,
                    ),
            decreases size.y - y,
        {
            let mut x: Coord = 0;
            while x < size.x
                invariant
                    self.wf(),
                    self@.valid == old(self)@.valid,
                    self@.width == start.width,
                    self@.height == start.height,
                    self@.old == start.old,
                    self@.curr.len() == start.curr.len(),
                    start.curr.len() == start.width * start.height,
                    size.y == start.height,
                    size.x == start.width,
                    y < size.y,
                    x <= size.x,
                    tile@ == Tile::cleared_view(background),
                    forall|i: int|
                        0 <= i < y * start.width + x ==> #[trigger] self@.curr[i]
                            == Tile::cleared_view(background),
                decreases size.x - x,
            {
                let point = Coord2 { x, y };
                proof {
                    lemma_index_in_bounds(y as int, x as int, start.width as int, start.height as int);
                }
                self.set(point, tile.clone());
                x = x + 1;
            }
            assert(y * start.width + start.width == (y + 1) * start.width) by (nonlinear_arith);
            y = y + 1;
        }
        assert(size.y * start.width == start.width * start.height) by (nonlinear_arith)
            requires
                size.y == start.height,
        ;
    }

    /// Applies a color pair transformer to the colors of the tile at the given
    /// point.
    pub fn transform_colors<P>(&mut self, point: Coord2, transformer: P)
        where P: PairTransformer
        requires
            old(self).wf(),
            old(self)@.contains(point),
            transformer.transform_pair_requires(old(self)@.curr[old(self)@.index_of(point)].1),
        ensures
            final(self).wf(),
            final(self)@.valid == old(self)@.valid,
            final(self)@.width == old(self)@.width,
            final(self)@.height == old(self)@.height,
            final(self)@.old == old(self)@.old,
            final(self)@.curr.len() == old(self)@.curr.len(),
            forall|i: int|
                0 <= i < old(self)@.curr.len() && i != old(self)@.index_of(point)
                    ==> #[trigger] final(self)@.curr[i] == old(self)@.curr[i],
            final(self)@.curr[old(self)@.index_of(point)].0 == old(self)@.curr[old(
                self,
            )@.index_of(point)].0,
            transformer.transform_pair_ensures(
                old(self)@.curr[old(self)@.index_of(point)].1,
                final(self)@.curr[old(self)@.index_of(point)].1,
            ),
    {
        proof {
            self.lemma_view_lengths();
            lemma_index_in_bounds(point.y as int, point.x as int, self@.width as int, self@.height as int);
        }
        let stored = self.get(point).clone();
        let colors = transformer.transform_pair(stored.colors);
        self.set(point, Tile { grapheme: stored.grapheme, colors });
    }

    /// The points whose tile changed since the last render, row by row.
    pub fn changed_points(&self) -> (r: Vec<Coord2>)
        requires
            self.wf(),
        ensures
            forall|i: int|
                0 <= i < r@.len() ==> self@.changed.contains((r@[i].y, r@[i].x)),
            forall|p: (Coord, Coord)|
                #[trigger] self@.changed.contains(p) ==> r@.contains(Coord2 { y: p.0, x: p.1 }),
            forall|i: int, j: int|
                0 <= i < j < r@.len() ==> (r@[i].y < r@[j].y || (r@[i].y == r@[j].y && r@[i].x
                    < r@[j].x)),
    {
        let size = self.size();
        let mut points: Vec<Coord2> = Vec::new();
        let mut y: Coord = 0;
        while y < size.y
            invariant
                self.wf(),
                size.y == self@.height,
                size.x == self@.width,
                y <= size.y,
                forall|i: int| 0 <= i < points@.len() ==> self@.changed.contains((points@[i].y, points@[i].x)),
                forall|i: int| 0 <= i < points@.len() ==> #[trigger] points@[i].y < y,
                forall|p: (Coord, Coord)|
                    #[trigger] self@.changed.contains(p) && p.0 < y ==> points@.contains(
                        Coord2 { y: p.0, x: p.1 },
                    ),
                forall|i: int, j: int|
                    0 <= i < j < points@.len() ==> (points@[i].y < points@[j].y || (points@[i].y
                        == points@[j].y && points@[i].x < points@[j].x)),
            decreases size.y - y,
        {
            let mut x: Coord = 0;
            let ghost row_start = points@.len();
            while x < size.x
                invariant
                    self.wf(),
                    size.y == self@.height,
                    size.x == self@.width,
                    y < size.y,
                    x <= size.x,
                    row_start <= points@.len(),
                    forall|i: int| 0 <= i < points@.len() ==> self@.changed.contains((points@[i].y, points@[i].x)),
                    forall|i: int| 0 <= i < row_start ==> #[trigger] points@[i].y < y,
                    forall|i: int|
                        row_start <= i < points@.len() ==> #[trigger] points@[i].y == y
                            && points@[i].x < x,
                    forall|p: (Coord, Coord)|
                        #[trigger] self@.changed.contains(p) && (p.0 < y || (p.0 == y && p.1 < x))
                            ==> points@.contains(Coord2 { y: p.0, x: p.1 }),
                    forall|i: int, j: int|
                        0 <= i < j < points@.len() ==> (points@[i].y < points@[j].y || (
                        points@[i].y == points@[j].y && points@[i].x < points@[j].x)),
                decreases size.x - x,
            {
                if self.changed.contains(&(y, x)) {
                    let ghost before = points@;
                    points.push(Coord2 { y, x });
                    proof {
                        assert forall|p: (Coord, Coord)|
                            #[trigger] self@.changed.contains(p) && (p.0 < y || (p.0 == y && p.1
                                < x + 1)) implies points@.contains(Coord2 { y: p.0, x: p.1 }) by {
                            if p.0 == y && p.1 == x {
                                assert(points@[points@.len() - 1] == Coord2 { y: p.0, x: p.1 });
                            } else {
                                assert(before.contains(Coord2 { y: p.0, x: p.1 }));
                                let k = choose|k: int|
                                    0 <= k < before.len() && before[k] == Coord2 { y: p.0, x: p.1 };
                                assert(points@[k] == Coord2 { y: p.0, x: p.1 });
                            }
                        }
                    }
                } else {
                    proof {
                        assert forall|p: (Coord, Coord)|
                            #[trigger] self@.changed.contains(p) && (p.0 < y || (p.0 == y && p.1
                                < x + 1)) implies points@.contains(Coord2 { y: p.0, x: p.1 }) by {
                            if p.0 == y && p.1 == x {
                                assert(!self@.changed.contains((y, x)));
                            }
                        }
                    }
                }
                x = x + 1;
            }
            proof {
                assert forall|p: (Coord, Coord)|
                    #[trigger] self@.changed.contains(p) && p.0 < y + 1 implies points@.contains(
                    Coord2 { y: p.0, x: p.1 },
                ) by {
                    if p.0 == y {
                        assert(self@.contains(Coord2 { y: p.0, x: p.1 }));
                    }
                }
            }
            y = y + 1;
        }
        proof {
            assert forall|p: (Coord, Coord)|
                #[trigger] self@.changed.contains(p) implies points@.contains(
                Coord2 { y: p.0, x: p.1 },
            ) by {
                assert(self@.contains(Coord2 { y: p.0, x: p.1 }));
            }
        }
        points
    }
}

} // verus!
