//! Planning a render: the commands that bring the terminal from what it shows
//! to what the buffer holds, tile by changed tile.

use crate::color::{BasicColor, Color, Color2};
use crate::coord::{Coord, Coord2};
use crate::screen::{lemma_index_in_bounds, lemma_index_injective, ScreenBuffer, ScreenView, TileView};
use crate::string::TermGrapheme;
use vstd::prelude::*;

verus! {

/// A rendering command, abstractly.
pub enum RenderStep {
    /// Moves the terminal's cursor to the point.
    MoveTo(Coord2),
    /// Sets the background color.
    Background(Color),
    /// Sets the foreground color.
    Foreground(Color),
    /// Prints the grapheme's characters.
    Print(Seq<char>),
}

/// A rendering command.
#[derive(Debug)]
pub enum RenderOp {
    /// Moves the terminal's cursor to the point.
    MoveTo(Coord2),
    /// Sets the background color.
    Background(Color),
    /// Sets the foreground color.
    Foreground(Color),
    /// Prints the grapheme.
    Print(TermGrapheme),
}

impl View for RenderOp {
    type V = RenderStep;

    open spec fn view(&self) -> RenderStep {
        match self {
            RenderOp::MoveTo(point) => RenderStep::MoveTo(*point),
            RenderOp::Background(color) => RenderStep::Background(*color),
            RenderOp::Foreground(color) => RenderStep::Foreground(*color),
            RenderOp::Print(grapheme) => RenderStep::Print(grapheme@),
        }
    }
}

/// The commands that print a tile at a point, where the terminal's colors
/// and cursor are the given ones: a move where the cursor is elsewhere, the
/// colors that differ, then the grapheme.
pub open spec fn tile_steps(point: Coord2, tile: TileView, colors: Color2, cursor: Coord2) -> Seq<
    RenderStep,
> {
    (if cursor != point {
        seq![RenderStep::MoveTo(point)]
    } else {
        Seq::empty()
    }) + (if colors.background != tile.1.background {
        seq![RenderStep::Background(tile.1.background)]
    } else {
        Seq::empty()
    }) + (if colors.foreground != tile.1.foreground {
        seq![RenderStep::Foreground(tile.1.foreground)]
    } else {
        Seq::empty()
    }) + seq![RenderStep::Print(tile.0)]
}

/// Where the terminal's cursor is after printing at the point.
pub open spec fn cursor_after(point: Coord2, width: nat) -> Coord2 {
    if point.x <= width {
        Coord2 { y: point.y, x: (point.x + 1) as Coord }
    } else {
        point
    }
}

/// The commands that print the tiles of the screen at the given points, in
/// order, from the given colors and cursor on.
pub open spec fn tiles_steps(points: Seq<Coord2>, v: ScreenView, colors: Color2, cursor: Coord2) -> Seq<
    RenderStep,
>
    decreases points.len(),
{
    if points.len() == 0 {
        Seq::empty()
    } else {
        let point = points[0];
        let tile = v.curr[v.index_of(point)];
        tile_steps(point, tile, colors, cursor) + tiles_steps(
            points.drop_first(),
            v,
            tile.1,
            cursor_after(point, v.width),
        )
    }
}

/// The commands of a render: the default colors and the cursor at the
/// origin, then the tiles at the given points.
pub open spec fn render_steps(points: Seq<Coord2>, v: ScreenView) -> Seq<RenderStep> {
    seq![
        RenderStep::Foreground(Color::Basic(BasicColor::White)),
        RenderStep::Background(Color::Basic(BasicColor::Black)),
        RenderStep::MoveTo(Coord2 { y: 0, x: 0 }),
    ] + tiles_steps(points, v, Color2::default_pair(), Coord2 { y: 0, x: 0 })
}

/// Whether the points are in row order: by line, then by column.
pub open spec fn in_row_order(points: Seq<Coord2>) -> bool {
    forall|i: int, j: int|
        0 <= i < j < points.len() ==> (points[i].y < points[j].y || (points[i].y == points[j].y
            && points[i].x < points[j].x))
}

/// Whether the points are exactly the changed points of the screen.
pub open spec fn are_changed_points(points: Seq<Coord2>, v: ScreenView) -> bool {
    &&& forall|i: int| 0 <= i < points.len() ==> v.changed.contains((points[i].y, points[i].x))
    &&& forall|p: (Coord, Coord)|
        #[trigger] v.changed.contains(p) ==> points.contains(Coord2 { y: p.0, x: p.1 })
}

/// What a terminal shows, abstractly: where its cursor is, the colors it
/// prints with, and the tiles of the screen, row by row.
pub struct TerminalView {
    /// The cursor.
    pub cursor: Coord2,
    /// The current foreground and background colors.
    pub colors: Color2,
    /// The tiles shown, row by row.
    pub shown: Seq<TileView>,
}

/// What a terminal of the given size shows after a rendering command: a move
/// sets the cursor, a color sets the current color, and a print shows the
/// grapheme in the current colors at the cursor, where it lies in the
/// screen, and advances the cursor by one column.
pub open spec fn step_effect(t: TerminalView, step: RenderStep, width: nat, height: nat) -> TerminalView {
    match step {
        RenderStep::MoveTo(point) => TerminalView { cursor: point, colors: t.colors, shown: t.shown },
        RenderStep::Background(color) => TerminalView {
            cursor: t.cursor,
            colors: Color2 { foreground: t.colors.foreground, background: color },
            shown: t.shown,
        },
        RenderStep::Foreground(color) => TerminalView {
            cursor: t.cursor,
            colors: Color2 { foreground: color, background: t.colors.background },
            shown: t.shown,
        },
        RenderStep::Print(grapheme) => TerminalView {
            cursor: Coord2 { y: t.cursor.y, x: (t.cursor.x + 1) as Coord },
            colors: t.colors,
            shown: if t.cursor.x < width && t.cursor.y < height {
                t.shown.update(t.cursor.y * width + t.cursor.x, (grapheme, t.colors))
            } else {
                t.shown
            },
        },
    }
}

/// What a terminal of the given size shows after the commands, in order.
pub open spec fn steps_effect(t: TerminalView, steps: Seq<RenderStep>, width: nat, height: nat) -> TerminalView
    decreases steps.len(),
{
    if steps.len() == 0 {
        t
    } else {
        steps_effect(step_effect(t, steps[0], width, height), steps.drop_first(), width, height)
    }
}

/// Running two lists of commands one after the other runs their
/// concatenation.
proof fn lemma_steps_concat(t: TerminalView, a: Seq<RenderStep>, b: Seq<RenderStep>, width: nat, height: nat)
    ensures
        steps_effect(t, a + b, width, height) == steps_effect(
            steps_effect(t, a, width, height),
            b,
            width,
            height,
        ),
    decreases a.len(),
{
    if a.len() == 0 {
        assert(a + b =~= b);
    } else {
        assert((a + b).drop_first() =~= a.drop_first() + b);
        assert((a + b)[0] == a[0]);
        lemma_steps_concat(step_effect(t, a[0], width, height), a.drop_first(), b, width, height);
    }
}

/// The commands of one tile show it at its point, leave the tile's colors
/// current, and put the cursor after it.
proof fn lemma_tile_steps_effect(t: TerminalView, v: ScreenView, point: Coord2)
    requires
        v.contains(point),
        v.width <= Coord::MAX,
    ensures
        ({
            let tile = v.curr[v.index_of(point)];
            let after = steps_effect(t, tile_steps(point, tile, t.colors, t.cursor), v.width, v.height);
            &&& after.cursor == cursor_after(point, v.width)
            &&& after.colors == tile.1
            &&& after.shown == t.shown.update(v.index_of(point), tile)
        }),
{
    let tile = v.curr[v.index_of(point)];
    let mv: Seq<RenderStep> = if t.cursor != point {
        seq![RenderStep::MoveTo(point)]
    } else {
        Seq::empty()
    };
    let bg: Seq<RenderStep> = if t.colors.background != tile.1.background {
        seq![RenderStep::Background(tile.1.background)]
    } else {
        Seq::empty()
    };
    let fg: Seq<RenderStep> = if t.colors.foreground != tile.1.foreground {
        seq![RenderStep::Foreground(tile.1.foreground)]
    } else {
        Seq::empty()
    };
    let print: Seq<RenderStep> = seq![RenderStep::Print(tile.0)];
    assert(tile_steps(point, tile, t.colors, t.cursor) == mv + bg + fg + print);
    lemma_steps_concat(t, mv + bg + fg, print, v.width, v.height);
    lemma_steps_concat(t, mv + bg, fg, v.width, v.height);
    lemma_steps_concat(t, mv, bg, v.width, v.height);
    reveal_with_fuel(steps_effect, 2);
    let t1 = steps_effect(t, mv, v.width, v.height);
    assert(t1.cursor == point && t1.colors == t.colors && t1.shown == t.shown);
    let t2 = steps_effect(t1, bg, v.width, v.height);
    assert(t2.cursor == point && t2.colors.background == tile.1.background
        && t2.colors.foreground == t.colors.foreground && t2.shown == t.shown);
    let t3 = steps_effect(t2, fg, v.width, v.height);
    assert(t3.cursor == point && t3.colors == tile.1 && t3.shown == t.shown);
}

/// Whether the index is the position of one of the points.
pub open spec fn indexes_a_point(points: Seq<Coord2>, v: ScreenView, j: int) -> bool {
    exists|k: int| 0 <= k < points.len() && v.index_of(#[trigger] points[k]) == j
}

/// The commands of the tiles at distinct points of the screen show each of
/// them at its point and leave the rest of the terminal as it was.
proof fn lemma_tiles_steps_effect(t: TerminalView, points: Seq<Coord2>, v: ScreenView)
    requires
        forall|k: int| 0 <= k < points.len() ==> v.contains(#[trigger] points[k]),
        in_row_order(points),
        v.width <= Coord::MAX,
        t.shown.len() == v.width * v.height,
    ensures
        ({
            let after = steps_effect(t, tiles_steps(points, v, t.colors, t.cursor), v.width, v.height);
            &&& after.shown.len() == t.shown.len()
            &&& forall|j: int|
                0 <= j < t.shown.len() ==> #[trigger] after.shown[j] == if indexes_a_point(points, v, j) {
                    v.curr[j]
                } else {
                    t.shown[j]
                }
        }),
    decreases points.len(),
{
    if points.len() > 0 {
        let point = points[0];
        let tile = v.curr[v.index_of(point)];
        let first = tile_steps(point, tile, t.colors, t.cursor);
        let rest = points.drop_first();
        lemma_steps_concat(
            t,
            first,
            tiles_steps(rest, v, tile.1, cursor_after(point, v.width)),
            v.width,
            v.height,
        );
        lemma_tile_steps_effect(t, v, point);
        let t1 = steps_effect(t, first, v.width, v.height);
        lemma_index_in_bounds(point.y as int, point.x as int, v.width as int, v.height as int);
        assert forall|k: int| 0 <= k < rest.len() implies v.contains(#[trigger] rest[k]) by {
            assert(rest[k] == points[k + 1]);
        }
        lemma_tiles_steps_effect(t1, rest, v);
        let after = steps_effect(t, tiles_steps(points, v, t.colors, t.cursor), v.width, v.height);
        assert forall|j: int| 0 <= j < t.shown.len() implies #[trigger] after.shown[j] == if indexes_a_point(
            points,
            v,
            j,
        ) {
            v.curr[j]
        } else {
            t.shown[j]
        } by {
            if indexes_a_point(rest, v, j) {
                let k = choose|k: int| 0 <= k < rest.len() && v.index_of(#[trigger] rest[k]) == j;
                assert(points[k + 1] == rest[k]);
            } else if j == v.index_of(point) {
                assert(points[0] == point);
            } else {
                if indexes_a_point(points, v, j) {
                    let k = choose|k: int| 0 <= k < points.len() && v.index_of(#[trigger] points[k]) == j;
                    if k == 0 {
                        assert(false);
                    } else {
                        assert(rest[k - 1] == points[k]);
                    }
                }
            }
        }
    }
}

/// Law of rendering: on a terminal that shows what the buffer last rendered,
/// the commands that render the changed tiles, in row order, leave it
/// showing what the buffer holds.
pub proof fn lemma_render_shows_buffer(buffer: &ScreenBuffer, points: Seq<Coord2>, t: TerminalView)
    requires
        buffer.wf(),
        in_row_order(points),
        are_changed_points(points, buffer@),
        t.shown == buffer@.old,
    ensures
        steps_effect(t, render_steps(points, buffer@), buffer@.width, buffer@.height).shown
            == buffer@.curr,
{
    let v = buffer@;
    buffer.lemma_view_lengths();
    buffer.lemma_changed_are_differences();
    let start = seq![
        RenderStep::Foreground(Color::Basic(BasicColor::White)),
        RenderStep::Background(Color::Basic(BasicColor::Black)),
        RenderStep::MoveTo(Coord2 { y: 0, x: 0 }),
    ];
    lemma_steps_concat(
        t,
        start,
        tiles_steps(points, v, Color2::default_pair(), Coord2 { y: 0, x: 0 }),
        v.width,
        v.height,
    );
    reveal_with_fuel(steps_effect, 4);
    let t0 = steps_effect(t, start, v.width, v.height);
    assert(t0.colors == Color2::default_pair() && t0.cursor == (Coord2 { y: 0, x: 0 })
        && t0.shown == t.shown);
    assert forall|k: int| 0 <= k < points.len() implies v.contains(#[trigger] points[k]) by {
        assert(v.changed.contains((points[k].y, points[k].x)));
    }
    lemma_tiles_steps_effect(t0, points, v);
    let after = steps_effect(t, render_steps(points, v), v.width, v.height);
    assert forall|j: int| 0 <= j < v.curr.len() implies #[trigger] after.shown[j] == v.curr[j] by {
        if !indexes_a_point(points, v, j) {
            let w = v.width as int;
            let q = Coord2 { y: (j / w) as Coord, x: (j % w) as Coord };
            assert(j == (j / w) * w + j % w && 0 <= j % w < w && 0 <= j / w < v.height) by (
            nonlinear_arith)
                requires
                    0 <= j < v.curr.len(),
                    v.curr.len() == v.width * v.height,
                    w == v.width,
            ;
            assert(v.contains(q));
            assert(v.index_of(q) == j);
            if v.changed.contains((q.y, q.x)) {
                let k = choose|k: int| 0 <= k < points.len() && points[k] == q;
                assert(v.index_of(points[k]) == j);
            }
        }
    }
    assert(after.shown =~= v.curr);
}

impl ScreenBuffer {
    /// The commands that render the changed tiles: the default colors and
    /// the cursor at the origin, then, for each changed point in row order, a
    /// move where the cursor is not there yet, the colors that differ from
    /// the last ones set, and the grapheme.
    pub fn render_ops(&self) -> (r: Vec<RenderOp>)
        requires
            self.wf(),
        ensures
            exists|points: Seq<Coord2>|
                {
                    &&& in_row_order(points)
                    &&& are_changed_points(points, self@)
                    &&& r@.map_values(|op: RenderOp| op@) == render_steps(points, self@)
                },
    {
        let points = self.changed_points();
        let size = self.size();
        proof {
            self.lemma_changed_are_differences();
        }
        let mut ops: Vec<RenderOp> = Vec::new();
        ops.push(RenderOp::Foreground(Color::Basic(BasicColor::White)));
        ops.push(RenderOp::Background(Color::Basic(BasicColor::Black)));
        ops.push(RenderOp::MoveTo(Coord2 { y: 0, x: 0 }));
        let mut colors = Color2::default();
        let mut cursor = Coord2 { y: 0, x: 0 };
        let ghost total = render_steps(points@, self@);
        proof {
            assert(points@.skip(0) =~= points@);
            assert(ops@.map_values(|op: RenderOp| op@) + tiles_steps(
                points@.skip(0),
                self@,
                colors,
                cursor,
            ) =~= total);
        }
        let mut i: usize = 0;
        while i < points.len()
            invariant
                self.wf(),
                i <= points@.len(),
                size.x == self@.width,
                size.y == self@.height,
                forall|k: int| 0 <= k < points@.len() ==> self@.contains(#[trigger] points@[k]),
                total == render_steps(points@, self@),
                ops@.map_values(|op: RenderOp| op@) + tiles_steps(
                    points@.skip(i as int),
                    self@,
                    colors,
                    cursor,
                ) == total,
            decreases points@.len() - i,
        {
            let point = points[i];
            let ghost before = ops@.map_values(|op: RenderOp| op@);
            let ghost tile = self@.curr[self@.index_of(point)];
            let ghost step = tile_steps(point, tile, colors, cursor);
            let ghost rest = points@.skip(i as int);
            proof {
                assert(rest[0] == point);
                assert(rest.drop_first() =~= points@.skip(i + 1));
            }
            let ghost next_cursor = cursor_after(point, self@.width);
            if cursor != point {
                ops.push(RenderOp::MoveTo(point));
            }
            cursor = point;
            let shown = self.get(point);
            if colors.background != shown.colors.background {
                ops.push(RenderOp::Background(shown.colors.background));
            }
            if colors.foreground != shown.colors.foreground {
                ops.push(RenderOp::Foreground(shown.colors.foreground));
            }
            colors = shown.colors;
            ops.push(RenderOp::Print(shown.grapheme.clone()));
            if cursor.x <= size.x {
                cursor.x = cursor.x + 1;
            }
            proof {
                assert(ops@.map_values(|op: RenderOp| op@) =~= before + step);
                assert(cursor == next_cursor);
                assert(colors == tile.1);
            }
            i = i + 1;
        }
        proof {
            assert(points@.skip(i as int) =~= Seq::<Coord2>::empty());
            assert(ops@.map_values(|op: RenderOp| op@) =~= total);
            assert(in_row_order(points@));
            assert(are_changed_points(points@, self@));
        }
        ops
    }
}

} // verus!
