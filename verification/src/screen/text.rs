//! Styled text on the screen buffer: line breaking at spaces, margins,
//! alignment, and an ellipsis where the text does not fit.

use crate::color::Updater;
use crate::coord::{Coord, Coord2};
use crate::screen::{
    lemma_index_in_bounds, lemma_index_injective, ScreenBuffer, ScreenView, Tile, TileView,
};
use crate::string::{TermGrapheme, TermString};
use crate::style::{sat_sub, Style};
use vstd::prelude::*;

verus! {

/// One past the last space among the first `n` graphemes, if there is one.
pub open spec fn after_last_space(s: Seq<Seq<char>>, n: int) -> Option<int>
    decreases n,
{
    if n <= 0 {
        None
    } else if s[n - 1] == seq![' '] {
        Some(n)
    } else {
        after_last_space(s, n - 1)
    }
}

/// How many of the remaining graphemes go on a line of the given width:
/// where the remaining text is at least as long as the line, the line ends
/// after its last space, or at the width where it has none; on the last line
/// one column is left for the ellipsis.
pub open spec fn line_break(rest: Seq<Seq<char>>, width: int, inside: bool) -> int {
    if width <= rest.len() {
        let pos = match after_last_space(rest, width) {
            Some(p) => p,
            None => width,
        };
        if inside {
            pos
        } else {
            pos - 1
        }
    } else {
        rest.len() as int
    }
}

/// The width left between the margins on a screen of the given size (never
/// below zero).
pub open spec fn width_between_margins<P>(style: Style<P>, screen: Coord2) -> int {
    sat_sub(sat_sub(screen.x as int, style.left_margin as int), style.right_margin as int)
}

/// The column where a line of `pos` graphemes starts, where `available` is
/// the width between the margins: the left margin, plus the share that the
/// alignment gives (`align_numer / align_denom`) of what the line leaves of
/// that width; `None` where the column leaves the coordinates.
pub open spec fn line_start<P>(available: int, pos: int, style: Style<P>) -> Option<int> {
    if style.align_denom == 0 || available < pos {
        None
    } else {
        let x = style.left_margin + (available - pos) * (style.align_numer as int) / (
        style.align_denom as int);
        if x > Coord::MAX {
            None
        } else {
            Some(x)
        }
    }
}

/// The tiles a line writes, as points `(y, x)` to graphemes: `pos` graphemes
/// of `rest` from column `x` on, then an ellipsis where asked.
pub open spec fn line_tiles(
    rest: Seq<Seq<char>>,
    y: int,
    x: int,
    pos: int,
    ellipsis: bool,
) -> Map<(int, int), Seq<char>> {
    Map::new(
        |p: (int, int)| p.0 == y && x <= p.1 && (p.1 < x + pos || (ellipsis && p.1 == x + pos)),
        |p: (int, int)|
            if p.1 < x + pos {
                rest[p.1 - x]
            } else {
                seq!['\u{2026}']
            },
    )
}

/// The tiles a styled text writes from line `y` on, where `rest` is what is
/// left of it, `size` the text area and `screen` the screen's size, with the
/// line after the last one written; `None` where a line leaves the screen or
/// the coordinates.
pub open spec fn text_tiles<P>(
    rest: Seq<Seq<char>>,
    y: int,
    size: Coord2,
    style: Style<P>,
    screen: Coord2,
) -> Option<(Map<(int, int), Seq<char>>, int)>
    decreases style.top_margin + size.y - y,
{
    if rest.len() == 0 || !(y - style.top_margin < size.y) {
        Some((Map::empty(), y))
    } else {
        let inside = y - style.top_margin + 1 < size.y;
        let pos = line_break(rest, size.x as int, inside);
        let ellipsis = pos != rest.len() && !inside;
        match line_start(width_between_margins(style, screen), pos, style) {
            None => None,
            Some(x) => {
                if pos < 0 || y + 1 > Coord::MAX || ((pos > 0 || ellipsis) && y >= screen.y) || (pos
                    > 0 && x + pos > screen.x) || (ellipsis && x + pos >= screen.x) {
                    None
                } else {
                    match text_tiles(rest.skip(pos), y + 1, size, style, screen) {
                        None => None,
                        Some(next) => Some(
                            (line_tiles(rest, y, x, pos, ellipsis).union_prefer_right(next.0), next.1),
                        ),
                    }
                }
            },
        }
    }
}

/// The tiles a styled text writes on a screen of the given size, with the
/// line after the last one written.
pub open spec fn styled_tiles<P>(text: Seq<Seq<char>>, style: Style<P>, screen: Coord2) -> Option<
    (Map<(int, int), Seq<char>>, int),
> where P: Updater {
    text_tiles(text, style.top_margin as int, style.size_in(screen), style, screen)
}

/// The size of a screen's view.
pub open spec fn view_size(v: ScreenView) -> Coord2 {
    Coord2 { y: v.height as Coord, x: v.width as Coord }
}

/// What a screen shows at a point after a text is written over it: the
/// written grapheme, with the colors updated from those it had, or the tile
/// it had.
pub open spec fn written_tile<P>(
    tiles: Map<(int, int), Seq<char>>,
    colors: P,
    before: ScreenView,
    p: Coord2,
) -> (Seq<char>, crate::color::Color2) where P: Updater {
    if tiles.contains_key((p.y as int, p.x as int)) {
        (tiles[(p.y as int, p.x as int)], colors.updated(before.curr[before.index_of(p)].1))
    } else {
        before.curr[before.index_of(p)]
    }
}

/// All keys of the tiles of a text written from line `y` on lie on line `y`
/// or below.
proof fn lemma_tiles_below<P>(
    rest: Seq<Seq<char>>,
    y: int,
    size: Coord2,
    style: Style<P>,
    screen: Coord2,
)
    requires
        text_tiles(rest, y, size, style, screen) is Some,
    ensures
        forall|k: (int, int)|
            #[trigger] text_tiles(rest, y, size, style, screen).unwrap().0.contains_key(k) ==> k.0
                >= y,
    decreases style.top_margin + size.y - y,
{
    if rest.len() == 0 || !(y - style.top_margin < size.y) {
    } else {
        let inside = y - style.top_margin + 1 < size.y;
        let pos = line_break(rest, size.x as int, inside);
        lemma_tiles_below(rest.skip(pos), y + 1, size, style, screen);
    }
}

/// The position after the last space among the first `n` graphemes is at
/// most `n`.
proof fn lemma_after_last_space_bound(s: Seq<Seq<char>>, n: int)
    ensures
        after_last_space(s, n) matches Some(p) ==> 1 <= p <= n,
    decreases n,
{
    if n > 0 && s[n - 1] != seq![' '] {
        lemma_after_last_space_bound(s, n - 1);
    }
}

/// The tiles a text writes from line `y` on lie in the screen, on the lines
/// from `y` up to the line returned, which stays within the text area.
proof fn lemma_text_tiles_bounds<P>(
    rest: Seq<Seq<char>>,
    y: int,
    size: Coord2,
    style: Style<P>,
    screen: Coord2,
)
    requires
        text_tiles(rest, y, size, style, screen) is Some,
        style.top_margin <= y <= style.top_margin + size.y,
    ensures
        y <= text_tiles(rest, y, size, style, screen).unwrap().1 <= style.top_margin + size.y,
        forall|k: (int, int)|
            #[trigger] text_tiles(rest, y, size, style, screen).unwrap().0.contains_key(k) ==> {
                &&& y <= k.0 < text_tiles(rest, y, size, style, screen).unwrap().1
                &&& k.0 < screen.y
                &&& 0 <= k.1 < screen.x
            },
    decreases style.top_margin + size.y - y,
{
    if rest.len() == 0 || !(y - style.top_margin < size.y) {
    } else {
        let inside = y - style.top_margin + 1 < size.y;
        let pos = line_break(rest, size.x as int, inside);
        lemma_text_tiles_bounds(rest.skip(pos), y + 1, size, style, screen);
    }
}

/// Law of styled text: every tile it writes lies in the screen, on the lines
/// from the top margin up to the line it returns, and that line lies between
/// the top margin and the bottom of the text area.
pub proof fn lemma_styled_text_stays_in_area<P>(text: Seq<Seq<char>>, style: Style<P>, screen: Coord2)
    where P: Updater
    requires
        styled_tiles(text, style, screen) is Some,
    ensures
        style.top_margin <= styled_tiles(text, style, screen).unwrap().1 <= style.top_margin
            + style.size_in(screen).y,
        forall|k: (int, int)|
            #[trigger] styled_tiles(text, style, screen).unwrap().0.contains_key(k) ==> {
                &&& style.top_margin <= k.0 < styled_tiles(text, style, screen).unwrap().1
                &&& k.0 < screen.y
                &&& 0 <= k.1 < screen.x
            },
{
    lemma_text_tiles_bounds(text, style.top_margin as int, style.size_in(screen), style, screen);
}

/// On every line of a text written from line `y` on, the tiles span fewer
/// columns than the width of the text area.
proof fn lemma_text_lines_fit<P>(
    rest: Seq<Seq<char>>,
    y: int,
    size: Coord2,
    style: Style<P>,
    screen: Coord2,
)
    requires
        text_tiles(rest, y, size, style, screen) is Some,
    ensures
        forall|k1: (int, int), k2: (int, int)|
            #![trigger text_tiles(rest, y, size, style, screen).unwrap().0.contains_key(k1), text_tiles(rest, y, size, style, screen).unwrap().0.contains_key(k2)]
            text_tiles(rest, y, size, style, screen).unwrap().0.contains_key(k1)
                && text_tiles(rest, y, size, style, screen).unwrap().0.contains_key(k2) && k1.0
                == k2.0 ==> k2.1 - k1.1 < size.x,
    decreases style.top_margin + size.y - y,
{
    if rest.len() == 0 || !(y - style.top_margin < size.y) {
    } else {
        let inside = y - style.top_margin + 1 < size.y;
        let pos = line_break(rest, size.x as int, inside);
        let ellipsis = pos != rest.len() && !inside;
        let x = line_start(width_between_margins(style, screen), pos, style).unwrap();
        let next = text_tiles(rest.skip(pos), y + 1, size, style, screen);
        lemma_text_lines_fit(rest.skip(pos), y + 1, size, style, screen);
        lemma_tiles_below(rest.skip(pos), y + 1, size, style, screen);
        lemma_after_last_space_bound(rest, size.x as int);
        let line = line_tiles(rest, y, x, pos, ellipsis);
        let all = text_tiles(rest, y, size, style, screen).unwrap().0;
        assert(all == line.union_prefer_right(next.unwrap().0));
        assert(pos + (if ellipsis {
            1int
        } else {
            0int
        }) <= size.x);
        assert forall|k1: (int, int), k2: (int, int)|
            all.contains_key(k1) && all.contains_key(k2) && k1.0 == k2.0 implies k2.1 - k1.1
            < size.x by {
            if k1.0 == y {
                assert(!next.unwrap().0.contains_key(k1));
                assert(!next.unwrap().0.contains_key(k2));
                assert(line.contains_key(k1) && line.contains_key(k2));
            } else {
                assert(!line.contains_key(k1));
                assert(!line.contains_key(k2));
                assert(next.unwrap().0.contains_key(k1) && next.unwrap().0.contains_key(k2));
            }
        }
    }
}

/// Law of styled text: lines break at the width of the text area. On every
/// line it writes, the tiles (the ellipsis included) span fewer columns than
/// the width that the style gives the text on that screen.
pub proof fn lemma_styled_lines_fit_the_area<P>(text: Seq<Seq<char>>, style: Style<P>, screen: Coord2)
    where P: Updater
    requires
        styled_tiles(text, style, screen) is Some,
    ensures
        forall|k1: (int, int), k2: (int, int)|
            #![trigger styled_tiles(text, style, screen).unwrap().0.contains_key(k1), styled_tiles(text, style, screen).unwrap().0.contains_key(k2)]
            styled_tiles(text, style, screen).unwrap().0.contains_key(k1)
                && styled_tiles(text, style, screen).unwrap().0.contains_key(k2) && k1.0 == k2.0
                ==> k2.1 - k1.1 < style.size_in(screen).x,
{
    lemma_text_lines_fit(text, style.top_margin as int, style.size_in(screen), style, screen);
}

/// Two distinct points of a screen have distinct positions in its rows.
proof fn lemma_distinct_index(v: ScreenView, p: Coord2, q: Coord2)
    requires
        v.contains(p),
        v.contains(q),
        p != q,
    ensures
        v.index_of(p) != v.index_of(q),
{
    if v.index_of(p) == v.index_of(q) {
        lemma_index_injective(p.y as int, p.x as int, q.y as int, q.x as int, v.width as int);
    }
}

/// Setting one more tile of a line over a screen where the line's first tiles
/// are written writes the line up to that tile.
proof fn lemma_write_one<P>(
    before: ScreenView,
    mid: ScreenView,
    after: ScreenView,
    point: Coord2,
    tv: TileView,
    old_tiles: Map<(int, int), Seq<char>>,
    new_tiles: Map<(int, int), Seq<char>>,
    colors: P,
) where P: Updater
    requires
        before.contains(point),
        mid.width == before.width,
        mid.curr.len() == before.curr.len(),
        before.curr.len() == before.width * before.height,
        after.curr == mid.curr.update(mid.index_of(point), tv),
        forall|p: Coord2|
            before.contains(p) ==> #[trigger] mid.curr[before.index_of(p)] == written_tile(
                old_tiles,
                colors,
                before,
                p,
            ),
        !old_tiles.contains_key((point.y as int, point.x as int)),
        new_tiles == old_tiles.insert((point.y as int, point.x as int), tv.0),
        tv.1 == colors.updated(mid.curr[mid.index_of(point)].1),
    ensures
        forall|p: Coord2|
            before.contains(p) ==> #[trigger] after.curr[before.index_of(p)] == written_tile(
                new_tiles,
                colors,
                before,
                p,
            ),
{
    assert forall|p: Coord2| before.contains(p) implies #[trigger] after.curr[before.index_of(p)]
        == written_tile(new_tiles, colors, before, p) by {
        lemma_index_in_bounds(p.y as int, p.x as int, before.width as int, before.height as int);
        lemma_index_in_bounds(
            point.y as int,
            point.x as int,
            before.width as int,
            before.height as int,
        );
        if p != point {
            lemma_distinct_index(before, p, point);
        }
        assert(after.curr[before.index_of(p)] == mid.curr.update(mid.index_of(point), tv)[before.index_of(
            p,
        )]);
    }
}

impl ScreenBuffer {
    /// The column where a line of `pos` graphemes starts on a screen of the
    /// given size, or `None` where it leaves the coordinates.
    fn line_start_of<P>(pos: usize, style: &Style<P>, screen_size: Coord2) -> (r: Option<Coord>)
        ensures
            r matches Some(x) ==> line_start(width_between_margins(*style, screen_size), pos as int, *style)
                == Some(x as int),
            r is None ==> line_start(width_between_margins(*style, screen_size), pos as int, *style)
                is None,
    {
        let available = screen_size.x.saturating_sub(style.left_margin).saturating_sub(
            style.right_margin,
        );
        if style.align_denom == 0 || (available as usize) < pos {
            return None;
        }
        let left = (available as usize - pos) as u32;
        let numer = style.align_numer as u32;
        assert(left * numer <= 65535 * 65535) by (nonlinear_arith)
            requires
                left <= 65535,
                numer <= 65535,
        ;
        let x = style.left_margin as u32 + left * numer / (style.align_denom as u32);
        if x > Coord::MAX as u32 {
            None
        } else {
            Some(x as Coord)
        }
    }

    /// Finds where the line breaks: how many of the graphemes of the text
    /// from `start` on go on a line of the given width.
    fn find_break_pos(text: &TermString, start: usize, len: usize, width: usize, inside: bool) -> (r:
        usize)
        requires
            start + len == text@.len(),
            text@.len() <= usize::MAX,
            line_break(text@.skip(start as int), width as int, inside) >= 0,
        ensures
            r == line_break(text@.skip(start as int), width as int, inside),
    {
        let ghost rest = text@.skip(start as int);
        if width <= len {
            let space = TermGrapheme::space();
            let mut n = width;
            let mut pos = width;
            let mut found = false;
            while n > 0 && !found
                invariant
                    n <= width <= len,
                    start + len == text@.len(),
                    text@.len() <= usize::MAX,
                    rest == text@.skip(start as int),
                    space@ == seq![' '],
                    found ==> after_last_space(rest, width as int) == Some(pos as int),
                    !found ==> after_last_space(rest, width as int) == after_last_space(
                        rest,
                        n as int,
                    ),
                    !found ==> pos == width,
                decreases n + (if found {
                    0int
                } else {
                    1int
                }),
            {
                if text.grapheme_at(start + n - 1).eq(&space) {
                    pos = n;
                    found = true;
                } else {
                    n = n - 1;
                }
            }
            if inside {
                pos
            } else {
                pos - 1
            }
        } else {
            len
        }
    }

    /// Writes `pos` graphemes of the text from `start` on, at the columns from
    /// `x` on of line `y`, then an ellipsis where asked, each with the colors
    /// the updater gives from those of the tile it covers.
    fn write_line<P>(
        &mut self,
        text: &TermString,
        start: usize,
        pos: usize,
        y: Coord,
        x: Coord,
        ellipsis: bool,
        colors: &P,
    ) where P: Updater
        requires
            old(self).wf(),
            start + pos <= text@.len(),
            text@.len() <= usize::MAX,
            (pos > 0 || ellipsis) ==> y < old(self)@.height,
            pos > 0 ==> x + pos <= old(self)@.width,
            ellipsis ==> x + pos < old(self)@.width,
        ensures
            final(self).wf(),
            final(self)@.valid == old(self)@.valid,
            final(self)@.width == old(self)@.width,
            final(self)@.height == old(self)@.height,
            final(self)@.old == old(self)@.old,
            final(self)@.curr.len() == old(self)@.curr.len(),
            forall|p: Coord2|
                old(self)@.contains(p) ==> #[trigger] final(self)@.curr[old(self)@.index_of(p)]
                    == written_tile(
                    line_tiles(text@.skip(start as int), y as int, x as int, pos as int, ellipsis),
                    *colors,
                    old(self)@,
                    p,
                ),
    {
        let ghost before = self@;
        let ghost rest = text@.skip(start as int);
        proof {
            self.lemma_view_lengths();
        }
        let mut k: usize = 0;
        while k < pos
            invariant
                self.wf(),
                k <= pos,
                start + pos <= text@.len(),
                text@.len() <= usize::MAX,
                rest == text@.skip(start as int),
                pos > 0 ==> y < before.height,
                pos > 0 ==> x + pos <= before.width,
                self@.valid == before.valid,
                self@.width == before.width,
                self@.height == before.height,
                self@.old == before.old,
                self@.curr.len() == before.curr.len(),
                before.curr.len() == before.width * before.height,
                forall|p: Coord2|
                    before.contains(p) ==> #[trigger] self@.curr[before.index_of(p)] == written_tile(
                        line_tiles(rest, y as int, x as int, k as int, false),
                        *colors,
                        before,
                        p,
                    ),
            decreases pos - k,
        {
            let point = Coord2 { y, x: x + k as Coord };
            proof {
                self.lemma_view_lengths();
            }
            let below = self.get(point).colors;
            let grapheme = text.grapheme_at(start + k).clone();
            let ghost mid = self@;
            let tile = Tile { grapheme, colors: colors.update(below) };
            let ghost tv = tile@;
            self.set(point, tile);
            proof {
                let old_tiles = line_tiles(rest, y as int, x as int, k as int, false);
                let new_tiles = line_tiles(rest, y as int, x as int, k + 1, false);
                assert(new_tiles =~= old_tiles.insert((y as int, x + k), tv.0));
                lemma_write_one(before, mid, self@, point, tv, old_tiles, new_tiles, *colors);
            }
            k = k + 1;
        }
        if ellipsis {
            let point = Coord2 { y, x: x + pos as Coord };
            proof {
                self.lemma_view_lengths();
            }
            let below = self.get(point).colors;
            let ghost mid = self@;
            let tile = Tile { grapheme: TermGrapheme::ellipsis(), colors: colors.update(below) };
            let ghost tv = tile@;
            self.set(point, tile);
            proof {
                let old_tiles = line_tiles(rest, y as int, x as int, pos as int, false);
                let new_tiles = line_tiles(rest, y as int, x as int, pos as int, true);
                assert(old_tiles =~= line_tiles(rest, y as int, x as int, k as int, false));
                assert(new_tiles =~= old_tiles.insert((y as int, x + pos), tv.0));
                lemma_write_one(before, mid, self@, point, tv, old_tiles, new_tiles, *colors);
            }
        } else {
            proof {
                assert forall|p: Coord2| before.contains(p) implies #[trigger] self@.curr[before.index_of(
                    p,
                )] == written_tile(
                    line_tiles(rest, y as int, x as int, pos as int, false),
                    *colors,
                    before,
                    p,
                ) by {
                    assert(line_tiles(rest, y as int, x as int, pos as int, false) =~= line_tiles(
                        rest,
                        y as int,
                        x as int,
                        k as int,
                        false,
                    ));
                }
            }
        }
    }
    /// Prints a text in the screen with the given style: from the top margin
    /// down, each line takes what fits the text area, breaking after the last
    /// space where the rest of the text is at least as long as the line; a
    /// line starts at the column that the margins and the alignment give; the
    /// last line of the area ends with an ellipsis where text is left. Each
    /// tile written takes the colors the style's updater gives from the
    /// colors it had. Returns the line after the last one written.
    pub fn styled_text<P>(&mut self, tstring: &TermString, style: Style<P>) -> (r: Coord) where
        P: Updater,

        requires
            old(self).wf(),
            styled_tiles(tstring@, style, view_size(old(self)@)) is Some,
        ensures
            final(self).wf(),
            final(self)@.valid == old(self)@.valid,
            final(self)@.width == old(self)@.width,
            final(self)@.height == old(self)@.height,
            final(self)@.old == old(self)@.old,
            final(self)@.curr.len() == old(self)@.curr.len(),
            r == styled_tiles(tstring@, style, view_size(old(self)@)).unwrap().1,
            forall|p: Coord2|
                old(self)@.contains(p) ==> #[trigger] final(self)@.curr[old(self)@.index_of(p)]
                    == written_tile(
                    styled_tiles(tstring@, style, view_size(old(self)@)).unwrap().0,
                    style.colors,
                    old(self)@,
                    p,
                ),
    {
        let ghost before = self@;
        let mut len = tstring.count_graphemes();
        let mut start: usize = 0;
        let screen_size = self.size();
        let size = style.make_size(screen_size);
        let ghost total = styled_tiles(tstring@, style, view_size(before)).unwrap();
        let ghost mut done: Map<(int, int), Seq<char>> = Map::empty();
        proof {
            self.lemma_view_lengths();
            assert(tstring@.skip(0) =~= tstring@);
        }
        let mut cursor = Coord2 { x: 0, y: style.top_margin };
        let mut is_inside = cursor.y - style.top_margin < size.y;
        while len > 0 && is_inside
            invariant
                self.wf(),
                self@.valid == before.valid,
                self@.width == before.width,
                self@.height == before.height,
                self@.old == before.old,
                self@.curr.len() == before.curr.len(),
                before.curr.len() == before.width * before.height,
                screen_size == view_size(before),
                screen_size.x == before.width,
                screen_size.y == before.height,
                size == style.size_in(screen_size),
                start + len == tstring@.len(),
                tstring@.len() <= usize::MAX,
                cursor.y >= style.top_margin,
                is_inside == (cursor.y - style.top_margin < size.y),
                total == styled_tiles(tstring@, style, view_size(before)).unwrap(),
                text_tiles(tstring@.skip(start as int), cursor.y as int, size, style, screen_size)
                    is Some,
                total.1 == text_tiles(
                    tstring@.skip(start as int),
                    cursor.y as int,
                    size,
                    style,
                    screen_size,
                ).unwrap().1,
                total.0 == done.union_prefer_right(
                    text_tiles(
                        tstring@.skip(start as int),
                        cursor.y as int,
                        size,
                        style,
                        screen_size,
                    ).unwrap().0,
                ),
                forall|k: (int, int)| #[trigger] done.contains_key(k) ==> k.0 < cursor.y,
                forall|p: Coord2|
                    before.contains(p) ==> #[trigger] self@.curr[before.index_of(p)] == written_tile(
                        done,
                        style.colors,
                        before,
                        p,
                    ),
            decreases style.top_margin + size.y - cursor.y,
        {
            let ghost rest = tstring@.skip(start as int);
            let ghost y = cursor.y as int;
            is_inside = cursor.y - style.top_margin + 1 < size.y;
            let width = size.x as usize;
            let pos = Self::find_break_pos(tstring, start, len, width, is_inside);
            proof {
                lemma_after_last_space_bound(rest, width as int);
            }
            cursor.x = match Self::line_start_of(pos, &style, screen_size) {
                Some(x) => x,
                None => {
                    assert(false);
                    0
                },
            };
            let ellipsis = pos != len && !is_inside;
            let ghost line = line_tiles(rest, y, cursor.x as int, pos as int, ellipsis);
            let ghost next = text_tiles(rest.skip(pos as int), y + 1, size, style, screen_size);
            let ghost mid = self@;
            self.write_line(tstring, start, pos, cursor.y, cursor.x, ellipsis, &style.colors);
            proof {
                assert(rest.skip(pos as int) =~= tstring@.skip(start + pos));
                lemma_tiles_below(rest.skip(pos as int), y + 1, size, style, screen_size);
                assert forall|p: Coord2| before.contains(p) implies #[trigger] self@.curr[before.index_of(
                    p,
                )] == written_tile(done.union_prefer_right(line), style.colors, before, p) by {
                    let key = (p.y as int, p.x as int);
                    assert(mid.index_of(p) == before.index_of(p));
                    assert(self@.curr[mid.index_of(p)] == written_tile(line, style.colors, mid, p));
                    assert(mid.curr[before.index_of(p)] == written_tile(done, style.colors, before, p));
                    if line.contains_key(key) {
                        assert(!done.contains_key(key));
                    }
                }
                assert(total.0 =~= done.union_prefer_right(line).union_prefer_right(next.unwrap().0));
                done = done.union_prefer_right(line);
            }
            start = start + pos;
            cursor.y = cursor.y + 1;
            len = len - pos;
        }
        proof {
            assert(total.0 =~= done);
        }
        cursor.y
    }

    /// Whether the text can be printed with the given style: no line leaves
    /// the screen or the coordinates.
    pub fn styled_text_fits<P>(&self, tstring: &TermString, style: &Style<P>) -> (r: bool) where
        P: Updater,

        requires
            self.wf(),
        ensures
            r == styled_tiles(tstring@, *style, view_size(self@)) is Some,
    {
        let mut len = tstring.count_graphemes();
        let mut start: usize = 0;
        let screen_size = self.size();
        let size = style.make_size(screen_size);
        proof {
            self.lemma_view_lengths();
            assert(tstring@.skip(0) =~= tstring@);
        }
        let mut y: Coord = style.top_margin;
        while len > 0 && y - style.top_margin < size.y
            invariant
                screen_size == view_size(self@),
                size == style.size_in(screen_size),
                start + len == tstring@.len(),
                tstring@.len() <= usize::MAX,
                y >= style.top_margin,
                (styled_tiles(tstring@, *style, view_size(self@)) is Some) == (text_tiles(
                    tstring@.skip(start as int),
                    y as int,
                    size,
                    *style,
                    screen_size,
                ) is Some),
            decreases style.top_margin + size.y - y,
        {
            let ghost rest = tstring@.skip(start as int);
            let inside = y - style.top_margin + 1 < size.y;
            let width = size.x as usize;
            if width <= len && !inside && width == 0 {
                return false;
            }
            proof {
                lemma_after_last_space_bound(rest, width as int);
            }
            let pos = Self::find_break_pos(tstring, start, len, width, inside);
            let x = match Self::line_start_of(pos, style, screen_size) {
                Some(x) => x,
                None => {
                    return false;
                },
            };
            let ellipsis = pos != len && !inside;
            let end = x as usize + pos;
            if y == Coord::MAX || ((pos > 0 || ellipsis) && y >= screen_size.y) || (pos > 0 && end
                > screen_size.x as usize) || (ellipsis && end >= screen_size.x as usize) {
                return false;
            }
            proof {
                assert(rest.skip(pos as int) =~= tstring@.skip(start + pos));
            }
            start = start + pos;
            len = len - pos;
            y = y + 1;
        }
        true
    }
}

} // verus!
