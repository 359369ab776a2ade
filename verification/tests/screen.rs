use andiskaz::color::{BasicColor, Color2, GrayColor};
use andiskaz::color::transform::Invert;
use andiskaz::coord::Coord2;
use andiskaz::screen::{RenderOp, ScreenBuffer, Tile};
use andiskaz::string::{TermGrapheme, TermString};
use andiskaz::style::Style;
use andiskaz::tile::{Background, Foreground, Updater};

fn grapheme(text: &str) -> TermGrapheme {
    TermString::new(text).unwrap().grapheme_at(0).clone()
}

fn row(screen: &ScreenBuffer, y: u16) -> String {
    let size = screen.size();
    let mut out = String::new();
    for x in 0 .. size.x {
        out.push_str(screen.get(Coord2 { y, x }).grapheme.as_str());
    }
    out
}

#[test]
fn blank_screen_has_default_tiles() {
    let screen = ScreenBuffer::blank(Coord2 { y: 3, x: 10 });
    assert_eq!(screen.size(), Coord2 { y: 3, x: 10 });
    assert_eq!(screen.get(Coord2 { y: 2, x: 9 }), &Tile::default());
    assert!(screen.changed_points().is_empty());
    assert_eq!(screen.make_index(Coord2 { y: 1, x: 2 }), Some(12));
    assert_eq!(screen.make_index(Coord2 { y: 3, x: 0 }), None);
    assert_eq!(screen.make_index(Coord2 { y: 0, x: 10 }), None);
}

#[test]
fn set_records_exactly_the_differences() {
    let mut screen = ScreenBuffer::blank(Coord2 { y: 3, x: 10 });
    let tile = Tile { grapheme: grapheme("x"), colors: Color2::default() };
    screen.set(Coord2 { y: 2, x: 1 }, tile.clone());
    screen.set(Coord2 { y: 0, x: 5 }, tile.clone());
    assert_eq!(screen.get(Coord2 { y: 2, x: 1 }), &tile);
    assert_eq!(screen.changed_points(), vec![Coord2 { y: 0, x: 5 }, Coord2 { y: 2, x: 1 }]);
    // Setting back the rendered tile removes the change.
    screen.set(Coord2 { y: 0, x: 5 }, Tile::default());
    assert_eq!(screen.changed_points(), vec![Coord2 { y: 2, x: 1 }]);
    screen.next_tick();
    assert!(screen.changed_points().is_empty());
    assert_eq!(screen.get(Coord2 { y: 2, x: 1 }), &tile);
}

#[test]
fn clear_and_resize() {
    let mut screen = ScreenBuffer::blank(Coord2 { y: 2, x: 2 });
    screen.clear(BasicColor::DarkBlue.into());
    let tile = screen.get(Coord2 { y: 1, x: 1 });
    assert_eq!(tile.colors, Color2 {
        foreground: BasicColor::White.into(),
        background: BasicColor::DarkBlue.into(),
    });
    assert_eq!(screen.changed_points().len(), 4);
    screen.resize(Coord2 { y: 4, x: 3 });
    assert_eq!(screen.size(), Coord2 { y: 4, x: 3 });
    assert!(screen.changed_points().is_empty());
}

#[test]
fn transform_colors_of_one_tile() {
    let mut screen = ScreenBuffer::blank(Coord2 { y: 1, x: 2 });
    screen.transform_colors(Coord2 { y: 0, x: 1 }, andiskaz::color::transform::PairWith {
        foreground: Invert,
        background: Invert,
    });
    assert_eq!(screen.get(Coord2 { y: 0, x: 1 }).colors, Color2 {
        foreground: BasicColor::Black.into(),
        background: BasicColor::White.into(),
    });
    assert_eq!(screen.get(Coord2 { y: 0, x: 0 }).colors, Color2::default());
}

#[test]
fn styled_text_on_one_line() {
    let mut screen = ScreenBuffer::blank(Coord2 { y: 3, x: 10 });
    let text = TermString::new("Hello").unwrap();
    assert!(screen.styled_text_fits(&text, &Style::default()));
    assert_eq!(screen.styled_text(&text, Style::default()), 1);
    assert_eq!(row(&screen, 0), "Hello     ");
    let centered = Style::default().align(1, 2).top_margin(1);
    assert_eq!(screen.styled_text(&text, centered), 2);
    assert_eq!(row(&screen, 1), "  Hello   ");
}

#[test]
fn styled_text_breaks_after_spaces() {
    let mut screen = ScreenBuffer::blank(Coord2 { y: 3, x: 5 });
    let text = TermString::new("ab cd ef").unwrap();
    assert_eq!(screen.styled_text(&text, Style::default()), 3);
    assert_eq!(row(&screen, 0), "ab   ");
    assert_eq!(row(&screen, 1), "cd   ");
    assert_eq!(row(&screen, 2), "ef   ");
}

#[test]
fn styled_text_ends_with_an_ellipsis() {
    let mut screen = ScreenBuffer::blank(Coord2 { y: 1, x: 5 });
    let text = TermString::new("abcdefgh").unwrap();
    assert_eq!(screen.styled_text(&text, Style::default()), 1);
    assert_eq!(row(&screen, 0), "abcd\u{2026}");
}

#[test]
fn styled_text_takes_the_style_colors() {
    let mut screen = ScreenBuffer::blank(Coord2 { y: 1, x: 4 });
    let colors = Color2 { foreground: GrayColor::new(3).into(), background: BasicColor::DarkRed.into() };
    let text = TermString::new("ab").unwrap();
    // The text area is three columns wide; aligned to the right, the text
    // starts at (3 - 2 + 1) / 1 * 1.
    screen.styled_text(&text, Style::default().colors(colors).left_margin(1).align(1, 1));
    assert_eq!(screen.get(Coord2 { y: 0, x: 1 }).colors, Color2::default());
    assert_eq!(screen.get(Coord2 { y: 0, x: 2 }).colors, colors);
    assert_eq!(screen.get(Coord2 { y: 0, x: 3 }).colors, colors);
    assert_eq!(row(&screen, 0), "  ab");
}

#[test]
fn styled_text_that_leaves_the_screen_does_not_fit() {
    let screen = ScreenBuffer::blank(Coord2 { y: 2, x: 4 });
    let text = TermString::new("ab").unwrap();
    let style = Style::default().left_margin(3).right_margin(0).max_width(4);
    assert!(!screen.styled_text_fits(&text, &style.align(1, 1)));
    assert!(screen.styled_text_fits(&text, &Style::default()));
    assert!(!screen.styled_text_fits(&text, &Style::default().align(0, 0)));
}

#[test]
fn render_ops_move_and_print_changed_tiles() {
    let mut screen = ScreenBuffer::blank(Coord2 { y: 2, x: 3 });
    let red = Color2 { foreground: BasicColor::White.into(), background: BasicColor::DarkRed.into() };
    screen.set(Coord2 { y: 0, x: 1 }, Tile { grapheme: grapheme("x"), colors: red });
    screen.set(Coord2 { y: 0, x: 2 }, Tile { grapheme: grapheme("y"), colors: red });
    screen.set(Coord2 { y: 1, x: 0 }, Tile { grapheme: grapheme("z"), colors: Color2::default() });
    let ops = screen.render_ops();
    let shown: Vec<String> = ops
        .iter()
        .map(|op| match op {
            RenderOp::MoveTo(p) => format!("move {} {}", p.y, p.x),
            RenderOp::Background(c) => format!("bg {:?}", c),
            RenderOp::Foreground(c) => format!("fg {:?}", c),
            RenderOp::Print(g) => format!("print {}", g.as_str()),
        })
        .collect();
    assert_eq!(shown, vec![
        "fg Basic(White)",
        "bg Basic(Black)",
        "move 0 0",
        "move 0 1",
        "bg Basic(DarkRed)",
        "print x",
        "print y",
        "move 1 0",
        "bg Basic(Black)",
        "print z",
    ]);
}

#[test]
fn tile_updaters_contrast_colors() {
    let mut tile = Tile::default();
    Foreground { grapheme: grapheme("a"), color: BasicColor::LightRed.into() }.update(&mut tile);
    assert_eq!(tile.grapheme.as_str(), "a");
    // The background is black, so the foreground becomes light.
    assert_eq!(tile.colors.foreground, BasicColor::LightRed.into());
    Background { color: BasicColor::White.into() }.update(&mut tile);
    assert_eq!(tile.colors.background, BasicColor::White.into());
    assert_eq!(tile.colors.foreground, BasicColor::DarkRed.into());
    let replacement = Tile { grapheme: grapheme("b"), colors: Color2::default() };
    replacement.clone().update(&mut tile);
    assert_eq!(tile, replacement);
}

#[test]
fn update_applies_a_tile_updater() {
    let mut screen = ScreenBuffer::blank(Coord2 { y: 1, x: 2 });
    screen.update(Coord2 { y: 0, x: 1 }, |tile: &mut Tile| {
        Background { color: BasicColor::White.into() }.update(tile)
    });
    assert_eq!(screen.get(Coord2 { y: 0, x: 1 }).colors, Color2 {
        foreground: BasicColor::Black.into(),
        background: BasicColor::White.into(),
    });
    assert_eq!(screen.changed_points(), vec![Coord2 { y: 0, x: 1 }]);
    screen.update(Coord2 { y: 0, x: 1 }, |tile: &mut Tile| Tile::default().update(tile));
    assert!(screen.changed_points().is_empty());
}

#[test]
fn update_returns_what_the_function_returns() {
    let mut screen = ScreenBuffer::blank(Coord2 { y: 2, x: 2 });
    let previous = screen.update(Coord2 { y: 1, x: 0 }, |tile: &mut Tile| {
        let previous = tile.colors;
        tile.colors.background = BasicColor::DarkBlue.into();
        previous
    });
    assert_eq!(previous, Color2::default());
    assert_eq!(screen.get(Coord2 { y: 1, x: 0 }).colors.background, BasicColor::DarkBlue.into());
    assert_eq!(screen.changed_points(), vec![Coord2 { y: 1, x: 0 }]);
}

#[test]
fn rendering_shows_the_buffer() {
    let mut screen = ScreenBuffer::blank(Coord2 { y: 3, x: 4 });
    // A terminal that shows what the buffer last rendered: blank tiles.
    let mut shown: Vec<(String, Color2)> = vec![(String::from(" "), Color2::default()); 12];
    screen.styled_text(&TermString::new("ab cd").unwrap(), Style::default().align(1, 2));
    screen.update(Coord2 { y: 2, x: 3 }, |tile: &mut Tile| {
        Background { color: BasicColor::DarkGreen.into() }.update(tile)
    });
    let mut cursor = Coord2 { y: 0, x: 0 };
    let mut colors = Color2::default();
    for op in screen.render_ops() {
        match op {
            RenderOp::MoveTo(point) => cursor = point,
            RenderOp::Background(color) => colors.background = color,
            RenderOp::Foreground(color) => colors.foreground = color,
            RenderOp::Print(grapheme) => {
                let index = usize::from(cursor.y) * 4 + usize::from(cursor.x);
                shown[index] = (String::from(grapheme.as_str()), colors);
                cursor.x += 1;
            },
        }
    }
    for y in 0 .. 3 {
        for x in 0 .. 4 {
            let tile = screen.get(Coord2 { y, x });
            let index = usize::from(y) * 4 + usize::from(x);
            assert_eq!(shown[index], (String::from(tile.grapheme.as_str()), tile.colors));
        }
    }
    assert_eq!(row(&screen, 0), "ab  ");
    assert_eq!(row(&screen, 1), " cd ");
}

#[test]
fn styled_text_starts_after_the_left_margin() {
    let mut screen = ScreenBuffer::blank(Coord2 { y: 25, x: 80 });
    let text = TermString::new("hi").unwrap();
    assert_eq!(screen.styled_text(&text, Style::default().left_margin(5)), 1);
    assert_eq!(screen.get(Coord2 { y: 0, x: 5 }).grapheme.as_str(), "h");
    assert_eq!(screen.get(Coord2 { y: 0, x: 6 }).grapheme.as_str(), "i");
    // Centered between a left margin of 4 and a right margin of 2: the line
    // leaves 72 of the 74 columns, half of which come before it.
    let mut screen = ScreenBuffer::blank(Coord2 { y: 1, x: 80 });
    screen.styled_text(&text, Style::default().left_margin(4).right_margin(2).align(1, 2));
    assert_eq!(screen.get(Coord2 { y: 0, x: 40 }).grapheme.as_str(), "h");
    // Aligned to the right, the line ends at the right margin.
    let mut screen = ScreenBuffer::blank(Coord2 { y: 1, x: 10 });
    screen.styled_text(&text, Style::default().right_margin(3).align(1, 1));
    assert_eq!(row(&screen, 0), "     hi   ");
}

#[test]
fn size_counts_rows_of_tiles() {
    assert_eq!(ScreenBuffer::blank(Coord2 { y: 25, x: 80 }).size(), Coord2 { y: 25, x: 80 });
    assert_eq!(ScreenBuffer::blank(Coord2 { y: 7, x: 0 }).size(), Coord2 { y: 0, x: 0 });
    let mut screen = ScreenBuffer::blank(Coord2 { y: 2, x: 3 });
    screen.resize(Coord2 { y: 4, x: 5 });
    assert_eq!(screen.size(), Coord2 { y: 4, x: 5 });
}
