//! An information dialog: shows a message until the user dismisses it.

use crate::color::{BasicColor, Color, Color2};
use crate::coord::Coord;
use crate::event::{Event, Key};
use crate::string::{flatten, grapheme_clusters, lossy_chars, push_char, TermString};
use crate::style::Style;
use crate::ui::{is_plain_key, plain_key, Reaction};
use vstd::prelude::*;

verus! {

/// An info dialog, with just an OK option.
#[derive(Debug, Clone)]
pub struct InfoDialog {
    /// Title to be shown.
    pub title: TermString,
    /// Long text message to be shown.
    pub message: TermString,
    /// Label showed by the "OK" button (default "OK").
    pub ok_label: TermString,
    /// Settings such as margin and alignment.
    pub style: Style,
    /// Colors shown with the title.
    pub title_colors: Color2,
    /// Colors shown with the selected option.
    pub selected_colors: Color2,
    /// Position of the title in height.
    pub title_y: Coord,
    /// Color of the background.
    pub bg: Color,
}

/// The characters of the text of the OK button for the given label.
pub open spec fn ok_button_chars(label: Seq<Seq<char>>) -> Seq<char> {
    seq!['>', ' '] + flatten(label) + seq![' ', '<']
}

impl InfoDialog {
    /// Creates a dialog with default style settings: the message centered
    /// below a margin of four lines and above one of two, the title on the
    /// second line, the default colors (inverted for the button) over black.
    pub fn new(title: TermString, message: TermString) -> (r: Self)
        ensures
            r.title@ == title@,
            r.message@ == message@,
            r.ok_label@ == grapheme_clusters(lossy_chars(seq!['O', 'K'])),
            r.style == (Style {
                align_numer: 1,
                align_denom: 2,
                top_margin: 4,
                bottom_margin: 2,
                ..Style::<Color2>::plain(Color2::default_pair())
            }),
            r.title_colors == Color2::default_pair(),
            r.selected_colors == Color2::default_pair().inverted(),
            r.title_y == 1,
            r.bg == Color::Basic(BasicColor::Black),
    {
        let label = "OK";
        proof {
            reveal_strlit("OK");
            assert(label@ =~= seq!['O', 'K']);
        }
        Self {
            title,
            message,
            ok_label: TermString::new_lossy(label),
            style: Style::default().align(1, 2).colors(Color2::default()).top_margin(4).bottom_margin(
                2,
            ),
            title_colors: Color2::default(),
            selected_colors: Color2::default().invert(),
            title_y: 1,
            bg: Color::Basic(BasicColor::Black),
        }
    }

    /// The style of the title: centered, in the title's colors, on the
    /// title's line.
    pub fn title_style(&self) -> (r: Style)
        ensures
            r == (Style {
                align_numer: 1,
                align_denom: 2,
                top_margin: self.title_y,
                ..Style::<Color2>::plain(self.title_colors)
            }),
    {
        Style::default().align(1, 2).colors(self.title_colors).top_margin(self.title_y)
    }

    /// The style of the OK button: centered, in the selected colors, two
    /// lines below the line after the message.
    pub fn ok_style(&self, pos: Coord) -> (r: Style)
        requires
            pos + 2 <= Coord::MAX,
        ensures
            r == (Style {
                align_numer: 1,
                align_denom: 2,
                top_margin: (pos + 2) as Coord,
                ..Style::<Color2>::plain(self.selected_colors)
            }),
    {
        Style::default().align(1, 2).colors(self.selected_colors).top_margin(pos + 2)
    }

    /// The text of the OK button: the label between `"> "` and `" <"`.
    pub fn ok_text(&self) -> (r: TermString)
        ensures
            r@ == grapheme_clusters(lossy_chars(ok_button_chars(self.ok_label@))),
    {
        let label = self.ok_label.to_plain_string();
        let mut text = String::new();
        push_char(&mut text, '>');
        push_char(&mut text, ' ');
        text.append(label.as_str());
        push_char(&mut text, ' ');
        push_char(&mut text, '<');
        assert(text@ =~= ok_button_chars(self.ok_label@));
        TermString::new_lossy(text.as_str())
    }

    /// Reacts to an event while the dialog is shown: ENTER or ESC dismiss it
    /// where the screen has a valid size, and a resize to a valid size asks
    /// for it to be rendered again.
    pub fn react(&self, event: Option<Event>, valid_size: bool) -> (r: Reaction)
        ensures
            r == (if (is_plain_key(event, Key::Enter) || is_plain_key(event, Key::Esc))
                && valid_size {
                Reaction::Exit
            } else if event matches Some(Event::Resize(evt)) && evt.size is Some {
                Reaction::Render
            } else {
                Reaction::Idle
            }),
    {
        if (plain_key(&event, Key::Enter) || plain_key(&event, Key::Esc)) && valid_size {
            Reaction::Exit
        } else {
            match event {
                Some(Event::Resize(evt)) => if evt.size.is_some() {
                    Reaction::Render
                } else {
                    Reaction::Idle
                },
                _ => Reaction::Idle,
            }
        }
    }
}

} // verus!
