//! A dialog asking the user for a line of input, possibly filtered, and the
//! selection logic of its input box and options.

use crate::color::{BasicColor, Color, Color2};
use crate::coord::{Coord, Coord2};
use crate::event::{Event, Key, KeyEvent, ResizeEvent};
use crate::string::{
    char_is_diacritic, grapheme_clusters, is_diacritic, lemma_flatten_len, lossy_chars, push_char,
    split_graphemes,
    TermString,
};
use crate::ui::{is_plain_key, plain_key, Reaction};
use vstd::prelude::*;

verus! {

/// An option of the input dialog, below its box.
#[derive(Debug, Clone, Copy, PartialEq, Eq, Structural)]
pub enum InputDialogItem {
    /// Confirms the input.
    Confirm,
    /// Cancels the input.
    Cancel,
}

/// A dialog asking for user input, possibly filtered.
pub struct InputDialog<F> where F: FnMut(char) -> bool {
    /// Filter of the valid characters for the input dialog's box.
    pub filter: F,
    /// The title of the input dialog.
    pub title: TermString,
    /// Initial buffer of the input dialog.
    pub buffer: String,
    /// Maximum size of the input box.
    pub max: Coord,
    /// Colors of the title.
    pub title_colors: Color2,
    /// Selected option colors.
    pub selected_colors: Color2,
    /// Unselected option colors.
    pub unselected_colors: Color2,
    /// Input box's cursor colors.
    pub cursor_colors: Color2,
    /// Input box colors.
    pub box_colors: Color2,
    /// Background of non-text areas.
    pub bg: Color,
    /// Position of the title.
    pub title_y: Coord,
    /// Padding lines inserted after the title.
    pub pad_after_title: Coord,
    /// Padding lines inserted after the box.
    pub pad_after_box: Coord,
    /// Padding lines inserted after the OK option.
    pub pad_after_ok: Coord,
}

impl<F> InputDialog<F> where F: FnMut(char) -> bool {
    /// Creates a new input dialog, with the given title, initial buffer,
    /// maximum input size, and filter function: the default colors, inverted
    /// for the selected option and the box, over black; the title on the
    /// second line, two lines after the title and after the box, one after
    /// the OK option.
    pub fn new(title: TermString, buffer: String, max: Coord, filter: F) -> (r: Self)
        ensures
            r.title@ == title@,
            r.buffer@ == buffer@,
            r.max == max,
            r.filter == filter,
            r.title_colors == Color2::default_pair(),
            r.selected_colors == Color2::default_pair().inverted(),
            r.unselected_colors == Color2::default_pair(),
            r.cursor_colors == Color2::default_pair(),
            r.box_colors == Color2::default_pair().inverted(),
            r.bg == Color::Basic(BasicColor::Black),
            r.title_y == 1,
            r.pad_after_title == 2,
            r.pad_after_box == 2,
            r.pad_after_ok == 1,
    {
        Self {
            title,
            buffer,
            filter,
            max,
            title_colors: Color2::default(),
            selected_colors: Color2::default().invert(),
            unselected_colors: Color2::default(),
            cursor_colors: Color2::default(),
            box_colors: Color2::default().invert(),
            bg: Color::Basic(BasicColor::Black),
            title_y: 1,
            pad_after_title: 2,
            pad_after_box: 2,
            pad_after_ok: 1,
        }
    }
}

/// The characters of a string, one by one.
fn chars_of(s: &String) -> (r: Vec<char>)
    ensures
        r@ == s@,
{
    let text = s.as_str();
    let len = text.unicode_len();
    let mut chars: Vec<char> = Vec::new();
    let mut i: usize = 0;
    while i < len
        invariant
            len == text@.len(),
            text@ == s@,
            i <= len,
            chars@ == text@.take(i as int),
        decreases len - i,
    {
        chars.push(text.get_char(i));
        i = i + 1;
        assert(chars@ =~= text@.take(i as int));
    }
    assert(text@.take(len as int) =~= text@);
    chars
}

/// The string of the given characters.
fn string_of(chars: &Vec<char>) -> (r: String)
    ensures
        r@ == chars@,
{
    let mut s = String::new();
    let mut i: usize = 0;
    while i < chars.len()
        invariant
            i <= chars@.len(),
            s@ == chars@.take(i as int),
        decreases chars@.len() - i,
    {
        push_char(&mut s, chars[i]);
        i = i + 1;
        assert(s@ =~= chars@.take(i as int));
    }
    assert(chars@.take(chars@.len() as int) =~= chars@);
    s
}

/// A copy of the given characters.
fn copy_chars(chars: &Vec<char>) -> (r: Vec<char>)
    ensures
        r@ == chars@,
{
    let mut copy: Vec<char> = Vec::new();
    let mut i: usize = 0;
    while i < chars.len()
        invariant
            i <= chars@.len(),
            copy@ == chars@.take(i as int),
        decreases chars@.len() - i,
    {
        copy.push(chars[i]);
        i = i + 1;
        assert(copy@ =~= chars@.take(i as int));
    }
    assert(chars@.take(chars@.len() as int) =~= chars@);
    copy
}

/// The smaller of two coordinates.
pub open spec fn min_coord(a: Coord, b: Coord) -> Coord {
    if a <= b {
        a
    } else {
        b
    }
}

/// Whether typing the character appends it to the buffer: the filter
/// accepts it, it is no diacritic, and the buffer with the character at its
/// end has at most as many grapheme clusters as the box holds (counted as a
/// coordinate).
pub open spec fn accepts_char(buffer: Seq<char>, actual_max: Coord, ch: char, accepted: bool) -> bool {
    &&& accepted
    &&& !is_diacritic(ch)
    &&& (grapheme_clusters(buffer.push(ch)).len() as Coord) <= actual_max
}

/// The characters the input box shows: the buffer, then spaces up to the
/// size of the box.
pub open spec fn field_chars(buffer: Seq<char>, actual_max: int) -> Seq<char> {
    buffer + Seq::new((actual_max - buffer.len()) as nat, |i: int| ' ')
}

/// The characters of the line below the input box: `length + 1` columns,
/// with a mark below the cursor.
pub open spec fn cursor_chars(length: int, cursor: int) -> Seq<char> {
    Seq::new(
        (length + 1) as nat,
        |i: int|
            if i == cursor {
                '\u{af}'
            } else {
                ' '
            },
    )
}

/// The selection state of an input dialog.
#[derive(Debug)]
pub struct Selector {
    /// Maximum size of the input box, as the dialog sets it.
    pub max: Coord,
    /// Position of the title.
    pub title_y: Coord,
    /// Padding lines inserted after the title.
    pub pad_after_title: Coord,
    /// Padding lines inserted after the box.
    pub pad_after_box: Coord,
    /// Padding lines inserted after the OK option.
    pub pad_after_ok: Coord,
    /// The dialog's initial buffer.
    pub initial: Vec<char>,
    /// The characters typed so far.
    pub buffer: Vec<char>,
    /// Position of the cursor in the buffer.
    pub cursor: usize,
    /// The option currently selected.
    pub selected: InputDialogItem,
    /// Whether the cancel option is shown.
    pub has_cancel: bool,
    /// Size of the box: the maximum, capped at the screen's width.
    pub actual_max: Coord,
    /// Whether the screen has a valid size.
    pub valid_size: bool,
}

impl Selector {
    /// The cursor stands within the buffer or right after it.
    pub open spec fn wf(&self) -> bool {
        self.cursor <= self.buffer@.len()
    }

    /// The two states have the same dialog settings.
    pub open spec fn same_settings(&self, next: &Self) -> bool {
        &&& next.max == self.max
        &&& next.title_y == self.title_y
        &&& next.pad_after_title == self.pad_after_title
        &&& next.pad_after_box == self.pad_after_box
        &&& next.pad_after_ok == self.pad_after_ok
        &&& next.initial@ == self.initial@
        &&& next.has_cancel == self.has_cancel
    }

    /// The two states agree but for the cursor and the buffer.
    pub open spec fn same_but_text(&self, next: &Self) -> bool {
        &&& self.same_settings(next)
        &&& next.selected == self.selected
        &&& next.actual_max == self.actual_max
        &&& next.valid_size == self.valid_size
    }

    /// The two states are the same.
    pub open spec fn same_state(&self, next: &Self) -> bool {
        &&& self.same_but_text(next)
        &&& next.cursor == self.cursor
        &&& next.buffer@ == self.buffer@
    }

    /// `next` is this state after the LEFT key: the cursor moves one
    /// character back, where it can.
    pub open spec fn moved_left(&self, next: &Self, render: bool) -> bool {
        &&& self.same_but_text(next)
        &&& next.buffer@ == self.buffer@
        &&& render == (self.cursor > 0)
        &&& next.cursor == (if self.cursor > 0 {
            self.cursor - 1
        } else {
            self.cursor as int
        })
    }

    /// `next` is this state after the RIGHT key: the cursor moves one
    /// character forward, where it can.
    pub open spec fn moved_right(&self, next: &Self, render: bool) -> bool {
        &&& self.same_but_text(next)
        &&& next.buffer@ == self.buffer@
        &&& render == (self.cursor < self.buffer@.len())
        &&& next.cursor == (if self.cursor < self.buffer@.len() {
            self.cursor + 1
        } else {
            self.cursor as int
        })
    }

    /// `next` is this state after a key that selects the given option: it is
    /// selected where the cancel option is shown.
    pub open spec fn moved_to(&self, next: &Self, item: InputDialogItem, render: bool) -> bool {
        &&& self.same_settings(next)
        &&& next.cursor == self.cursor
        &&& next.buffer@ == self.buffer@
        &&& next.actual_max == self.actual_max
        &&& next.valid_size == self.valid_size
        &&& render == self.has_cancel
        &&& next.selected == (if self.has_cancel {
            item
        } else {
            self.selected
        })
    }

    /// `next` is this state after BACKSPACE: the character before the cursor
    /// is removed, where there is one.
    pub open spec fn erased(&self, next: &Self, render: bool) -> bool {
        &&& self.same_but_text(next)
        &&& render == (self.cursor > 0)
        &&& if self.cursor > 0 {
            &&& next.cursor == self.cursor - 1
            &&& next.buffer@ == self.buffer@.remove(self.cursor - 1)
        } else {
            &&& next.cursor == self.cursor
            &&& next.buffer@ == self.buffer@
        }
    }

    /// `next` is this state after the character is typed, where `accepted`
    /// is the filter's answer: it is inserted at the cursor where it is
    /// accepted.
    pub open spec fn typed(&self, next: &Self, ch: char, accepted: bool, render: bool) -> bool {
        &&& self.same_but_text(next)
        &&& render == accepts_char(self.buffer@, self.actual_max, ch, accepted)
        &&& if accepts_char(self.buffer@, self.actual_max, ch, accepted) {
            &&& next.cursor == self.cursor + 1
            &&& next.buffer@ == self.buffer@.insert(self.cursor as int, ch)
        } else {
            &&& next.cursor == self.cursor
            &&& next.buffer@ == self.buffer@
        }
    }

    /// `next` is this state with the box fitted to a screen of the given
    /// size: the box is as large as the maximum allows within the width, the
    /// cursor is kept within the box and the buffer is cut to its size.
    pub open spec fn fitted(&self, next: &Self, screen_size: Coord2) -> bool {
        let actual_max = min_coord(self.max, screen_size.x);
        let max_index: int = if actual_max == 0 {
            0
        } else {
            actual_max - 1
        };
        &&& self.same_settings(next)
        &&& next.selected == self.selected
        &&& next.actual_max == actual_max
        &&& next.cursor == (if self.cursor <= max_index {
            self.cursor as int
        } else {
            max_index
        })
        &&& next.buffer@ == (if actual_max <= self.buffer@.len() {
            self.buffer@.take(actual_max as int)
        } else {
            self.buffer@
        })
    }

    /// `next` is this state after the screen is resized: a valid size fits
    /// the box to it; the size's validity is recorded.
    pub open spec fn resized_to(&self, next: &Self, evt: ResizeEvent, render: bool) -> bool {
        &&& render == evt.size is Some
        &&& next.valid_size == evt.size is Some
        &&& match evt.size {
            Some(size) => self.fitted(next, size),
            None => {
                &&& self.same_settings(next)
                &&& next.selected == self.selected
                &&& next.actual_max == self.actual_max
                &&& next.cursor == self.cursor
                &&& next.buffer@ == self.buffer@
            },
        }
    }

    /// A selection over the given dialog, with the cursor at the given
    /// position and the given option selected.
    pub fn new<F>(dialog: &InputDialog<F>, cursor: usize, selected: InputDialogItem, has_cancel: bool) -> (r: Self) where
        F: FnMut(char) -> bool,

        ensures
            r.max == dialog.max,
            r.title_y == dialog.title_y,
            r.pad_after_title == dialog.pad_after_title,
            r.pad_after_box == dialog.pad_after_box,
            r.pad_after_ok == dialog.pad_after_ok,
            r.initial@ == dialog.buffer@,
            r.buffer@ == dialog.buffer@,
            r.cursor == cursor,
            r.selected == selected,
            r.has_cancel == has_cancel,
            r.actual_max == 0,
            r.valid_size,
    {
        let initial = chars_of(&dialog.buffer);
        let buffer = copy_chars(&initial);
        Self {
            max: dialog.max,
            title_y: dialog.title_y,
            pad_after_title: dialog.pad_after_title,
            pad_after_box: dialog.pad_after_box,
            pad_after_ok: dialog.pad_after_ok,
            initial,
            buffer,
            cursor,
            selected,
            has_cancel,
            actual_max: 0,
            valid_size: true,
        }
    }

    /// A selection without the cancel option.
    pub fn without_cancel<F>(dialog: &InputDialog<F>, cursor: usize) -> (r: Self) where
        F: FnMut(char) -> bool,

        ensures
            r.max == dialog.max,
            r.title_y == dialog.title_y,
            r.pad_after_title == dialog.pad_after_title,
            r.pad_after_box == dialog.pad_after_box,
            r.pad_after_ok == dialog.pad_after_ok,
            r.initial@ == dialog.buffer@,
            r.buffer@ == dialog.buffer@,
            r.cursor == cursor,
            r.selected == InputDialogItem::Confirm,
            !r.has_cancel,
            r.actual_max == 0,
            r.valid_size,
    {
        Self::new(dialog, cursor, InputDialogItem::Confirm, false)
    }

    /// A selection with the cancel option.
    pub fn with_cancel<F>(dialog: &InputDialog<F>, cursor: usize, selected: InputDialogItem) -> (r: Self) where
        F: FnMut(char) -> bool,

        ensures
            r.max == dialog.max,
            r.title_y == dialog.title_y,
            r.pad_after_title == dialog.pad_after_title,
            r.pad_after_box == dialog.pad_after_box,
            r.pad_after_ok == dialog.pad_after_ok,
            r.initial@ == dialog.buffer@,
            r.buffer@ == dialog.buffer@,
            r.cursor == cursor,
            r.selected == selected,
            r.has_cancel,
            r.actual_max == 0,
            r.valid_size,
    {
        Self::new(dialog, cursor, selected, true)
    }

    /// Takes the typed text out of the selection, as a terminal string in
    /// which invalid characters are replaced.
    pub fn result(&mut self) -> (r: TermString)
        ensures
            r@ == grapheme_clusters(lossy_chars(old(self).buffer@)),
            old(self).same_but_text(final(self)),
            final(self).cursor == old(self).cursor,
            final(self).buffer@ == Seq::<char>::empty(),
    {
        let mut buffer: Vec<char> = Vec::new();
        core::mem::swap(&mut self.buffer, &mut buffer);
        let text = string_of(&buffer);
        TermString::new_lossy(text.as_str())
    }

    /// The typed text, unless the cancel option is selected.
    pub fn result_with_cancel(&mut self) -> (r: Option<TermString>)
        ensures
            old(self).selected == InputDialogItem::Cancel ==> r is None && old(self).same_state(
                final(self),
            ),
            old(self).selected == InputDialogItem::Confirm ==> {
                &&& r matches Some(text) && text@ == grapheme_clusters(lossy_chars(old(self).buffer@))
                &&& old(self).same_but_text(final(self))
                &&& final(self).cursor == old(self).cursor
                &&& final(self).buffer@ == Seq::<char>::empty()
            },
    {
        match self.selected {
            InputDialogItem::Confirm => Some(self.result()),
            InputDialogItem::Cancel => None,
        }
    }

    /// Fits the box to a screen of the given size.
    pub fn update_actual_max(&mut self, screen_size: Coord2)
        requires
            old(self).wf(),
        ensures
            final(self).wf(),
            old(self).fitted(final(self), screen_size),
            final(self).valid_size == old(self).valid_size,
    {
        self.actual_max = if self.max <= screen_size.x {
            self.max
        } else {
            screen_size.x
        };
        let max_index: usize = if self.actual_max == 0 {
            0
        } else {
            (self.actual_max - 1) as usize
        };
        if self.cursor > max_index {
            self.cursor = max_index;
        }
        self.buffer.truncate(self.actual_max as usize);
    }

    /// Starts a selection run on a screen of the given size: the confirm
    /// option is selected, the buffer is the dialog's initial one with the
    /// cursor at its start, and the box fits the screen.
    pub fn reset(&mut self, screen_size: Coord2)
        ensures
            final(self).wf(),
            old(self).same_settings(final(self)),
            final(self).valid_size == old(self).valid_size,
            (Selector {
                selected: InputDialogItem::Confirm,
                cursor: 0,
                buffer: old(self).initial,
                ..*old(self)
            }).fitted(final(self), screen_size),
    {
        self.selected = InputDialogItem::Confirm;
        self.buffer = copy_chars(&self.initial);
        self.cursor = 0;
        self.update_actual_max(screen_size);
    }

    /// Should be triggered when UP key is pressed: selects the confirm
    /// option where the cancel option is shown. Returns whether the options
    /// must be rendered again.
    pub fn key_up(&mut self) -> (render: bool)
        requires
            old(self).wf(),
        ensures
            final(self).wf(),
            old(self).moved_to(final(self), InputDialogItem::Confirm, render),
    {
        if self.has_cancel {
            self.selected = InputDialogItem::Confirm;
            true
        } else {
            false
        }
    }

    /// Should be triggered when DOWN key is pressed: selects the cancel
    /// option where it is shown. Returns whether the options must be
    /// rendered again.
    pub fn key_down(&mut self) -> (render: bool)
        requires
            old(self).wf(),
        ensures
            final(self).wf(),
            old(self).moved_to(final(self), InputDialogItem::Cancel, render),
    {
        if self.has_cancel {
            self.selected = InputDialogItem::Cancel;
            true
        } else {
            false
        }
    }

    /// Should be triggered when LEFT key is pressed. Returns whether the box
    /// must be rendered again.
    pub fn key_left(&mut self) -> (render: bool)
        requires
            old(self).wf(),
        ensures
            final(self).wf(),
            old(self).moved_left(final(self), render),
    {
        if self.cursor > 0 {
            self.cursor -= 1;
            true
        } else {
            false
        }
    }

    /// Should be triggered when RIGHT key is pressed. Returns whether the box
    /// must be rendered again.
    pub fn key_right(&mut self) -> (render: bool)
        requires
            old(self).wf(),
        ensures
            final(self).wf(),
            old(self).moved_right(final(self), render),
    {
        if self.cursor < self.buffer.len() {
            self.cursor += 1;
            true
        } else {
            false
        }
    }

    /// Should be triggered when BACKSPACE key is pressed. Returns whether the
    /// box must be rendered again.
    pub fn key_backspace(&mut self) -> (render: bool)
        requires
            old(self).wf(),
        ensures
            final(self).wf(),
            old(self).erased(final(self), render),
    {
        if self.cursor > 0 {
            self.cursor -= 1;
            self.buffer.remove(self.cursor);
            true
        } else {
            false
        }
    }

    /// Should be triggered when a character is typed, with the filter's
    /// answer for it. Returns whether the box must be rendered again.
    pub fn key_char(&mut self, ch: char, accepted: bool) -> (render: bool)
        requires
            old(self).wf(),
        ensures
            final(self).wf(),
            old(self).typed(final(self), ch, accepted, render),
    {
        if accepted && !char_is_diacritic(ch) {
            let mut joined = string_of(&self.buffer);
            push_char(&mut joined, ch);
            let clusters = split_graphemes(joined.as_str());
            proof {
                assert(clusters@.map_values(|g: String| g@).len() == clusters@.len());
            }
            let length = clusters.len() as Coord;
            if length <= self.actual_max {
                self.buffer.insert(self.cursor, ch);
                proof {
                    assert(self.buffer@.len() == self.buffer.len());
                }
                self.cursor += 1;
                return true;
            }
        }
        false
    }

    /// Should be triggered when the screen is resized: a valid size fits the
    /// box to it. Returns whether the dialog must be rendered again.
    pub fn resized(&mut self, evt: ResizeEvent) -> (render: bool)
        requires
            old(self).wf(),
        ensures
            final(self).wf(),
            old(self).resized_to(final(self), evt, render),
    {
        self.valid_size = match evt.size {
            Some(size) => {
                self.update_actual_max(size);
                true
            },
            None => false,
        };
        self.valid_size
    }
}

/// The character typed by the event, if it is a character key pressed with
/// no modifier.
pub open spec fn typed_char(event: Option<Event>) -> Option<char> {
    match event {
        Some(Event::Key(k)) => if !k.ctrl && !k.alt && !k.shift {
            match k.main_key {
                Key::Char(c) => Some(c),
                _ => None,
            }
        } else {
            None
        },
        _ => None,
    }
}

/// The reaction where the state's update tells whether to render.
pub open spec fn render_or_idle(r: Reaction, render: bool) -> bool {
    r == (if render {
        Reaction::Render
    } else {
        Reaction::Idle
    })
}

impl Selector {
    /// Reacts to an event of the selection loop, where `accepted` is the
    /// filter's answer for a typed character. With a valid screen size, ESC
    /// cancels where the cancel option is shown, ENTER ends the selection,
    /// the arrows move the cursor or the selected option, BACKSPACE erases
    /// and a character is typed; a resize fits the box to the screen;
    /// anything else is ignored.
    pub fn react(&mut self, event: Option<Event>, accepted: bool) -> (r: Reaction)
        requires
            old(self).wf(),
        ensures
            final(self).wf(),
            old(self).valid_size && is_plain_key(event, Key::Esc) && old(self).has_cancel ==> r
                == Reaction::Exit && old(self).same_but_text(&Selector { selected: old(self).selected, ..*final(self) })
                && final(self).selected == InputDialogItem::Cancel && final(self).cursor == old(self).cursor
                && final(self).buffer@ == old(self).buffer@,
            old(self).valid_size && is_plain_key(event, Key::Enter) ==> r == Reaction::Exit
                && old(self).same_state(final(self)),
            old(self).valid_size && is_plain_key(event, Key::Left) ==> old(self).moved_left(
                final(self),
                r == Reaction::Render,
            ) && render_or_idle(r, old(self).cursor > 0),
            old(self).valid_size && is_plain_key(event, Key::Right) ==> old(self).moved_right(
                final(self),
                r == Reaction::Render,
            ) && render_or_idle(r, old(self).cursor < old(self).buffer@.len()),
            old(self).valid_size && is_plain_key(event, Key::Up) ==> old(self).moved_to(
                final(self),
                InputDialogItem::Confirm,
                r == Reaction::Render,
            ) && render_or_idle(r, old(self).has_cancel),
            old(self).valid_size && is_plain_key(event, Key::Down) ==> old(self).moved_to(
                final(self),
                InputDialogItem::Cancel,
                r == Reaction::Render,
            ) && render_or_idle(r, old(self).has_cancel),
            old(self).valid_size && is_plain_key(event, Key::Backspace) ==> old(self).erased(
                final(self),
                r == Reaction::Render,
            ) && render_or_idle(r, old(self).cursor > 0),
            old(self).valid_size && typed_char(event) is Some ==> old(self).typed(
                final(self),
                typed_char(event).unwrap(),
                accepted,
                r == Reaction::Render,
            ) && render_or_idle(
                r,
                accepts_char(
                    old(self).buffer@,
                    old(self).actual_max,
                    typed_char(event).unwrap(),
                    accepted,
                ),
            ),
            event matches Some(Event::Resize(evt)) ==> old(self).resized_to(
                final(self),
                evt,
                r == Reaction::Render,
            ) && render_or_idle(r, evt.size is Some),
            !(event matches Some(Event::Resize(_))) && !(old(self).valid_size && (
            (is_plain_key(event, Key::Esc) && old(self).has_cancel) || is_plain_key(event, Key::Enter)
                || is_plain_key(event, Key::Left) || is_plain_key(event, Key::Right) || is_plain_key(
                event,
                Key::Up,
            ) || is_plain_key(event, Key::Down) || is_plain_key(event, Key::Backspace)
                || typed_char(event) is Some)) ==> r == Reaction::Idle && old(self).same_state(
                final(self),
            ),
    {
        if let Some(Event::Resize(evt)) = event {
            return if self.resized(evt) {
                Reaction::Render
            } else {
                Reaction::Idle
            };
        }
        if !self.valid_size {
            return Reaction::Idle;
        }
        if plain_key(&event, Key::Esc) && self.has_cancel {
            self.selected = InputDialogItem::Cancel;
            return Reaction::Exit;
        }
        if plain_key(&event, Key::Enter) {
            return Reaction::Exit;
        }
        let render = if plain_key(&event, Key::Left) {
            self.key_left()
        } else if plain_key(&event, Key::Right) {
            self.key_right()
        } else if plain_key(&event, Key::Up) {
            self.key_up()
        } else if plain_key(&event, Key::Down) {
            self.key_down()
        } else if plain_key(&event, Key::Backspace) {
            self.key_backspace()
        } else {
            match event {
                Some(Event::Key(KeyEvent { main_key: Key::Char(ch), ctrl: false, alt: false, shift: false })) => {
                    self.key_char(ch, accepted)
                },
                _ => false,
            }
        };
        if render {
            Reaction::Render
        } else {
            Reaction::Idle
        }
    }

    /// The line of the input box.
    pub fn y_of_box(&self) -> (r: Coord)
        requires
            self.title_y + 1 + self.pad_after_title <= Coord::MAX,
        ensures
            r == self.title_y + 1 + self.pad_after_title,
    {
        self.title_y + 1 + self.pad_after_title
    }

    /// The line of the confirm option.
    pub fn y_of_ok(&self) -> (r: Coord)
        requires
            self.title_y + 1 + self.pad_after_title + 2 + self.pad_after_box <= Coord::MAX,
        ensures
            r == self.title_y + 1 + self.pad_after_title + 2 + self.pad_after_box,
    {
        self.y_of_box() + 2 + self.pad_after_box
    }

    /// The line of the cancel option.
    pub fn y_of_cancel(&self) -> (r: Coord)
        requires
            self.title_y + 1 + self.pad_after_title + 2 + self.pad_after_box + 1
                + self.pad_after_ok <= Coord::MAX,
        ensures
            r == self.title_y + 1 + self.pad_after_title + 2 + self.pad_after_box + 1
                + self.pad_after_ok,
    {
        self.y_of_ok() + 1 + self.pad_after_ok
    }

    /// The texts of the input box on a screen of the given width: the buffer
    /// padded with spaces to the size of the box, and the line below it, as
    /// long as the box's grapheme clusters, less one where the parities of
    /// the maximum and of the width are the same, plus one, marking the
    /// cursor's column.
    pub fn input_box(&self, width: Coord) -> (r: (String, String))
        requires
            self.buffer@.len() <= self.actual_max,
            self.actual_max > 0 || (self.max % 2 + width % 2 + 1) % 2 == 0,
        ensures
            r.0@ == field_chars(self.buffer@, self.actual_max as int),
            r.1@ == cursor_chars(
                grapheme_clusters(r.0@).len() - (self.max % 2 + width % 2 + 1) % 2,
                self.cursor as int,
            ),
    {
        let mut field = string_of(&self.buffer);
        let additional = self.actual_max as usize - self.buffer.len();
        let mut i: usize = 0;
        while i < additional
            invariant
                i <= additional,
                additional == self.actual_max - self.buffer@.len(),
                field@ == self.buffer@ + Seq::new(i as nat, |j: int| ' '),
            decreases additional - i,
        {
            push_char(&mut field, ' ');
            i = i + 1;
            assert(field@ =~= self.buffer@ + Seq::new(i as nat, |j: int| ' '));
        }
        let correction = (self.max % 2 + width % 2 + 1) as usize;
        let clusters = split_graphemes(field.as_str());
        proof {
            assert(clusters@.map_values(|g: String| g@).len() == clusters@.len());
            let parts = clusters@.map_values(|g: String| g@);
            assert forall|i: int| 0 <= i < parts.len() implies (#[trigger] parts[i]).len() > 0 by {
                assert(clusters@[i]@.len() > 0);
            }
            lemma_flatten_len(parts);
        }
        let length = clusters.len() - correction % 2;
        let mut line = String::new();
        let mut k: usize = 0;
        while k < length + 1
            invariant
                k <= length + 1,
                length < usize::MAX,
                line@ == cursor_chars(length as int, self.cursor as int).take(k as int),
            decreases length + 1 - k,
        {
            if k == self.cursor {
                push_char(&mut line, '\u{af}');
            } else {
                push_char(&mut line, ' ');
            }
            k = k + 1;
            assert(line@ =~= cursor_chars(length as int, self.cursor as int).take(k as int));
        }
        assert(line@ =~= cursor_chars(length as int, self.cursor as int));
        (field, line)
    }
}

/// Erasing right after typing a character gives back the text and the
/// cursor before it.
pub proof fn lemma_backspace_undoes_typing(
    before: Selector,
    typed: Selector,
    erased: Selector,
    ch: char,
)
    requires
        before.wf(),
        before.typed(&typed, ch, true, true),
        typed.erased(&erased, true),
    ensures
        before.same_state(&erased),
{
    assert(typed.buffer@.remove(typed.cursor - 1) =~= before.buffer@);
}

/// Moving left and then right gives back the cursor, where the cursor could
/// move left.
pub proof fn lemma_right_undoes_left(before: Selector, left: Selector, right: Selector, render: bool)
    requires
        before.wf(),
        before.moved_left(&left, true),
        left.moved_right(&right, render),
    ensures
        render,
        before.same_state(&right),
{
}

/// Fitting the box to a screen leaves the buffer within the box and the
/// cursor within the buffer.
pub proof fn lemma_fitted_box_holds_buffer(before: Selector, after: Selector, screen_size: Coord2)
    requires
        before.wf(),
        before.fitted(&after, screen_size),
    ensures
        after.wf(),
        after.buffer@.len() <= after.actual_max,
{
}

} // verus!
