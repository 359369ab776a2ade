//! Menus of the UI: a list of options and possibly a cancel option, and the
//! selection logic that moves through them.

use crate::color::{BasicColor, Color, Color2};
use crate::coord::{Coord, Coord2};
use crate::event::{Event, Key, KeyEvent, ResizeEvent};
use crate::string::{grapheme_clusters, lossy_chars, TermGrapheme, TermString};
use crate::ui::{is_plain_key, plain_key, Reaction};
use core::ops::Range;
use vstd::prelude::*;

verus! {

/// A trait representing a menu option.
pub trait MenuOption {
    /// Returns the display name of this option.
    fn name(&self) -> TermString;
}

impl MenuOption for TermString {
    /// The string itself.
    fn name(&self) -> (r: TermString)
        ensures
            r@ == self@,
    {
        self.clone()
    }
}

/// A menu, with a list of options and potentially a cancel option.
#[derive(Debug)]
pub struct Menu<O> where O: MenuOption {
    /// The title shown above the menu.
    pub title: TermString,
    /// A list of options.
    pub options: Vec<O>,
    /// Colors for the title.
    pub title_colors: Color2,
    /// Colors for the arrows.
    pub arrow_colors: Color2,
    /// Colors for selected options.
    pub selected_colors: Color2,
    /// Colors for unselected options.
    pub unselected_colors: Color2,
    /// Color of the background of no text.
    pub bg: Color,
    /// Number of lines padded before the title.
    pub title_y: Coord,
    /// Number of lines padded after the title.
    pub pad_after_title: Coord,
    /// Number of lines padded after an option.
    pub pad_after_option: Coord,
}

impl<O> Menu<O> where O: MenuOption {
    /// Creates a new menu with default styles: the default colors, inverted
    /// for the selected option, over a black background, the title at the
    /// second line, two lines after the title and one after each option.
    pub fn new(title: TermString, options: Vec<O>) -> (r: Self)
        ensures
            r.title@ == title@,
            r.options@ == options@,
            r.title_colors == Color2::default_pair(),
            r.arrow_colors == Color2::default_pair(),
            r.selected_colors == Color2::default_pair().inverted(),
            r.unselected_colors == Color2::default_pair(),
            r.bg == Color::Basic(BasicColor::Black),
            r.title_y == 1,
            r.pad_after_title == 2,
            r.pad_after_option == 1,
    {
        Self {
            title,
            options,
            title_colors: Color2::default(),
            arrow_colors: Color2::default(),
            selected_colors: Color2::default().invert(),
            unselected_colors: Color2::default(),
            bg: Color::Basic(BasicColor::Black),
            title_y: 1,
            pad_after_title: 2,
            pad_after_option: 1,
        }
    }
}

/// An item of a prompt about a dangerous action.
#[derive(Debug, PartialEq, Eq, Structural, Clone, Copy)]
pub enum DangerPromptOption {
    /// Returned when user cancels this action.
    Cancel,
    /// Returned when user confirms this action.
    Confirm,
}

impl DangerPromptOption {
    /// Creates a menu over a dangerous prompt: "OK" first, then "CANCEL".
    pub fn menu(title: TermString) -> (r: Menu<Self>)
        ensures
            r.title@ == title@,
            r.options@ == seq![DangerPromptOption::Confirm, DangerPromptOption::Cancel],
            r.title_y == 1,
            r.pad_after_title == 2,
            r.pad_after_option == 1,
    {
        Menu::new(title, vec![DangerPromptOption::Confirm, DangerPromptOption::Cancel])
    }
}

impl MenuOption for DangerPromptOption {
    /// `"CANCEL"` or `"OK"`.
    fn name(&self) -> (r: TermString)
        ensures
            *self == DangerPromptOption::Cancel ==> r@ == grapheme_clusters(
                lossy_chars(seq!['C', 'A', 'N', 'C', 'E', 'L']),
            ),
            *self == DangerPromptOption::Confirm ==> r@ == grapheme_clusters(
                lossy_chars(seq!['O', 'K']),
            ),
    {
        let cancel = "CANCEL";
        let confirm = "OK";
        proof {
            reveal_strlit("CANCEL");
            reveal_strlit("OK");
            assert(cancel@ =~= seq!['C', 'A', 'N', 'C', 'E', 'L']);
            assert(confirm@ =~= seq!['O', 'K']);
        }
        match self {
            DangerPromptOption::Cancel => TermString::new_lossy(cancel),
            DangerPromptOption::Confirm => TermString::new_lossy(confirm),
        }
    }
}

/// The index one past the last option shown on a screen of the given height,
/// or `None` where the menu does not fit the screen.
pub open spec fn screen_end_of(
    title_y: int,
    pad_after_title: int,
    pad_after_option: int,
    has_cancel: bool,
    first_row: int,
    height: int,
) -> Option<int> {
    let cancel = if has_cancel {
        4int
    } else {
        0int
    };
    let doubled = 2 * (pad_after_title - 1);
    if height < title_y || pad_after_title < 1 || doubled > Coord::MAX || doubled + cancel
        > Coord::MAX || height - title_y < doubled + cancel || pad_after_option + 1 > Coord::MAX
        || (height - title_y - doubled - cancel) / (pad_after_option + 1) < 2 || first_row + (
    height - title_y - doubled - cancel) / (pad_after_option + 1) - 2 > usize::MAX {
        None
    } else {
        Some(first_row + (height - title_y - doubled - cancel) / (pad_after_option + 1) - 2)
    }
}

/// The line of the option of the given index, or `None` where it does not
/// fit a coordinate.
pub open spec fn option_y_of(
    title_y: int,
    pad_after_title: int,
    pad_after_option: int,
    first_row: int,
    option: int,
) -> Option<int> {
    let count = (option - first_row) % 65536;
    if option < first_row || count + 1 > Coord::MAX || pad_after_option + 1 > Coord::MAX || (
    count + 1) * (pad_after_option + 1) + pad_after_title + 1 + title_y > Coord::MAX {
        None
    } else {
        Some((count + 1) * (pad_after_option + 1) + pad_after_title + 1 + title_y)
    }
}

/// Menu selection runner.
#[derive(Debug)]
pub struct Selector<'menu, O> where O: MenuOption {
    /// A reference to the menu.
    pub menu: &'menu Menu<O>,
    /// First row currently shown.
    pub first_row: usize,
    /// Last row currently shown.
    pub last_row: usize,
    /// Row currently selected (or that was previously selected before the
    /// cancel being currently selected).
    pub selected: usize,
    /// Whether the cancel option is currently selected, if cancel is `Some`.
    pub cancel: Option<bool>,
}

impl<'menu, O> Selector<'menu, O> where O: MenuOption {
    /// The end of the shown options on a screen of the given size, starting
    /// at the given first row.
    pub open spec fn end_from(&self, first_row: int, screen_size: Coord2) -> Option<int> {
        screen_end_of(
            self.menu.title_y as int,
            self.menu.pad_after_title as int,
            self.menu.pad_after_option as int,
            self.cancel is Some,
            first_row,
            screen_size.y as int,
        )
    }

    /// Whether the cancel option is currently selected.
    pub open spec fn cancelling(&self) -> bool {
        self.cancel == Some(true)
    }

    /// Whether the cancel option is enabled and not selected.
    pub open spec fn not_cancelling(&self) -> bool {
        self.cancel == Some(false)
    }

    /// `next` is this selection after UP on a screen of the given size: the
    /// cancel option is left where it is selected and there are options;
    /// otherwise the previous option is selected, scrolling up where it is
    /// above the screen.
    pub open spec fn moved_up(&self, next: &Self, screen_size: Coord2, render: bool) -> bool {
        &&& next.menu == self.menu
        &&& self.cancelling() && self.menu.options@.len() > 0 ==> {
            &&& render
            &&& next.cancel == Some(false)
            &&& next.selected == self.selected
            &&& next.first_row == self.first_row
            &&& next.last_row == self.last_row
        }
        &&& !(self.cancelling() && self.menu.options@.len() > 0) && self.selected > 0 ==> {
            &&& render
            &&& next.cancel == self.cancel
            &&& next.selected == self.selected - 1
            &&& if self.selected - 1 < self.first_row {
                &&& next.first_row == self.first_row - 1
                &&& next.last_row == self.end_from(self.first_row - 1, screen_size).unwrap()
            } else {
                &&& next.first_row == self.first_row
                &&& next.last_row == self.last_row
            }
        }
        &&& !(self.cancelling() && self.menu.options@.len() > 0) && self.selected == 0 ==> !render
            && *next == *self
    }

    /// `next` is this selection after DOWN on a screen of the given size: the
    /// next option is selected, scrolling down where it reaches the last row
    /// shown; after the last option, the cancel option is selected where it
    /// is shown.
    pub open spec fn moved_down(&self, next: &Self, screen_size: Coord2, render: bool) -> bool {
        &&& next.menu == self.menu
        &&& self.selected + 1 < self.menu.options@.len() ==> {
            &&& render
            &&& next.cancel == self.cancel
            &&& next.selected == self.selected + 1
            &&& if self.selected + 1 >= self.last_row {
                &&& next.first_row == self.first_row + 1
                &&& next.last_row == self.end_from(self.first_row + 1, screen_size).unwrap()
            } else {
                &&& next.first_row == self.first_row
                &&& next.last_row == self.last_row
            }
        }
        &&& self.selected + 1 >= self.menu.options@.len() && self.not_cancelling() ==> render
            && *next == (Selector { cancel: Some(true), ..*self })
        &&& self.selected + 1 >= self.menu.options@.len() && !self.not_cancelling() ==> !render
            && *next == *self
    }

    /// `next` is this selection after LEFT: the cancel option is selected
    /// where it is shown and not selected yet.
    pub open spec fn moved_left(&self, next: &Self, render: bool) -> bool {
        &&& self.not_cancelling() ==> render && *next == (Selector { cancel: Some(true), ..*self })
        &&& !self.not_cancelling() ==> !render && *next == *self
    }

    /// `next` is this selection after RIGHT: the cancel option is left where
    /// it is selected and there are options.
    pub open spec fn moved_right(&self, next: &Self, render: bool) -> bool {
        &&& self.cancelling() && self.menu.options@.len() > 0 ==> render && *next == (Selector {
            cancel: Some(false),
            ..*self
        })
        &&& !(self.cancelling() && self.menu.options@.len() > 0) ==> !render && *next == *self
    }

    /// `next` is this selection after a resize: a valid size recomputes the
    /// last row shown.
    pub open spec fn resized_to(&self, next: &Self, evt: ResizeEvent, render: bool) -> bool {
        &&& render == evt.size is Some
        &&& evt.size matches Some(size) ==> *next == (Selector {
            last_row: self.end_from(self.first_row as int, size).unwrap() as usize,
            ..*self
        })
        &&& evt.size is None ==> *next == *self
    }

    /// Initializes this selector for a selection without cancel option.
    pub fn without_cancel(menu: &'menu Menu<O>, initial: usize) -> (r: Self)
        ensures
            r.menu == menu,
            r.selected == initial,
            r.cancel is None,
            r.first_row == 0,
            r.last_row == 0,
    {
        Selector { menu, selected: initial, cancel: None, first_row: 0, last_row: 0 }
    }

    /// Initializes this selector for a selection with cancel option. The
    /// cancel option starts selected when asked to or when there is no
    /// option.
    pub fn with_cancel(menu: &'menu Menu<O>, initial: usize, cancel: bool) -> (r: Self)
        ensures
            r.menu == menu,
            r.selected == initial,
            r.cancel == Some(cancel || menu.options@.len() == 0),
            r.first_row == 0,
            r.last_row == 0,
    {
        Selector {
            menu,
            selected: initial,
            cancel: Some(cancel || menu.options.len() == 0),
            first_row: 0,
            last_row: 0,
        }
    }

    /// Gets the result for a selection without cancel.
    pub fn result(&self) -> (r: usize)
        ensures
            r == self.selected,
    {
        self.selected
    }

    /// Gets the result for a selection with cancel option: the selected
    /// option unless the cancel option is selected.
    pub fn result_with_cancel(&self) -> (r: Option<usize>)
        ensures
            r == (if self.cancelling() {
                None
            } else {
                Some(self.selected)
            }),
    {
        if self.is_cancelling() {
            None
        } else {
            Some(self.selected)
        }
    }

    /// Returns if the selection is currently selecting the cancel option.
    pub fn is_cancelling(&self) -> (r: bool)
        ensures
            r == self.cancelling(),
    {
        match self.cancel {
            Some(selected) => selected,
            None => false,
        }
    }

    /// Returns if the selection is currently not selecting the cancel option
    /// AND the cancel option is enabled.
    pub fn is_not_cancelling(&self) -> (r: bool)
        ensures
            r == self.not_cancelling(),
    {
        match self.cancel {
            Some(selected) => !selected,
            None => false,
        }
    }

    /// The end of the shown options on a screen of the given size from the
    /// given first row, or `None` where the menu does not fit it.
    pub fn end_checked(&self, first_row: usize, screen_size: Coord2) -> (r: Option<usize>)
        ensures
            r matches Some(end) ==> self.end_from(first_row as int, screen_size) == Some(end as int),
            r is None ==> self.end_from(first_row as int, screen_size) is None,
    {
        let cancel: u64 = if self.cancel.is_some() {
            4
        } else {
            0
        };
        let height = screen_size.y as u64;
        let title_y = self.menu.title_y as u64;
        let pad_after_title = self.menu.pad_after_title as u64;
        let pad_after_option = self.menu.pad_after_option as u64;
        if height < title_y || pad_after_title < 1 {
            return None;
        }
        let doubled = 2 * (pad_after_title - 1);
        if doubled > Coord::MAX as u64 || doubled + cancel > Coord::MAX as u64 || height - title_y
            < doubled + cancel || pad_after_option + 1 > Coord::MAX as u64 {
            return None;
        }
        let shown = (height - title_y - doubled - cancel) / (pad_after_option + 1);
        if shown < 2 || first_row as u128 + shown as u128 - 2 > usize::MAX as u128 {
            return None;
        }
        Some(first_row + (shown - 2) as usize)
    }

    /// The line of the option of the given index, or `None` where it does not
    /// fit a coordinate.
    pub fn option_y(&self, option: usize) -> (r: Option<Coord>)
        ensures
            r matches Some(y) ==> option_y_of(
                self.menu.title_y as int,
                self.menu.pad_after_title as int,
                self.menu.pad_after_option as int,
                self.first_row as int,
                option as int,
            ) == Some(y as int),
            r is None ==> option_y_of(
                self.menu.title_y as int,
                self.menu.pad_after_title as int,
                self.menu.pad_after_option as int,
                self.first_row as int,
                option as int,
            ) is None,
    {
        if option < self.first_row {
            return None;
        }
        let diff = option - self.first_row;
        let count = (diff % 65536) as u64;
        let pad_after_option = self.menu.pad_after_option as u64;
        if count + 1 > Coord::MAX as u64 || pad_after_option + 1 > Coord::MAX as u64 {
            return None;
        }
        assert((count + 1) * (pad_after_option + 1) <= 65535 * 65535) by (nonlinear_arith)
            requires
                count + 1 <= 65535,
                pad_after_option + 1 <= 65535,
        ;
        let y = (count + 1) * (pad_after_option + 1) + self.menu.pad_after_title as u64 + 1
            + self.menu.title_y as u64;
        if y > Coord::MAX as u64 {
            None
        } else {
            Some(y as Coord)
        }
    }

    /// Returns the index one past the last visible option in the screen.
    pub fn screen_end(&self, screen_size: Coord2) -> (r: usize)
        requires
            self.end_from(self.first_row as int, screen_size) is Some,
        ensures
            r == self.end_from(self.first_row as int, screen_size).unwrap(),
    {
        let cancel: Coord = if self.cancel.is_some() {
            4
        } else {
            0
        };
        let mut available = screen_size.y - self.menu.title_y;
        available -= 2 * (self.menu.pad_after_title - 1) + cancel;
        let extra = available / (self.menu.pad_after_option + 1) - 2;
        self.first_row + extra as usize
    }

    /// Updates the last row field from the computed end of the screen.
    pub fn update_last_row(&mut self, screen_size: Coord2)
        requires
            old(self).end_from(old(self).first_row as int, screen_size) is Some,
        ensures
            final(self).last_row == old(self).end_from(old(self).first_row as int, screen_size).unwrap(),
            final(self).menu == old(self).menu,
            final(self).first_row == old(self).first_row,
            final(self).selected == old(self).selected,
            final(self).cancel == old(self).cancel,
    {
        self.last_row = self.screen_end(screen_size);
    }

    /// Returns the range of the visible options in the screen.
    pub fn range_of_screen(&self, screen_size: Coord2) -> (r: Range<usize>)
        requires
            self.end_from(self.first_row as int, screen_size) is Some,
        ensures
            r.start == self.first_row,
            r.end == self.end_from(self.first_row as int, screen_size).unwrap(),
    {
        self.first_row..self.screen_end(screen_size)
    }

    /// Gets the line of a given option (by index).
    pub fn y_of_option(&self, option: usize) -> (r: Coord)
        requires
            option_y_of(
                self.menu.title_y as int,
                self.menu.pad_after_title as int,
                self.menu.pad_after_option as int,
                self.first_row as int,
                option as int,
            ) is Some,
        ensures
            r == option_y_of(
                self.menu.title_y as int,
                self.menu.pad_after_title as int,
                self.menu.pad_after_option as int,
                self.first_row as int,
                option as int,
            ).unwrap(),
    {
        let diff = option - self.first_row;
        let count = diff as Coord;
        proof {
            assert(count == diff % 65536) by (bit_vector)
                requires
                    count == diff as u16,
            ;
        }
        let before = (count + 1) * (self.menu.pad_after_option + 1);
        before + self.menu.pad_after_title + 1 + self.menu.title_y
    }

    /// Should be triggered when UP key is pressed: leaves the cancel option
    /// if it is selected, or selects the previous option, scrolling up if it
    /// is above the screen. Returns whether the menu must be rendered again.
    pub fn key_up(&mut self, screen_size: Coord2) -> (render: bool)
        requires
            old(self).selected > 0 && !(old(self).cancelling() && old(self).menu.options@.len()
                > 0) && old(self).selected - 1 < old(self).first_row ==> old(self).end_from(
                old(self).first_row - 1,
                screen_size,
            ) is Some,
        ensures
            old(self).moved_up(final(self), screen_size, render),
    {
        if self.is_cancelling() && self.menu.options.len() > 0 {
            self.cancel = Some(false);
            true
        } else if self.selected > 0 {
            self.selected -= 1;
            if self.selected < self.first_row {
                self.first_row -= 1;
                self.update_last_row(screen_size);
            }
            true
        } else {
            false
        }
    }

    /// Should be triggered when DOWN key is pressed: selects the next option,
    /// scrolling down if it reaches the last shown row, or selects the cancel
    /// option after the last option. Returns whether the menu must be
    /// rendered again.
    pub fn key_down(&mut self, screen_size: Coord2) -> (render: bool)
        requires
            old(self).selected < usize::MAX,
            old(self).selected + 1 < old(self).menu.options@.len() && old(self).selected + 1
                >= old(self).last_row ==> old(self).end_from(old(self).first_row + 1, screen_size) is Some,
        ensures
            old(self).moved_down(final(self), screen_size, render),
    {
        if self.selected + 1 < self.menu.options.len() {
            self.selected += 1;
            if self.selected >= self.last_row {
                self.first_row += 1;
                self.update_last_row(screen_size);
            }
            true
        } else if self.is_not_cancelling() {
            self.cancel = Some(true);
            true
        } else {
            false
        }
    }

    /// Should be triggered when LEFT key is pressed: selects the cancel
    /// option if it is enabled. Returns whether the menu must be rendered
    /// again.
    pub fn key_left(&mut self) -> (render: bool)
        ensures
            old(self).moved_left(final(self), render),
    {
        if self.is_not_cancelling() {
            self.cancel = Some(true);
            true
        } else {
            false
        }
    }

    /// Should be triggered when RIGHT key is pressed: leaves the cancel
    /// option if there are options. Returns whether the menu must be rendered
    /// again.
    pub fn key_right(&mut self) -> (render: bool)
        ensures
            old(self).moved_right(final(self), render),
    {
        if self.is_cancelling() && self.menu.options.len() > 0 {
            self.cancel = Some(false);
            true
        } else {
            false
        }
    }

    /// Should be triggered when screen is resized: a valid size renders the
    /// menu again and recomputes the last row.
    pub fn resized(&mut self, evt: ResizeEvent) -> (render: bool)
        requires
            evt.size matches Some(size) ==> old(self).end_from(old(self).first_row as int, size) is Some,
        ensures
            old(self).resized_to(final(self), evt, render),
    {
        match evt.size {
            Some(size) => {
                self.update_last_row(size);
                true
            },
            None => false,
        }
    }
}

impl<'menu, O> Selector<'menu, O> where O: MenuOption {
    /// Whether reacting to the event keeps every computation within bounds.
    pub open spec fn can_react(&self, event: Option<Event>, screen_size: Coord2) -> bool {
        &&& is_plain_key(event, Key::Up) ==> (self.selected > 0 && !(self.cancelling()
            && self.menu.options@.len() > 0) && self.selected - 1 < self.first_row
            ==> self.end_from(self.first_row - 1, screen_size) is Some)
        &&& is_plain_key(event, Key::Down) ==> self.selected < usize::MAX && (self.selected + 1 < self.menu.options@.len()
            && self.selected + 1 >= self.last_row ==> self.end_from(self.first_row + 1, screen_size) is Some)
        &&& (event matches Some(Event::Resize(evt)) ==> (evt.size matches Some(size) ==> self.end_from(
            self.first_row as int,
            size,
        ) is Some))
    }

    /// Whether reacting to the event keeps every computation within bounds.
    pub fn can_react_to(&self, event: &Option<Event>, screen_size: Coord2) -> (r: bool)
        ensures
            r == self.can_react(*event, screen_size),
    {
        if plain_key(event, Key::Up) && self.selected > 0 && !(self.is_cancelling()
            && self.menu.options.len() > 0) && self.selected - 1 < self.first_row {
            return self.end_checked(self.first_row - 1, screen_size).is_some();
        }
        if plain_key(event, Key::Down) {
            if self.selected == usize::MAX {
                return false;
            }
            if self.selected + 1 < self.menu.options.len() && self.selected + 1 >= self.last_row {
                if self.first_row == usize::MAX {
                    return false;
                }
                return self.end_checked(self.first_row + 1, screen_size).is_some();
            }
        }
        match event {
            Some(Event::Resize(evt)) => match evt.size {
                Some(size) => self.end_checked(self.first_row, size).is_some(),
                None => true,
            },
            _ => true,
        }
    }

    /// Reacts to an event of the selection loop: escape and enter end the
    /// selection, arrows move through the options, a resize recomputes the
    /// shown rows; anything else is ignored.
    pub fn react(&mut self, event: Option<Event>, screen_size: Coord2) -> (r: Reaction)
        requires
            old(self).can_react(event, screen_size),
        ensures
            (is_plain_key(event, Key::Esc) || is_plain_key(event, Key::Enter)) ==> r
                == Reaction::Exit && *final(self) == *old(self),
            is_plain_key(event, Key::Up) ==> r != Reaction::Exit && old(self).moved_up(
                final(self),
                screen_size,
                r == Reaction::Render,
            ),
            is_plain_key(event, Key::Down) ==> r != Reaction::Exit && old(self).moved_down(
                final(self),
                screen_size,
                r == Reaction::Render,
            ),
            is_plain_key(event, Key::Left) ==> r != Reaction::Exit && old(self).moved_left(
                final(self),
                r == Reaction::Render,
            ),
            is_plain_key(event, Key::Right) ==> r != Reaction::Exit && old(self).moved_right(
                final(self),
                r == Reaction::Render,
            ),
            event matches Some(Event::Resize(evt)) ==> r != Reaction::Exit && old(self).resized_to(
                final(self),
                evt,
                r == Reaction::Render,
            ),
            !(is_plain_key(event, Key::Esc) || is_plain_key(event, Key::Enter) || is_plain_key(
                event,
                Key::Up,
            ) || is_plain_key(event, Key::Down) || is_plain_key(event, Key::Left) || is_plain_key(
                event,
                Key::Right,
            ) || event matches Some(Event::Resize(_))) ==> r == Reaction::Idle && *final(self)
                == *old(self),
    {
        if plain_key(&event, Key::Esc) || plain_key(&event, Key::Enter) {
            return Reaction::Exit;
        }
        let render = if plain_key(&event, Key::Up) {
            self.key_up(screen_size)
        } else if plain_key(&event, Key::Down) {
            self.key_down(screen_size)
        } else if plain_key(&event, Key::Left) {
            self.key_left()
        } else if plain_key(&event, Key::Right) {
            self.key_right()
        } else {
            match event {
                Some(Event::Resize(evt)) => self.resized(evt),
                _ => false,
            }
        };
        if render {
            Reaction::Render
        } else {
            Reaction::Idle
        }
    }
}

/// The name of an option with a space appended where the parity of its
/// length, counted as a coordinate, differs from the parity of the width.
pub open spec fn padded_name(name: Seq<Seq<char>>, width: Coord) -> Seq<Seq<char>> {
    if (name.len() as Coord) % 2 != width % 2 {
        name.push(seq![' '])
    } else {
        name
    }
}

/// The padded name of an option, cut to all but its last five graphemes and
/// an ellipsis where it is longer than the width less four.
pub open spec fn shown_name(name: Seq<Seq<char>>, width: Coord) -> Seq<Seq<char>> {
    let padded = padded_name(name, width);
    if width - 4 < (padded.len() as Coord) {
        padded.take(padded.len() - 5).push(seq!['\u{2026}'])
    } else {
        padded
    }
}

/// Whether the label of an option of the given name can be made for the
/// given width: the width leaves room for the arrows, and a name that must
/// be cut has at least five graphemes.
pub open spec fn label_fits(name: Seq<Seq<char>>, width: Coord) -> bool {
    let padded = padded_name(name, width);
    &&& width >= 4
    &&& width - 4 < (padded.len() as Coord) ==> padded.len() >= 5
}

/// The graphemes of the label of an option: its shown name between `"> "`
/// and `" <"`.
pub open spec fn option_label_of(name: Seq<Seq<char>>, width: Coord) -> Seq<Seq<char>> {
    grapheme_clusters(lossy_chars(seq!['>', ' '])) + shown_name(name, width) + grapheme_clusters(
        lossy_chars(seq![' ', '<']),
    )
}

/// The label of an option of the given name on a screen of the given width.
pub fn option_label(name: &TermString, width: Coord) -> (r: TermString)
    requires
        label_fits(name@, width),
    ensures
        r@ == option_label_of(name@, width),
{
    let mut buf = name.clone();
    let mut len = buf.count_graphemes();
    if (len as Coord) % 2 != width % 2 {
        buf = buf.push_grapheme(&TermGrapheme::space());
        len = buf.count_graphemes();
    }
    if width - 4 < len as Coord {
        buf = buf.slice(0, len - 5).push_grapheme(&TermGrapheme::ellipsis());
    }
    let open = "> ";
    let close = " <";
    proof {
        reveal_strlit("> ");
        reveal_strlit(" <");
        assert(open@ =~= seq!['>', ' ']);
        assert(close@ =~= seq![' ', '<']);
    }
    TermString::new_lossy(open).concat(&buf).concat(&TermString::new_lossy(close))
}

/// Whether the label of an option of the given name can be made for the
/// given width.
pub fn option_label_fits(name: &TermString, width: Coord) -> (r: bool)
    ensures
        r == label_fits(name@, width),
{
    let len = name.count_graphemes();
    let padded: u128 = if (len as Coord) % 2 != width % 2 {
        len as u128 + 1
    } else {
        len as u128
    };
    proof {
        assert(padded_name(name@, width).len() == padded);
    }
    width >= 4 && (width - 4 >= padded as Coord || padded >= 5)
}

/// Law of the menu's cancel option: where it is shown but not selected and
/// there are options, LEFT selects it, and then RIGHT gives back the
/// selection as it was.
pub proof fn lemma_right_undoes_left<'menu, O>(
    before: Selector<'menu, O>,
    left: Selector<'menu, O>,
    right: Selector<'menu, O>,
    left_render: bool,
    right_render: bool,
) where O: MenuOption
    requires
        before.not_cancelling(),
        before.menu.options@.len() > 0,
        before.moved_left(&left, left_render),
        left.moved_right(&right, right_render),
    ensures
        left_render,
        right_render,
        right == before,
{
}

/// Law of the menu's layout with the cancel option: the cancel option is
/// drawn two lines above the bottom of the screen, and every option shown,
/// from the first row up to the end of the screen, as well as the down arrow
/// drawn at the end, lies strictly above that line.
pub proof fn lemma_options_clear_the_cancel_line<'menu, O>(
    selector: Selector<'menu, O>,
    first_row: int,
    screen_size: Coord2,
    option: int,
) where O: MenuOption
    requires
        selector.cancel is Some,
        selector.end_from(first_row, screen_size) is Some,
        first_row <= option <= selector.end_from(first_row, screen_size).unwrap(),
        option_y_of(
            selector.menu.title_y as int,
            selector.menu.pad_after_title as int,
            selector.menu.pad_after_option as int,
            first_row,
            option,
        ) is Some,
    ensures
        option_y_of(
            selector.menu.title_y as int,
            selector.menu.pad_after_title as int,
            selector.menu.pad_after_option as int,
            first_row,
            option,
        ).unwrap() < screen_size.y - 2,
{
    let ty = selector.menu.title_y as int;
    let pat = selector.menu.pad_after_title as int;
    let d = selector.menu.pad_after_option as int + 1;
    let h = screen_size.y as int;
    let a = h - ty - 2 * (pat - 1) - 4;
    let q = a / d;
    assert(a >= 0);
    assert(d >= 1);
    assert(q * d <= a) by (nonlinear_arith)
        requires
            q == a / d,
            d >= 1,
            a >= 0,
    ;
    assert(q <= a) by (nonlinear_arith)
        requires
            q == a / d,
            d >= 1,
            a >= 0,
    ;
    let count = option - first_row;
    assert(0 <= count <= q - 2);
    assert(count % 65536 == count);
    assert((count + 1) * d <= (q - 1) * d) by (nonlinear_arith)
        requires
            count + 1 <= q - 1,
            d >= 1,
    ;
    assert((q - 1) * d == q * d - d) by (nonlinear_arith);
}

} // verus!
