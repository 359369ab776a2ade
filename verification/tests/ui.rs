use andiskaz::color::{BasicColor, Color, Color2};
use andiskaz::coord::Coord2;
use andiskaz::event::{Event, Key, KeyEvent, ResizeEvent};
use andiskaz::string::TermString;
use andiskaz::ui::info::InfoDialog;
use andiskaz::ui::input::{InputDialog, InputDialogItem, Selector as InputSelector};
use andiskaz::ui::menu::{
    option_label, option_label_fits, DangerPromptOption, Menu, MenuOption, Selector,
};
use andiskaz::ui::Reaction;

fn key(main_key: Key) -> Option<Event> {
    Some(Event::Key(KeyEvent { main_key, ctrl: false, alt: false, shift: false }))
}

fn options(count: usize) -> Vec<TermString> {
    (0 .. count).map(|i| TermString::new_lossy(&format!("option {}", i))).collect()
}

#[test]
fn menu_defaults() {
    let menu = Menu::new(TermString::new_lossy("Title"), options(3));
    assert_eq!(menu.title_y, 1);
    assert_eq!(menu.pad_after_title, 2);
    assert_eq!(menu.pad_after_option, 1);
    assert_eq!(menu.selected_colors, Color2 {
        foreground: BasicColor::Black.into(),
        background: BasicColor::White.into(),
    });
    assert_eq!(menu.bg, Color::Basic(BasicColor::Black));
}

#[test]
fn danger_prompt_options() {
    let menu = DangerPromptOption::menu(TermString::new_lossy("Sure?"));
    assert_eq!(menu.options, vec![DangerPromptOption::Confirm, DangerPromptOption::Cancel]);
    assert_eq!(menu.options[0].name().to_plain_string(), "OK");
    assert_eq!(menu.options[1].name().to_plain_string(), "CANCEL");
}

#[test]
fn menu_selection_moves_and_scrolls() {
    let menu = Menu::new(TermString::new_lossy("Title"), options(10));
    let screen = Coord2 { x: 20, y: 12 };
    let mut selector = Selector::without_cancel(&menu, 0);
    selector.update_last_row(screen);
    // (12 - 1 - 2) / 2 - 2 = 2 options shown.
    assert_eq!(selector.range_of_screen(screen), 0 .. 2);
    assert_eq!(selector.y_of_option(0), 6);
    assert_eq!(selector.y_of_option(1), 8);
    assert_eq!(selector.react(key(Key::Down), screen), Reaction::Render);
    assert_eq!((selector.selected, selector.first_row), (1, 0));
    assert_eq!(selector.react(key(Key::Down), screen), Reaction::Render);
    assert_eq!((selector.selected, selector.first_row, selector.last_row), (2, 1, 3));
    assert_eq!(selector.react(key(Key::Up), screen), Reaction::Render);
    assert_eq!(selector.react(key(Key::Up), screen), Reaction::Render);
    assert_eq!((selector.selected, selector.first_row), (0, 0));
    assert_eq!(selector.react(key(Key::Up), screen), Reaction::Idle);
    assert_eq!(selector.react(key(Key::Left), screen), Reaction::Idle);
    assert_eq!(selector.react(key(Key::Char('x')), screen), Reaction::Idle);
    assert_eq!(selector.react(key(Key::Enter), screen), Reaction::Exit);
    assert_eq!(selector.result(), 0);
}

#[test]
fn menu_cancel_option() {
    let menu = Menu::new(TermString::new_lossy("Title"), options(2));
    let screen = Coord2 { x: 20, y: 20 };
    let mut selector = Selector::with_cancel(&menu, 1, false);
    selector.update_last_row(screen);
    assert_eq!(selector.react(key(Key::Down), screen), Reaction::Render);
    assert!(selector.is_cancelling());
    assert_eq!(selector.result_with_cancel(), None);
    assert_eq!(selector.react(key(Key::Right), screen), Reaction::Render);
    assert!(selector.is_not_cancelling());
    assert_eq!(selector.result_with_cancel(), Some(1));
    assert_eq!(selector.react(key(Key::Left), screen), Reaction::Render);
    assert_eq!(selector.react(key(Key::Esc), screen), Reaction::Exit);
    assert_eq!(selector.result_with_cancel(), None);
    let empty: Menu<TermString> = Menu::new(TermString::new_lossy("Empty"), Vec::new());
    assert!(Selector::with_cancel(&empty, 0, false).is_cancelling());
}

#[test]
fn menu_resize_updates_the_last_row() {
    let menu = Menu::new(TermString::new_lossy("Title"), options(10));
    let mut selector = Selector::without_cancel(&menu, 0);
    let event = Some(Event::Resize(ResizeEvent { size: Some(Coord2 { x: 20, y: 16 }) }));
    assert_eq!(selector.react(event, Coord2 { x: 20, y: 16 }), Reaction::Render);
    assert_eq!(selector.last_row, 4);
    let invalid = Some(Event::Resize(ResizeEvent { size: None }));
    assert_eq!(selector.react(invalid, Coord2 { x: 20, y: 16 }), Reaction::Idle);
}

#[test]
fn option_labels_fit_the_width() {
    let name = TermString::new_lossy("abcd");
    assert_eq!(option_label(&name, 20).to_plain_string(), "> abcd <");
    assert_eq!(option_label(&name, 21).to_plain_string(), "> abcd  <");
    let long = TermString::new_lossy("abcdefghij");
    assert_eq!(option_label(&long, 10).to_plain_string(), "> abcde\u{2026} <");
}

#[test]
fn input_dialog_defaults() {
    let dialog = InputDialog::new(TermString::new_lossy("Name"), String::from("ab"), 10, |_| true);
    assert_eq!(dialog.max, 10);
    assert_eq!(dialog.buffer, "ab");
    assert_eq!((dialog.title_y, dialog.pad_after_title, dialog.pad_after_box, dialog.pad_after_ok), (
        1,
        2,
        2,
        1,
    ));
    assert_eq!(dialog.box_colors, Color2 {
        foreground: BasicColor::Black.into(),
        background: BasicColor::White.into(),
    });
}

#[test]
fn input_typing_and_erasing() {
    let dialog = InputDialog::new(TermString::new_lossy("Name"), String::from("ab"), 4, |_| true);
    let mut selector = InputSelector::without_cancel(&dialog, 0);
    selector.reset(Coord2 { x: 80, y: 25 });
    assert_eq!((selector.actual_max, selector.cursor), (4, 0));
    assert_eq!(selector.react(key(Key::Right), true), Reaction::Render);
    assert_eq!(selector.react(key(Key::Char('x')), true), Reaction::Render);
    assert_eq!(selector.buffer, vec!['a', 'x', 'b']);
    assert_eq!(selector.cursor, 2);
    // A character the filter refuses is not typed.
    assert_eq!(selector.react(key(Key::Char('y')), false), Reaction::Idle);
    // A diacritic alone is not typed.
    assert_eq!(selector.react(key(Key::Char('\u{301}')), true), Reaction::Idle);
    assert_eq!(selector.react(key(Key::Char('c')), true), Reaction::Render);
    // The box holds four grapheme clusters.
    assert_eq!(selector.react(key(Key::Char('d')), true), Reaction::Idle);
    assert_eq!(selector.buffer, vec!['a', 'x', 'c', 'b']);
    assert_eq!(selector.react(key(Key::Backspace), true), Reaction::Render);
    assert_eq!(selector.buffer, vec!['a', 'x', 'b']);
    assert_eq!(selector.react(key(Key::Left), true), Reaction::Render);
    assert_eq!(selector.react(key(Key::Left), true), Reaction::Render);
    assert_eq!(selector.react(key(Key::Left), true), Reaction::Idle);
    assert_eq!(selector.react(key(Key::Backspace), true), Reaction::Idle);
    assert_eq!(selector.react(key(Key::Esc), true), Reaction::Idle);
    assert_eq!(selector.react(key(Key::Enter), true), Reaction::Exit);
    assert_eq!(selector.result().to_plain_string(), "axb");
}

#[test]
fn input_cancel_option() {
    let dialog = InputDialog::new(TermString::new_lossy("Name"), String::from("ab"), 4, |_| true);
    let mut selector = InputSelector::with_cancel(&dialog, 0, InputDialogItem::Confirm);
    selector.reset(Coord2 { x: 80, y: 25 });
    assert_eq!(selector.react(key(Key::Down), true), Reaction::Render);
    assert_eq!(selector.selected, InputDialogItem::Cancel);
    assert_eq!(selector.react(key(Key::Up), true), Reaction::Render);
    assert_eq!(selector.selected, InputDialogItem::Confirm);
    assert_eq!(selector.react(key(Key::Esc), true), Reaction::Exit);
    assert_eq!(selector.result_with_cancel(), None);
}

#[test]
fn input_resize_fits_the_box() {
    let dialog =
        InputDialog::new(TermString::new_lossy("Name"), String::from("abcdef"), 10, |_| true);
    let mut selector = InputSelector::without_cancel(&dialog, 0);
    selector.reset(Coord2 { x: 80, y: 25 });
    selector.cursor = 6;
    let event = Some(Event::Resize(ResizeEvent { size: Some(Coord2 { x: 4, y: 25 }) }));
    assert_eq!(selector.react(event, true), Reaction::Render);
    assert_eq!(selector.actual_max, 4);
    assert_eq!(selector.buffer, vec!['a', 'b', 'c', 'd']);
    assert_eq!(selector.cursor, 3);
    let invalid = Some(Event::Resize(ResizeEvent { size: None }));
    assert_eq!(selector.react(invalid, true), Reaction::Idle);
    assert!(!selector.valid_size);
    assert_eq!(selector.react(key(Key::Enter), true), Reaction::Idle);
}

#[test]
fn input_box_texts() {
    let dialog = InputDialog::new(TermString::new_lossy("Name"), String::from("ab"), 5, |_| true);
    let mut selector = InputSelector::without_cancel(&dialog, 0);
    selector.reset(Coord2 { x: 80, y: 25 });
    selector.cursor = 1;
    let (field, line) = selector.input_box(80);
    assert_eq!(field, "ab   ");
    // max and width have different parities: (1 + 0 + 1) % 2 == 0.
    assert_eq!(line, " \u{af}    ");
    let (_, line) = selector.input_box(81);
    assert_eq!(line, " \u{af}   ");
    assert_eq!(selector.y_of_box(), 4);
    assert_eq!(selector.y_of_ok(), 8);
    assert_eq!(selector.y_of_cancel(), 10);
}

#[test]
fn info_dialog() {
    let dialog = InfoDialog::new(TermString::new_lossy("Info"), TermString::new_lossy("Hello"));
    assert_eq!(dialog.ok_label.to_plain_string(), "OK");
    assert_eq!(dialog.ok_text().to_plain_string(), "> OK <");
    assert_eq!((dialog.style.top_margin, dialog.style.bottom_margin), (4, 2));
    assert_eq!((dialog.style.align_numer, dialog.style.align_denom), (1, 2));
    assert_eq!(dialog.title_style().top_margin, 1);
    assert_eq!(dialog.ok_style(7).top_margin, 9);
    assert_eq!(dialog.react(key(Key::Enter), true), Reaction::Exit);
    assert_eq!(dialog.react(key(Key::Esc), true), Reaction::Exit);
    assert_eq!(dialog.react(key(Key::Esc), false), Reaction::Idle);
    let resize = Some(Event::Resize(ResizeEvent { size: Some(Coord2 { x: 1, y: 1 }) }));
    assert_eq!(dialog.react(resize, false), Reaction::Render);
    assert_eq!(dialog.react(key(Key::Up), true), Reaction::Idle);
}

#[test]
fn menu_bounds_are_checked() {
    let menu = Menu::new(TermString::new_lossy("Title"), options(10));
    let selector = Selector::without_cancel(&menu, 0);
    assert_eq!(selector.end_checked(0, Coord2 { x: 20, y: 12 }), Some(2));
    assert_eq!(selector.end_checked(3, Coord2 { x: 20, y: 12 }), Some(5));
    // Below the title there is no room for two options.
    assert_eq!(selector.end_checked(0, Coord2 { x: 20, y: 6 }), None);
    assert_eq!(selector.end_checked(0, Coord2 { x: 20, y: 0 }), None);
    assert_eq!(selector.option_y(3), Some(12));
    let mut scrolled = Selector::without_cancel(&menu, 5);
    scrolled.first_row = 4;
    assert_eq!(scrolled.option_y(3), None);
    assert_eq!(scrolled.option_y(4), Some(6));
    assert!(selector.can_react_to(&key(Key::Down), Coord2 { x: 20, y: 12 }));
    let shrink = Some(Event::Resize(ResizeEvent { size: Some(Coord2 { x: 20, y: 3 }) }));
    assert!(!selector.can_react_to(&shrink, Coord2 { x: 20, y: 12 }));
}

#[test]
fn option_labels_need_room() {
    let name = TermString::new_lossy("ab");
    assert!(option_label_fits(&name, 6));
    assert!(!option_label_fits(&name, 4));
    assert!(!option_label_fits(&name, 3));
    // Four columns leave no room: a two-grapheme name would be cut.
    assert!(!option_label_fits(&TermString::new_lossy("abc"), 4));
    assert!(option_label_fits(&TermString::new_lossy("abcde"), 4));
    // Padded to six graphemes, the name keeps its first one and an ellipsis.
    assert_eq!(option_label(&TermString::new_lossy("abcde"), 4).to_plain_string(), "> a\u{2026} <");
}
