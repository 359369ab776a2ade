//! Basic utilities for writing applications with a terminal user interface:
//! colors and their brightness, coordinates, styles, strings of grapheme
//! clusters, a double screen buffer with styled text and render planning,
//! an event channel, and the selection logic of menus and dialogs.

pub mod coord;
pub mod color;
pub mod error;
pub mod event;
pub mod style;
pub mod string;
pub mod screen;
pub mod tile;
pub mod terminal;
pub mod ui;
