//! Configuration of a terminal application, and the decisions of the event
//! reactor about the screen's size.

use crate::coord::Coord2;
use crate::event::{Event, ResizeEvent};
use std::time::Duration;
use vstd::prelude::*;

verus! {

/// The duration of the given number of milliseconds.
pub uninterp spec fn duration_from_millis(millis: u64) -> Duration;

/// The duration of the given number of milliseconds.
///
/// Calls `Duration::from_millis`, which depends on its argument alone; its
/// result is named `duration_from_millis` of the argument.
#[verifier::external_body]
fn millis(count: u64) -> (r: Duration)
    ensures
        r == duration_from_millis(count),
{
    Duration::from_millis(count)
}

/// A terminal configuration builder.
#[derive(Debug, Clone, Copy)]
pub struct Builder {
    /// Given minimum screen size.
    pub min_screen: Coord2,
    /// Given time that the screen is updated.
    pub frame_time: Duration,
    /// Interval between a failed poll and the next poll.
    pub event_interval: Duration,
}

impl Default for Builder {
    /// The builder of [`Builder::new`].
    fn default() -> (r: Self)
        ensures
            r == Builder::initial(),
    {
        Self::new()
    }
}

impl Builder {
    /// The initial configuration: a minimum screen of 80 columns and 25
    /// lines, a frame time and an event interval of 20 milliseconds.
    pub open spec fn initial() -> Builder {
        Builder {
            min_screen: Coord2 { x: 80, y: 25 },
            frame_time: duration_from_millis(20),
            event_interval: duration_from_millis(20),
        }
    }

    /// Initializes this configuration builder.
    pub fn new() -> (r: Self)
        ensures
            r == Builder::initial(),
    {
        Self {
            min_screen: Coord2 { x: 80, y: 25 },
            frame_time: millis(20),
            event_interval: millis(20),
        }
    }

    /// Builds the minimum screen size for the application.
    pub fn min_screen(self, min_screen: Coord2) -> (r: Self)
        ensures
            r == (Builder { min_screen, ..self }),
    {
        Self { min_screen, ..self }
    }

    /// Builds the rate that the screen is updated.
    pub fn frame_time(self, frame_time: Duration) -> (r: Self)
        ensures
            r == (Builder { frame_time, ..self }),
    {
        Self { frame_time, ..self }
    }

    /// Interval waited when a poll for an event fails.
    pub fn event_interval(self, event_interval: Duration) -> (r: Self)
        ensures
            r == (Builder { event_interval, ..self }),
    {
        Self { event_interval, ..self }
    }
}

/// Whether a screen size is at least the minimum size in both directions.
pub open spec fn size_fits(size: Coord2, min_size: Coord2) -> bool {
    size.x >= min_size.x && size.y >= min_size.y
}

/// The size a screen buffer starts with: the actual size if it is at least
/// the minimum size, the minimum size otherwise.
pub fn corrected_size(size: Coord2, min_size: Coord2) -> (r: Coord2)
    ensures
        r == (if size_fits(size, min_size) {
            size
        } else {
            min_size
        }),
{
    if size.x >= min_size.x && size.y >= min_size.y {
        size
    } else {
        min_size
    }
}

/// What the event reactor does when the terminal reports a new size.
#[derive(Debug, Clone, Copy, PartialEq, Eq, Structural)]
pub enum ResizeAction {
    /// The size is valid: resize the screen buffer, release the screen if it
    /// was held, and send the event.
    Resize(Event),
    /// The size became invalid: hold the screen, ask the user to resize it,
    /// and send the event.
    AskResize(Event),
    /// The size stays invalid: keep asking, send nothing.
    KeepAsking,
}

/// The reactor's decision on a new terminal size, given whether the previous
/// size was valid.
pub fn react_to_resize(size: Coord2, min_size: Coord2, prev_size_valid: bool) -> (r: ResizeAction)
    ensures
        size_fits(size, min_size) ==> r == ResizeAction::Resize(
            Event::Resize(ResizeEvent { size: Some(size) }),
        ),
        !size_fits(size, min_size) && prev_size_valid ==> r == ResizeAction::AskResize(
            Event::Resize(ResizeEvent { size: None }),
        ),
        !size_fits(size, min_size) && !prev_size_valid ==> r == ResizeAction::KeepAsking,
{
    if size.x < min_size.x || size.y < min_size.y {
        if prev_size_valid {
            ResizeAction::AskResize(Event::Resize(ResizeEvent { size: None }))
        } else {
            ResizeAction::KeepAsking
        }
    } else {
        ResizeAction::Resize(Event::Resize(ResizeEvent { size: Some(size) }))
    }
}

} // verus!
