//! Errors returned when building colors from invalid components.

use vstd::prelude::*;

verus! {

/// Error returned when a [`BasicColor`](crate::color::BasicColor) is attempted
/// to be created with an invalid code.
#[derive(Debug, Clone, Copy, PartialEq, Eq, Structural)]
pub struct BadBasicColor {
    /// The code given to [`BasicColor`](crate::color::BasicColor).
    pub code: u8,
}

/// Error returned when a [`GrayColor`](crate::color::GrayColor) is attempted
/// to be created with an invalid brightness.
#[derive(Debug, Clone, Copy, PartialEq, Eq, Structural)]
pub struct BadGrayColor {
    /// The code given to [`GrayColor`](crate::color::GrayColor).
    pub brightness: u8,
}

/// Error returned when a [`CmyColor`](crate::color::CmyColor) is attempted to
/// be created with invalid channels.
#[derive(Debug, Clone, Copy, PartialEq, Eq, Structural)]
pub struct BadCmyColor {
    /// The cyan channel given to [`CmyColor`](crate::color::CmyColor).
    pub cyan: u8,
    /// The magenta channel given to [`CmyColor`](crate::color::CmyColor).
    pub magenta: u8,
    /// The yellow channel given to [`CmyColor`](crate::color::CmyColor).
    pub yellow: u8,
}

} // verus!
