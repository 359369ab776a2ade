//! Errors of the validation of terminal strings and graphemes.

use vstd::prelude::*;

verus! {

/// Error generated when validating a `TermString` or a grapheme
/// ([`TermGrapheme`](crate::string::TermGrapheme)) and the string starts with a
/// diacritic.
#[derive(Debug, Clone, Copy, Default, PartialEq, Eq, Structural)]
pub struct DiacriticAtStart;

/// Error generated when validating a grapheme
/// ([`TermGrapheme`](crate::string::TermGrapheme)) and the string does not
/// contain exactly one grapheme cluster.
#[derive(Debug, Clone, Copy, Default, PartialEq, Eq, Structural)]
pub struct NotAGrapheme;

/// Error generated when validating a `TermString` and the string contains a
/// control character.
#[derive(Debug, Clone, Copy, PartialEq, Eq, Structural)]
pub struct InvalidControl {
    /// The position in bytes of the invalid character.
    pub position: usize,
}

/// Possible errors when creating a
/// [`TermGrapheme`](crate::string::TermGrapheme).
#[derive(Debug, Clone, Copy, PartialEq, Eq, Structural)]
pub enum TermGraphemeError {
    /// Invalid control character found in the given input string.
    InvalidControl(InvalidControl),
    /// The given input string starts with a diacritic.
    DiacriticAtStart(DiacriticAtStart),
    /// The given input is not made of only one grapheme.
    NotAGrapheme(NotAGrapheme),
}

impl From<InvalidControl> for TermGraphemeError {
    fn from(error: InvalidControl) -> (r: Self) {
        TermGraphemeError::InvalidControl(error)
    }
}

impl vstd::std_specs::convert::FromSpecImpl<InvalidControl> for TermGraphemeError {
    open spec fn obeys_from_spec() -> bool {
        true
    }

    open spec fn from_spec(error: InvalidControl) -> Self {
        TermGraphemeError::InvalidControl(error)
    }
}

impl From<DiacriticAtStart> for TermGraphemeError {
    fn from(error: DiacriticAtStart) -> (r: Self) {
        TermGraphemeError::DiacriticAtStart(error)
    }
}

impl vstd::std_specs::convert::FromSpecImpl<DiacriticAtStart> for TermGraphemeError {
    open spec fn obeys_from_spec() -> bool {
        true
    }

    open spec fn from_spec(error: DiacriticAtStart) -> Self {
        TermGraphemeError::DiacriticAtStart(error)
    }
}

impl From<NotAGrapheme> for TermGraphemeError {
    fn from(error: NotAGrapheme) -> (r: Self) {
        TermGraphemeError::NotAGrapheme(error)
    }
}

impl vstd::std_specs::convert::FromSpecImpl<NotAGrapheme> for TermGraphemeError {
    open spec fn obeys_from_spec() -> bool {
        true
    }

    open spec fn from_spec(error: NotAGrapheme) -> Self {
        TermGraphemeError::NotAGrapheme(error)
    }
}

/// The grapheme error carrying the same cause as a string error.
pub open spec fn grapheme_error_of(error: TermStringError) -> TermGraphemeError {
    match error {
        TermStringError::InvalidControl(error) => TermGraphemeError::InvalidControl(error),
        TermStringError::DiacriticAtStart(error) => TermGraphemeError::DiacriticAtStart(error),
    }
}

impl From<TermStringError> for TermGraphemeError {
    fn from(error: TermStringError) -> (r: Self) {
        match error {
            TermStringError::InvalidControl(error) => TermGraphemeError::InvalidControl(error),
            TermStringError::DiacriticAtStart(error) => TermGraphemeError::DiacriticAtStart(error),
        }
    }
}

impl vstd::std_specs::convert::FromSpecImpl<TermStringError> for TermGraphemeError {
    open spec fn obeys_from_spec() -> bool {
        true
    }

    open spec fn from_spec(error: TermStringError) -> Self {
        grapheme_error_of(error)
    }
}

/// Possible errors when creating a `TermString`.
#[derive(Debug, Clone, Copy, PartialEq, Eq, Structural)]
pub enum TermStringError {
    /// Invalid control character found in the given input string.
    InvalidControl(InvalidControl),
    /// The given input string starts with a diacritic.
    DiacriticAtStart(DiacriticAtStart),
}

impl From<InvalidControl> for TermStringError {
    fn from(error: InvalidControl) -> (r: Self) {
        TermStringError::InvalidControl(error)
    }
}

impl vstd::std_specs::convert::FromSpecImpl<InvalidControl> for TermStringError {
    open spec fn obeys_from_spec() -> bool {
        true
    }

    open spec fn from_spec(error: InvalidControl) -> Self {
        TermStringError::InvalidControl(error)
    }
}

impl From<DiacriticAtStart> for TermStringError {
    fn from(error: DiacriticAtStart) -> (r: Self) {
        TermStringError::DiacriticAtStart(error)
    }
}

impl vstd::std_specs::convert::FromSpecImpl<DiacriticAtStart> for TermStringError {
    open spec fn obeys_from_spec() -> bool {
        true
    }

    open spec fn from_spec(error: DiacriticAtStart) -> Self {
        TermStringError::DiacriticAtStart(error)
    }
}

} // verus!
