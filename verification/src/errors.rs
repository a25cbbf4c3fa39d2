use vstd::prelude::*;

verus! {

/// A configuration error, detected before any traversal begins.
///
/// Every variant corresponds to one way in which the three textual
/// parameters (directory name, mode letter, time specification) can be
/// missing or malformed.
#[derive(Clone, Copy, Debug, PartialEq, Eq)]
pub enum ConfigError {
    /// No directory argument was supplied.
    MissingDirname,
    /// No mode argument was supplied.
    MissingMode,
    /// No time specification was supplied, or it was the empty string.
    MissingTimeSpec,
    /// The mode token held more than one character.
    MultipleModesNotSupported,
    /// The mode token was empty (`None`) or its single character (`Some`)
    /// is not one of the recognised mode letters.
    UnsupportedMode(Option<char>),
    /// The first character of the time specification is not a recognised
    /// unit tag.
    InvalidTimeUnit,
    /// The magnitude part of the time specification is empty, contains a
    /// non-digit character, or denotes a duration outside the representable
    /// range.
    InvalidTimeMagnitude,
}

} // verus!
