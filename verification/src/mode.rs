use vstd::prelude::*;
use vstd::string::StrSliceExecFns;

use crate::errors::ConfigError;

verus! {

/// Which of a file's three standard timestamps is compared against the
/// threshold.  Chosen once per run and applied uniformly to every file.
#[derive(Clone, Copy, Debug, Hash, Eq, PartialEq)]
pub enum Mode {
    Accessed,
    Modified,
    Created,
}

impl Mode {
    /// The timestamp kind named by a single mode letter, case-insensitive:
    /// `a` selects `Accessed`, `m` selects `Modified`, `c` selects
    /// `Created`; any other character names no kind.
    pub open spec fn of_char(c: char) -> Option<Mode> {
        if c == 'a' || c == 'A' {
            Some(Mode::Accessed)
        } else if c == 'm' || c == 'M' {
            Some(Mode::Modified)
        } else if c == 'c' || c == 'C' {
            Some(Mode::Created)
        } else {
            None
        }
    }

    /// What [`Mode::try_from`] returns for a token with the given
    /// characters: a token longer than one character is refused outright,
    /// an empty or unrecognised token is unsupported, and otherwise the
    /// kind named by the single character is selected.
    pub open spec fn select_spec(s: Seq<char>) -> Result<Mode, ConfigError> {
        if s.len() > 1 {
            Err(ConfigError::MultipleModesNotSupported)
        } else if s.len() == 0 {
            Err(ConfigError::UnsupportedMode(None))
        } else {
            match Mode::of_char(s[0]) {
                Some(m) => Ok(m),
                None => Err(ConfigError::UnsupportedMode(Some(s[0]))),
            }
        }
    }

    /// Parses a one-character mode token, case-insensitively.
    pub fn try_from(input: &str) -> (r: Result<Mode, ConfigError>)
        ensures
            r == Mode::select_spec(input@),
    {
        let n = input.unicode_len();
        if n > 1 {
            return Err(ConfigError::MultipleModesNotSupported);
        }
        if n == 0 {
            return Err(ConfigError::UnsupportedMode(None));
        }
        let c = input.get_char(0);
        if c == 'a' || c == 'A' {
            Ok(Mode::Accessed)
        } else if c == 'm' || c == 'M' {
            Ok(Mode::Modified)
        } else if c == 'c' || c == 'C' {
            Ok(Mode::Created)
        } else {
            Err(ConfigError::UnsupportedMode(Some(c)))
        }
    }
}

} // verus!
