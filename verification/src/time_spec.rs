use vstd::prelude::*;
use vstd::string::StrSliceExecFns;

use crate::errors::ConfigError;

verus! {

/// Seconds in one minute.
pub const SECS_PER_MINUTE: u64 = 60;

/// Seconds in one hour.
pub const SECS_PER_HOUR: u64 = 3_600;

/// Seconds in one day.
pub const SECS_PER_DAY: u64 = 86_400;

/// Seconds in one week.
pub const SECS_PER_WEEK: u64 = 604_800;

/// Seconds in one month, as a fixed 30.44-day approximation.
pub const SECS_PER_MONTH: u64 = 2_629_743;

/// Seconds in one year, as a fixed 365.24-day approximation.
pub const SECS_PER_YEAR: u64 = 31_556_926;

/// A time period: a unit together with a non-negative integer magnitude.
///
/// Month and year are fixed-second approximations, not calendar units.
#[derive(Clone, Copy, Debug, PartialEq, Eq)]
pub enum Time {
    Second(u64),
    Minute(u64),
    Hour(u64),
    Day(u64),
    Week(u64),
    Month(u64),
    Year(u64),
}

/// Whether `c` is one of the recognised unit tags.  Tags are
/// case-sensitive: lowercase `m` is minute, uppercase `M` is month.
pub open spec fn is_unit_tag(c: char) -> bool {
    c == 's' || c == 'm' || c == 'h' || c == 'd' || c == 'w' || c == 'M' || c == 'y'
}

/// The number of seconds denoted by one unit of the tag `c`.
/// Meaningful only when `is_unit_tag(c)` holds.
pub open spec fn unit_multiplier(c: char) -> u64 {
    if c == 's' {
        1
    } else if c == 'm' {
        SECS_PER_MINUTE
    } else if c == 'h' {
        SECS_PER_HOUR
    } else if c == 'd' {
        SECS_PER_DAY
    } else if c == 'w' {
        SECS_PER_WEEK
    } else if c == 'M' {
        SECS_PER_MONTH
    } else {
        SECS_PER_YEAR
    }
}

impl Time {
    /// The magnitude carried by the period.
    pub open spec fn magnitude(self) -> u64 {
        match self {
            Time::Second(n) => n,
            Time::Minute(n) => n,
            Time::Hour(n) => n,
            Time::Day(n) => n,
            Time::Week(n) => n,
            Time::Month(n) => n,
            Time::Year(n) => n,
        }
    }

    /// The unit tag that names the period's unit.
    pub open spec fn tag(self) -> char {
        match self {
            Time::Second(_) => 's',
            Time::Minute(_) => 'm',
            Time::Hour(_) => 'h',
            Time::Day(_) => 'd',
            Time::Week(_) => 'w',
            Time::Month(_) => 'M',
            Time::Year(_) => 'y',
        }
    }

    /// The exact duration of the period, in seconds, as an unbounded
    /// integer: magnitude times the unit's second-multiplier.
    pub open spec fn seconds(self) -> int {
        self.magnitude() * unit_multiplier(self.tag())
    }

    /// What [`Time::from_parts`] returns: the period `(c, n)` when `c` is a
    /// recognised unit tag, and `InvalidTimeUnit` otherwise.
    pub open spec fn from_parts_spec(c: char, n: u64) -> Result<Time, ConfigError> {
        if c == 's' {
            Ok(Time::Second(n))
        } else if c == 'm' {
            Ok(Time::Minute(n))
        } else if c == 'h' {
            Ok(Time::Hour(n))
        } else if c == 'd' {
            Ok(Time::Day(n))
        } else if c == 'w' {
            Ok(Time::Week(n))
        } else if c == 'M' {
            Ok(Time::Month(n))
        } else if c == 'y' {
            Ok(Time::Year(n))
        } else {
            Err(ConfigError::InvalidTimeUnit)
        }
    }

    /// Builds the period with unit tag `c` and magnitude `n`.
    pub fn from_parts(c: char, n: u64) -> (r: Result<Time, ConfigError>)
        ensures
            r == Time::from_parts_spec(c, n),
            r is Ok <==> is_unit_tag(c),
            r is Ok ==> r->Ok_0.tag() == c && r->Ok_0.magnitude() == n,
    {
        if c == 's' {
            Ok(Time::Second(n))
        } else if c == 'm' {
            Ok(Time::Minute(n))
        } else if c == 'h' {
            Ok(Time::Hour(n))
        } else if c == 'd' {
            Ok(Time::Day(n))
        } else if c == 'w' {
            Ok(Time::Week(n))
        } else if c == 'M' {
            Ok(Time::Month(n))
        } else if c == 'y' {
            Ok(Time::Year(n))
        } else {
            Err(ConfigError::InvalidTimeUnit)
        }
    }

    /// Converts the period to whole seconds, erroring (rather than
    /// wrapping) when the exact value does not fit in a `u64`.
    pub fn as_secs(&self) -> (r: Result<u64, ConfigError>)
        ensures
            self.seconds() <= u64::MAX ==> r == Ok::<u64, ConfigError>(self.seconds() as u64),
            self.seconds() > u64::MAX ==> r == Err::<u64, ConfigError>(
                ConfigError::InvalidTimeMagnitude,
            ),
    {
        let (n, mult): (u64, u64) = match self {
            Time::Second(n) => (*n, 1),
            Time::Minute(n) => (*n, SECS_PER_MINUTE),
            Time::Hour(n) => (*n, SECS_PER_HOUR),
            Time::Day(n) => (*n, SECS_PER_DAY),
            Time::Week(n) => (*n, SECS_PER_WEEK),
            Time::Month(n) => (*n, SECS_PER_MONTH),
            Time::Year(n) => (*n, SECS_PER_YEAR),
        };
        match n.checked_mul(mult) {
            Some(s) => Ok(s),
            None => Err(ConfigError::InvalidTimeMagnitude),
        }
    }
}

/// Whether `c` is a decimal digit.
pub open spec fn is_digit(c: char) -> bool {
    48 <= c as u32 <= 57
}

/// The value of the decimal digit `c`.
pub open spec fn digit_val(c: char) -> int {
    c as u32 - 48
}

/// Whether every character of `s` is a decimal digit.
pub open spec fn all_digits(s: Seq<char>) -> bool {
    forall|i: int| 0 <= i < s.len() ==> is_digit(#[trigger] s[i])
}

/// The non-negative integer denoted by the digit string `s` in base 10,
/// as an unbounded integer; 0 for the empty string.
pub open spec fn digits_value(s: Seq<char>) -> int
    decreases s.len(),
{
    if s.len() == 0 {
        0
    } else {
        digits_value(s.drop_last()) * 10 + digit_val(s.last())
    }
}

/// The value of a digit string is never negative.
proof fn lemma_digits_value_nonneg(s: Seq<char>)
    requires
        all_digits(s),
    ensures
        digits_value(s) >= 0,
    decreases s.len(),
{
    if s.len() > 0 {
        assert(all_digits(s.drop_last()));
        lemma_digits_value_nonneg(s.drop_last());
    }
}

/// Whether `s` is a well-formed magnitude token: non-empty, digits only,
/// and of a value that fits in a `u64`.
pub open spec fn is_valid_magnitude(s: Seq<char>) -> bool {
    s.len() > 0 && all_digits(s) && digits_value(s) <= u64::MAX
}

/// Parses a base-10 non-negative integer.  Fails on an empty token, on any
/// non-digit character, and on a value that does not fit in a `u64`.
pub fn parse_magnitude(s: &str) -> (r: Result<u64, ConfigError>)
    ensures
        is_valid_magnitude(s@) ==> r == Ok::<u64, ConfigError>(digits_value(s@) as u64),
        !is_valid_magnitude(s@) ==> r == Err::<u64, ConfigError>(
            ConfigError::InvalidTimeMagnitude,
        ),
{
    let n = s.unicode_len();
    if n == 0 {
        return Err(ConfigError::InvalidTimeMagnitude);
    }
    let mut acc: u64 = 0;
    let mut i: usize = 0;
    while i < n
        invariant
            0 <= i <= n,
            n == s@.len(),
            all_digits(s@.subrange(0, i as int)),
            acc == digits_value(s@.subrange(0, i as int)),
        decreases n - i,
    {
        let c = s.get_char(i);
        let v = c as u32;
        if v < 48 || v > 57 {
            assert(!is_digit(s@[i as int]));
            return Err(ConfigError::InvalidTimeMagnitude);
        }
        let d = (v - 48) as u64;
        if acc > (u64::MAX - d) / 10 {
            proof {
                let t = s@.subrange(0, i as int + 1);
                assert(t.drop_last() =~= s@.subrange(0, i as int));
                assert(digits_value(t) > u64::MAX);
                if all_digits(s@) {
                    lemma_digits_prefix_bound(s@, i as int + 1);
                }
            }
            return Err(ConfigError::InvalidTimeMagnitude);
        }
        acc = acc * 10 + d;
        i = i + 1;
        proof {
            let t = s@.subrange(0, i as int);
            assert(t.drop_last() =~= s@.subrange(0, i as int - 1));
        }
    }
    proof {
        assert(s@.subrange(0, n as int) =~= s@);
    }
    Ok(acc)
}

/// A digit string is worth at least as much as any of its prefixes.
proof fn lemma_digits_prefix_bound(s: Seq<char>, k: int)
    requires
        0 <= k <= s.len(),
        all_digits(s),
    ensures
        digits_value(s) >= digits_value(s.subrange(0, k)),
    decreases s.len() - k,
{
    if k < s.len() {
        let t = s.subrange(0, k + 1);
        assert(t.drop_last() =~= s.subrange(0, k));
        assert(all_digits(s.subrange(0, k)));
        lemma_digits_value_nonneg(s.subrange(0, k));
        assert(digits_value(t) >= digits_value(s.subrange(0, k)));
        lemma_digits_prefix_bound(s, k + 1);
    } else {
        assert(s.subrange(0, k) =~= s);
    }
}

/// What [`parse_time_spec`] returns for an input with the given
/// characters.  An empty input is a missing specification; then a
/// malformed magnitude is reported before an unrecognised unit tag; a
/// well-formed input yields the period `(tag, magnitude)`.
pub open spec fn parse_time_spec_model(s: Seq<char>) -> Result<Time, ConfigError> {
    if s.len() == 0 {
        Err(ConfigError::MissingTimeSpec)
    } else if !is_valid_magnitude(s.skip(1)) {
        Err(ConfigError::InvalidTimeMagnitude)
    } else {
        Time::from_parts_spec(s[0], digits_value(s.skip(1)) as u64)
    }
}

/// Round trip of the period parser: for every unit tag and magnitude,
/// building the period from the pair succeeds and the period is worth
/// exactly magnitude times the unit's fixed second-multiplier; a pair
/// whose character is outside the unit table is rejected, whatever its
/// magnitude.
pub proof fn lemma_time_round_trip(c: char, n: u64)
    ensures
        is_unit_tag(c) ==> {
            &&& Time::from_parts_spec(c, n) is Ok
            &&& Time::from_parts_spec(c, n)->Ok_0.tag() == c
            &&& Time::from_parts_spec(c, n)->Ok_0.magnitude() == n
            &&& Time::from_parts_spec(c, n)->Ok_0.seconds() == n * unit_multiplier(c)
        },
        !is_unit_tag(c) ==> Time::from_parts_spec(c, n) == Err::<Time, ConfigError>(
            ConfigError::InvalidTimeUnit,
        ),
{
}

/// Parses a compact time specification: one unit tag character followed
/// immediately by a base-10 non-negative integer magnitude, e.g. `d30`.
pub fn parse_time_spec(input: &str) -> (r: Result<Time, ConfigError>)
    ensures
        r == parse_time_spec_model(input@),
{
    let n = input.unicode_len();
    if n == 0 {
        return Err(ConfigError::MissingTimeSpec);
    }
    let tag = input.get_char(0);
    let rest = input.substring_char(1, n);
    proof {
        assert(rest@ =~= input@.skip(1));
    }
    match parse_magnitude(rest) {
        Ok(m) => Time::from_parts(tag, m),
        Err(e) => Err(e),
    }
}

} // verus!

