use vstd::prelude::*;

use crate::errors::ConfigError;
use crate::mode::Mode;
use crate::time_spec::{parse_time_spec_model, parse_time_spec};

verus! {

/// The immutable parameters of one traversal: the directory to scan, the
/// timestamp kind to compare, and the resolved threshold in whole seconds.
/// Recursing into a subdirectory builds a new `Config` with the same mode
/// and threshold but the subdirectory's path.
#[derive(Debug)]
pub struct Config {
    /// Path of the directory whose entries are scanned.
    pub dirname: String,
    /// Which timestamp is compared against the threshold.
    pub mode: Mode,
    /// The age threshold, in whole seconds.
    pub threshold_secs: u64,
}

/// What [`Config::new`] returns for positional arguments with the given
/// characters: the three fields of the configuration, or the first error
/// in order — a missing argument, then a bad mode token, then a bad time
/// specification (whose resolved duration must fit in a `u64` of seconds).
pub open spec fn config_model(args: Seq<Seq<char>>) -> Result<
    (Seq<char>, Mode, u64),
    ConfigError,
> {
    if args.len() == 0 {
        Err(ConfigError::MissingDirname)
    } else if args.len() == 1 {
        Err(ConfigError::MissingMode)
    } else if args.len() == 2 {
        Err(ConfigError::MissingTimeSpec)
    } else {
        match Mode::select_spec(args[1]) {
            Err(e) => Err(e),
            Ok(m) => match parse_time_spec_model(args[2]) {
                Err(e) => Err(e),
                Ok(t) => if t.seconds() > u64::MAX {
                    Err(ConfigError::InvalidTimeMagnitude)
                } else {
                    Ok((args[0], m, t.seconds() as u64))
                },
            },
        }
    }
}

impl Config {
    /// Builds a configuration from the positional arguments, in order:
    /// directory name, mode token, time specification.  Arguments past the
    /// third are ignored.
    pub fn new(args: &Vec<String>) -> (r: Result<Config, ConfigError>)
        ensures
            match r {
                Ok(c) => config_model(args.deep_view()) == Ok::<_, ConfigError>(
                    (c.dirname@, c.mode, c.threshold_secs),
                ),
                Err(e) => config_model(args.deep_view()) == Err::<
                    (Seq<char>, Mode, u64),
                    ConfigError,
                >(e),
            },
    {
        if args.len() == 0 {
            return Err(ConfigError::MissingDirname);
        }
        if args.len() == 1 {
            return Err(ConfigError::MissingMode);
        }
        if args.len() == 2 {
            return Err(ConfigError::MissingTimeSpec);
        }
        let dirname = args[0].clone();
        let mode = match Mode::try_from(args[1].as_str()) {
            Ok(m) => m,
            Err(e) => {
                return Err(e);
            },
        };
        let t = match parse_time_spec(args[2].as_str()) {
            Ok(t) => t,
            Err(e) => {
                return Err(e);
            },
        };
        let threshold_secs = match t.as_secs() {
            Ok(s) => s,
            Err(e) => {
                return Err(e);
            },
        };
        Ok(Config { dirname, mode, threshold_secs })
    }
}

} // verus!
