use old_files::config::Config;
use old_files::errors::ConfigError;
use old_files::mode::Mode;
use old_files::time_spec::{parse_magnitude, parse_time_spec, Time};

fn args(list: &[&str]) -> Vec<String> {
    list.iter().map(|s| s.to_string()).collect()
}

#[test]
fn mode_lowercase_letters_select_kinds() {
    assert_eq!(Mode::try_from("a"), Ok(Mode::Accessed));
    assert_eq!(Mode::try_from("m"), Ok(Mode::Modified));
    assert_eq!(Mode::try_from("c"), Ok(Mode::Created));
}

#[test]
fn mode_is_case_insensitive() {
    assert_eq!(Mode::try_from("A"), Ok(Mode::Accessed));
    assert_eq!(Mode::try_from("M"), Ok(Mode::Modified));
    assert_eq!(Mode::try_from("C"), Ok(Mode::Created));
}

#[test]
fn mode_of_two_characters_is_refused() {
    assert_eq!(
        Mode::try_from("am"),
        Err(ConfigError::MultipleModesNotSupported)
    );
    assert_eq!(
        Mode::try_from("Mm"),
        Err(ConfigError::MultipleModesNotSupported)
    );
}

#[test]
fn mode_of_unknown_letter_is_unsupported() {
    assert_eq!(Mode::try_from("x"), Err(ConfigError::UnsupportedMode(Some('x'))));
    assert_eq!(Mode::try_from("1"), Err(ConfigError::UnsupportedMode(Some('1'))));
}

#[test]
fn empty_mode_is_unsupported() {
    assert_eq!(Mode::try_from(""), Err(ConfigError::UnsupportedMode(None)));
}

#[test]
fn each_unit_tag_has_its_fixed_multiplier() {
    assert_eq!(parse_time_spec("s5").unwrap().as_secs(), Ok(5));
    assert_eq!(parse_time_spec("m2").unwrap().as_secs(), Ok(120));
    assert_eq!(parse_time_spec("h3").unwrap().as_secs(), Ok(10_800));
    assert_eq!(parse_time_spec("d30").unwrap().as_secs(), Ok(2_592_000));
    assert_eq!(parse_time_spec("w2").unwrap().as_secs(), Ok(1_209_600));
    assert_eq!(parse_time_spec("M2").unwrap().as_secs(), Ok(5_259_486));
    assert_eq!(parse_time_spec("y2").unwrap().as_secs(), Ok(63_113_852));
}

#[test]
fn unit_tags_are_case_sensitive() {
    // Lowercase m is a minute, uppercase M a month.
    assert_eq!(parse_time_spec("m1").unwrap().as_secs(), Ok(60));
    assert_eq!(parse_time_spec("M1").unwrap().as_secs(), Ok(2_629_743));
}

#[test]
fn parse_yields_the_tagged_period() {
    assert_eq!(parse_time_spec("d30"), Ok(Time::Day(30)));
    assert_eq!(parse_time_spec("h0"), Ok(Time::Hour(0)));
    assert_eq!(parse_time_spec("s007"), Ok(Time::Second(7)));
}

#[test]
fn empty_time_spec_is_missing() {
    assert_eq!(parse_time_spec(""), Err(ConfigError::MissingTimeSpec));
}

#[test]
fn unknown_unit_tag_is_invalid() {
    assert_eq!(parse_time_spec("x5"), Err(ConfigError::InvalidTimeUnit));
    assert_eq!(parse_time_spec("D5"), Err(ConfigError::InvalidTimeUnit));
}

#[test]
fn bad_magnitudes_are_invalid() {
    assert_eq!(parse_time_spec("d"), Err(ConfigError::InvalidTimeMagnitude));
    assert_eq!(parse_time_spec("dabc"), Err(ConfigError::InvalidTimeMagnitude));
    assert_eq!(parse_time_spec("d-1"), Err(ConfigError::InvalidTimeMagnitude));
    assert_eq!(parse_time_spec("d3x"), Err(ConfigError::InvalidTimeMagnitude));
    // A malformed magnitude is reported even when the unit tag is also bad.
    assert_eq!(parse_time_spec("zz"), Err(ConfigError::InvalidTimeMagnitude));
}

#[test]
fn magnitude_just_over_u64_is_invalid() {
    assert_eq!(parse_magnitude("18446744073709551615"), Ok(u64::MAX));
    assert_eq!(
        parse_magnitude("18446744073709551616"),
        Err(ConfigError::InvalidTimeMagnitude)
    );
}

#[test]
fn overflowing_unit_conversion_is_invalid() {
    assert_eq!(
        Time::Year(u64::MAX).as_secs(),
        Err(ConfigError::InvalidTimeMagnitude)
    );
    assert_eq!(Time::Second(u64::MAX).as_secs(), Ok(u64::MAX));
}

#[test]
fn missing_arguments_are_reported_in_order() {
    assert_eq!(
        Config::new(&args(&[])).err(),
        Some(ConfigError::MissingDirname)
    );
    assert_eq!(
        Config::new(&args(&["root"])).err(),
        Some(ConfigError::MissingMode)
    );
    assert_eq!(
        Config::new(&args(&["root", "m"])).err(),
        Some(ConfigError::MissingTimeSpec)
    );
}

#[test]
fn full_argument_list_builds_the_config() {
    let c = Config::new(&args(&["root", "m", "d365"])).unwrap();
    assert_eq!(c.dirname, "root");
    assert_eq!(c.mode, Mode::Modified);
    assert_eq!(c.threshold_secs, 365 * 86_400);
}

#[test]
fn arguments_past_the_third_are_ignored() {
    let c = Config::new(&args(&["root", "a", "h12", "extra"])).unwrap();
    assert_eq!(c.mode, Mode::Accessed);
    assert_eq!(c.threshold_secs, 12 * 3_600);
}

#[test]
fn bad_mode_is_reported_before_bad_time_spec() {
    assert_eq!(
        Config::new(&args(&["root", "xy", "zz"])).err(),
        Some(ConfigError::MultipleModesNotSupported)
    );
    assert_eq!(
        Config::new(&args(&["root", "x", "zz"])).err(),
        Some(ConfigError::UnsupportedMode(Some('x')))
    );
    assert_eq!(
        Config::new(&args(&["root", "m", "z9"])).err(),
        Some(ConfigError::InvalidTimeUnit)
    );
}

#[test]
fn config_rejects_threshold_beyond_u64_seconds() {
    let spec = format!("y{}", u64::MAX);
    assert_eq!(
        Config::new(&args(&["root", "m", spec.as_str()])).err(),
        Some(ConfigError::InvalidTimeMagnitude)
    );
}
