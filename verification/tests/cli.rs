use oxitimer::cli::{countdown_message, countdown_text, startup_message, time_multiplier};
use oxitimer::{Cli, CliError, Commands};

fn cli(time_format: &str, args: Vec<u64>) -> Cli {
    Cli {
        command: None,
        work: None,
        break_duration: None,
        cycles: None,
        countdown: 5,
        time_format: time_format.to_string(),
        args,
    }
}

#[test]
fn positional_arguments_in_seconds() {
    let r = cli("sec", vec![25, 5]).parse_args().unwrap();
    assert_eq!(r, (25, 5, None, 5));
    let r = cli("s", vec![25, 5, 3]).parse_args().unwrap();
    assert_eq!(r, (25, 5, Some(3), 5));
}

#[test]
fn positional_arguments_take_precedence_over_options() {
    let mut c = cli("sec", vec![30, 10, 10]);
    c.work = Some(1);
    c.break_duration = Some(2);
    c.cycles = Some(4);
    assert_eq!(c.parse_args().unwrap(), (30, 10, Some(10), 5));
}

#[test]
fn named_options_in_minutes() {
    let mut c = cli("min", vec![]);
    c.work = Some(25);
    c.break_duration = Some(5);
    c.cycles = Some(4);
    c.countdown = 0;
    assert_eq!(c.parse_args().unwrap(), (1500, 300, Some(4), 0));
}

#[test]
fn time_format_is_case_insensitive() {
    let mut c = cli("HOURS", vec![2, 1]);
    c.command = Some(Commands::Init);
    assert_eq!(c.parse_args().unwrap(), (7200, 3600, None, 5));
    assert_eq!(cli("Minute", vec![1, 1]).parse_args().unwrap(), (60, 60, None, 5));
}

#[test]
fn multipliers() {
    for name in ["sec", "second", "seconds", "s"] {
        assert_eq!(time_multiplier(name), Some(1));
    }
    for name in ["min", "minute", "minutes", "m"] {
        assert_eq!(time_multiplier(name), Some(60));
    }
    for name in ["hour", "hours", "h"] {
        assert_eq!(time_multiplier(name), Some(3600));
    }
    assert_eq!(time_multiplier("MIN"), None);
    assert_eq!(time_multiplier("days"), None);
    assert_eq!(time_multiplier(""), None);
}

#[test]
fn invalid_time_format() {
    match cli("Days", vec![1, 2]).parse_args() {
        Err(CliError::InvalidTimeFormat(f)) => assert_eq!(f, "Days"),
        other => panic!("unexpected {:?}", other),
    }
}

#[test]
fn invalid_time_format_is_reported_before_missing_durations() {
    assert!(matches!(cli("x", vec![]).parse_args(), Err(CliError::InvalidTimeFormat(_))));
}

#[test]
fn missing_break_in_positional_arguments() {
    assert!(matches!(cli("sec", vec![25]).parse_args(), Err(CliError::MissingBreak)));
}

#[test]
fn missing_named_options() {
    assert!(matches!(cli("sec", vec![]).parse_args(), Err(CliError::MissingWorkOption)));
    let mut c = cli("sec", vec![]);
    c.work = Some(3);
    assert!(matches!(c.parse_args(), Err(CliError::MissingBreakOption)));
    let mut c = cli("sec", vec![]);
    c.break_duration = Some(3);
    assert!(matches!(c.parse_args(), Err(CliError::MissingWorkOption)));
}

#[test]
fn overflowing_durations_are_refused_before_parsing() {
    assert!(cli("hour", vec![u64::MAX, 1]).try_parse_args().is_none());
    assert!(cli("min", vec![1, u64::MAX / 60 + 1]).try_parse_args().is_none());
    assert_eq!(
        cli("min", vec![u64::MAX / 60, 1]).try_parse_args().unwrap().unwrap(),
        ((u64::MAX / 60) * 60, 60, None, 5)
    );
    assert_eq!(cli("sec", vec![u64::MAX, 1]).try_parse_args().unwrap().unwrap(), (u64::MAX, 1, None, 5));
    // Errors come through as they are.
    assert!(matches!(cli("hour", vec![u64::MAX]).try_parse_args(), Some(Err(CliError::MissingBreak))));
}

#[test]
fn messages() {
    assert_eq!(startup_message(1500, 300, Some(4)), "Starting oxitimer: 1500s work, 300s break for 4 cycle(s)");
    assert_eq!(startup_message(25, 5, None), "Starting oxitimer: 25s work, 5s break (infinite)");
    assert_eq!(
        startup_message(u64::MAX, 0, Some(0)),
        "Starting oxitimer: 18446744073709551615s work, 0s break for 0 cycle(s)"
    );
    assert_eq!(countdown_message(10), "Countdown: 10s");
    assert_eq!(countdown_text(3), "Starting in: 3 seconds");
}

#[test]
fn parse_with_a_lowered_format() {
    assert_eq!(cli("MIN", vec![25, 5]).parse_lowered("min").unwrap(), (1500, 300, None, 5));
    assert!(matches!(cli("MIN", vec![25, 5]).parse_lowered("MIN"), Err(CliError::InvalidTimeFormat(_))));
    assert_eq!(cli("x", vec![1, 2, 3]).parse_lowered("h").unwrap(), (3600, 7200, Some(3), 5));
}
