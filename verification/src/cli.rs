use vstd::prelude::*;

use crate::text::{decimal, decimal_string, str_equal};

verus! {

/// The subcommands of the program.
#[derive(Debug, Clone, Copy, PartialEq, Eq, Structural)]
pub enum Commands {
    /// Initialize the configuration directory and sound folders.
    Init,
}

/// The command line, as parsed from the program's arguments.
pub struct Cli {
    pub command: Option<Commands>,
    /// Work duration, in units of the time format.
    pub work: Option<u64>,
    /// Break duration, in units of the time format.
    pub break_duration: Option<u64>,
    /// Number of cycles to run; without it the timer runs indefinitely.
    pub cycles: Option<usize>,
    /// Countdown before the timer starts, always in seconds.
    pub countdown: u64,
    /// Unit of the durations: seconds, minutes or hours.
    pub time_format: String,
    /// Positional arguments: WORK BREAK [CYCLES].
    pub args: Vec<u64>,
}

/// Why the command line does not describe a timer.
#[derive(Debug)]
pub enum CliError {
    /// The time format is none of the known names; holds it as given.
    InvalidTimeFormat(String),
    /// Positional arguments give a work duration but no break duration.
    MissingBreak,
    /// No positional arguments and no `--work`.
    MissingWorkOption,
    /// No positional arguments and no `--break`.
    MissingBreakOption,
}

/// The lower-case form of a string, as `str::to_lowercase` gives it
/// (Unicode's lower-case mapping of each character).
pub uninterp spec fn lowercase(s: Seq<char>) -> Seq<char>;

/// Lower-cases through `str::to_lowercase`; the result is named `lowercase`
/// of the argument's characters, a function of them alone.
#[verifier::external_body]
pub(crate) fn to_lowercase(s: &str) -> (r: String)
    ensures
        r@ == lowercase(s@),
{
    s.to_lowercase()
}

/// Seconds per unit of a lower-cased time format name, or `None` for an
/// unknown name.
pub open spec fn spec_time_multiplier(name: Seq<char>) -> Option<u64> {
    if name == "sec"@ || name == "second"@ || name == "seconds"@ || name == "s"@ {
        Some(1)
    } else if name == "min"@ || name == "minute"@ || name == "minutes"@ || name == "m"@ {
        Some(60)
    } else if name == "hour"@ || name == "hours"@ || name == "h"@ {
        Some(3600)
    } else {
        None
    }
}

/// What the command line describes, given its time format lower-cased as
/// `lowered`, the durations in seconds as mathematical integers: work and
/// break from the positional arguments when there are any, else from the
/// options, each times the format's seconds.
pub open spec fn spec_parse_lowered(cli: Cli, lowered: Seq<char>) -> Result<
    (int, int, Option<usize>, u64),
    CliError,
> {
    match spec_time_multiplier(lowered) {
        None => Err(CliError::InvalidTimeFormat(cli.time_format)),
        Some(m) => if cli.args@.len() > 0 {
            if cli.args@.len() < 2 {
                Err(CliError::MissingBreak)
            } else {
                Ok(
                    (
                        cli.args@[0] * m,
                        cli.args@[1] * m,
                        if cli.args@.len() > 2 { Some(cli.args@[2] as usize) } else { None },
                        cli.countdown,
                    ),
                )
            }
        } else {
            match (cli.work, cli.break_duration) {
                (None, _) => Err(CliError::MissingWorkOption),
                (Some(_), None) => Err(CliError::MissingBreakOption),
                (Some(w), Some(b)) => Ok((w * m, b * m, cli.cycles, cli.countdown)),
            }
        }
    }
}

/// What the command line describes, its time format lower-cased.
pub open spec fn spec_parse(cli: Cli) -> Result<(int, int, Option<usize>, u64), CliError> {
    spec_parse_lowered(cli, lowercase(cli.time_format@))
}

/// Whether the durations in seconds fit in `u64`, where the command line
/// describes a timer, given its lower-cased time format.
pub open spec fn parse_fits_lowered(cli: Cli, lowered: Seq<char>) -> bool {
    match spec_parse_lowered(cli, lowered) {
        Ok((w, b, _, _)) => w <= u64::MAX && b <= u64::MAX,
        Err(_) => true,
    }
}

/// Whether the durations in seconds fit in `u64`, where the command line
/// describes a timer.
pub open spec fn parse_fits(cli: Cli) -> bool {
    parse_fits_lowered(cli, lowercase(cli.time_format@))
}

/// Seconds per unit of a lower-cased time format name.
pub fn time_multiplier(name: &str) -> (m: Option<u64>)
    ensures
        m == spec_time_multiplier(name@),
{
    if str_equal(name, "sec") || str_equal(name, "second") || str_equal(name, "seconds")
        || str_equal(name, "s") {
        Some(1)
    } else if str_equal(name, "min") || str_equal(name, "minute") || str_equal(name, "minutes")
        || str_equal(name, "m") {
        Some(60)
    } else if str_equal(name, "hour") || str_equal(name, "hours") || str_equal(name, "h") {
        Some(3600)
    } else {
        None
    }
}

impl Cli {
    /// Work and break durations in units of the time format, and the cycle
    /// limit: from the positional arguments when there are any, else from
    /// the options.
    fn chosen_durations(&self) -> (r: Result<(u64, u64, Option<usize>), CliError>)
        ensures
            self.args@.len() > 0 ==> (if self.args@.len() < 2 {
                r matches Err(CliError::MissingBreak)
            } else {
                r matches Ok((w, b, c)) && w == self.args@[0] && b == self.args@[1]
                    && c == (if self.args@.len() > 2 { Some(self.args@[2] as usize) } else { None })
            }),
            self.args@.len() == 0 ==> match (self.work, self.break_duration) {
                (None, _) => r matches Err(CliError::MissingWorkOption),
                (Some(_), None) => r matches Err(CliError::MissingBreakOption),
                (Some(w), Some(b)) => r matches Ok((w2, b2, c)) && w2 == w && b2 == b && c == self.cycles,
            },
    {
        if self.args.len() > 0 {
            // Positional arguments: WORK BREAK [CYCLES].
            let work = self.args[0];
            if self.args.len() < 2 {
                return Err(CliError::MissingBreak);
            }
            let break_duration = self.args[1];
            let cycles = if self.args.len() > 2 {
                Some(self.args[2] as usize)
            } else {
                None
            };
            Ok((work, break_duration, cycles))
        } else {
            // Named options.
            let work = match self.work {
                Some(w) => w,
                None => return Err(CliError::MissingWorkOption),
            };
            let break_duration = match self.break_duration {
                Some(b) => b,
                None => return Err(CliError::MissingBreakOption),
            };
            Ok((work, break_duration, self.cycles))
        }
    }

    /// The work and break durations in seconds, the cycle limit and the
    /// countdown in seconds, with the time format lower-cased as `lowered`.
    pub fn parse_lowered(self, lowered: &str) -> (r: Result<(u64, u64, Option<usize>, u64), CliError>)
        requires
            parse_fits_lowered(self, lowered@),
        ensures
            match spec_parse_lowered(self, lowered@) {
                Ok((w, b, c, cd)) => r matches Ok((w2, b2, c2, cd2)) && w2 == w && b2 == b && c2 == c
                    && cd2 == cd,
                Err(e) => r matches Err(e2) && e2 == e,
            },
            r matches Ok((_, _, _, cd)) ==> cd == self.countdown,
    {
        let multiplier = match time_multiplier(lowered) {
            Some(m) => m,
            None => return Err(CliError::InvalidTimeFormat(self.time_format)),
        };
        let (work, break_duration, cycles) = match self.chosen_durations() {
            Ok(chosen) => chosen,
            Err(e) => return Err(e),
        };
        Ok((work * multiplier, break_duration * multiplier, cycles, self.countdown))
    }

    /// The work and break durations in seconds, the cycle limit and the
    /// countdown in seconds.
    pub fn parse_args(self) -> (r: Result<(u64, u64, Option<usize>, u64), CliError>)
        requires
            parse_fits(self),
        ensures
            match spec_parse(self) {
                Ok((w, b, c, cd)) => r matches Ok((w2, b2, c2, cd2)) && w2 == w && b2 == b && c2 == c
                    && cd2 == cd,
                Err(e) => r matches Err(e2) && e2 == e,
            },
            r matches Ok((_, _, _, cd)) ==> cd == self.countdown,
    {
        let lowered = to_lowercase(self.time_format.as_str());
        self.parse_lowered(lowered.as_str())
    }

    /// `parse_args` where the durations in seconds fit in `u64`; `None` where
    /// they do not, on which `parse_args` is not to be called.
    pub fn try_parse_args(self) -> (r: Option<Result<(u64, u64, Option<usize>, u64), CliError>>)
        ensures
            r is None <==> !parse_fits(self),
            r matches Some(res) ==> match spec_parse(self) {
                Ok((w, b, c, cd)) => res matches Ok((w2, b2, c2, cd2)) && w2 == w && b2 == b
                    && c2 == c && cd2 == cd,
                Err(e) => res matches Err(e2) && e2 == e,
            },
            r matches Some(Ok((_, _, _, cd))) ==> cd == self.countdown,
    {
        let lowered = to_lowercase(self.time_format.as_str());
        if let Some(multiplier) = time_multiplier(lowered.as_str()) {
            if let Ok((work, break_duration, _)) = self.chosen_durations() {
                if work.checked_mul(multiplier).is_none() || break_duration.checked_mul(
                    multiplier,
                ).is_none() {
                    return None;
                }
            }
        }
        Some(self.parse_args())
    }
}

/// The line printed when the timer starts: the durations in seconds and
/// the cycle limit, or that it runs indefinitely.
pub open spec fn spec_startup_message(work_seconds: u64, break_seconds: u64, cycles: Option<usize>) -> Seq<char> {
    "Starting oxitimer: "@ + decimal(work_seconds as nat) + "s work, "@ + decimal(break_seconds as nat)
        + "s break"@ + match cycles {
        Some(c) => " for "@ + decimal(c as nat) + " cycle(s)"@,
        None => " (infinite)"@,
    }
}

/// The line printed before the countdown.
pub open spec fn spec_countdown_message(countdown: u64) -> Seq<char> {
    "Countdown: "@ + decimal(countdown as nat) + "s"@
}

/// The countdown screen's text with `seconds_left` seconds to go.
pub open spec fn spec_countdown_text(seconds_left: u64) -> Seq<char> {
    "Starting in: "@ + decimal(seconds_left as nat) + " seconds"@
}

pub fn startup_message(work_seconds: u64, break_seconds: u64, cycles: Option<usize>) -> (s: String)
    ensures
        s@ == spec_startup_message(work_seconds, break_seconds, cycles),
{
    let mut s = String::from_str("Starting oxitimer: ");
    s.append(decimal_string(work_seconds).as_str());
    s.append("s work, ");
    s.append(decimal_string(break_seconds).as_str());
    s.append("s break");
    match cycles {
        Some(c) => {
            s.append(" for ");
            s.append(decimal_string(c as u64).as_str());
            s.append(" cycle(s)");
        },
        None => {
            s.append(" (infinite)");
        },
    }
    s
}

pub fn countdown_message(countdown: u64) -> (s: String)
    ensures
        s@ == spec_countdown_message(countdown),
{
    let mut s = String::from_str("Countdown: ");
    s.append(decimal_string(countdown).as_str());
    s.append("s");
    s
}

pub fn countdown_text(seconds_left: u64) -> (s: String)
    ensures
        s@ == spec_countdown_text(seconds_left),
{
    let mut s = String::from_str("Starting in: ");
    s.append(decimal_string(seconds_left).as_str());
    s.append(" seconds");
    s
}

/// The work or break duration the command line gives, in units of its time
/// format: from the positional arguments when there are any, else from the
/// options.
pub open spec fn given_units(cli: Cli, second: bool) -> Option<u64> {
    if cli.args@.len() > 0 {
        if !second {
            Some(cli.args@[0])
        } else if cli.args@.len() > 1 {
            Some(cli.args@[1])
        } else {
            None
        }
    } else if !second {
        cli.work
    } else {
        cli.break_duration
    }
}

/// Parsing gives the countdown back as it was given, in seconds whatever the
/// time format, and the durations as the given units times the seconds per
/// unit; an unknown format is refused before anything else.
pub proof fn lemma_parse_keeps_countdown_and_scales_durations(cli: Cli, lowered: Seq<char>)
    ensures
        spec_parse_lowered(cli, lowered) matches Ok((_, _, _, cd)) ==> cd == cli.countdown,
        spec_parse_lowered(cli, lowered) matches Ok((w, b, _, _)) ==> spec_time_multiplier(lowered)
            matches Some(m) && given_units(cli, false) matches Some(wu) && given_units(cli, true)
            matches Some(bu) && w == wu * m && b == bu * m,
        spec_time_multiplier(lowered) is None <==> spec_parse_lowered(cli, lowered) matches Err(
            CliError::InvalidTimeFormat(_),
        ),
{
}

/// The time format scales only the durations: the same command line read in
/// minutes or hours gives 60 or 3600 times the seconds it gives read in
/// seconds, with the same cycle limit and countdown, and fails alike.
pub proof fn lemma_time_formats_scale(cli: Cli)
    ensures
        spec_parse_lowered(cli, "sec"@) is Ok <==> spec_parse_lowered(cli, "min"@) is Ok,
        spec_parse_lowered(cli, "sec"@) is Ok <==> spec_parse_lowered(cli, "hour"@) is Ok,
        spec_parse_lowered(cli, "sec"@) matches Ok((w, b, c, cd)) ==> spec_parse_lowered(cli, "min"@)
            == Ok::<(int, int, Option<usize>, u64), CliError>((w * 60, b * 60, c, cd)),
        spec_parse_lowered(cli, "sec"@) matches Ok((w, b, c, cd)) ==> spec_parse_lowered(cli, "hour"@)
            == Ok::<(int, int, Option<usize>, u64), CliError>((w * 3600, b * 3600, c, cd)),
{
    reveal_strlit("sec");
    reveal_strlit("second");
    reveal_strlit("seconds");
    reveal_strlit("s");
    reveal_strlit("min");
    reveal_strlit("minute");
    reveal_strlit("minutes");
    reveal_strlit("m");
    reveal_strlit("hour");
    reveal_strlit("hours");
    reveal_strlit("h");
    assert("sec"@.len() == 3 && "sec"@[0] == 's');
    assert("second"@.len() == 6 && "second"@[0] == 's');
    assert("seconds"@.len() == 7 && "seconds"@[0] == 's');
    assert("s"@.len() == 1 && "s"@[0] == 's');
    assert("min"@.len() == 3 && "min"@[0] == 'm');
    assert("minute"@.len() == 6 && "minute"@[0] == 'm');
    assert("minutes"@.len() == 7 && "minutes"@[0] == 'm');
    assert("m"@.len() == 1 && "m"@[0] == 'm');
    assert("hour"@.len() == 4 && "hour"@[0] == 'h');
    assert("hours"@.len() == 5 && "hours"@[0] == 'h');
    assert("h"@.len() == 1 && "h"@[0] == 'h');
    assert(spec_time_multiplier("sec"@) == Some(1u64));
    assert(spec_time_multiplier("min"@) == Some(60u64));
    assert(spec_time_multiplier("hour"@) == Some(3600u64));
}

} // verus!
