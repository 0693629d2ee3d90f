//! Command-line option plumbing over the `getopts` crate.
//!
//! The option set is fixed: the fullscreen flag and the four numeric
//! options. `GameOptions` and `ParsedArgs` keep their `getopts` values
//! in private fields, so a `ParsedArgs` can only come from parsing
//! against exactly this option set; that is what lets the lookup
//! wrappers restrict themselves to the five registered names, which
//! `getopts` would panic on otherwise.
use crate::settings::settings_from_options;
use crate::settings::GameSettings;
use crate::settings::SettingsError;
use vstd::prelude::*;

verus! {

#[verifier::external_type_specification]
#[verifier::external_body]
pub struct ExOptions(getopts::Options);

#[verifier::external_type_specification]
#[verifier::external_body]
pub struct ExMatches(getopts::Matches);

#[verifier::external_type_specification]
#[verifier::external_body]
pub struct ExFail(getopts::Fail);

/// The game's registered command-line options.
pub struct GameOptions {
    opts: getopts::Options,
}

/// A command line parsed against the game's option set.
pub struct ParsedArgs {
    matches: getopts::Matches,
}

/// Why a command line was rejected, mirroring the parser's own causes.
#[derive(Debug)]
pub enum ArgFailure {
    ArgumentMissing(String),
    UnrecognizedOption(String),
    OptionMissing(String),
    OptionDuplicated(String),
    UnexpectedArgument(String),
}

/// The five option names the game registers; only these may be looked
/// up in a `ParsedArgs`.
pub open spec fn known_option(name: Seq<char>) -> bool {
    name == "f"@ || name == "w"@ || name == "h"@ || name == "m"@ || name == "l"@
}

/// Relies on getopts::Options::new: a blank option set.
#[verifier::external_body]
fn opts_new() -> getopts::Options {
    getopts::Options::new()
}

/// Relies on getopts::Options::optflag: registers an option that takes
/// no argument, under the given short and long names. Its name check
/// (`validate_names`) panics unless the short name is at most one
/// character and the long name anything but exactly one; for ASCII
/// names the byte lengths it tests are these character counts.
#[verifier::external_body]
fn optflag(opts: &mut getopts::Options, short: &str, long: &str, desc: &str)
    requires
        vstd::string::is_ascii(short),
        short@.len() <= 1,
        vstd::string::is_ascii(long),
        long@.len() != 1,
{
    opts.optflag(short, long, desc);
}

/// Relies on getopts::Options::optopt: registers an optional option
/// that takes an argument, under the given short and long names. The
/// same name check as `optflag` applies, with the same ASCII reading.
#[verifier::external_body]
fn optopt(opts: &mut getopts::Options, short: &str, long: &str, desc: &str, hint: &str)
    requires
        vstd::string::is_ascii(short),
        short@.len() <= 1,
        vstd::string::is_ascii(long),
        long@.len() != 1,
{
    opts.optopt(short, long, desc, hint);
}

/// Relies on getopts::Options::parse: matches the arguments against the
/// registered options, `Err` when the command line does not conform.
#[verifier::external_body]
fn parse_args(options: &GameOptions, args: &Vec<String>) -> Result<ParsedArgs, getopts::Fail> {
    match options.opts.parse(args) {
        Ok(matches) => Ok(ParsedArgs { matches }),
        Err(fail) => Err(fail),
    }
}

/// Relies on getopts::Fail: its five variants each carry the offending
/// name; each is moved to the library's matching cause.
#[verifier::external_body]
fn fail_cause(fail: getopts::Fail) -> ArgFailure {
    match fail {
        getopts::Fail::ArgumentMissing(s) => ArgFailure::ArgumentMissing(s),
        getopts::Fail::UnrecognizedOption(s) => ArgFailure::UnrecognizedOption(s),
        getopts::Fail::OptionMissing(s) => ArgFailure::OptionMissing(s),
        getopts::Fail::OptionDuplicated(s) => ArgFailure::OptionDuplicated(s),
        getopts::Fail::UnexpectedArgument(s) => ArgFailure::UnexpectedArgument(s),
    }
}

/// Relies on getopts::Matches::opt_present: whether a registered option
/// occurred; it panics on unregistered names, which `known_option`
/// rules out for a `ParsedArgs`.
#[verifier::external_body]
fn opt_present(parsed: &ParsedArgs, name: &str) -> bool
    requires
        known_option(name@),
{
    parsed.matches.opt_present(name)
}

/// Relies on getopts::Matches::opt_str: the argument given to a
/// registered option, if any; panics on unregistered names, which
/// `known_option` rules out for a `ParsedArgs`.
#[verifier::external_body]
fn opt_str(parsed: &ParsedArgs, name: &str) -> Option<String>
    requires
        known_option(name@),
{
    parsed.matches.opt_str(name)
}

/// Register the game's command-line options: the fullscreen flag and
/// the width, height, map and fps-limit options.
pub fn get_options() -> GameOptions {
    proof {
        reveal_strlit("f");
        reveal_strlit("fullscreen");
        reveal_strlit("w");
        reveal_strlit("width");
        reveal_strlit("h");
        reveal_strlit("height");
        reveal_strlit("m");
        reveal_strlit("map");
        reveal_strlit("l");
        reveal_strlit("limit-fps");
    }
    let mut opts = opts_new();
    optflag(&mut opts, "f", "fullscreen", "enable fullscreen mode");
    optopt(&mut opts, "w", "width", "set window width", "WIDTH");
    optopt(&mut opts, "h", "height", "set window height", "HEIGHT");
    optopt(&mut opts, "m", "map", "set the startup map by id", "MAP");
    optopt(&mut opts, "l", "limit-fps", "set max game fps [0 = unlimited]", "FPS");
    GameOptions { opts }
}

impl GameOptions {
    /// Match a command line against the game's options.
    pub fn parse(&self, args: &Vec<String>) -> Result<ParsedArgs, ArgFailure> {
        match parse_args(self, args) {
            Result::Ok(parsed) => Result::Ok(parsed),
            Result::Err(fail) => Result::Err(fail_cause(fail)),
        }
    }
}

impl ParsedArgs {
    /// The five option values as plain data: the flag state and the
    /// four optional numeric arguments, in registration order.
    pub fn option_values(&self) -> (bool, Option<String>, Option<String>, Option<String>, Option<
        String,
    >) {
        proof {
            reveal_strlit("f");
            reveal_strlit("w");
            reveal_strlit("h");
            reveal_strlit("m");
            reveal_strlit("l");
        }
        let fullscreen = opt_present(self, "f");
        let width = opt_str(self, "w");
        let height = opt_str(self, "h");
        let map = opt_str(self, "m");
        let fps = opt_str(self, "l");
        (fullscreen, width, height, map, fps)
    }
}

/// Read the matched options into game settings: present numeric values
/// must parse as decimal `u32`, absent ones keep their defaults. The
/// exact rule, over the plain option values, is the contract of
/// `settings_from_options`.
pub fn match_options(matches: &ParsedArgs) -> Result<GameSettings, SettingsError> {
    let (fullscreen, width, height, map, fps) = matches.option_values();
    settings_from_options(fullscreen, width, height, map, fps)
}

} // verus!
