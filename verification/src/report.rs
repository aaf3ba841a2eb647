//! What the program says about itself and about how it was started: the
//! version line, the choice of log filters, and the lines that record the
//! options given, with credentials left out.

use crate::text::arguments_view;
use crate::text::has_prefix;
use crate::text::same_text;
use crate::text::starts_with;
use crate::text::starts_with_char;
use vstd::prelude::*;
use vstd::string::StringExecFns;

verus! {

/// The line that tells the version of the program and of the streaming
/// library it was built with.
pub open spec fn version_line(
    program: Seq<char>,
    semver: Seq<char>,
    sha: Seq<char>,
    build_date: Seq<char>,
    build_id: Seq<char>,
    profile: Seq<char>,
) -> Seq<char> {
    program + " - using librespot "@ + semver + " "@ + sha + " (Built on "@ + build_date
        + ", Build ID: "@ + build_id + ", Profile: "@ + profile + ")"@
}

/// Puts the version line together.
pub fn get_version_string(
    program: &str,
    semver: &str,
    sha: &str,
    build_date: &str,
    build_id: &str,
    profile: &str,
) -> (line: String)
    ensures
        line@ == version_line(program@, semver@, sha@, build_date@, build_id@, profile@),
{
    String::from_str(program).concat(" - using librespot ").concat(semver).concat(" ").concat(
        sha,
    ).concat(" (Built on ").concat(build_date).concat(", Build ID: ").concat(build_id).concat(
        ", Profile: ",
    ).concat(profile).concat(")")
}

/// A remark on the logging options that is logged once logging is set up.
#[derive(Clone, Copy, Debug, PartialEq, Eq, Structural)]
pub enum LogWarning {
    /// Verbose was asked for, but the environment's filters take its place.
    VerboseOverridden,
    /// Quiet was asked for, but the environment's filters take its place.
    QuietOverridden,
    /// Both verbose and quiet were asked for; verbose is used.
    VerboseAndQuiet,
}

/// How logging is set up.
#[derive(Debug)]
pub struct LogPlan {
    /// The filters handed to the logger.
    pub filters: String,
    /// What to warn of afterwards, if anything.
    pub warning: Option<LogWarning>,
}

/// The filters used where the environment gives none: verbose before
/// quiet, and otherwise the usual level.
pub open spec fn default_filters(quiet: bool, verbose: bool) -> Seq<char> {
    if verbose {
        "libmdns=info,librespot=trace,spotty=trace"@
    } else if quiet {
        "libmdns=warn,librespot=warn,spotty=warn"@
    } else {
        "libmdns=info,librespot=info,spotty=info"@
    }
}

/// The remark that goes with the logging options.
pub open spec fn log_warning(quiet: bool, verbose: bool, from_environment: bool) -> Option<
    LogWarning,
> {
    if from_environment {
        if verbose {
            Some(LogWarning::VerboseOverridden)
        } else if quiet {
            Some(LogWarning::QuietOverridden)
        } else {
            None
        }
    } else if verbose && quiet {
        Some(LogWarning::VerboseAndQuiet)
    } else {
        None
    }
}

/// Decides how logging is set up. Filters named by the environment are
/// used as they are and override the two flags; without them the flags
/// choose among three fixed sets of filters.
pub fn logging_plan(quiet: bool, verbose: bool, environment: Option<String>) -> (plan: LogPlan)
    ensures
        plan.filters@ == (match environment {
            Some(filters) => filters@,
            None => default_filters(quiet, verbose),
        }),
        plan.warning == log_warning(quiet, verbose, environment is Some),
{
    match environment {
        Some(filters) => {
            let warning = if verbose {
                Some(LogWarning::VerboseOverridden)
            } else if quiet {
                Some(LogWarning::QuietOverridden)
            } else {
                None
            };
            LogPlan { filters, warning }
        },
        None => {
            let filters = if verbose {
                String::from_str("libmdns=info,librespot=trace,spotty=trace")
            } else if quiet {
                String::from_str("libmdns=warn,librespot=warn,spotty=warn")
            } else {
                String::from_str("libmdns=info,librespot=info,spotty=info")
            };
            let warning = if verbose && quiet {
                Some(LogWarning::VerboseAndQuiet)
            } else {
                None
            };
            LogPlan { filters, warning }
        },
    }
}

/// Whether an environment variable holds a credential.
pub open spec fn is_secret_variable(key: Seq<char>) -> bool {
    key == "LIBRESPOT_PASSWORD"@ || key == "LIBRESPOT_USERNAME"@
}

/// The line that records an environment variable: only variables of this
/// program are recorded, a credential with its value masked, any other
/// with its value if that is text.
pub open spec fn variable_line(key: Seq<char>, value: Option<Seq<char>>) -> Option<Seq<char>> {
    if !has_prefix(key, "LIBRESPOT_"@) {
        None
    } else if is_secret_variable(key) {
        Some("\t\t"@ + key + "=XXXXXXXX"@)
    } else {
        match value {
            Some(v) => Some("\t\t"@ + key + "="@ + v),
            None => None,
        }
    }
}

/// The line that records an environment variable, if it is to be recorded.
/// `value` is absent where the variable's value is no text.
pub fn logged_variable(key: &str, value: Option<&str>) -> (line: Option<String>)
    ensures
        match line {
            Some(l) => variable_line(
                key@,
                match value {
                    Some(v) => Some(v@),
                    None => None,
                },
            ) == Some(l@),
            None => variable_line(
                key@,
                match value {
                    Some(v) => Some(v@),
                    None => None,
                },
            ) is None,
        },
{
    if !starts_with(key, "LIBRESPOT_") {
        None
    } else if same_text(key, "LIBRESPOT_PASSWORD") || same_text(key, "LIBRESPOT_USERNAME") {
        Some(String::from_str("\t\t").concat(key).concat("=XXXXXXXX"))
    } else {
        match value {
            Some(v) => Some(String::from_str("\t\t").concat(key).concat("=").concat(v)),
            None => None,
        }
    }
}

/// Whether an argument begins like an option.
pub open spec fn is_option(arg: Seq<char>) -> bool {
    arg.len() > 0 && arg[0] == '-'
}

/// Whether an argument is one of the options that take a credential.
pub open spec fn is_secret_option(arg: Seq<char>) -> bool {
    arg == "--password"@ || arg == "-p"@ || arg == "--username"@ || arg == "-u"@
}

/// The line that records the argument at `index`: nothing for an argument
/// that is no option; the option with its value masked where it takes a
/// credential; otherwise the option and, if the next argument is no option,
/// that argument as its value.
pub open spec fn argument_line(args: Seq<Seq<char>>, index: int) -> Option<Seq<char>> {
    let key = args[index];
    if !is_option(key) {
        None
    } else if is_secret_option(key) {
        Some("\t\t"@ + key + " XXXXXXXX"@)
    } else if index + 1 < args.len() && !is_option(args[index + 1]) {
        Some("\t\t"@ + key + " "@ + args[index + 1])
    } else {
        Some("\t\t"@ + key + " "@)
    }
}

/// The line that records the argument at `index`, if it is to be recorded.
pub fn logged_argument(args: &Vec<String>, index: usize) -> (line: Option<String>)
    requires
        index < args@.len(),
    ensures
        match line {
            Some(l) => argument_line(arguments_view(args@), index as int) == Some(l@),
            None => argument_line(arguments_view(args@), index as int) is None,
        },
{
    let n: usize = args.len();
    let key = args[index].as_str();
    if !starts_with_char(key, '-') {
        None
    } else if same_text(key, "--password") || same_text(key, "-p") || same_text(key, "--username")
        || same_text(key, "-u") {
        Some(String::from_str("\t\t").concat(key).concat(" XXXXXXXX"))
    } else if index + 1 < n && !starts_with_char(args[index + 1].as_str(), '-') {
        Some(String::from_str("\t\t").concat(key).concat(" ").concat(args[index + 1].as_str()))
    } else {
        let line = String::from_str("\t\t").concat(key).concat(" ");
        Some(line)
    }
}

} // verus!
