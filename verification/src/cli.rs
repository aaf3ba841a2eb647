//! The command line: which options there are, and what was given for each
//! of them on the command line or, failing that, in the environment.
//!
//! The command line itself is parsed by the `getopts` crate. An option that
//! is not given there is looked up in the environment, under the name that
//! [`arg_to_var`] gives it.

use crate::environment::arg_to_var;
use crate::environment::variable_name;
use crate::setup::OptionValues;
use crate::text::same_text;
use crate::text::uppercase_of;
use crate::text::arguments_view;
use crate::text::text_view;
use vstd::prelude::*;
use vstd::string::StringExecFns;

verus! {

/// The table of options of the `getopts` crate.
#[verifier::external_type_specification]
#[verifier::external_body]
pub struct ExOptionTable(getopts::Options);

/// The parsed command line of the `getopts` crate.
#[verifier::external_type_specification]
#[verifier::external_body]
pub struct ExMatches(getopts::Matches);

/// The error of the `getopts` crate for a command line that does not fit
/// the table.
#[verifier::external_type_specification]
#[verifier::external_body]
pub struct ExFail(getopts::Fail);

/// One option of a table.
pub struct OptionEntry {
    /// The name after one dash: empty or one character.
    pub short: Seq<char>,
    /// The name after two dashes: empty or longer than one character.
    pub long: Seq<char>,
    /// Whether the option takes a value.
    pub takes_value: bool,
    /// The description in the help text.
    pub desc: Seq<char>,
    /// What stands for the value in the help text.
    pub hint: Seq<char>,
}

/// The options that a table holds, in the order of their declaration.
pub uninterp spec fn declared(table: getopts::Options) -> Seq<OptionEntry>;

/// What a parsed command line holds: for every name that the table knows,
/// short or long, the occurrences of that option, each with its value if
/// it came with one.
pub uninterp spec fn matched(matches: getopts::Matches) -> Map<Seq<char>, Seq<Option<Seq<char>>>>;

/// What parsing the arguments against the declared options gives; nothing
/// where the arguments do not fit them.
pub uninterp spec fn parse_outcome(
    options: Seq<OptionEntry>,
    args: Seq<Seq<char>>,
) -> Option<Map<Seq<char>, Seq<Option<Seq<char>>>>>;

/// The entry of an option without a value.
pub open spec fn flag_entry(short: Seq<char>, long: Seq<char>, desc: Seq<char>) -> OptionEntry {
    OptionEntry { short, long, takes_value: false, desc, hint: Seq::<char>::empty() }
}

/// The entry of an option with a value.
pub open spec fn valued_entry(
    short: Seq<char>,
    long: Seq<char>,
    desc: Seq<char>,
    hint: Seq<char>,
) -> OptionEntry {
    OptionEntry { short, long, takes_value: true, desc, hint }
}

/// The help text that the `getopts` crate lays out for the declared
/// options below a first line.
pub uninterp spec fn usage_layout(options: Seq<OptionEntry>, brief: Seq<char>) -> Seq<char>;

/// Whether a short and a long name can be declared together: the short
/// name is empty or one ASCII character, the long name is empty or longer
/// than one character, and not both are empty.
pub open spec fn names_valid(short: Seq<char>, long: Seq<char>) -> bool {
    &&& short.len() == 0 || (short.len() == 1 && (short[0] as u32) < 128)
    &&& long.len() == 0 || long.len() > 1
    &&& short.len() > 0 || long.len() > 0
}

/// Whether every declared option has names that can be declared together.
pub open spec fn all_valid(options: Seq<OptionEntry>) -> bool {
    forall|i: int| 0 <= i < options.len() ==> names_valid(#[trigger] options[i].short, options[i].long)
}

/// Calls `Options::new` of the `getopts` crate: a table without options.
#[verifier::external_body]
fn new_table() -> (table: getopts::Options)
    ensures
        declared(table) == Seq::<OptionEntry>::empty(),
{
    getopts::Options::new()
}

/// Calls `Options::optflag` of the `getopts` crate: an option without a
/// value is appended to the table. The crate panics on a short name of
/// more than one byte and on a long name of one byte, which are left out.
#[verifier::external_body]
fn declare_flag(table: &mut getopts::Options, short: &str, long: &str, desc: &str)
    requires
        names_valid(short@, long@),
    ensures
        declared(*final(table)) == declared(*old(table)).push(flag_entry(short@, long@, desc@)),
{
    table.optflag(short, long, desc);
}

/// Calls `Options::optopt` of the `getopts` crate: an option with a value
/// is appended to the table. The crate panics on a short name of more than
/// one byte and on a long name of one byte, which are left out.
#[verifier::external_body]
fn declare_valued(table: &mut getopts::Options, short: &str, long: &str, desc: &str, hint: &str)
    requires
        names_valid(short@, long@),
    ensures
        declared(*final(table)) == declared(*old(table)).push(
            valued_entry(short@, long@, desc@, hint@),
        ),
{
    table.optopt(short, long, desc, hint);
}

/// Calls `Options::parse` of the `getopts` crate. What the parsed command
/// line holds is not spelled out here: it is named `parse_outcome`. The
/// crate panics on an option without any name, which is left out.
#[verifier::external_body]
fn parse_arguments(table: &getopts::Options, args: &Vec<String>) -> (parsed: Result<
    getopts::Matches,
    getopts::Fail,
>)
    requires
        all_valid(declared(*table)),
    ensures
        match parsed {
            Ok(m) => parse_outcome(declared(*table), arguments_view(args@)) == Some(matched(m)),
            Err(_) => parse_outcome(declared(*table), arguments_view(args@)) is None,
        },
{
    table.parse(args)
}

/// Calls `Matches::opt_defined` of the `getopts` crate: whether the table
/// knows the name.
#[verifier::external_body]
fn is_defined(matches: &getopts::Matches, name: &str) -> (known: bool)
    ensures
        known == matched(*matches).dom().contains(name@),
{
    matches.opt_defined(name)
}

/// Calls `Matches::opt_present` of the `getopts` crate: whether the option
/// occurred. The crate panics on a name that the table does not know, which
/// is left out.
#[verifier::external_body]
fn is_present(matches: &getopts::Matches, name: &str) -> (present: bool)
    requires
        matched(*matches).dom().contains(name@),
    ensures
        present == (matched(*matches)[name@].len() > 0),
{
    matches.opt_present(name)
}

/// Calls `Matches::opt_str` of the `getopts` crate: the value of the
/// option's first occurrence, if it occurred and came with one. The crate
/// panics on a name that the table does not know, which is left out.
#[verifier::external_body]
fn value_of(matches: &getopts::Matches, name: &str) -> (value: Option<String>)
    requires
        matched(*matches).dom().contains(name@),
    ensures
        text_view(value) == (if matched(*matches)[name@].len() > 0 {
            matched(*matches)[name@][0]
        } else {
            None
        }),
{
    matches.opt_str(name)
}

/// Calls `Options::usage` of the `getopts` crate, which lays out the help
/// text below the given first line. The layout is not spelled out here: it
/// is named `usage_layout`.
#[verifier::external_body]
fn usage_of(table: &getopts::Options, brief: &str) -> (text: String)
    ensures
        text@ == usage_layout(declared(*table), brief@),
{
    table.usage(brief)
}

/// Calls `to_string` on a `Fail` of the `getopts` crate: the error in
/// words. Nothing is claimed of the text.
#[verifier::external_body]
fn failure_text(failure: &getopts::Fail) -> (text: String) {
    failure.to_string()
}

/// Whether the option was given on a command line that holds `m`.
pub open spec fn given(m: Map<Seq<char>, Seq<Option<Seq<char>>>>, name: Seq<char>) -> bool {
    m.dom().contains(name) && m[name].len() > 0
}

/// The value that the option was first given with on a command line that
/// holds `m`.
pub open spec fn given_value(m: Map<Seq<char>, Seq<Option<Seq<char>>>>, name: Seq<char>) -> Option<
    Seq<char>,
> {
    if given(m, name) {
        m[name][0]
    } else {
        None
    }
}

/// What an environment holds: its variables, each with name and value.
pub open spec fn environment_view(env: Seq<(String, String)>) -> Seq<(Seq<char>, Seq<char>)> {
    env.map_values(|v: (String, String)| (v.0@, v.1@))
}

/// The value of the first variable of that name.
pub open spec fn variable_value(env: Seq<(Seq<char>, Seq<char>)>, name: Seq<char>) -> Option<
    Seq<char>,
>
    decreases env.len(),
{
    if env.len() == 0 {
        None
    } else if env[0].0 == name {
        Some(env[0].1)
    } else {
        variable_value(env.drop_first(), name)
    }
}

/// The value that the environment gives for an option.
pub open spec fn environment_value(env: Seq<(Seq<char>, Seq<char>)>, option: Seq<char>) -> Option<
    Seq<char>,
> {
    variable_value(env, variable_name(uppercase_of(option)))
}

/// Whether the option is set: on the command line or in the environment.
pub open spec fn option_present(
    m: Map<Seq<char>, Seq<Option<Seq<char>>>>,
    env: Seq<(Seq<char>, Seq<char>)>,
    option: Seq<char>,
) -> bool {
    given(m, option) || environment_value(env, option) is Some
}

/// The text of the option: what the command line gives it where it is
/// given there, else what the environment gives it.
pub open spec fn option_text(
    m: Map<Seq<char>, Seq<Option<Seq<char>>>>,
    env: Seq<(Seq<char>, Seq<char>)>,
    option: Seq<char>,
) -> Option<Seq<char>> {
    if given(m, option) {
        given_value(m, option)
    } else {
        environment_value(env, option)
    }
}

/// The value of a variable in a list of variables: that of the first of
/// that name.
pub fn lookup_variable(env: &Vec<(String, String)>, name: &str) -> (value: Option<String>)
    ensures
        text_view(value) == variable_value(environment_view(env@), name@),
{
    let ghost all = environment_view(env@);
    let n: usize = env.len();
    let mut i: usize = 0;
    proof {
        assert(all.skip(0) == all);
    }
    while i < n
        invariant
            n == env@.len(),
            i <= n,
            all == environment_view(env@),
            variable_value(all, name@) == variable_value(all.skip(i as int), name@),
        decreases n - i,
    {
        proof {
            assert(all.skip(i as int)[0] == (env@[i as int].0@, env@[i as int].1@));
            assert(all.skip(i as int).drop_first() == all.skip(i + 1));
        }
        if same_text(env[i].0.as_str(), name) {
            return Some(env[i].1.clone());
        }
        i = i + 1;
    }
    None
}

/// Whether the option was given on the command line.
pub fn on_command_line(matches: &getopts::Matches, option: &str) -> (yes: bool)
    ensures
        yes == given(matched(*matches), option@),
{
    is_defined(matches, option) && is_present(matches, option)
}

/// Whether the option is set, on the command line or in the environment.
pub fn opt_present(
    matches: &getopts::Matches,
    env: &Vec<(String, String)>,
    option: &str,
) -> (yes: bool)
    ensures
        yes == option_present(matched(*matches), environment_view(env@), option@),
{
    if on_command_line(matches, option) {
        true
    } else {
        let variable = arg_to_var(option);
        lookup_variable(env, variable.as_str()).is_some()
    }
}

/// The text of the option, from the command line or else from the
/// environment.
pub fn opt_str(
    matches: &getopts::Matches,
    env: &Vec<(String, String)>,
    option: &str,
) -> (value: Option<String>)
    ensures
        text_view(value) == option_text(matched(*matches), environment_view(env@), option@),
{
    if on_command_line(matches, option) {
        value_of(matches, option)
    } else {
        let variable = arg_to_var(option);
        lookup_variable(env, variable.as_str())
    }
}

/// The options of the program, in the order of their declaration.
pub open spec fn option_table() -> Seq<OptionEntry> {
    Seq::<OptionEntry>::empty()
        .push(flag_entry("h"@, "help"@, "Print this help menu."@))
        .push(flag_entry("V"@, "version"@, "Display librespot version string."@))
        .push(flag_entry("v"@, "verbose"@, "Enable verbose log output."@))
        .push(flag_entry("q"@, "quiet"@, "Only log warning and error messages."@))
        .push(flag_entry("G"@, "disable-audio-cache"@, "(Only here fore compatibility with librespot - audio cache is disabled by default)."@))
        .push(flag_entry(""@, "enable-audio-cache"@, "Enable caching of the audio data."@))
        .push(flag_entry("O"@, "disable-discovery"@, "Disable zeroconf discovery mode."@))
        .push(flag_entry("g"@, "disable-gapless"@, "Disable gapless playback."@))
        .push(flag_entry("A"@, "autoplay"@, "Automatically play similar songs when your music ends."@))
        .push(flag_entry("P"@, "passthrough"@, "Pass a raw stream to the output. Only works with the pipe and subprocess backends."@))
        .push(flag_entry("N"@, "enable-volume-normalisation"@, "Play all tracks at approximately the same apparent volume."@))
        .push(valued_entry("n"@, "name"@, "Device name. Defaults to Spotty."@, "NAME"@))
        .push(valued_entry("b"@, "bitrate"@, "Bitrate (kbps) {96|160|320}. Defaults to 160."@, "BITRATE"@))
        .push(valued_entry("c"@, "cache"@, "Path to a directory where files will be cached."@, "PATH"@))
        .push(valued_entry("u"@, "username"@, "Username used to sign in with."@, "USERNAME"@))
        .push(valued_entry("p"@, "password"@, "Password used to sign in with."@, "PASSWORD"@))
        .push(valued_entry("R"@, "initial-volume"@, "Initial volume in % from 0 - 100. Defaults to 50."@, "VOLUME"@))
        .push(valued_entry("W"@, "normalisation-gain-type"@, "Specify the normalisation gain type to use {track|album|auto}. Defaults to auto."@, "TYPE"@))
        .push(valued_entry("z"@, "zeroconf-port"@, "The port the internal server advertises over zeroconf 1 - 65535. Ports <= 1024 may require root privileges."@, "PORT"@))
        .push(valued_entry(""@, "proxy"@, "HTTP proxy to use when connecting."@, "URL"@))
        .push(valued_entry(""@, "ap-port"@, "Connect to an AP with a specified port 1 - 65535. If no AP with that port is present a fallback AP will be used. Available ports are usually 80, 443 and 4070."@, "PORT"@))
        .push(flag_entry("a"@, "authenticate"@, "Authenticate given username and password. Make sure you define a cache folder to store credentials."@))
        .push(valued_entry(""@, "single-track"@, "Play a single track ID and exit."@, "ID"@))
        .push(valued_entry(""@, "start-position"@, "Position (in seconds) where playback should be started. Only valid with the --single-track option."@, "STARTPOSITION"@))
        .push(flag_entry("x"@, "check"@, "Run quick internal check"@))
        .push(valued_entry("i"@, "client-id"@, "A Spotify client_id to be used to get the oauth token. Required with the --get-token request."@, "CLIENT_ID"@))
        .push(valued_entry(""@, "scope"@, "The scopes you want to have access to with the oauth token."@, "SCOPE"@))
        .push(flag_entry("t"@, "get-token"@, "Get oauth token to be used with the web API etc. and print it to the console."@))
        .push(valued_entry("T"@, "save-token"@, "Get oauth token to be used with the web API etc. and store it in the given file."@, "TOKENFILE"@))
        .push(flag_entry(""@, "pass-through"@, "Pass raw stream to output, only works for \"pipe\"."@))
        .push(valued_entry(""@, "lms"@, "hostname and port of Logitech Media Server instance (eg. localhost:9000)"@, "LMS"@))
        .push(valued_entry(""@, "lms-auth"@, "Authentication data to access Logitech Media Server"@, "LMSAUTH"@))
        .push(valued_entry(""@, "player-mac"@, "MAC address of the Squeezebox to be controlled"@, "MAC"@))
}

/// Appends an option without a value.
fn flag(table: &mut getopts::Options, short: &str, long: &str, desc: &str)
    requires
        names_valid(short@, long@),
        all_valid(declared(*old(table))),
    ensures
        declared(*final(table)) == declared(*old(table)).push(flag_entry(short@, long@, desc@)),
        all_valid(declared(*final(table))),
{
    declare_flag(table, short, long, desc);
}

/// Appends an option with a value.
fn valued(table: &mut getopts::Options, short: &str, long: &str, desc: &str, hint: &str)
    requires
        names_valid(short@, long@),
        all_valid(declared(*old(table))),
    ensures
        declared(*final(table)) == declared(*old(table)).push(
            valued_entry(short@, long@, desc@, hint@),
        ),
        all_valid(declared(*final(table))),
{
    declare_valued(table, short, long, desc, hint);
}

/// The names of the options, made known to the verifier.
proof fn reveal_names()
    ensures
        names_valid("h"@, "help"@),
        names_valid("V"@, "version"@),
        names_valid("v"@, "verbose"@),
        names_valid("q"@, "quiet"@),
        names_valid("G"@, "disable-audio-cache"@),
        names_valid(""@, "enable-audio-cache"@),
        names_valid("O"@, "disable-discovery"@),
        names_valid("g"@, "disable-gapless"@),
        names_valid("A"@, "autoplay"@),
        names_valid("P"@, "passthrough"@),
        names_valid("N"@, "enable-volume-normalisation"@),
        names_valid("n"@, "name"@),
        names_valid("b"@, "bitrate"@),
        names_valid("c"@, "cache"@),
        names_valid("u"@, "username"@),
        names_valid("p"@, "password"@),
        names_valid("R"@, "initial-volume"@),
        names_valid("W"@, "normalisation-gain-type"@),
        names_valid("z"@, "zeroconf-port"@),
        names_valid(""@, "proxy"@),
        names_valid(""@, "ap-port"@),
        names_valid("a"@, "authenticate"@),
        names_valid(""@, "single-track"@),
        names_valid(""@, "start-position"@),
        names_valid("x"@, "check"@),
        names_valid("i"@, "client-id"@),
        names_valid(""@, "scope"@),
        names_valid("t"@, "get-token"@),
        names_valid("T"@, "save-token"@),
        names_valid(""@, "pass-through"@),
        names_valid(""@, "lms"@),
        names_valid(""@, "lms-auth"@),
        names_valid(""@, "player-mac"@),
{
    reveal_strlit("h");
    reveal_strlit("help");
    reveal_strlit("V");
    reveal_strlit("version");
    reveal_strlit("v");
    reveal_strlit("verbose");
    reveal_strlit("q");
    reveal_strlit("quiet");
    reveal_strlit("G");
    reveal_strlit("disable-audio-cache");
    reveal_strlit("");
    reveal_strlit("enable-audio-cache");
    reveal_strlit("O");
    reveal_strlit("disable-discovery");
    reveal_strlit("g");
    reveal_strlit("disable-gapless");
    reveal_strlit("A");
    reveal_strlit("autoplay");
    reveal_strlit("P");
    reveal_strlit("passthrough");
    reveal_strlit("N");
    reveal_strlit("enable-volume-normalisation");
    reveal_strlit("n");
    reveal_strlit("name");
    reveal_strlit("b");
    reveal_strlit("bitrate");
    reveal_strlit("c");
    reveal_strlit("cache");
    reveal_strlit("u");
    reveal_strlit("username");
    reveal_strlit("p");
    reveal_strlit("password");
    reveal_strlit("R");
    reveal_strlit("initial-volume");
    reveal_strlit("W");
    reveal_strlit("normalisation-gain-type");
    reveal_strlit("z");
    reveal_strlit("zeroconf-port");
    reveal_strlit("proxy");
    reveal_strlit("ap-port");
    reveal_strlit("a");
    reveal_strlit("authenticate");
    reveal_strlit("single-track");
    reveal_strlit("start-position");
    reveal_strlit("x");
    reveal_strlit("check");
    reveal_strlit("i");
    reveal_strlit("client-id");
    reveal_strlit("scope");
    reveal_strlit("t");
    reveal_strlit("get-token");
    reveal_strlit("T");
    reveal_strlit("save-token");
    reveal_strlit("pass-through");
    reveal_strlit("lms");
    reveal_strlit("lms-auth");
    reveal_strlit("player-mac");
}

/// The table of the program's options.
fn declare_options() -> (table: getopts::Options)
    ensures
        declared(table) == option_table(),
        all_valid(declared(table)),
{
    proof {
        reveal_names();
    }
    let mut table = new_table();
    flag(&mut table, "h", "help", "Print this help menu.");
    flag(&mut table, "V", "version", "Display librespot version string.");
    flag(&mut table, "v", "verbose", "Enable verbose log output.");
    flag(&mut table, "q", "quiet", "Only log warning and error messages.");
    flag(&mut table, "G", "disable-audio-cache", "(Only here fore compatibility with librespot - audio cache is disabled by default).");
    flag(&mut table, "", "enable-audio-cache", "Enable caching of the audio data.");
    flag(&mut table, "O", "disable-discovery", "Disable zeroconf discovery mode.");
    flag(&mut table, "g", "disable-gapless", "Disable gapless playback.");
    flag(&mut table, "A", "autoplay", "Automatically play similar songs when your music ends.");
    flag(&mut table, "P", "passthrough", "Pass a raw stream to the output. Only works with the pipe and subprocess backends.");
    flag(&mut table, "N", "enable-volume-normalisation", "Play all tracks at approximately the same apparent volume.");
    valued(&mut table, "n", "name", "Device name. Defaults to Spotty.", "NAME");
    valued(&mut table, "b", "bitrate", "Bitrate (kbps) {96|160|320}. Defaults to 160.", "BITRATE");
    valued(&mut table, "c", "cache", "Path to a directory where files will be cached.", "PATH");
    valued(&mut table, "u", "username", "Username used to sign in with.", "USERNAME");
    valued(&mut table, "p", "password", "Password used to sign in with.", "PASSWORD");
    valued(&mut table, "R", "initial-volume", "Initial volume in % from 0 - 100. Defaults to 50.", "VOLUME");
    valued(&mut table, "W", "normalisation-gain-type", "Specify the normalisation gain type to use {track|album|auto}. Defaults to auto.", "TYPE");
    valued(&mut table, "z", "zeroconf-port", "The port the internal server advertises over zeroconf 1 - 65535. Ports <= 1024 may require root privileges.", "PORT");
    valued(&mut table, "", "proxy", "HTTP proxy to use when connecting.", "URL");
    valued(&mut table, "", "ap-port", "Connect to an AP with a specified port 1 - 65535. If no AP with that port is present a fallback AP will be used. Available ports are usually 80, 443 and 4070.", "PORT");
    flag(&mut table, "a", "authenticate", "Authenticate given username and password. Make sure you define a cache folder to store credentials.");
    valued(&mut table, "", "single-track", "Play a single track ID and exit.", "ID");
    valued(&mut table, "", "start-position", "Position (in seconds) where playback should be started. Only valid with the --single-track option.", "STARTPOSITION");
    flag(&mut table, "x", "check", "Run quick internal check");
    valued(&mut table, "i", "client-id", "A Spotify client_id to be used to get the oauth token. Required with the --get-token request.", "CLIENT_ID");
    valued(&mut table, "", "scope", "The scopes you want to have access to with the oauth token.", "SCOPE");
    flag(&mut table, "t", "get-token", "Get oauth token to be used with the web API etc. and print it to the console.");
    valued(&mut table, "T", "save-token", "Get oauth token to be used with the web API etc. and store it in the given file.", "TOKENFILE");
    flag(&mut table, "", "pass-through", "Pass raw stream to output, only works for \"pipe\".");
    valued(&mut table, "", "lms", "hostname and port of Logitech Media Server instance (eg. localhost:9000)", "LMS");
    valued(&mut table, "", "lms-auth", "Authentication data to access Logitech Media Server", "LMSAUTH");
    valued(&mut table, "", "player-mac", "MAC address of the Squeezebox to be controlled", "MAC");
    table
}

/// What was given for each option.
#[derive(Debug)]
pub struct CommandLine {
    pub help: bool,
    pub version: bool,
    pub verbose: bool,
    pub quiet: bool,
    pub enable_audio_cache: bool,
    pub username: Option<String>,
    pub password: Option<String>,
    pub start_position: Option<String>,
    pub check: bool,
    pub scope: Option<String>,
    pub lms: Option<String>,
    pub lms_auth: Option<String>,
    pub player_mac: Option<String>,
    /// The options that the settings of a run are made of.
    pub options: OptionValues,
}

/// Whether `c` holds, for each option, what a command line that holds `m`
/// and the environment `env` give for it.
pub open spec fn command_line_of(
    c: CommandLine,
    m: Map<Seq<char>, Seq<Option<Seq<char>>>>,
    env: Seq<(Seq<char>, Seq<char>)>,
) -> bool {
    &&& c.help == option_present(m, env, "help"@)
    &&& c.version == option_present(m, env, "version"@)
    &&& c.verbose == option_present(m, env, "verbose"@)
    &&& c.quiet == option_present(m, env, "quiet"@)
    &&& c.options.disable_audio_cache == option_present(m, env, "disable-audio-cache"@)
    &&& c.enable_audio_cache == option_present(m, env, "enable-audio-cache"@)
    &&& c.options.disable_discovery == option_present(m, env, "disable-discovery"@)
    &&& c.options.disable_gapless == option_present(m, env, "disable-gapless"@)
    &&& c.options.autoplay == option_present(m, env, "autoplay"@)
    &&& c.options.passthrough == option_present(m, env, "passthrough"@)
    &&& c.options.enable_volume_normalisation == option_present(m, env, "enable-volume-normalisation"@)
    &&& text_view(c.options.name) == option_text(m, env, "name"@)
    &&& text_view(c.options.bitrate) == option_text(m, env, "bitrate"@)
    &&& text_view(c.options.cache) == option_text(m, env, "cache"@)
    &&& text_view(c.username) == option_text(m, env, "username"@)
    &&& text_view(c.password) == option_text(m, env, "password"@)
    &&& text_view(c.options.initial_volume) == option_text(m, env, "initial-volume"@)
    &&& text_view(c.options.normalisation_gain_type) == option_text(m, env, "normalisation-gain-type"@)
    &&& text_view(c.options.zeroconf_port) == option_text(m, env, "zeroconf-port"@)
    &&& text_view(c.options.proxy) == option_text(m, env, "proxy"@)
    &&& text_view(c.options.ap_port) == option_text(m, env, "ap-port"@)
    &&& c.options.authenticate == option_present(m, env, "authenticate"@)
    &&& text_view(c.options.single_track) == option_text(m, env, "single-track"@)
    &&& text_view(c.start_position) == option_text(m, env, "start-position"@)
    &&& c.check == option_present(m, env, "check"@)
    &&& text_view(c.options.client_id) == option_text(m, env, "client-id"@)
    &&& text_view(c.scope) == option_text(m, env, "scope"@)
    &&& c.options.get_token == option_present(m, env, "get-token"@)
    &&& text_view(c.options.save_token) == option_text(m, env, "save-token"@)
    &&& c.options.pass_through == option_present(m, env, "pass-through"@)
    &&& text_view(c.lms) == option_text(m, env, "lms"@)
    &&& text_view(c.lms_auth) == option_text(m, env, "lms-auth"@)
    &&& text_view(c.player_mac) == option_text(m, env, "player-mac"@)
    &&& text_view(c.options.http_proxy) == variable_value(env, "http_proxy"@)
}

/// Gathers what was given for each option from a parsed command line and
/// the environment.
pub fn gather_options(matches: &getopts::Matches, env: &Vec<(String, String)>) -> (c: CommandLine)
    ensures
        command_line_of(c, matched(*matches), environment_view(env@)),
{
    let http_proxy = lookup_variable(env, "http_proxy");
    let options = OptionValues {
        disable_audio_cache: opt_present(matches, env, "disable-audio-cache"),
        disable_discovery: opt_present(matches, env, "disable-discovery"),
        disable_gapless: opt_present(matches, env, "disable-gapless"),
        autoplay: opt_present(matches, env, "autoplay"),
        passthrough: opt_present(matches, env, "passthrough"),
        pass_through: opt_present(matches, env, "pass-through"),
        enable_volume_normalisation: opt_present(matches, env, "enable-volume-normalisation"),
        authenticate: opt_present(matches, env, "authenticate"),
        get_token: opt_present(matches, env, "get-token"),
        name: opt_str(matches, env, "name"),
        bitrate: opt_str(matches, env, "bitrate"),
        cache: opt_str(matches, env, "cache"),
        initial_volume: opt_str(matches, env, "initial-volume"),
        normalisation_gain_type: opt_str(matches, env, "normalisation-gain-type"),
        zeroconf_port: opt_str(matches, env, "zeroconf-port"),
        proxy: opt_str(matches, env, "proxy"),
        ap_port: opt_str(matches, env, "ap-port"),
        single_track: opt_str(matches, env, "single-track"),
        client_id: opt_str(matches, env, "client-id"),
        save_token: opt_str(matches, env, "save-token"),
        http_proxy,
    };
    CommandLine {
        help: opt_present(matches, env, "help"),
        version: opt_present(matches, env, "version"),
        verbose: opt_present(matches, env, "verbose"),
        quiet: opt_present(matches, env, "quiet"),
        enable_audio_cache: opt_present(matches, env, "enable-audio-cache"),
        username: opt_str(matches, env, "username"),
        password: opt_str(matches, env, "password"),
        start_position: opt_str(matches, env, "start-position"),
        check: opt_present(matches, env, "check"),
        scope: opt_str(matches, env, "scope"),
        lms: opt_str(matches, env, "lms"),
        lms_auth: opt_str(matches, env, "lms-auth"),
        player_mac: opt_str(matches, env, "player-mac"),
        options,
    }
}

/// A command line that does not fit the options.
#[derive(Debug)]
pub struct CommandLineError {
    /// What is wrong, in words.
    pub reason: String,
}

/// Reads the command line and the environment. `args` are the arguments
/// after the program's name, `env` the variables of the environment that
/// hold text. Fails where the arguments do not fit the options.
pub fn read_options(args: &Vec<String>, env: &Vec<(String, String)>) -> (result: Result<
    CommandLine,
    CommandLineError,
>)
    ensures
        match result {
            Ok(c) => {
                let outcome = parse_outcome(option_table(), arguments_view(args@));
                outcome is Some && command_line_of(c, outcome->0, environment_view(env@))
            },
            Err(_) => parse_outcome(option_table(), arguments_view(args@)) is None,
        },
{
    let table = declare_options();
    match parse_arguments(&table, args) {
        Ok(matches) => Ok(gather_options(&matches, env)),
        Err(failure) => Err(CommandLineError { reason: failure_text(&failure) }),
    }
}

/// The help text: a first line that names the program, then the options
/// as the `getopts` crate lays them out.
pub fn usage(program: &str) -> (text: String)
    ensures
        text@ == usage_layout(option_table(), "Usage: "@ + program@ + " [options]"@),
{
    let table = declare_options();
    let brief = String::from_str("Usage: ").concat(program).concat(" [options]");
    usage_of(&table, brief.as_str())
}

} // verus!
