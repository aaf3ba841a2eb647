use spotty::cli::lookup_variable;
use spotty::cli::read_options;
use spotty::cli::usage;
use spotty::report::get_version_string;
use spotty::report::logged_argument;
use spotty::report::logged_variable;
use spotty::report::logging_plan;
use spotty::report::LogWarning;

fn words(list: &[&str]) -> Vec<String> {
    list.iter().map(|s| s.to_string()).collect()
}

fn variables(list: &[(&str, &str)]) -> Vec<(String, String)> {
    list.iter().map(|(k, v)| (k.to_string(), v.to_string())).collect()
}

#[test]
fn nothing_given_means_nothing_set() {
    let c = read_options(&words(&[]), &variables(&[])).unwrap();
    assert!(!c.help);
    assert!(!c.version);
    assert!(!c.check);
    assert!(!c.quiet);
    assert!(!c.verbose);
    assert!(!c.enable_audio_cache);
    assert_eq!(c.username, None);
    assert_eq!(c.password, None);
    assert_eq!(c.start_position, None);
    assert_eq!(c.scope, None);
    assert_eq!(c.lms, None);
    assert_eq!(c.lms_auth, None);
    assert_eq!(c.player_mac, None);
    let o = c.options;
    assert!(!o.disable_audio_cache);
    assert!(!o.disable_discovery);
    assert!(!o.disable_gapless);
    assert!(!o.autoplay);
    assert!(!o.passthrough);
    assert!(!o.pass_through);
    assert!(!o.enable_volume_normalisation);
    assert!(!o.authenticate);
    assert!(!o.get_token);
    assert_eq!(o.name, None);
    assert_eq!(o.bitrate, None);
    assert_eq!(o.cache, None);
    assert_eq!(o.initial_volume, None);
    assert_eq!(o.normalisation_gain_type, None);
    assert_eq!(o.zeroconf_port, None);
    assert_eq!(o.proxy, None);
    assert_eq!(o.http_proxy, None);
    assert_eq!(o.ap_port, None);
    assert_eq!(o.single_track, None);
    assert_eq!(o.client_id, None);
    assert_eq!(o.save_token, None);
}

#[test]
fn long_options_are_read_from_the_command_line() {
    let args = words(&[
        "--name", "Kitchen", "--bitrate=320", "--cache", "/tmp/c", "--username", "alice",
        "--password", "pw", "--initial-volume", "40", "--normalisation-gain-type", "album",
        "--zeroconf-port", "5000", "--proxy", "http://p:1", "--ap-port", "443", "--single-track",
        "abc", "--start-position", "12.5", "--client-id", "cid", "--scope", "streaming",
        "--save-token", "tok", "--lms", "localhost:9000", "--lms-auth", "secret", "--player-mac",
        "00:11:22:33:44:55",
    ]);
    let c = read_options(&args, &variables(&[])).unwrap();
    assert_eq!(c.username, Some("alice".to_string()));
    assert_eq!(c.password, Some("pw".to_string()));
    assert_eq!(c.start_position, Some("12.5".to_string()));
    assert_eq!(c.scope, Some("streaming".to_string()));
    assert_eq!(c.lms, Some("localhost:9000".to_string()));
    assert_eq!(c.lms_auth, Some("secret".to_string()));
    assert_eq!(c.player_mac, Some("00:11:22:33:44:55".to_string()));
    let o = c.options;
    assert_eq!(o.name, Some("Kitchen".to_string()));
    assert_eq!(o.bitrate, Some("320".to_string()));
    assert_eq!(o.cache, Some("/tmp/c".to_string()));
    assert_eq!(o.initial_volume, Some("40".to_string()));
    assert_eq!(o.normalisation_gain_type, Some("album".to_string()));
    assert_eq!(o.zeroconf_port, Some("5000".to_string()));
    assert_eq!(o.proxy, Some("http://p:1".to_string()));
    assert_eq!(o.ap_port, Some("443".to_string()));
    assert_eq!(o.single_track, Some("abc".to_string()));
    assert_eq!(o.client_id, Some("cid".to_string()));
    assert_eq!(o.save_token, Some("tok".to_string()));
}

#[test]
fn flags_are_read_from_the_command_line() {
    let args = words(&[
        "--help", "--version", "--verbose", "--quiet", "--disable-audio-cache",
        "--enable-audio-cache", "--disable-discovery", "--disable-gapless", "--autoplay",
        "--passthrough", "--enable-volume-normalisation", "--authenticate", "--check",
        "--get-token", "--pass-through",
    ]);
    let c = read_options(&args, &variables(&[])).unwrap();
    assert!(c.help && c.version && c.verbose && c.quiet && c.check && c.enable_audio_cache);
    let o = c.options;
    assert!(o.disable_audio_cache && o.disable_discovery && o.disable_gapless && o.autoplay);
    assert!(o.passthrough && o.pass_through && o.enable_volume_normalisation);
    assert!(o.authenticate && o.get_token);
}

#[test]
fn short_options_are_read_from_the_command_line() {
    let args = words(&["-n", "Den", "-b", "96", "-u", "bob", "-p", "pw", "-O", "-a", "-vq", "-z7"]);
    let c = read_options(&args, &variables(&[])).unwrap();
    assert_eq!(c.username, Some("bob".to_string()));
    assert_eq!(c.password, Some("pw".to_string()));
    assert!(c.verbose && c.quiet);
    assert!(!c.help);
    assert_eq!(c.options.name, Some("Den".to_string()));
    assert_eq!(c.options.bitrate, Some("96".to_string()));
    assert_eq!(c.options.zeroconf_port, Some("7".to_string()));
    assert!(c.options.disable_discovery);
    assert!(c.options.authenticate);
}

#[test]
fn environment_stands_in_for_missing_options() {
    let env = variables(&[
        ("PATH", "/bin"),
        ("LIBRESPOT_NAME", "FromEnv"),
        ("LIBRESPOT_DISABLE_DISCOVERY", ""),
        ("LIBRESPOT_ZEROCONF_PORT", "1234"),
        ("LIBRESPOT_USERNAME", "carol"),
        ("librespot_bitrate", "96"),
        ("NAME", "Wrong"),
    ]);
    let c = read_options(&words(&[]), &env).unwrap();
    assert_eq!(c.options.name, Some("FromEnv".to_string()));
    assert!(c.options.disable_discovery);
    assert_eq!(c.options.zeroconf_port, Some("1234".to_string()));
    assert_eq!(c.username, Some("carol".to_string()));
    assert_eq!(c.options.bitrate, None);
    assert!(!c.options.autoplay);
}

#[test]
fn command_line_wins_over_environment() {
    let env = variables(&[("LIBRESPOT_NAME", "FromEnv"), ("LIBRESPOT_BITRATE", "96")]);
    let c = read_options(&words(&["--name", "FromArgs"]), &env).unwrap();
    assert_eq!(c.options.name, Some("FromArgs".to_string()));
    assert_eq!(c.options.bitrate, Some("96".to_string()));
}

#[test]
fn general_proxy_variable_is_kept_apart_from_the_option() {
    let env = variables(&[("http_proxy", "http://env:3128")]);
    let c = read_options(&words(&[]), &env).unwrap();
    assert_eq!(c.options.proxy, None);
    assert_eq!(c.options.http_proxy, Some("http://env:3128".to_string()));
    let env = variables(&[("HTTP_PROXY", "http://env:3128")]);
    let c = read_options(&words(&[]), &env).unwrap();
    assert_eq!(c.options.http_proxy, None);
}

#[test]
fn arguments_that_do_not_fit_are_refused() {
    let e = read_options(&words(&["--no-such-option"]), &variables(&[])).unwrap_err();
    assert_eq!(e.reason, "Unrecognized option: 'no-such-option'");
    let e = read_options(&words(&["--name"]), &variables(&[])).unwrap_err();
    assert_eq!(e.reason, "Argument to option 'name' missing");
    let e = read_options(&words(&["--help=yes"]), &variables(&[])).unwrap_err();
    assert_eq!(e.reason, "Option 'help' does not take an argument");
    let e = read_options(&words(&["-n", "a", "-n", "b"]), &variables(&[])).unwrap_err();
    assert_eq!(e.reason, "Option 'name' given more than once");
}

#[test]
fn free_arguments_are_accepted_and_ignored() {
    let c = read_options(&words(&["stray", "--autoplay", "--", "--help"]), &variables(&[])).unwrap();
    assert!(c.options.autoplay);
    assert!(!c.help);
}

#[test]
fn first_variable_of_a_name_is_found() {
    let env = variables(&[("A", "1"), ("B", "2"), ("A", "3")]);
    assert_eq!(lookup_variable(&env, "A"), Some("1".to_string()));
    assert_eq!(lookup_variable(&env, "B"), Some("2".to_string()));
    assert_eq!(lookup_variable(&env, "C"), None);
    assert_eq!(lookup_variable(&env, "a"), None);
    assert_eq!(lookup_variable(&variables(&[]), "A"), None);
}

#[test]
fn usage_names_the_program_and_every_option() {
    let text = usage("spotty");
    assert!(text.starts_with("Usage: spotty [options]\n\nOptions:\n"));
    for name in [
        "--help", "--version", "--verbose", "--quiet", "--disable-audio-cache",
        "--enable-audio-cache", "--disable-discovery", "--disable-gapless", "--autoplay",
        "--passthrough", "--enable-volume-normalisation", "--name", "--bitrate", "--cache",
        "--username", "--password", "--initial-volume", "--normalisation-gain-type",
        "--zeroconf-port", "--proxy", "--ap-port", "--authenticate", "--single-track",
        "--start-position", "--check", "--client-id", "--scope", "--get-token", "--save-token",
        "--pass-through", "--lms", "--lms-auth", "--player-mac",
    ] {
        assert!(text.contains(name), "{}", name);
    }
}

#[test]
fn version_line_is_put_together_in_order() {
    assert_eq!(
        get_version_string("spotty v1.3.1", "0.4.2", "abc1234", "2026-01-01", "XyZ", "release"),
        "spotty v1.3.1 - using librespot 0.4.2 abc1234 (Built on 2026-01-01, Build ID: XyZ, Profile: release)"
    );
    assert_eq!(
        get_version_string("", "", "", "", "", ""),
        " - using librespot   (Built on , Build ID: , Profile: )"
    );
}

#[test]
fn log_filters_follow_the_flags_without_environment() {
    let p = logging_plan(false, false, None);
    assert_eq!(p.filters, "libmdns=info,librespot=info,spotty=info");
    assert_eq!(p.warning, None);
    let p = logging_plan(true, false, None);
    assert_eq!(p.filters, "libmdns=warn,librespot=warn,spotty=warn");
    assert_eq!(p.warning, None);
    let p = logging_plan(false, true, None);
    assert_eq!(p.filters, "libmdns=info,librespot=trace,spotty=trace");
    assert_eq!(p.warning, None);
    let p = logging_plan(true, true, None);
    assert_eq!(p.filters, "libmdns=info,librespot=trace,spotty=trace");
    assert_eq!(p.warning, Some(LogWarning::VerboseAndQuiet));
}

#[test]
fn log_filters_of_the_environment_override_the_flags() {
    let p = logging_plan(false, false, Some("debug".to_string()));
    assert_eq!(p.filters, "debug");
    assert_eq!(p.warning, None);
    let p = logging_plan(true, false, Some("debug".to_string()));
    assert_eq!(p.filters, "debug");
    assert_eq!(p.warning, Some(LogWarning::QuietOverridden));
    let p = logging_plan(false, true, Some("".to_string()));
    assert_eq!(p.filters, "");
    assert_eq!(p.warning, Some(LogWarning::VerboseOverridden));
    let p = logging_plan(true, true, Some("x".to_string()));
    assert_eq!(p.warning, Some(LogWarning::VerboseOverridden));
}

#[test]
fn logged_variables_hide_credentials() {
    assert_eq!(logged_variable("LIBRESPOT_NAME", Some("Den")), Some("\t\tLIBRESPOT_NAME=Den".to_string()));
    assert_eq!(
        logged_variable("LIBRESPOT_PASSWORD", Some("hunter2")),
        Some("\t\tLIBRESPOT_PASSWORD=XXXXXXXX".to_string())
    );
    assert_eq!(
        logged_variable("LIBRESPOT_USERNAME", None),
        Some("\t\tLIBRESPOT_USERNAME=XXXXXXXX".to_string())
    );
    assert_eq!(logged_variable("LIBRESPOT_NAME", None), None);
    assert_eq!(logged_variable("PATH", Some("/bin")), None);
    assert_eq!(logged_variable("LIBRESPOT", Some("x")), None);
    assert_eq!(logged_variable("LIBRESPOT_", Some("")), Some("\t\tLIBRESPOT_=".to_string()));
}

#[test]
fn logged_arguments_hide_credentials() {
    let args = words(&["--name", "Den", "-p", "hunter2", "--autoplay", "--username", "bob", "-v"]);
    assert_eq!(logged_argument(&args, 0), Some("\t\t--name Den".to_string()));
    assert_eq!(logged_argument(&args, 1), None);
    assert_eq!(logged_argument(&args, 2), Some("\t\t-p XXXXXXXX".to_string()));
    assert_eq!(logged_argument(&args, 3), None);
    assert_eq!(logged_argument(&args, 4), Some("\t\t--autoplay ".to_string()));
    assert_eq!(logged_argument(&args, 5), Some("\t\t--username XXXXXXXX".to_string()));
    assert_eq!(logged_argument(&args, 6), None);
    assert_eq!(logged_argument(&args, 7), Some("\t\t-v ".to_string()));
}

#[test]
fn logged_argument_with_attached_value_is_shown_as_given() {
    let args = words(&["--bitrate=320", "-u", "-"]);
    assert_eq!(logged_argument(&args, 0), Some("\t\t--bitrate=320 ".to_string()));
    assert_eq!(logged_argument(&args, 1), Some("\t\t-u XXXXXXXX".to_string()));
    assert_eq!(logged_argument(&args, 2), Some("\t\t- ".to_string()));
}
