use spotty::identity::device_id;
use spotty::proxy::check_proxy;
use spotty::proxy::check_proxy_parts;
use spotty::proxy::ProxyError;
use spotty::proxy::UrlParts;
use spotty::setup::build_setup;
use spotty::setup::gain_type_from_lower;
use spotty::setup::parse_bitrate;
use spotty::setup::parse_gain_type;
use spotty::setup::wants_audio_cache;
use spotty::setup::wants_discovery;
use spotty::setup::Bitrate;
use spotty::setup::InitialVolume;
use spotty::setup::NormalisationType;
use spotty::setup::OptionValues;
use spotty::setup::Setup;
use spotty::setup::SetupError;

fn no_options() -> OptionValues {
    OptionValues {
        disable_audio_cache: false,
        disable_discovery: false,
        disable_gapless: false,
        autoplay: false,
        passthrough: false,
        pass_through: false,
        enable_volume_normalisation: false,
        authenticate: false,
        get_token: false,
        name: None,
        bitrate: None,
        cache: None,
        initial_volume: None,
        normalisation_gain_type: None,
        zeroconf_port: None,
        proxy: None,
        http_proxy: None,
        ap_port: None,
        single_track: None,
        client_id: None,
        save_token: None,
    }
}

fn text(s: &str) -> Option<String> {
    Some(s.to_string())
}

fn built(o: &OptionValues) -> Result<Setup, SetupError> {
    build_setup(o, true, None, "Spotty", "0123456789abcdef")
}

#[test]
fn bitrates_are_three() {
    assert_eq!(parse_bitrate("96"), Some(Bitrate::Bitrate96));
    assert_eq!(parse_bitrate("160"), Some(Bitrate::Bitrate160));
    assert_eq!(parse_bitrate("320"), Some(Bitrate::Bitrate320));
    assert_eq!(parse_bitrate("128"), None);
    assert_eq!(parse_bitrate(""), None);
    assert_eq!(parse_bitrate("0320"), None);
    assert_eq!(parse_bitrate("320k"), None);
}

#[test]
fn gain_types_are_read_in_any_case() {
    assert_eq!(parse_gain_type("album"), Some(NormalisationType::Album));
    assert_eq!(parse_gain_type("Track"), Some(NormalisationType::Track));
    assert_eq!(parse_gain_type("AUTO"), Some(NormalisationType::Auto));
    assert_eq!(parse_gain_type("loud"), None);
    assert_eq!(parse_gain_type(""), None);
    assert_eq!(gain_type_from_lower("auto"), Some(NormalisationType::Auto));
    assert_eq!(gain_type_from_lower("AUTO"), None);
}

#[test]
fn http_proxy_with_host_and_port_is_accepted() {
    assert_eq!(check_proxy("http://localhost:8080"), Ok(()));
    assert_eq!(check_proxy("http://proxy.example.com"), Ok(()));
    assert_eq!(check_proxy("HTTP://10.0.0.1:3128/"), Ok(()));
}

#[test]
fn proxy_that_is_no_url_is_refused() {
    assert_eq!(check_proxy("not a url"), Err(ProxyError::Unparsable));
    assert_eq!(check_proxy(""), Err(ProxyError::Unparsable));
    assert_eq!(check_proxy("http://"), Err(ProxyError::Unparsable));
}

#[test]
fn proxy_without_host_or_port_is_refused() {
    assert_eq!(check_proxy("localhost:8080"), Err(ProxyError::NoHostOrPort));
    assert_eq!(check_proxy("mailto:someone@example.com"), Err(ProxyError::NoHostOrPort));
    assert_eq!(check_proxy("socks5://example.com"), Err(ProxyError::NoHostOrPort));
}

#[test]
fn proxy_with_another_scheme_is_refused() {
    assert_eq!(check_proxy("https://example.com"), Err(ProxyError::NotHttp));
    assert_eq!(check_proxy("socks5://example.com:1080"), Err(ProxyError::NotHttp));
}

#[test]
fn proxy_parts_are_judged_host_and_port_first() {
    let parts = UrlParts { scheme: "ftp".to_string(), host: None, port: Some(21) };
    assert_eq!(check_proxy_parts(&parts), Err(ProxyError::NoHostOrPort));
    let parts = UrlParts { scheme: "http".to_string(), host: Some("h".to_string()), port: None };
    assert_eq!(check_proxy_parts(&parts), Err(ProxyError::NoHostOrPort));
    let parts = UrlParts { scheme: "ftp".to_string(), host: Some("h".to_string()), port: Some(21) };
    assert_eq!(check_proxy_parts(&parts), Err(ProxyError::NotHttp));
    let parts = UrlParts { scheme: "http".to_string(), host: Some("h".to_string()), port: Some(80) };
    assert_eq!(check_proxy_parts(&parts), Ok(()));
}

#[test]
fn discovery_runs_unless_switched_off_or_a_one_shot_run() {
    assert!(wants_discovery(&no_options()));
    assert!(!wants_discovery(&OptionValues { disable_discovery: true, ..no_options() }));
    assert!(!wants_discovery(&OptionValues { single_track: text("track"), ..no_options() }));
    assert!(!wants_discovery(&OptionValues { get_token: true, ..no_options() }));
    assert!(!wants_discovery(&OptionValues { save_token: text("file"), ..no_options() }));
    assert!(!wants_discovery(&OptionValues { save_token: text(""), ..no_options() }));
}

#[test]
fn defaults_without_any_option() {
    let s = built(&no_options()).unwrap();
    assert_eq!(s.name, "Spotty");
    assert_eq!(s.device_id, device_id("Spotty"));
    assert!(s.enable_discovery);
    assert_eq!(s.zeroconf_port, 0);
    assert!(!s.zeroconf_port_ignored);
    assert_eq!(s.initial_volume, InitialVolume::Unset);
    assert!(!s.autoplay);
    assert_eq!(s.proxy, None);
    assert_eq!(s.ap_port, None);
    assert_eq!(s.bitrate, Bitrate::Bitrate160);
    assert!(s.gapless);
    assert!(!s.passthrough);
    assert!(!s.normalisation);
    assert_eq!(s.normalisation_type, NormalisationType::Auto);
    assert!(!s.normalisation_options_ignored);
    assert!(s.connect_mode);
    assert!(!s.audio_cache);
    assert!(!s.authenticate);
    assert!(!s.get_token);
    assert_eq!(s.save_token, None);
    assert_eq!(s.client_id, text("0123456789abcdef"));
}

#[test]
fn every_option_is_taken_over() {
    let o = OptionValues {
        disable_audio_cache: false,
        disable_discovery: false,
        disable_gapless: true,
        autoplay: true,
        passthrough: false,
        pass_through: true,
        enable_volume_normalisation: true,
        authenticate: true,
        get_token: false,
        name: text("Kitchen"),
        bitrate: text("320"),
        cache: text("/var/cache/spotty"),
        initial_volume: text("75"),
        normalisation_gain_type: text("Album"),
        zeroconf_port: text("5353"),
        proxy: text("http://proxy:3128"),
        http_proxy: text("http://other:1"),
        ap_port: text("443"),
        single_track: None,
        client_id: text("my-client"),
        save_token: None,
    };
    let s = build_setup(&o, false, Some(1000), "Spotty", "default-client").unwrap();
    assert_eq!(s.name, "Kitchen");
    assert_eq!(s.device_id, device_id("Kitchen"));
    assert!(s.enable_discovery);
    assert_eq!(s.zeroconf_port, 5353);
    assert_eq!(s.initial_volume, InitialVolume::Percent(75));
    assert!(s.autoplay);
    assert_eq!(s.proxy, text("http://proxy:3128"));
    assert_eq!(s.ap_port, Some(443));
    assert_eq!(s.bitrate, Bitrate::Bitrate320);
    assert!(!s.gapless);
    assert!(s.passthrough);
    assert!(s.normalisation);
    assert_eq!(s.normalisation_type, NormalisationType::Album);
    assert!(s.audio_cache);
    assert!(s.authenticate);
    assert_eq!(s.client_id, text("my-client"));
}

#[test]
fn remembered_volume_is_used_when_none_is_given() {
    let s = build_setup(&no_options(), true, Some(32767), "Spotty", "id").unwrap();
    assert_eq!(s.initial_volume, InitialVolume::Stored(32767));
    let o = OptionValues { initial_volume: text("0"), ..no_options() };
    let s = build_setup(&o, true, Some(32767), "Spotty", "id").unwrap();
    assert_eq!(s.initial_volume, InitialVolume::Percent(0));
}

#[test]
fn environment_proxy_stands_in_for_the_option() {
    let o = OptionValues { http_proxy: text("http://envproxy:8080"), ..no_options() };
    assert_eq!(built(&o).unwrap().proxy, text("http://envproxy:8080"));
    let o = OptionValues { http_proxy: text("ftp://envproxy"), ..no_options() };
    assert_eq!(built(&o).unwrap_err(), SetupError::InvalidProxy(ProxyError::NotHttp));
    let o = OptionValues { proxy: text("http://p:1"), http_proxy: text("nonsense"), ..no_options() };
    assert_eq!(built(&o).unwrap().proxy, text("http://p:1"));
}

#[test]
fn one_shot_runs_switch_discovery_and_connect_mode() {
    let o = OptionValues { single_track: text("4uLU6hMCjMI75M1A2tKUQC"), ..no_options() };
    let s = built(&o).unwrap();
    assert!(!s.enable_discovery);
    assert!(!s.connect_mode);
    assert!(!s.get_token);
    let o = OptionValues { get_token: true, ..no_options() };
    let s = built(&o).unwrap();
    assert!(!s.enable_discovery);
    assert!(s.connect_mode);
    assert!(s.get_token);
}

#[test]
fn token_file_asks_for_a_token_unless_its_name_is_empty() {
    let o = OptionValues { save_token: text("token.json"), ..no_options() };
    let s = built(&o).unwrap();
    assert!(s.get_token);
    assert_eq!(s.save_token, text("token.json"));
    assert!(!s.enable_discovery);
    let o = OptionValues { save_token: text(""), ..no_options() };
    let s = built(&o).unwrap();
    assert!(!s.get_token);
    assert_eq!(s.save_token, None);
    assert!(!s.enable_discovery);
}

#[test]
fn empty_client_id_counts_as_none() {
    let o = OptionValues { client_id: text(""), ..no_options() };
    assert_eq!(built(&o).unwrap().client_id, None);
    let s = build_setup(&no_options(), true, None, "Spotty", "").unwrap();
    assert_eq!(s.client_id, None);
}

#[test]
fn audio_cache_needs_a_cache_directory_and_no_veto() {
    let o = OptionValues { cache: text("/tmp/c"), ..no_options() };
    assert!(built(&o).unwrap().audio_cache);
    let o = OptionValues { cache: text("/tmp/c"), disable_audio_cache: true, ..no_options() };
    assert!(!built(&o).unwrap().audio_cache);
    let o = OptionValues { disable_audio_cache: false, ..no_options() };
    assert!(!built(&o).unwrap().audio_cache);
}

#[test]
fn credentials_are_required_without_discovery() {
    let o = OptionValues { disable_discovery: true, ..no_options() };
    assert_eq!(
        build_setup(&o, false, None, "Spotty", "id").unwrap_err(),
        SetupError::CredentialsRequired
    );
    assert!(build_setup(&o, true, None, "Spotty", "id").is_ok());
    assert!(build_setup(&no_options(), false, None, "Spotty", "id").is_ok());
}

#[test]
fn discovery_port_is_checked_only_where_discovery_runs() {
    let o = OptionValues { zeroconf_port: text("0"), ..no_options() };
    assert_eq!(built(&o).unwrap_err(), SetupError::InvalidZeroconfPort);
    let o = OptionValues { zeroconf_port: text("port"), ..no_options() };
    assert_eq!(built(&o).unwrap_err(), SetupError::InvalidZeroconfPort);
    let o = OptionValues { zeroconf_port: text("port"), disable_discovery: true, ..no_options() };
    let s = built(&o).unwrap();
    assert_eq!(s.zeroconf_port, 0);
    assert!(s.zeroconf_port_ignored);
}

#[test]
fn each_refused_option_has_its_error() {
    let o = OptionValues { initial_volume: text("101"), ..no_options() };
    assert_eq!(built(&o).unwrap_err(), SetupError::InvalidInitialVolume);
    let o = OptionValues { proxy: text("::"), ..no_options() };
    assert_eq!(built(&o).unwrap_err(), SetupError::InvalidProxy(ProxyError::Unparsable));
    let o = OptionValues { proxy: text("data:text"), ..no_options() };
    assert_eq!(built(&o).unwrap_err(), SetupError::InvalidProxy(ProxyError::NoHostOrPort));
    let o = OptionValues { ap_port: text("0"), ..no_options() };
    assert_eq!(built(&o).unwrap_err(), SetupError::InvalidApPort);
    let o = OptionValues { bitrate: text("128"), ..no_options() };
    assert_eq!(built(&o).unwrap_err(), SetupError::InvalidBitrate);
    let o = OptionValues {
        enable_volume_normalisation: true,
        normalisation_gain_type: text("loud"),
        ..no_options()
    };
    assert_eq!(built(&o).unwrap_err(), SetupError::InvalidGainType);
}

#[test]
fn gain_type_is_ignored_without_normalisation() {
    let o = OptionValues { normalisation_gain_type: text("loud"), ..no_options() };
    let s = built(&o).unwrap();
    assert_eq!(s.normalisation_type, NormalisationType::Auto);
    assert!(s.normalisation_options_ignored);
    let o = OptionValues { normalisation_gain_type: text("track"), ..no_options() };
    let s = built(&o).unwrap();
    assert_eq!(s.normalisation_type, NormalisationType::Auto);
}

#[test]
fn the_first_refused_option_in_order_is_reported() {
    let all_bad = OptionValues {
        disable_discovery: true,
        enable_volume_normalisation: true,
        zeroconf_port: text("x"),
        initial_volume: text("x"),
        proxy: text("x"),
        ap_port: text("x"),
        bitrate: text("x"),
        normalisation_gain_type: text("x"),
        ..no_options()
    };
    assert_eq!(
        build_setup(&all_bad, false, None, "n", "c").unwrap_err(),
        SetupError::CredentialsRequired
    );
    assert_eq!(built(&all_bad).unwrap_err(), SetupError::InvalidInitialVolume);
    let o = OptionValues { disable_discovery: false, ..all_bad };
    assert_eq!(built(&o).unwrap_err(), SetupError::InvalidZeroconfPort);
    let o = OptionValues { zeroconf_port: None, initial_volume: None, ..o };
    assert_eq!(built(&o).unwrap_err(), SetupError::InvalidProxy(ProxyError::Unparsable));
    let o = OptionValues { proxy: None, ..o };
    assert_eq!(built(&o).unwrap_err(), SetupError::InvalidApPort);
    let o = OptionValues { ap_port: None, ..o };
    assert_eq!(built(&o).unwrap_err(), SetupError::InvalidBitrate);
    let o = OptionValues { bitrate: None, ..o };
    assert_eq!(built(&o).unwrap_err(), SetupError::InvalidGainType);
    let o = OptionValues { normalisation_gain_type: None, ..o };
    assert!(built(&o).is_ok());
}

#[test]
fn audio_cache_decision_follows_the_two_options() {
    assert!(!wants_audio_cache(&no_options()));
    assert!(wants_audio_cache(&OptionValues { cache: text("/c"), ..no_options() }));
    assert!(!wants_audio_cache(&OptionValues {
        cache: text("/c"),
        disable_audio_cache: true,
        ..no_options()
    }));
}
