//! From the options as given to the settings of a run.
//!
//! The options arrive as text, each taken from the command line or, failing
//! that, from the environment. Here they are checked and turned into the
//! settings that the rest of the program works with. The first option that
//! cannot be accepted ends the work with an error that names it.

use crate::identity::device_id;
use crate::identity::hex_lower;
use crate::identity::sha1_of;
use crate::numbers::parse_percent;
use crate::numbers::parse_port;
use crate::numbers::parsed_percent;
use crate::numbers::parsed_port;
use crate::proxy::check_proxy;
use crate::proxy::proxy_verdict;
use crate::proxy::url_parts_of;
use crate::proxy::ProxyError;
use crate::text::lowercase_of;
use crate::text::same_text;
use crate::text::to_lowercase;
use crate::text::text_view;
use vstd::prelude::*;
use vstd::string::StrSliceExecFns;

verus! {

/// The quality at which audio is requested.
#[derive(Clone, Copy, Debug, PartialEq, Eq, Structural)]
pub enum Bitrate {
    Bitrate96,
    Bitrate160,
    Bitrate320,
}

/// What the loudness of a track is normalised against.
#[derive(Clone, Copy, Debug, PartialEq, Eq, Structural)]
pub enum NormalisationType {
    Album,
    Track,
    Auto,
}

/// Where the volume at start comes from.
#[derive(Clone, Copy, Debug, PartialEq, Eq, Structural)]
pub enum InitialVolume {
    /// Given as an option, in percent (0 to 100).
    Percent(u16),
    /// The volume that the cache remembers, on the device's own scale.
    Stored(u16),
    /// Neither given nor remembered.
    Unset,
}

/// Why the options cannot be accepted.
#[derive(Clone, Copy, Debug, PartialEq, Eq, Structural)]
pub enum SetupError {
    /// Discovery is off and there are no credentials to sign in with.
    CredentialsRequired,
    /// The discovery port is not a number from 1 to 65535.
    InvalidZeroconfPort,
    /// The initial volume is not a number from 0 to 100.
    InvalidInitialVolume,
    /// The proxy address is refused.
    InvalidProxy(ProxyError),
    /// The access point port is not a number from 1 to 65535.
    InvalidApPort,
    /// The bitrate is none of 96, 160 and 320.
    InvalidBitrate,
    /// The normalisation gain type is none of album, track and auto.
    InvalidGainType,
}

/// The options as given, each flag as whether it is set and each valued
/// option as its text.
#[derive(Debug)]
pub struct OptionValues {
    pub disable_audio_cache: bool,
    pub disable_discovery: bool,
    pub disable_gapless: bool,
    pub autoplay: bool,
    pub passthrough: bool,
    pub pass_through: bool,
    pub enable_volume_normalisation: bool,
    pub authenticate: bool,
    pub get_token: bool,
    pub name: Option<String>,
    pub bitrate: Option<String>,
    pub cache: Option<String>,
    pub initial_volume: Option<String>,
    pub normalisation_gain_type: Option<String>,
    pub zeroconf_port: Option<String>,
    pub proxy: Option<String>,
    /// The proxy that the environment names for every program, used where
    /// the proxy option is not given.
    pub http_proxy: Option<String>,
    pub ap_port: Option<String>,
    pub single_track: Option<String>,
    pub client_id: Option<String>,
    pub save_token: Option<String>,
}

/// The settings of a run.
#[derive(Debug)]
pub struct Setup {
    pub name: String,
    pub device_id: String,
    pub enable_discovery: bool,
    /// The port for discovery; 0 leaves the choice to the system.
    pub zeroconf_port: u16,
    /// A discovery port was given although discovery is off.
    pub zeroconf_port_ignored: bool,
    pub initial_volume: InitialVolume,
    pub autoplay: bool,
    pub proxy: Option<String>,
    pub ap_port: Option<u16>,
    pub bitrate: Bitrate,
    pub gapless: bool,
    pub passthrough: bool,
    pub normalisation: bool,
    pub normalisation_type: NormalisationType,
    /// A gain type was given although normalisation is off.
    pub normalisation_options_ignored: bool,
    /// Whether the device is driven by a controller rather than playing one
    /// track on its own.
    pub connect_mode: bool,
    pub audio_cache: bool,
    pub authenticate: bool,
    pub get_token: bool,
    pub save_token: Option<String>,
    pub client_id: Option<String>,
}

/// The bitrate that a text names.
pub open spec fn parsed_bitrate(text: Seq<char>) -> Option<Bitrate> {
    if text == "96"@ {
        Some(Bitrate::Bitrate96)
    } else if text == "160"@ {
        Some(Bitrate::Bitrate160)
    } else if text == "320"@ {
        Some(Bitrate::Bitrate320)
    } else {
        None
    }
}

/// Reads a bitrate: `96`, `160` or `320`.
pub fn parse_bitrate(text: &str) -> (bitrate: Option<Bitrate>)
    ensures
        bitrate == parsed_bitrate(text@),
{
    if same_text(text, "96") {
        Some(Bitrate::Bitrate96)
    } else if same_text(text, "160") {
        Some(Bitrate::Bitrate160)
    } else if same_text(text, "320") {
        Some(Bitrate::Bitrate320)
    } else {
        None
    }
}

/// The gain type that a text in lower case names.
pub open spec fn gain_type_named(lower: Seq<char>) -> Option<NormalisationType> {
    if lower == "album"@ {
        Some(NormalisationType::Album)
    } else if lower == "track"@ {
        Some(NormalisationType::Track)
    } else if lower == "auto"@ {
        Some(NormalisationType::Auto)
    } else {
        None
    }
}

/// Reads a gain type from a text already in lower case: `album`, `track`
/// or `auto`.
pub fn gain_type_from_lower(lower: &str) -> (gain: Option<NormalisationType>)
    ensures
        gain == gain_type_named(lower@),
{
    if same_text(lower, "album") {
        Some(NormalisationType::Album)
    } else if same_text(lower, "track") {
        Some(NormalisationType::Track)
    } else if same_text(lower, "auto") {
        Some(NormalisationType::Auto)
    } else {
        None
    }
}

/// Reads a gain type, whatever the case of its letters.
pub fn parse_gain_type(text: &str) -> (gain: Option<NormalisationType>)
    ensures
        gain == gain_type_named(lowercase_of(text@)),
{
    let lower = to_lowercase(text);
    gain_type_from_lower(lower.as_str())
}

/// Whether discovery runs: it is not switched off, and the run neither
/// plays a single track nor fetches a token.
pub open spec fn discovery_wanted(o: OptionValues) -> bool {
    !o.disable_discovery && o.single_track is None && o.save_token is None && !o.get_token
}

/// The proxy address to use: the option, or else what the environment
/// names.
pub open spec fn proxy_text(o: OptionValues) -> Option<Seq<char>> {
    if o.proxy is Some {
        text_view(o.proxy)
    } else {
        text_view(o.http_proxy)
    }
}

/// The text, unless it is absent or empty.
pub open spec fn non_empty(text: Option<Seq<char>>) -> Option<Seq<char>> {
    match text {
        Some(t) => if t.len() == 0 {
            None
        } else {
            Some(t)
        },
        None => None,
    }
}

/// The first reason to refuse the options, in the order in which they are
/// checked: credentials, discovery port, initial volume, proxy, access
/// point port, bitrate, gain type. A discovery port is read only where
/// discovery runs, a gain type only where normalisation is on.
pub open spec fn first_error(o: OptionValues, has_credentials: bool) -> Option<SetupError> {
    if !has_credentials && !discovery_wanted(o) {
        Some(SetupError::CredentialsRequired)
    } else if discovery_wanted(o) && o.zeroconf_port is Some && parsed_port(o.zeroconf_port->0@)
        is None {
        Some(SetupError::InvalidZeroconfPort)
    } else if o.initial_volume is Some && parsed_percent(o.initial_volume->0@) is None {
        Some(SetupError::InvalidInitialVolume)
    } else if proxy_text(o) is Some && proxy_verdict(url_parts_of(proxy_text(o)->0)) is Err {
        Some(SetupError::InvalidProxy(proxy_verdict(url_parts_of(proxy_text(o)->0))->Err_0))
    } else if o.ap_port is Some && parsed_port(o.ap_port->0@) is None {
        Some(SetupError::InvalidApPort)
    } else if o.bitrate is Some && parsed_bitrate(o.bitrate->0@) is None {
        Some(SetupError::InvalidBitrate)
    } else if o.enable_volume_normalisation && o.normalisation_gain_type is Some
        && gain_type_named(lowercase_of(o.normalisation_gain_type->0@)) is None {
        Some(SetupError::InvalidGainType)
    } else {
        None
    }
}

/// Whether `s` holds the settings that accepted options give, with the
/// name and client identifier to fall back on and the volume that the
/// cache remembers.
pub open spec fn settings_of(
    s: Setup,
    o: OptionValues,
    cached_volume: Option<u16>,
    default_name: Seq<char>,
    default_client_id: Seq<char>,
) -> bool {
    &&& s.name@ == (match o.name {
        Some(n) => n@,
        None => default_name,
    })
    &&& s.device_id@ == hex_lower(sha1_of(vstd::utf8::encode_utf8(s.name@)))
    &&& s.enable_discovery == discovery_wanted(o)
    &&& s.zeroconf_port == (if discovery_wanted(o) && o.zeroconf_port is Some {
        parsed_port(o.zeroconf_port->0@)->0
    } else {
        0
    })
    &&& s.zeroconf_port_ignored == (!discovery_wanted(o) && o.zeroconf_port is Some)
    &&& s.initial_volume == (match o.initial_volume {
        Some(v) => InitialVolume::Percent(parsed_percent(v@)->0),
        None => match cached_volume {
            Some(v) => InitialVolume::Stored(v),
            None => InitialVolume::Unset,
        },
    })
    &&& s.autoplay == o.autoplay
    &&& text_view(s.proxy) == proxy_text(o)
    &&& s.ap_port == (match o.ap_port {
        Some(p) => parsed_port(p@),
        None => None,
    })
    &&& s.bitrate == (match o.bitrate {
        Some(b) => parsed_bitrate(b@)->0,
        None => Bitrate::Bitrate160,
    })
    &&& s.gapless == !o.disable_gapless
    &&& s.passthrough == (o.passthrough || o.pass_through)
    &&& s.normalisation == o.enable_volume_normalisation
    &&& s.normalisation_type == (if o.enable_volume_normalisation && o.normalisation_gain_type
        is Some {
        gain_type_named(lowercase_of(o.normalisation_gain_type->0@))->0
    } else {
        NormalisationType::Auto
    })
    &&& s.normalisation_options_ignored == (!o.enable_volume_normalisation
        && o.normalisation_gain_type is Some)
    &&& s.connect_mode == (o.single_track is None)
    &&& s.audio_cache == audio_cache_wanted(o)
    &&& s.authenticate == o.authenticate
    &&& text_view(s.save_token) == non_empty(text_view(o.save_token))
    &&& s.get_token == (o.get_token || non_empty(text_view(o.save_token)) is Some)
    &&& text_view(s.client_id) == non_empty(
        Some(
            match o.client_id {
                Some(c) => c@,
                None => default_client_id,
            },
        ),
    )
}

/// A copy of an optional text.
fn copy_text(text: &Option<String>) -> (copy: Option<String>)
    ensures
        text_view(copy) == text_view(*text),
{
    match text {
        Some(t) => Some(t.clone()),
        None => None,
    }
}

/// The text, unless it is empty.
fn keep_non_empty(text: String) -> (kept: Option<String>)
    ensures
        text_view(kept) == non_empty(Some(text@)),
{
    if text.as_str().unicode_len() == 0 {
        None
    } else {
        Some(text)
    }
}

/// Whether audio files are cached: a cache directory is given and caching
/// audio is not switched off.
pub open spec fn audio_cache_wanted(o: OptionValues) -> bool {
    o.cache is Some && !o.disable_audio_cache
}

/// Whether audio files are cached.
pub fn wants_audio_cache(options: &OptionValues) -> (wanted: bool)
    ensures
        wanted == audio_cache_wanted(*options),
{
    options.cache.is_some() && !options.disable_audio_cache
}

/// Whether discovery runs.
pub fn wants_discovery(options: &OptionValues) -> (wanted: bool)
    ensures
        wanted == discovery_wanted(*options),
{
    !options.disable_discovery && options.single_track.is_none() && options.save_token.is_none()
        && !options.get_token
}

/// Checks the options and turns them into the settings of a run.
///
/// `has_credentials` says whether credentials to sign in with were found,
/// `cached_volume` is the volume that the cache remembers, and the two
/// defaults stand in where no name or client identifier is given. The
/// result is the first error in the order of the checks, or the settings.
pub fn build_setup(
    options: &OptionValues,
    has_credentials: bool,
    cached_volume: Option<u16>,
    default_name: &str,
    default_client_id: &str,
) -> (result: Result<Setup, SetupError>)
    ensures
        match result {
            Ok(s) => first_error(*options, has_credentials) is None && settings_of(
                s,
                *options,
                cached_volume,
                default_name@,
                default_client_id@,
            ),
            Err(e) => first_error(*options, has_credentials) == Some(e),
        },
{
    let enable_discovery = wants_discovery(options);
    if !has_credentials && !enable_discovery {
        return Err(SetupError::CredentialsRequired);
    }
    let mut zeroconf_port: u16 = 0;
    if enable_discovery {
        if let Some(text) = &options.zeroconf_port {
            match parse_port(text.as_str()) {
                Some(port) => {
                    zeroconf_port = port;
                },
                None => {
                    return Err(SetupError::InvalidZeroconfPort);
                },
            }
        }
    }
    let initial_volume = match &options.initial_volume {
        Some(text) => match parse_percent(text.as_str()) {
            Some(percent) => InitialVolume::Percent(percent),
            None => {
                return Err(SetupError::InvalidInitialVolume);
            },
        },
        None => match cached_volume {
            Some(v) => InitialVolume::Stored(v),
            None => InitialVolume::Unset,
        },
    };
    let proxy = if options.proxy.is_some() {
        copy_text(&options.proxy)
    } else {
        copy_text(&options.http_proxy)
    };
    if let Some(text) = &proxy {
        if let Err(e) = check_proxy(text.as_str()) {
            return Err(SetupError::InvalidProxy(e));
        }
    }
    let ap_port = match &options.ap_port {
        Some(text) => match parse_port(text.as_str()) {
            Some(port) => Some(port),
            None => {
                return Err(SetupError::InvalidApPort);
            },
        },
        None => None,
    };
    let bitrate = match &options.bitrate {
        Some(text) => match parse_bitrate(text.as_str()) {
            Some(b) => b,
            None => {
                return Err(SetupError::InvalidBitrate);
            },
        },
        None => Bitrate::Bitrate160,
    };
    let normalisation = options.enable_volume_normalisation;
    let mut normalisation_type = NormalisationType::Auto;
    if normalisation {
        if let Some(text) = &options.normalisation_gain_type {
            match parse_gain_type(text.as_str()) {
                Some(g) => {
                    normalisation_type = g;
                },
                None => {
                    return Err(SetupError::InvalidGainType);
                },
            }
        }
    }
    let name = match &options.name {
        Some(n) => n.clone(),
        None => default_name.to_owned(),
    };
    let id = device_id(name.as_str());
    let save_token = match &options.save_token {
        Some(t) => keep_non_empty(t.clone()),
        None => None,
    };
    let client_id = match &options.client_id {
        Some(c) => keep_non_empty(c.clone()),
        None => keep_non_empty(default_client_id.to_owned()),
    };
    let get_token = options.get_token || save_token.is_some();
    Ok(
        Setup {
            name,
            device_id: id,
            enable_discovery,
            zeroconf_port,
            zeroconf_port_ignored: !enable_discovery && options.zeroconf_port.is_some(),
            initial_volume,
            autoplay: options.autoplay,
            proxy,
            ap_port,
            bitrate,
            gapless: !options.disable_gapless,
            passthrough: options.passthrough || options.pass_through,
            normalisation,
            normalisation_type,
            normalisation_options_ignored: !normalisation
                && options.normalisation_gain_type.is_some(),
            connect_mode: options.single_track.is_none(),
            audio_cache: wants_audio_cache(options),
            authenticate: options.authenticate,
            get_token,
            save_token,
            client_id,
        },
    )
}

} // verus!
