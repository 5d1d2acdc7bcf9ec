//! The settings of the indexer, as its environment gives them.

use crate::search::HttpError;
use crate::text::{
    all_digits, chars_of, decimal_value, option_text, parse_unsigned, push_str, same_text,
    string_of, text_of, trim, trimmed,
};
use crate::torznab::ChannelMetadata;
use crate::weburl::{normalized_url, url_parsed};
use vstd::prelude::*;

verus! {

/// The variables of the environment that the indexer reads, each with its
/// value where it is set to text.
#[derive(Debug, Clone)]
pub struct Environment {
    pub host: Option<String>,
    pub port: Option<String>,
    pub releases_base_url: Option<String>,
    pub data_path: Option<String>,
    pub mapping_source_url: Option<String>,
    pub mapping_refresh_secs: Option<String>,
    pub public_base_url: Option<String>,
    pub releases_timeout_secs: Option<String>,
    pub mapping_timeout_secs: Option<String>,
    pub title: Option<String>,
    pub description: Option<String>,
    pub default_limit: Option<String>,
    pub anilist_base_url: Option<String>,
    pub anilist_timeout_secs: Option<String>,
    pub sonarr_enabled: Option<String>,
    pub sonarr_base_url: Option<String>,
    pub sonarr_api_key: Option<String>,
    pub sonarr_timeout_secs: Option<String>,
    pub radarr_enabled: Option<String>,
    pub radarr_base_url: Option<String>,
    pub radarr_api_key: Option<String>,
    pub radarr_timeout_secs: Option<String>,
}

/// A setting that holds an address.
#[derive(Debug, Clone, Copy, PartialEq, Eq, Structural)]
pub enum UrlSetting {
    ReleasesBaseUrl,
    MappingSourceUrl,
    PublicBaseUrl,
    AnilistBaseUrl,
    SonarrBaseUrl,
    RadarrBaseUrl,
}

/// Why the settings cannot be used.
#[derive(Debug, Clone, Copy, PartialEq, Eq, Structural)]
pub enum ConfigError {
    /// The port is no number that a port can be.
    InvalidPort,
    /// The setting holds no address.
    InvalidUrl(UrlSetting),
    /// The series manager is in use, but no key for it is set.
    MissingSonarrApiKey,
    /// The movie manager is in use, but no key for it is set.
    MissingRadarrApiKey,
    /// Neither the series manager nor the movie manager is in use.
    NoManagerEnabled,
}

/// How to reach the series manager.
#[derive(Debug, Clone)]
pub struct SonarrConfig {
    pub url: String,
    pub api_key: String,
    pub timeout_secs: u64,
}

/// How to reach the movie manager.
#[derive(Debug, Clone)]
pub struct RadarrConfig {
    pub url: String,
    pub api_key: String,
    pub timeout_secs: u64,
}

/// The settings of the indexer.
#[derive(Debug, Clone)]
pub struct AppConfig {
    /// The host and port to listen on, as `host:port`.
    pub listen_addr: String,
    pub public_base_url: Option<String>,
    pub releases_base_url: String,
    pub releases_timeout_secs: u64,
    pub data_path: String,
    pub mapping_source_url: String,
    pub mapping_refresh_secs: u64,
    pub mapping_timeout_secs: u64,
    pub application_title: String,
    pub application_description: String,
    pub default_limit: usize,
    pub anilist_base_url: String,
    pub anilist_timeout_secs: u64,
    pub sonarr: Option<SonarrConfig>,
    pub radarr: Option<RadarrConfig>,
}

/// The port that is listened on where none is set.
pub const DEFAULT_PORT: u16 = 6767;

/// The seconds between two refreshes of the mapping where none are set.
pub const DEFAULT_MAPPING_REFRESH_SECS: u64 = 21_600;

/// The seconds that a request may take where none are set.
pub const DEFAULT_TIMEOUT_SECS: u64 = 10;

/// The number of items of a page where none is set.
pub const DEFAULT_LIMIT: usize = 100;

/// The number that a setting holds, where it holds one no greater than
/// `max`; the setting is read as it stands, without trimming.
pub open spec fn number_in(value: Option<String>, max: nat) -> Option<nat> {
    match value {
        Some(text) => parse_unsigned(text@, max),
        None => None,
    }
}

/// Reads the number that a setting holds.
pub fn read_number(value: &Option<String>, max: u64) -> (r: Option<u64>)
    ensures
        match r {
            Some(n) => number_in(*value, max as nat) == Some(n as nat),
            None => number_in(*value, max as nat) is None,
        },
{
    match value {
        Some(text) => {
            let chars = chars_of(text.as_str());
            crate::text::parse_unsigned_chars(&chars, max)
        },
        None => None,
    }
}

/// The text of a setting, or the default where it is not set.
pub fn text_or(value: &Option<String>, default: &str) -> (r: String)
    ensures
        r@ == (match *value {
            Some(text) => text@,
            None => default@,
        }),
{
    match value {
        Some(text) => text.clone(),
        None => text_of(default),
    }
}

/// An address brought to the form of a root: without the white space around
/// it, and with a slash at its end.
pub open spec fn root_form(text: Seq<char>) -> Seq<char> {
    let inner = trim(text);
    if inner.len() > 0 && inner.last() == '/' {
        inner
    } else {
        inner.push('/')
    }
}

/// Reads the address of a service below which paths are asked for.
pub fn parse_root_url(value: &str) -> (r: Option<String>)
    ensures
        option_text(r) == url_parsed(root_form(value@)),
{
    let mut inner = trimmed(&chars_of(value));
    let n = inner.len();
    if n == 0 || inner[n - 1] != '/' {
        inner.push('/');
    }
    assert(inner@ =~= root_form(value@));
    let text = string_of(&inner);
    normalized_url(text.as_str())
}

/// The seconds that a service may take: what its setting holds, or else the
/// common timeout; at least one.
pub open spec fn service_timeout(value: Option<String>, common: u64) -> u64 {
    let set = match number_in(value, u64::MAX as nat) {
        Some(n) => n as u64,
        None => common,
    };
    if set < 1 {
        1
    } else {
        set
    }
}

/// Settles the seconds that a service may take.
pub fn read_service_timeout(value: &Option<String>, common: u64) -> (r: u64)
    ensures
        r == service_timeout(*value, common),
{
    let set = match read_number(value, u64::MAX) {
        Some(n) => n,
        None => common,
    };
    if set < 1 {
        1
    } else {
        set
    }
}

/// Whether a manager is in use: it is, unless its setting says `false`.
pub open spec fn is_enabled(value: Option<String>) -> bool {
    match value {
        Some(text) => text@ != "false"@,
        None => true,
    }
}

/// Tells whether a manager is in use.
pub fn read_enabled(value: &Option<String>) -> (r: bool)
    ensures
        r == is_enabled(*value),
{
    match value {
        Some(text) => !same_text(text.as_str(), "false"),
        None => true,
    }
}

/// The port to listen on: what the setting holds, or the default.
pub open spec fn listen_port(env: Environment) -> Option<u16> {
    match env.port {
        Some(text) => match parse_unsigned(text@, u16::MAX as nat) {
            Some(n) => Some(n as u16),
            None => None,
        },
        None => Some(DEFAULT_PORT),
    }
}

/// The host to listen on: what the setting holds, or every address.
pub open spec fn listen_host(env: Environment) -> Seq<char> {
    match env.host {
        Some(text) => text@,
        None => "0.0.0.0"@,
    }
}

/// The host and the port to listen on.
pub fn listen_target(env: &Environment) -> (r: Result<(String, u16), ConfigError>)
    ensures
        match listen_port(*env) {
            Some(port) => r matches Ok((host, p)) && host@ == listen_host(*env) && p == port,
            None => r == Err::<(String, u16), ConfigError>(ConfigError::InvalidPort),
        },
{
    let host = text_or(&env.host, "0.0.0.0");
    let port = match &env.port {
        Some(_) => match read_number(&env.port, 65535) {
            Some(n) => n as u16,
            None => {
                return Err(ConfigError::InvalidPort);
            },
        },
        None => DEFAULT_PORT,
    };
    Ok((host, port))
}

/// The text of a setting, or the default where it is not set.
pub open spec fn setting(value: Option<String>, default: Seq<char>) -> Seq<char> {
    match value {
        Some(text) => text@,
        None => default,
    }
}

/// The address of the release source.
pub open spec fn releases_address(env: Environment) -> Option<Seq<char>> {
    url_parsed(root_form(setting(env.releases_base_url, "https://releases.moe/api/"@)))
}

/// The address of the mapping dataset.
pub open spec fn mapping_address(env: Environment) -> Option<Seq<char>> {
    url_parsed(
        setting(
            env.mapping_source_url,
            "https://raw.githubusercontent.com/eliasbenb/PlexAniBridge-Mappings/refs/heads/v2/mappings.json"@,
        ),
    )
}

/// The address of the catalogue.
pub open spec fn anilist_address(env: Environment) -> Option<Seq<char>> {
    url_parsed(setting(env.anilist_base_url, "https://graphql.anilist.co"@))
}

/// The address of the series manager.
pub open spec fn sonarr_address(env: Environment) -> Option<Seq<char>> {
    url_parsed(root_form(setting(env.sonarr_base_url, "http://localhost:8989"@)))
}

/// The address of the movie manager.
pub open spec fn radarr_address(env: Environment) -> Option<Seq<char>> {
    url_parsed(root_form(setting(env.radarr_base_url, "http://localhost:7878"@)))
}

/// The seconds that a request to the release source may take, which the
/// other services take over where they have no setting of their own.
pub open spec fn common_timeout(env: Environment) -> u64 {
    match number_in(env.releases_timeout_secs, u64::MAX as nat) {
        Some(n) => n as u64,
        None => DEFAULT_TIMEOUT_SECS,
    }
}

/// A number that is set and is not zero, or else the default.
pub open spec fn positive_or(value: Option<String>, max: nat, default: nat) -> nat {
    match number_in(value, max) {
        Some(n) => if n > 0 {
            n
        } else {
            default
        },
        None => default,
    }
}

/// The first reason for which the settings cannot be used, if there is one.
/// The addresses are looked at in the order of the release source, the
/// mapping dataset, the public address and the catalogue; then the series
/// manager and the movie manager, each only where it is in use.
pub open spec fn config_error(env: Environment) -> Option<ConfigError> {
    if releases_address(env) is None {
        Some(ConfigError::InvalidUrl(UrlSetting::ReleasesBaseUrl))
    } else if mapping_address(env) is None {
        Some(ConfigError::InvalidUrl(UrlSetting::MappingSourceUrl))
    } else if env.public_base_url is Some && url_parsed(env.public_base_url.unwrap()@) is None {
        Some(ConfigError::InvalidUrl(UrlSetting::PublicBaseUrl))
    } else if anilist_address(env) is None {
        Some(ConfigError::InvalidUrl(UrlSetting::AnilistBaseUrl))
    } else if is_enabled(env.sonarr_enabled) && sonarr_address(env) is None {
        Some(ConfigError::InvalidUrl(UrlSetting::SonarrBaseUrl))
    } else if is_enabled(env.sonarr_enabled) && env.sonarr_api_key is None {
        Some(ConfigError::MissingSonarrApiKey)
    } else if is_enabled(env.radarr_enabled) && radarr_address(env) is None {
        Some(ConfigError::InvalidUrl(UrlSetting::RadarrBaseUrl))
    } else if is_enabled(env.radarr_enabled) && env.radarr_api_key is None {
        Some(ConfigError::MissingRadarrApiKey)
    } else if !is_enabled(env.sonarr_enabled) && !is_enabled(env.radarr_enabled) {
        Some(ConfigError::NoManagerEnabled)
    } else {
        None
    }
}

/// The settings are those that the environment gives.
pub open spec fn holds_settings(config: AppConfig, env: Environment, listen_addr: Seq<char>) -> bool {
    &&& config.listen_addr@ == listen_addr
    &&& option_text(config.public_base_url) == (match env.public_base_url {
        Some(text) => url_parsed(text@),
        None => None,
    })
    &&& Some(config.releases_base_url@) == releases_address(env)
    &&& config.releases_timeout_secs == common_timeout(env)
    &&& config.data_path@ == setting(env.data_path, "data"@)
    &&& Some(config.mapping_source_url@) == mapping_address(env)
    &&& config.mapping_refresh_secs == positive_or(
        env.mapping_refresh_secs,
        u64::MAX as nat,
        DEFAULT_MAPPING_REFRESH_SECS as nat,
    )
    &&& config.mapping_timeout_secs == service_timeout(
        env.mapping_timeout_secs,
        common_timeout(env),
    )
    &&& config.application_title@ == setting(env.title, "Seadexer"@)
    &&& config.application_description@ == setting(
        env.description,
        "Indexer bridge for releases.moe"@,
    )
    &&& config.default_limit == positive_or(
        env.default_limit,
        usize::MAX as nat,
        DEFAULT_LIMIT as nat,
    )
    &&& Some(config.anilist_base_url@) == anilist_address(env)
    &&& config.anilist_timeout_secs == service_timeout(
        env.anilist_timeout_secs,
        common_timeout(env),
    )
    &&& match config.sonarr {
        Some(sonarr) => {
            &&& is_enabled(env.sonarr_enabled)
            &&& Some(sonarr.url@) == sonarr_address(env)
            &&& Some(sonarr.api_key@) == option_text(env.sonarr_api_key)
            &&& sonarr.timeout_secs == service_timeout(
                env.sonarr_timeout_secs,
                common_timeout(env),
            )
        },
        None => !is_enabled(env.sonarr_enabled),
    }
    &&& match config.radarr {
        Some(radarr) => {
            &&& is_enabled(env.radarr_enabled)
            &&& Some(radarr.url@) == radarr_address(env)
            &&& Some(radarr.api_key@) == option_text(env.radarr_api_key)
            &&& radarr.timeout_secs == service_timeout(
                env.radarr_timeout_secs,
                common_timeout(env),
            )
        },
        None => !is_enabled(env.radarr_enabled),
    }
}

fn read_positive(value: &Option<String>, max: u64, default: u64) -> (r: u64)
    requires
        default <= max,
    ensures
        r == positive_or(*value, max as nat, default as nat),
        r <= max,
{
    match read_number(value, max) {
        Some(n) => if n > 0 {
            n
        } else {
            default
        },
        None => default,
    }
}

impl AppConfig {
    /// Reads the settings from the environment; `listen_addr` is the host
    /// and port to listen on.
    pub fn from_env(env: &Environment, listen_addr: String) -> (r: Result<AppConfig, ConfigError>)
        ensures
            match config_error(*env) {
                Some(error) => r == Err::<AppConfig, ConfigError>(error),
                None => r matches Ok(config) && holds_settings(config, *env, listen_addr@),
            },
    {
        let raw_releases = text_or(&env.releases_base_url, "https://releases.moe/api/");
        let releases_base_url = match parse_root_url(raw_releases.as_str()) {
            Some(url) => url,
            None => {
                return Err(ConfigError::InvalidUrl(UrlSetting::ReleasesBaseUrl));
            },
        };
        let data_path = text_or(&env.data_path, "data");
        let raw_mapping = text_or(
            &env.mapping_source_url,
            "https://raw.githubusercontent.com/eliasbenb/PlexAniBridge-Mappings/refs/heads/v2/mappings.json",
        );
        let mapping_source_url = match normalized_url(raw_mapping.as_str()) {
            Some(url) => url,
            None => {
                return Err(ConfigError::InvalidUrl(UrlSetting::MappingSourceUrl));
            },
        };
        let mapping_refresh_secs = read_positive(
            &env.mapping_refresh_secs,
            u64::MAX,
            DEFAULT_MAPPING_REFRESH_SECS,
        );
        let public_base_url = match &env.public_base_url {
            Some(text) => match normalized_url(text.as_str()) {
                Some(url) => Some(url),
                None => {
                    return Err(ConfigError::InvalidUrl(UrlSetting::PublicBaseUrl));
                },
            },
            None => None,
        };
        let releases_timeout_secs = match read_number(&env.releases_timeout_secs, u64::MAX) {
            Some(n) => n,
            None => DEFAULT_TIMEOUT_SECS,
        };
        let mapping_timeout_secs = read_service_timeout(
            &env.mapping_timeout_secs,
            releases_timeout_secs,
        );
        let application_title = text_or(&env.title, "Seadexer");
        let application_description = text_or(&env.description, "Indexer bridge for releases.moe");
        let default_limit = read_positive(
            &env.default_limit,
            usize::MAX as u64,
            DEFAULT_LIMIT as u64,
        ) as usize;
        let raw_anilist = text_or(&env.anilist_base_url, "https://graphql.anilist.co");
        let anilist_base_url = match normalized_url(raw_anilist.as_str()) {
            Some(url) => url,
            None => {
                return Err(ConfigError::InvalidUrl(UrlSetting::AnilistBaseUrl));
            },
        };
        let anilist_timeout_secs = read_service_timeout(
            &env.anilist_timeout_secs,
            releases_timeout_secs,
        );
        let sonarr = if read_enabled(&env.sonarr_enabled) {
            let raw = text_or(&env.sonarr_base_url, "http://localhost:8989");
            let url = match parse_root_url(raw.as_str()) {
                Some(url) => url,
                None => {
                    return Err(ConfigError::InvalidUrl(UrlSetting::SonarrBaseUrl));
                },
            };
            let api_key = match &env.sonarr_api_key {
                Some(key) => key.clone(),
                None => {
                    return Err(ConfigError::MissingSonarrApiKey);
                },
            };
            let timeout_secs = read_service_timeout(
                &env.sonarr_timeout_secs,
                releases_timeout_secs,
            );
            Some(SonarrConfig { url, api_key, timeout_secs })
        } else {
            None
        };
        let radarr = if read_enabled(&env.radarr_enabled) {
            let raw = text_or(&env.radarr_base_url, "http://localhost:7878");
            let url = match parse_root_url(raw.as_str()) {
                Some(url) => url,
                None => {
                    return Err(ConfigError::InvalidUrl(UrlSetting::RadarrBaseUrl));
                },
            };
            let api_key = match &env.radarr_api_key {
                Some(key) => key.clone(),
                None => {
                    return Err(ConfigError::MissingRadarrApiKey);
                },
            };
            let timeout_secs = read_service_timeout(
                &env.radarr_timeout_secs,
                releases_timeout_secs,
            );
            Some(RadarrConfig { url, api_key, timeout_secs })
        } else {
            None
        };
        if sonarr.is_none() && radarr.is_none() {
            return Err(ConfigError::NoManagerEnabled);
        }
        Ok(
            AppConfig {
                listen_addr,
                public_base_url,
                releases_base_url,
                releases_timeout_secs,
                data_path,
                mapping_source_url,
                mapping_refresh_secs,
                mapping_timeout_secs,
                application_title,
                application_description,
                default_limit,
                anilist_base_url,
                anilist_timeout_secs,
                sonarr,
                radarr,
            },
        )
    }
}

/// The address under which the indexer presents itself: its public address
/// where one is set, else the address that it listens on.
pub open spec fn site_address(config: AppConfig) -> Option<Seq<char>> {
    match config.public_base_url {
        Some(url) => Some(url@),
        None => url_parsed("http://"@ + config.listen_addr@),
    }
}

/// What the feed says of the indexer itself.
pub fn build_channel_metadata(config: &AppConfig) -> (r: Result<ChannelMetadata, HttpError>)
    ensures
        match site_address(*config) {
            Some(address) => r matches Ok(metadata) && metadata.title@
                == config.application_title@ && metadata.description@
                == config.application_description@ && metadata.site_link@ == address,
            None => r matches Err(HttpError::BaseUrl(text)) && text@ == "http://"@
                + config.listen_addr@,
        },
{
    let site_link = match &config.public_base_url {
        Some(url) => url.clone(),
        None => {
            let mut text: Vec<char> = Vec::new();
            push_str(&mut text, "http://");
            push_str(&mut text, config.listen_addr.as_str());
            let text = string_of(&text);
            match normalized_url(text.as_str()) {
                Some(url) => url,
                None => {
                    return Err(HttpError::BaseUrl(text));
                },
            }
        },
    };
    Ok(
        ChannelMetadata {
            title: config.application_title.clone(),
            description: config.application_description.clone(),
            site_link,
        },
    )
}

} // verus!
