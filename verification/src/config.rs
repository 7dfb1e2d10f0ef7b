//! The program's configuration: one value, made at startup and handed to
//! whoever needs it.

pub mod update;

use crate::utils::text::{trim_leading, without_leading};
use std::path::PathBuf;
use vstd::prelude::*;
use vstd::string::StringExecFns;

verus! {

#[verifier::external_type_specification]
#[verifier::external_body]
pub struct ExPathBuf(std::path::PathBuf);

/// A clone of a path is the same path.
pub assume_specification[ <PathBuf as Clone>::clone ](path: &PathBuf) -> (copy: PathBuf)
    ensures
        copy == *path,
;

/// Calls `PathBuf::from`, which makes a path of a text.
#[verifier::external_body]
fn path_of(text: &str) -> PathBuf {
    PathBuf::from(text)
}

/// Calls `Path::join`, which gives the path extended by `name`, or `name`
/// alone where it is absolute. How the two are joined is up to the platform.
#[verifier::external_body]
fn path_join(base: &PathBuf, name: &str) -> PathBuf {
    base.join(name)
}

/// The colours of the theme, each as `#` and six hexadecimal digits.
#[derive(Debug, Clone)]
pub struct ThemeColors {
    pub primary: String,
    pub secondary: String,
    pub background: String,
    pub surface: String,
    pub text: String,
    pub accent: String,
    pub error: String,
    pub warning: String,
    pub success: String,
}

impl Default for ThemeColors {
    fn default() -> (colors: Self)
        ensures
            colors.primary@ == "#00ff00"@,
            colors.secondary@ == "#ff00ff"@,
            colors.background@ == "#000000"@,
            colors.surface@ == "#1a1a1a"@,
            colors.text@ == "#ffffff"@,
            colors.accent@ == "#00ffff"@,
            colors.error@ == "#ff0000"@,
            colors.warning@ == "#ffff00"@,
            colors.success@ == "#00ff00"@,
    {
        ThemeColors {
            primary: "#00ff00".to_owned(),
            secondary: "#ff00ff".to_owned(),
            background: "#000000".to_owned(),
            surface: "#1a1a1a".to_owned(),
            text: "#ffffff".to_owned(),
            accent: "#00ffff".to_owned(),
            error: "#ff0000".to_owned(),
            warning: "#ffff00".to_owned(),
            success: "#00ff00".to_owned(),
        }
    }
}

/// The configuration.
#[derive(Debug, Clone)]
pub struct Config {
    /// Where the collector is reached.
    pub api_url: String,
    /// Where releases of the program are published.
    pub github_repo: String,
    /// The version of the program.
    pub version: String,
    /// The UDP port of Photon traffic.
    pub photon_port: u16,
    /// How long a request to the collector may take, in milliseconds.
    pub api_timeout_ms: u64,
    /// How long to wait between two checks of the collector's health, in
    /// milliseconds.
    pub health_check_interval_ms: u64,
    /// Whether the program keeps what it does to itself.
    pub quiet_mode: bool,
    /// Where the icons are.
    pub icons_path: PathBuf,
}

impl Default for Config {
    fn default() -> (config: Self)
        ensures
            config.api_url@ == "http://api.noktech.com.br/tanakai"@,
            config.github_repo@ == "https://github.com/Br3n0k/tanakai"@,
            config.version@ == "0.1.0"@,
            config.photon_port == 5056,
            config.api_timeout_ms == 5000,
            config.health_check_interval_ms == 60000,
            !config.quiet_mode,
    {
        Config {
            api_url: "http://api.noktech.com.br/tanakai".to_owned(),
            github_repo: "https://github.com/Br3n0k/tanakai".to_owned(),
            version: "0.1.0".to_owned(),
            photon_port: 5056,
            api_timeout_ms: 5000,
            health_check_interval_ms: 60000,
            quiet_mode: false,
            icons_path: path_of("assets/icons"),
        }
    }
}

/// Sets what the command line says: the collector's address, where one was
/// given, and whether to be quiet. Everything else stays.
pub fn init_config(config: &mut Config, api_url: Option<String>, quiet_mode: bool)
    ensures
        final(config).api_url == (match api_url {
            Some(url) => url,
            None => old(config).api_url,
        }),
        final(config).quiet_mode == quiet_mode,
        final(config).github_repo == old(config).github_repo,
        final(config).version == old(config).version,
        final(config).photon_port == old(config).photon_port,
        final(config).api_timeout_ms == old(config).api_timeout_ms,
        final(config).health_check_interval_ms == old(config).health_check_interval_ms,
        final(config).icons_path == old(config).icons_path,
{
    if let Some(url) = api_url {
        config.api_url = url;
    }
    config.quiet_mode = quiet_mode;
}

/// The address of an endpoint: the collector's address, a slash, and the
/// endpoint without the slashes that it starts with.
pub open spec fn endpoint_url(api_url: Seq<char>, endpoint: Seq<char>) -> Seq<char> {
    api_url + seq!['/'] + without_leading(endpoint, '/')
}

/// The address of an endpoint of the collector.
pub fn get_api_url(config: &Config, endpoint: &str) -> (url: String)
    ensures
        url@ == endpoint_url(config.api_url@, endpoint@),
{
    let mut url = config.api_url.clone();
    proof {
        reveal_strlit("/");
    }
    url.append("/");
    url.append(trim_leading(endpoint, '/'));
    url
}

/// The UDP port of Photon traffic.
pub fn get_photon_port(config: &Config) -> (port: u16)
    ensures
        port == config.photon_port,
{
    config.photon_port
}

/// Whether the program keeps what it does to itself.
pub fn is_quiet_mode(config: &Config) -> (quiet: bool)
    ensures
        quiet == config.quiet_mode,
{
    config.quiet_mode
}

/// The path of the icon called `name`, below the path of the icons.
pub fn get_icon_path(config: &Config, name: &str) -> PathBuf {
    path_join(&config.icons_path, name)
}

} // verus!
