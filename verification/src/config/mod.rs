//! Configuration: its sections, its checks, and the environment variables that
//! override a configuration file.

pub mod commented;
pub mod overlay;
pub mod types;

use vstd::prelude::*;
use vstd::string::StringExecFns;
use crate::clipboard::transfer::{join_path, path_in};
use crate::config::overlay::{
    apply_env_overrides, copy_table, empty_table, get_path, inferred, is_override, new_table,
    overlaid, override_keys, override_path, parse_table, set_path, subtable, table_model,
    toml_document, EnvVar, TomlModel,
};
use crate::config::types::{
    AdvancedVideoConfig, AudioConfig, CaptureProtocolConfig, ClipboardConfig, CursorConfig,
    DamageTrackingConfig, DisplayConfig, EgfxConfig, GuiStateConfig, HardwareEncodingConfig,
    InputConfig, LoggingConfig, MultiMonitorConfig, NotificationConfig, PerformanceConfig,
    SecurityConfig, ServerConfig, VideoConfig, VideoPipelineConfig,
};
use crate::text::{decimal, decimal_text, joined, same_text, views};
use crate::unicode::{lowercase, to_lower};

verus! {

/// Version of the configuration file.
pub const CURRENT_CONFIG_VERSION: u32 = 1;

/// What the host says of itself.
#[derive(Clone, Debug)]
pub struct HostEnvironment {
    /// Whether the server runs in a Flatpak sandbox.
    pub flatpak: bool,
    /// Number of the user.
    pub uid: u32,
    /// The user's configuration directory.
    pub config_dir: Option<String>,
    /// The user's data directory.
    pub data_dir: Option<String>,
}

/// Whether the server runs in a Flatpak sandbox: the sandbox sets `FLATPAK_ID`
/// and has the file `/.flatpak-info`.
pub fn is_flatpak(id_is_set: bool, info_exists: bool) -> (r: bool)
    ensures
        r == (id_is_set || info_exists),
{
    id_is_set || info_exists
}

/// The directory of certificates and configuration.
pub open spec fn cert_dir(env: &HostEnvironment) -> Seq<char> {
    if env.flatpak {
        match env.config_dir {
            Some(d) => d@,
            None => "/app/config"@,
        }
    } else if env.uid == 0 {
        "/etc/lamco-rdp-server"@
    } else {
        match env.config_dir {
            Some(d) => path_in(d@, "lamco-rdp-server"@),
            None => "/etc/lamco-rdp-server"@,
        }
    }
}

/// The directory of certificates and configuration.
pub fn get_cert_config_dir(env: &HostEnvironment) -> (r: String)
    ensures
        r@ == cert_dir(env),
{
    if env.flatpak {
        return match &env.config_dir {
            Some(d) => d.clone(),
            None => "/app/config".to_owned(),
        };
    }
    if env.uid == 0 {
        return "/etc/lamco-rdp-server".to_owned();
    }
    match &env.config_dir {
        Some(d) => join_path(d.as_str(), "lamco-rdp-server"),
        None => "/etc/lamco-rdp-server".to_owned(),
    }
}

/// The directory of the log files. A sandbox keeps them with its data whatever
/// is configured.
pub open spec fn log_dir(env: &HostEnvironment, configured: &Option<String>) -> Seq<char> {
    if env.flatpak {
        path_in(
            match env.data_dir {
                Some(d) => d@,
                None => "/app/data"@,
            },
            "logs"@,
        )
    } else {
        match configured {
            Some(d) => d@,
            None => match env.data_dir {
                Some(d) => path_in(d@, "lamco-rdp-server/logs"@),
                None => "/tmp/lamco-rdp-server"@,
            },
        }
    }
}

/// The directory of the log files.
pub fn resolve_log_dir(env: &HostEnvironment, configured: &Option<String>) -> (r: String)
    ensures
        r@ == log_dir(env, configured),
{
    if env.flatpak {
        return match &env.data_dir {
            Some(d) => join_path(d.as_str(), "logs"),
            None => join_path("/app/data", "logs"),
        };
    }
    match configured {
        Some(d) => d.clone(),
        None => match &env.data_dir {
            Some(d) => join_path(d.as_str(), "lamco-rdp-server/logs"),
            None => "/tmp/lamco-rdp-server".to_owned(),
        },
    }
}

/// The path of the certificate where none is configured.
pub fn default_cert_path(env: &HostEnvironment) -> (r: String)
    ensures
        r@ == path_in(cert_dir(env), "cert.pem"@),
{
    join_path(get_cert_config_dir(env).as_str(), "cert.pem")
}

/// The path of the private key where none is configured.
pub fn default_key_path(env: &HostEnvironment) -> (r: String)
    ensures
        r@ == path_in(cert_dir(env), "key.pem"@),
{
    join_path(get_cert_config_dir(env).as_str(), "key.pem")
}

/// The version that a configuration file without one has.
pub fn default_config_version() -> (r: u32)
    ensures
        r == CURRENT_CONFIG_VERSION,
{
    CURRENT_CONFIG_VERSION
}

impl SecurityConfig {
    /// The values of this section where nothing is said.
    pub open spec fn is_default(&self, env: &HostEnvironment) -> bool {
        &&& self.cert_path@ == path_in(cert_dir(env), "cert.pem"@)
        &&& self.key_path@ == path_in(cert_dir(env), "key.pem"@)
        &&& !self.enable_nla
        &&& self.security_mode@ == "auto"@
        &&& self.auth_method@ == "none"@
        &&& !self.require_tls_13
    }

    /// The values of this section where nothing is said.
    pub fn default_for(env: &HostEnvironment) -> (r: Self)
        ensures
            r.is_default(env),
    {
        SecurityConfig {
            cert_path: default_cert_path(env),
            key_path: default_key_path(env),
            enable_nla: false,
            security_mode: "auto".to_owned(),
            auth_method: "none".to_owned(),
            require_tls_13: false,
        }
    }
}

/// The configuration of the server.
#[derive(Clone, Debug)]
pub struct Config {
    /// Version of the configuration file.
    pub config_version: u32,
    pub server: ServerConfig,
    pub security: SecurityConfig,
    pub video: VideoConfig,
    pub video_pipeline: VideoPipelineConfig,
    pub capture: CaptureProtocolConfig,
    pub input: InputConfig,
    pub clipboard: ClipboardConfig,
    pub multimon: MultiMonitorConfig,
    pub performance: PerformanceConfig,
    pub logging: LoggingConfig,
    pub egfx: EgfxConfig,
    pub damage_tracking: DamageTrackingConfig,
    pub hardware_encoding: HardwareEncodingConfig,
    pub display: DisplayConfig,
    pub advanced_video: AdvancedVideoConfig,
    pub cursor: CursorConfig,
    pub audio: AudioConfig,
    pub notifications: NotificationConfig,
    pub gui_state: GuiStateConfig,
}

/// Why a configuration cannot be used.
pub enum ConfigError {
    InvalidListenAddress,
    CertificateNotFound(String),
    PrivateKeyNotFound(String),
    InvalidAuthMethod(String),
    InvalidSecurityMode(String),
    PamRequiresTls,
    InvalidCursorMode(String),
    InvalidCursorStrategy(String),
    InvalidCompression(String),
    InvalidCodec(String),
    InvalidDamageMethod(String),
    InvalidQualityPreset(String),
    QpRange { min: u8, max: u8 },
    QpDefault { default: u8, min: u8, max: u8 },
    /// The certificate is there without its private key.
    KeyMissing(String),
    /// The private key is there without its certificate.
    CertificateMissing(String),
    /// A variable meets a value that is no table.
    PathConflict(String),
    /// The configuration file could not be read.
    Unreadable(toml::de::Error),
}

/// What is wrong with a configuration.
pub enum Problem {
    InvalidListenAddress,
    CertificateNotFound(Seq<char>),
    PrivateKeyNotFound(Seq<char>),
    InvalidAuthMethod(Seq<char>),
    InvalidSecurityMode(Seq<char>),
    PamRequiresTls,
    InvalidCursorMode(Seq<char>),
    InvalidCursorStrategy(Seq<char>),
    InvalidCompression(Seq<char>),
    InvalidCodec(Seq<char>),
    InvalidDamageMethod(Seq<char>),
    InvalidQualityPreset(Seq<char>),
    QpRange { min: u8, max: u8 },
    QpDefault { default: u8, min: u8, max: u8 },
    KeyMissing(Seq<char>),
    CertificateMissing(Seq<char>),
    PathConflict(Seq<char>),
    Unreadable,
}

impl View for ConfigError {
    type V = Problem;

    open spec fn view(&self) -> Problem {
        match self {
            ConfigError::InvalidListenAddress => Problem::InvalidListenAddress,
            ConfigError::CertificateNotFound(s) => Problem::CertificateNotFound(s@),
            ConfigError::PrivateKeyNotFound(s) => Problem::PrivateKeyNotFound(s@),
            ConfigError::InvalidAuthMethod(s) => Problem::InvalidAuthMethod(s@),
            ConfigError::InvalidSecurityMode(s) => Problem::InvalidSecurityMode(s@),
            ConfigError::PamRequiresTls => Problem::PamRequiresTls,
            ConfigError::InvalidCursorMode(s) => Problem::InvalidCursorMode(s@),
            ConfigError::InvalidCursorStrategy(s) => Problem::InvalidCursorStrategy(s@),
            ConfigError::InvalidCompression(s) => Problem::InvalidCompression(s@),
            ConfigError::InvalidCodec(s) => Problem::InvalidCodec(s@),
            ConfigError::InvalidDamageMethod(s) => Problem::InvalidDamageMethod(s@),
            ConfigError::InvalidQualityPreset(s) => Problem::InvalidQualityPreset(s@),
            ConfigError::QpRange { min, max } => Problem::QpRange { min: *min, max: *max },
            ConfigError::QpDefault { default, min, max } => Problem::QpDefault {
                default: *default,
                min: *min,
                max: *max,
            },
            ConfigError::KeyMissing(s) => Problem::KeyMissing(s@),
            ConfigError::CertificateMissing(s) => Problem::CertificateMissing(s@),
            ConfigError::PathConflict(s) => Problem::PathConflict(s@),
            ConfigError::Unreadable(_) => Problem::Unreadable,
        }
    }
}

/// The words that tell a user what is wrong.
pub open spec fn problem_text(p: Problem) -> Seq<char> {
    match p {
        Problem::InvalidListenAddress => "Invalid listen address"@,
        Problem::CertificateNotFound(s) => "Certificate not found: "@ + s,
        Problem::PrivateKeyNotFound(s) => "Private key not found: "@ + s,
        Problem::InvalidAuthMethod(s) => "Invalid auth_method: "@ + s + " (expected none or pam)"@,
        Problem::InvalidSecurityMode(s) => "Invalid security mode: "@ + s
            + " (expected tls, hybrid, or auto)"@,
        Problem::PamRequiresTls =>
            "auth_method=pam requires security_mode=tls (CredSSP/Hybrid is incompatible with PAM authentication)"@,
        Problem::InvalidCursorMode(s) => "Invalid cursor mode: "@ + s,
        Problem::InvalidCursorStrategy(s) => "Invalid cursor strategy mode: "@ + s,
        Problem::InvalidCompression(s) => "Invalid ZGFX compression mode: "@ + s,
        Problem::InvalidCodec(s) => "Invalid EGFX codec: "@ + s,
        Problem::InvalidDamageMethod(s) => "Invalid damage tracking method: "@ + s,
        Problem::InvalidQualityPreset(s) => "Invalid quality preset: "@ + s,
        Problem::QpRange { min, max } => "qp_min ("@ + decimal(min as nat)
            + ") cannot be greater than qp_max ("@ + decimal(max as nat) + ")"@,
        Problem::QpDefault { default, min, max } => "qp_default ("@ + decimal(default as nat)
            + ") must be between qp_min ("@ + decimal(min as nat) + ") and qp_max ("@ + decimal(
            max as nat,
        ) + ")"@,
        Problem::KeyMissing(s) => "Certificate exists but private key is missing: "@ + s,
        Problem::CertificateMissing(s) => "Private key exists but certificate is missing: "@ + s,
        Problem::PathConflict(s) => "Config path conflict for env var "@ + s,
        Problem::Unreadable => "Failed to parse config file"@,
    }
}

impl ConfigError {
    /// The words that tell a user what is wrong.
    pub fn message(&self) -> (r: String)
        ensures
            r@ == problem_text(self@),
    {
        match self {
            ConfigError::InvalidListenAddress => "Invalid listen address".to_owned(),
            ConfigError::CertificateNotFound(s) => joined("Certificate not found: ", s.as_str()),
            ConfigError::PrivateKeyNotFound(s) => joined("Private key not found: ", s.as_str()),
            ConfigError::InvalidAuthMethod(s) => joined(
                joined("Invalid auth_method: ", s.as_str()).as_str(),
                " (expected none or pam)",
            ),
            ConfigError::InvalidSecurityMode(s) => joined(
                joined("Invalid security mode: ", s.as_str()).as_str(),
                " (expected tls, hybrid, or auto)",
            ),
            ConfigError::PamRequiresTls =>
                "auth_method=pam requires security_mode=tls (CredSSP/Hybrid is incompatible with PAM authentication)".to_owned(),
            ConfigError::InvalidCursorMode(s) => joined("Invalid cursor mode: ", s.as_str()),
            ConfigError::InvalidCursorStrategy(s) => joined(
                "Invalid cursor strategy mode: ",
                s.as_str(),
            ),
            ConfigError::InvalidCompression(s) => joined(
                "Invalid ZGFX compression mode: ",
                s.as_str(),
            ),
            ConfigError::InvalidCodec(s) => joined("Invalid EGFX codec: ", s.as_str()),
            ConfigError::InvalidDamageMethod(s) => joined(
                "Invalid damage tracking method: ",
                s.as_str(),
            ),
            ConfigError::InvalidQualityPreset(s) => joined("Invalid quality preset: ", s.as_str()),
            ConfigError::QpRange { min, max } => {
                let mut m = joined("qp_min (", decimal_text(*min as u64).as_str());
                m.append(") cannot be greater than qp_max (");
                m.append(decimal_text(*max as u64).as_str());
                m.append(")");
                m
            },
            ConfigError::QpDefault { default, min, max } => {
                let mut m = joined("qp_default (", decimal_text(*default as u64).as_str());
                m.append(") must be between qp_min (");
                m.append(decimal_text(*min as u64).as_str());
                m.append(") and qp_max (");
                m.append(decimal_text(*max as u64).as_str());
                m.append(")");
                m
            },
            ConfigError::KeyMissing(s) => joined(
                "Certificate exists but private key is missing: ",
                s.as_str(),
            ),
            ConfigError::CertificateMissing(s) => joined(
                "Private key exists but certificate is missing: ",
                s.as_str(),
            ),
            ConfigError::PathConflict(s) => joined("Config path conflict for env var ", s.as_str()),
            ConfigError::Unreadable(_) => "Failed to parse config file".to_owned(),
        }
    }
}

/// What the host says of the things that a configuration names.
#[derive(Clone, Copy, PartialEq, Eq, Structural)]
pub struct HostFacts {
    /// The listen address is an address with a port.
    pub listen_addr_valid: bool,
    /// The certificate is there.
    pub cert_exists: bool,
    /// The private key is there.
    pub key_exists: bool,
}

/// The first thing that is wrong with a configuration.
pub open spec fn first_problem(c: &Config, facts: HostFacts) -> Option<Problem> {
    let auth = c.security.auth_method@;
    let mode = c.security.security_mode@;
    let cursor = c.video.cursor_mode@;
    let strategy = c.cursor.mode@;
    let zgfx = c.egfx.zgfx_compression@;
    let codec = c.egfx.codec@;
    let method = c.damage_tracking.method@;
    let preset = c.hardware_encoding.quality_preset@;
    if !facts.listen_addr_valid {
        Some(Problem::InvalidListenAddress)
    } else if !facts.cert_exists {
        Some(Problem::CertificateNotFound(c.security.cert_path@))
    } else if !facts.key_exists {
        Some(Problem::PrivateKeyNotFound(c.security.key_path@))
    } else if auth != "none"@ && auth != "pam"@ {
        Some(Problem::InvalidAuthMethod(auth))
    } else if mode != "tls"@ && mode != "hybrid"@ && mode != "auto"@ {
        Some(Problem::InvalidSecurityMode(mode))
    } else if auth == "pam"@ && mode != "tls"@ {
        Some(Problem::PamRequiresTls)
    } else if cursor != "embedded"@ && cursor != "metadata"@ && cursor != "hidden"@ {
        Some(Problem::InvalidCursorMode(cursor))
    } else if strategy != "metadata"@ && strategy != "painted"@ && strategy != "hidden"@ && strategy
        != "predictive"@ {
        Some(Problem::InvalidCursorStrategy(strategy))
    } else if zgfx != "never"@ && zgfx != "auto"@ && zgfx != "always"@ {
        Some(Problem::InvalidCompression(zgfx))
    } else if codec != "avc420"@ && codec != "avc444"@ && codec != "auto"@ {
        Some(Problem::InvalidCodec(codec))
    } else if method != "pipewire"@ && method != "diff"@ && method != "hybrid"@ {
        Some(Problem::InvalidDamageMethod(method))
    } else if preset != "speed"@ && preset != "balanced"@ && preset != "quality"@ {
        Some(Problem::InvalidQualityPreset(preset))
    } else if c.egfx.qp_min > c.egfx.qp_max {
        Some(Problem::QpRange { min: c.egfx.qp_min, max: c.egfx.qp_max })
    } else if c.egfx.qp_default < c.egfx.qp_min || c.egfx.qp_default > c.egfx.qp_max {
        Some(
            Problem::QpDefault {
                default: c.egfx.qp_default,
                min: c.egfx.qp_min,
                max: c.egfx.qp_max,
            },
        )
    } else {
        None
    }
}

/// Which of the variables for the capture and clipboard protocols are set.
#[derive(Clone, Copy, PartialEq, Eq, Structural)]
pub struct ProtocolVars {
    pub capture_protocol: bool,
    pub capture_no_fallback: bool,
    pub capture_timeout: bool,
    pub clipboard_protocol: bool,
    pub clipboard_no_fallback: bool,
}

/// One variable to set, if `wanted`.
pub open spec fn if_wanted(wanted: bool, key: Seq<char>, value: Seq<char>) -> Seq<
    (Seq<char>, Seq<char>),
> {
    if wanted {
        seq![(key, value)]
    } else {
        Seq::empty()
    }
}

/// The variables that carry the protocol settings. One that is set already wins
/// over the configuration, and usual values are not written.
pub open spec fn protocol_vars(c: &Config, set: ProtocolVars) -> Seq<(Seq<char>, Seq<char>)> {
    if_wanted(
        !set.capture_protocol && c.capture.protocol@ != "auto"@,
        "XDP_GENERIC_CAPTURE_PROTOCOL"@,
        c.capture.protocol@,
    ) + if_wanted(
        !set.capture_no_fallback && !c.capture.allow_fallback,
        "XDP_GENERIC_CAPTURE_NO_FALLBACK"@,
        "1"@,
    ) + if_wanted(
        !set.capture_timeout && c.capture.handshake_timeout_ms != 5000,
        "XDP_GENERIC_CAPTURE_TIMEOUT_MS"@,
        decimal(c.capture.handshake_timeout_ms as nat),
    ) + if_wanted(
        !set.clipboard_protocol && c.clipboard.protocol@ != "auto"@,
        "XDP_GENERIC_CLIPBOARD_PROTOCOL"@,
        c.clipboard.protocol@,
    ) + if_wanted(
        !set.clipboard_no_fallback && !c.clipboard.allow_fallback,
        "XDP_GENERIC_CLIPBOARD_NO_FALLBACK"@,
        "1"@,
    )
}

/// What a list of variables holds.
pub open spec fn var_views(v: Seq<EnvVar>) -> Seq<(Seq<char>, Seq<char>)> {
    v.map_values(|e: EnvVar| (e.key@, e.value@))
}

/// How a captured cursor is delivered.
#[derive(Clone, Copy, Debug, PartialEq, Eq, Structural)]
pub enum CursorMode {
    Hidden,
    Embedded,
    Metadata,
}

/// What is asked of the desktop portal.
#[derive(Clone, Copy, Debug, PartialEq, Eq, Structural)]
pub struct PortalSettings {
    pub cursor_mode: CursorMode,
    /// Devices whose input is passed on.
    pub keyboard: bool,
    pub pointer: bool,
    pub touchscreen: bool,
    /// What can be shown.
    pub monitors: bool,
    pub windows: bool,
    /// Whether more than one can be shown.
    pub allow_multiple: bool,
}

/// What is asked of the desktop portal: keyboard and pointer, monitors and windows
/// always, the rest as configured.
pub open spec fn portal_settings(c: &Config) -> PortalSettings {
    PortalSettings {
        cursor_mode: cursor_mode_of(c.video.cursor_mode@),
        keyboard: true,
        pointer: true,
        touchscreen: c.input.enable_touch,
        monitors: true,
        windows: true,
        allow_multiple: c.multimon.enabled,
    }
}

/// The cursor mode that a setting names; any other text stands for `metadata`.
pub open spec fn cursor_mode_of(s: Seq<char>) -> CursorMode {
    if lowercase(s) == "embedded"@ {
        CursorMode::Embedded
    } else if lowercase(s) == "hidden"@ {
        CursorMode::Hidden
    } else {
        CursorMode::Metadata
    }
}

/// The tables that a configuration is read from.
pub struct ConfigTables {
    /// The configuration file with the variables applied.
    pub table: toml::Table,
    /// The configuration file alone.
    pub base: toml::Table,
    /// Keys of the variables that were applied.
    pub overrides: Vec<String>,
}

/// What follows when the settings were read from the table with the variables.
#[derive(Clone, Copy, Debug, PartialEq, Eq, Structural)]
pub enum LoadStep {
    /// Use them.
    Use,
    /// Read them again from the configuration file alone.
    WithoutOverrides,
    /// The configuration cannot be used.
    Fail,
}

/// The tables that a configuration is read from, by what the configuration file holds
/// and the variables: the file must be readable, and no variable may meet a value that
/// is no table.
pub open spec fn tables_loaded(
    content: Option<Seq<char>>,
    vars: Seq<EnvVar>,
    r: Result<ConfigTables, ConfigError>,
) -> bool {
    let base = match content {
        Some(text) => toml_document(text),
        None => Some(empty_table()),
    };
    match r {
        Ok(t) => {
            &&& base == Some(table_model(t.base))
            &&& overlaid(table_model(t.base), vars) == Some(table_model(t.table))
            &&& views(t.overrides@) == override_keys(vars)
        },
        Err(e) => match base {
            None => e@ is Unreadable,
            Some(b) => overlaid(b, vars) is None && (e@ matches Problem::PathConflict(key)
                && exists|i: int|
                0 <= i < vars.len() && (#[trigger] vars[i]).key@ == key && overlaid(
                    b,
                    vars.take(i),
                ) is Some && overlaid(b, vars.take(i + 1)) is None),
        },
    }
}

/// How to go on after the settings were read, with so many variables applied.
pub open spec fn step_after_reading(settings_read: bool, overrides: nat) -> LoadStep {
    if settings_read {
        LoadStep::Use
    } else if overrides == 0 {
        LoadStep::Fail
    } else {
        LoadStep::WithoutOverrides
    }
}

/// What the search for certificate and private key gives.
pub open spec fn certificates_checked(
    c: &Config,
    cert_exists: bool,
    key_exists: bool,
    r: Result<bool, ConfigError>,
) -> bool {
    if cert_exists == key_exists {
        r == Ok::<bool, ConfigError>(cert_exists)
    } else if cert_exists {
        r matches Err(e) && e@ == Problem::KeyMissing(c.security.key_path@)
    } else {
        r matches Err(e) && e@ == Problem::CertificateMissing(c.security.cert_path@)
    }
}

/// What the settings `read` become: they are brought up to date and checked.
pub open spec fn load_finished(
    read: Config,
    facts: HostFacts,
    r: Result<Config, ConfigError>,
) -> bool {
    match r {
        Ok(c) => migrated(read, c) && first_problem(&c, facts) is None,
        Err(e) => exists|c: Config| migrated(read, c) && first_problem(&c, facts) == Some(e@),
    }
}

/// The address to listen on, by the command line and the configuration.
pub open spec fn address_for(
    configured: Seq<char>,
    listen: Option<String>,
    port: u16,
    host: Option<String>,
) -> Seq<char> {
    match (listen, host) {
        (Some(l), _) => l@ + ":"@ + decimal(port as nat),
        (None, Some(h)) => h@ + ":"@ + decimal(port as nat),
        (None, None) => configured,
    }
}

fn one_of3(s: &str, a: &str, b: &str, c: &str) -> (r: bool)
    ensures
        r == (s@ == a@ || s@ == b@ || s@ == c@),
{
    same_text(s, a) || same_text(s, b) || same_text(s, c)
}

fn push_var(v: &mut Vec<EnvVar>, wanted: bool, key: &str, value: String)
    ensures
        var_views(final(v)@) == var_views(old(v)@) + if_wanted(wanted, key@, value@),
{
    let ghost before = var_views(v@);
    if wanted {
        let e = EnvVar { key: key.to_owned(), value };
        v.push(e);
        assert(var_views(v@) =~= before + seq![(e.key@, e.value@)]);
    } else {
        assert(before + Seq::<(Seq<char>, Seq<char>)>::empty() =~= before);
    }
}

impl Config {
    /// The configuration where nothing is said.
    pub open spec fn is_default(&self, env: &HostEnvironment) -> bool {
        &&& self.config_version == CURRENT_CONFIG_VERSION
        &&& self.server.is_default()
        &&& self.security.is_default(env)
        &&& self.video.is_default()
        &&& self.video_pipeline.is_default()
        &&& self.capture.is_default()
        &&& self.input.is_default()
        &&& self.clipboard.is_default()
        &&& self.multimon.is_default()
        &&& self.performance.is_default()
        &&& self.logging.is_default()
        &&& self.egfx.is_default()
        &&& self.damage_tracking.is_default()
        &&& self.hardware_encoding.is_default()
        &&& self.display.is_default()
        &&& self.advanced_video.is_default()
        &&& self.cursor.is_default()
        &&& self.audio.is_default()
        &&& self.notifications.is_default()
        &&& self.gui_state.is_default()
    }

    /// The configuration where nothing is said.
    pub fn default_config(env: &HostEnvironment) -> (r: Result<Self, ConfigError>)
        ensures
            r matches Ok(c) && c.is_default(env),
    {
        Ok(
            Config {
                config_version: CURRENT_CONFIG_VERSION,
                server: ServerConfig::default(),
                security: SecurityConfig::default_for(env),
                video: VideoConfig::default(),
                video_pipeline: VideoPipelineConfig::default(),
                capture: CaptureProtocolConfig::default(),
                input: InputConfig::default(),
                clipboard: ClipboardConfig::default(),
                multimon: MultiMonitorConfig::default(),
                performance: PerformanceConfig::default(),
                logging: LoggingConfig::default(),
                egfx: EgfxConfig::default(),
                damage_tracking: DamageTrackingConfig::default(),
                hardware_encoding: HardwareEncodingConfig::default(),
                display: DisplayConfig::default(),
                advanced_video: AdvancedVideoConfig::default(),
                cursor: CursorConfig::default(),
                audio: AudioConfig::default(),
                notifications: NotificationConfig::default(),
                gui_state: GuiStateConfig::default(),
            },
        )
    }

    /// The tables that a configuration is read from: the configuration file, if
    /// there is one, and the same with the variables applied.
    pub fn load_tables(content: Option<&str>, vars: &[EnvVar]) -> (r: Result<
        ConfigTables,
        ConfigError,
    >)
        ensures
            tables_loaded(
                match content {
                    Some(text) => Some(text@),
                    None => None,
                },
                vars@,
                r,
            ),
    {
        let mut table = match content {
            Some(text) => match parse_table(text) {
                Ok(t) => t,
                Err(e) => {
                    return Err(ConfigError::Unreadable(e));
                },
            },
            None => new_table(),
        };
        let base = copy_table(&table);
        match apply_env_overrides(&mut table, vars) {
            Ok(overrides) => Ok(ConfigTables { table, base, overrides }),
            Err(key) => Err(ConfigError::PathConflict(key)),
        }
    }

    /// Decides how to go on after the settings were read from the table with the
    /// variables: an error that the variables caused is not held against the
    /// configuration file.
    pub fn load_step(settings_read: bool, overrides: &[String]) -> (r: LoadStep)
        ensures
            r == step_after_reading(settings_read, overrides@.len()),
    {
        if settings_read {
            LoadStep::Use
        } else if overrides.len() == 0 {
            LoadStep::Fail
        } else {
            LoadStep::WithoutOverrides
        }
    }

    /// Brings the settings that were read up to date and checks them.
    pub fn finish_load(self, facts: HostFacts) -> (r: Result<Self, ConfigError>)
        ensures
            load_finished(self, facts, r),
    {
        let mut config = self;
        config.migrate();
        match config.validate(facts) {
            Ok(()) => Ok(config),
            Err(e) => {
                assert(migrated(self, config));
                Err(e)
            },
        }
    }

    /// Brings settings of an older version up to date: the older switch for
    /// network-level authentication chooses the mode `hybrid` unless a mode is
    /// given.
    pub fn migrate(&mut self)
        ensures
            migrated(*old(self), *final(self)),
    {
        if self.security.enable_nla && same_text(self.security.security_mode.as_str(), "auto") {
            self.security.security_mode = "hybrid".to_owned();
        }
        self.config_version = CURRENT_CONFIG_VERSION;
    }

    /// Whether certificate and private key are there (`true`) or both are missing
    /// (`false`).
    pub fn check_certificates(&self, cert_exists: bool, key_exists: bool) -> (r: Result<
        bool,
        ConfigError,
    >)
        ensures
            certificates_checked(self, cert_exists, key_exists, r),
    {
        match (cert_exists, key_exists) {
            (true, true) => Ok(true),
            (false, false) => Ok(false),
            (true, false) => Err(ConfigError::KeyMissing(self.security.key_path.clone())),
            (false, true) => Err(ConfigError::CertificateMissing(self.security.cert_path.clone())),
        }
    }

    /// Checks the configuration.
    pub fn validate(&self, facts: HostFacts) -> (r: Result<(), ConfigError>)
        ensures
            match r {
                Ok(()) => first_problem(self, facts) is None,
                Err(e) => first_problem(self, facts) == Some(e@),
            },
    {
        if !facts.listen_addr_valid {
            return Err(ConfigError::InvalidListenAddress);
        }
        if !facts.cert_exists {
            return Err(ConfigError::CertificateNotFound(self.security.cert_path.clone()));
        }
        if !facts.key_exists {
            return Err(ConfigError::PrivateKeyNotFound(self.security.key_path.clone()));
        }
        let auth = self.security.auth_method.as_str();
        let mode = self.security.security_mode.as_str();
        if !same_text(auth, "none") && !same_text(auth, "pam") {
            return Err(ConfigError::InvalidAuthMethod(auth.to_owned()));
        }
        if !one_of3(mode, "tls", "hybrid", "auto") {
            return Err(ConfigError::InvalidSecurityMode(mode.to_owned()));
        }
        if same_text(auth, "pam") && !same_text(mode, "tls") {
            return Err(ConfigError::PamRequiresTls);
        }
        let cursor = self.video.cursor_mode.as_str();
        if !one_of3(cursor, "embedded", "metadata", "hidden") {
            return Err(ConfigError::InvalidCursorMode(cursor.to_owned()));
        }
        let strategy = self.cursor.mode.as_str();
        if !one_of3(strategy, "metadata", "painted", "hidden") && !same_text(
            strategy,
            "predictive",
        ) {
            return Err(ConfigError::InvalidCursorStrategy(strategy.to_owned()));
        }
        let zgfx = self.egfx.zgfx_compression.as_str();
        if !one_of3(zgfx, "never", "auto", "always") {
            return Err(ConfigError::InvalidCompression(zgfx.to_owned()));
        }
        let codec = self.egfx.codec.as_str();
        if !one_of3(codec, "avc420", "avc444", "auto") {
            return Err(ConfigError::InvalidCodec(codec.to_owned()));
        }
        let method = self.damage_tracking.method.as_str();
        if !one_of3(method, "pipewire", "diff", "hybrid") {
            return Err(ConfigError::InvalidDamageMethod(method.to_owned()));
        }
        let preset = self.hardware_encoding.quality_preset.as_str();
        if !one_of3(preset, "speed", "balanced", "quality") {
            return Err(ConfigError::InvalidQualityPreset(preset.to_owned()));
        }
        if self.egfx.qp_min > self.egfx.qp_max {
            return Err(ConfigError::QpRange { min: self.egfx.qp_min, max: self.egfx.qp_max });
        }
        if self.egfx.qp_default < self.egfx.qp_min || self.egfx.qp_default > self.egfx.qp_max {
            return Err(
                ConfigError::QpDefault {
                    default: self.egfx.qp_default,
                    min: self.egfx.qp_min,
                    max: self.egfx.qp_max,
                },
            );
        }
        Ok(())
    }

    /// The variables to set so that the capture and clipboard protocols follow
    /// the configuration.
    pub fn export_protocol_env_vars(&self, set: ProtocolVars) -> (r: Vec<EnvVar>)
        ensures
            var_views(r@) == protocol_vars(self, set),
    {
        let mut r: Vec<EnvVar> = Vec::new();
        assert(var_views(r@) =~= Seq::empty());
        push_var(
            &mut r,
            !set.capture_protocol && !same_text(self.capture.protocol.as_str(), "auto"),
            "XDP_GENERIC_CAPTURE_PROTOCOL",
            self.capture.protocol.clone(),
        );
        push_var(
            &mut r,
            !set.capture_no_fallback && !self.capture.allow_fallback,
            "XDP_GENERIC_CAPTURE_NO_FALLBACK",
            "1".to_owned(),
        );
        push_var(
            &mut r,
            !set.capture_timeout && self.capture.handshake_timeout_ms != 5000,
            "XDP_GENERIC_CAPTURE_TIMEOUT_MS",
            decimal_text(self.capture.handshake_timeout_ms),
        );
        push_var(
            &mut r,
            !set.clipboard_protocol && !same_text(self.clipboard.protocol.as_str(), "auto"),
            "XDP_GENERIC_CLIPBOARD_PROTOCOL",
            self.clipboard.protocol.clone(),
        );
        push_var(
            &mut r,
            !set.clipboard_no_fallback && !self.clipboard.allow_fallback,
            "XDP_GENERIC_CLIPBOARD_NO_FALLBACK",
            "1".to_owned(),
        );
        assert(var_views(r@) =~= protocol_vars(self, set));
        r
    }

    /// Applies the address and port of the command line. `host` is what stands before
    /// the port of the configured listen address, where that is an address with a
    /// port.
    pub fn with_overrides(self, listen: Option<String>, port: u16, host: Option<String>) -> (r: Self)
        ensures
            r == (Config {
                server: ServerConfig { listen_addr: r.server.listen_addr, ..self.server },
                ..self
            }),
            r.server.listen_addr@ == address_for(self.server.listen_addr@, listen, port, host),
    {
        let mut r = self;
        let chosen = match listen {
            Some(l) => Some(l),
            None => host,
        };
        if let Some(h) = chosen {
            let mut addr = joined(h.as_str(), ":");
            addr.append(decimal_text(port as u64).as_str());
            r.server.listen_addr = addr;
        }
        r
    }

    /// Applies the virtual socket settings of the command line.
    pub fn with_vsock(self, use_vsock: bool, vsock_port: u16) -> (r: Self)
        ensures
            r == (Config {
                server: ServerConfig {
                    use_vsock,
                    vsock_port: if use_vsock {
                        vsock_port
                    } else {
                        self.server.vsock_port
                    },
                    ..self.server
                },
                ..self
            }),
    {
        let mut r = self;
        r.server.use_vsock = use_vsock;
        if use_vsock {
            r.server.vsock_port = vsock_port;
        }
        r
    }

    /// What is asked of the desktop portal.
    pub fn to_portal_config(&self) -> (r: PortalSettings)
        ensures
            r == portal_settings(self),
    {
        let name = to_lower(self.video.cursor_mode.as_str());
        PortalSettings {
            cursor_mode: portal_cursor_mode(name.as_str()),
            keyboard: true,
            pointer: true,
            touchscreen: self.input.enable_touch,
            monitors: true,
            windows: true,
            allow_multiple: self.multimon.enabled,
        }
    }
}

/// The cursor mode that a name in lower case stands for.
pub fn portal_cursor_mode(name: &str) -> (r: CursorMode)
    ensures
        r == (if name@ == "embedded"@ {
            CursorMode::Embedded
        } else if name@ == "hidden"@ {
            CursorMode::Hidden
        } else {
            CursorMode::Metadata
        }),
{
    if same_text(name, "embedded") {
        CursorMode::Embedded
    } else if same_text(name, "hidden") {
        CursorMode::Hidden
    } else {
        CursorMode::Metadata
    }
}

/// `n` is `c` brought up to date.
pub open spec fn migrated(c: Config, n: Config) -> bool {
    &&& n == (Config {
        config_version: CURRENT_CONFIG_VERSION,
        security: SecurityConfig { security_mode: n.security.security_mode, ..c.security },
        ..c
    })
    &&& if c.security.enable_nla && c.security.security_mode@ == "auto"@ {
        n.security.security_mode@ == "hybrid"@
    } else {
        n.security.security_mode == c.security.security_mode
    }
}

/// The configuration where nothing is said is valid as soon as its certificate
/// and private key are there.
pub proof fn default_config_is_valid(c: &Config, env: &HostEnvironment, facts: HostFacts)
    requires
        c.is_default(env),
        facts.listen_addr_valid,
        facts.cert_exists,
        facts.key_exists,
    ensures
        first_problem(c, facts) is None,
{
    reveal_strlit("none");
    reveal_strlit("pam");
    assert("none"@.len() != "pam"@.len());
}

/// Bringing a configuration up to date twice is the same as doing it once.
pub proof fn migration_settles(a: Config, b: Config, c: Config)
    requires
        migrated(a, b),
        migrated(b, c),
    ensures
        c == b,
{
    reveal_strlit("hybrid");
    reveal_strlit("auto");
    assert("hybrid"@.len() != "auto"@.len());
}

/// A valid configuration authenticates through PAM only with plain TLS.
pub proof fn pam_needs_tls(c: &Config, facts: HostFacts)
    requires
        first_problem(c, facts) is None,
        c.security.auth_method@ == "pam"@,
    ensures
        c.security.security_mode@ == "tls"@,
{
}

/// In a valid configuration the usual quantisation parameter lies in its range.
pub proof fn quantisation_is_in_range(c: &Config, facts: HostFacts)
    requires
        first_problem(c, facts) is None,
    ensures
        c.egfx.qp_min <= c.egfx.qp_default <= c.egfx.qp_max,
{
}

/// A variable that is set already is never set again: the environment wins over the
/// configuration.
pub proof fn environment_wins(c: &Config, set: ProtocolVars, i: int)
    requires
        0 <= i < protocol_vars(c, set).len(),
    ensures
        ({
            let key = protocol_vars(c, set)[i].0;
            &&& set.capture_protocol ==> key != "XDP_GENERIC_CAPTURE_PROTOCOL"@
            &&& set.capture_no_fallback ==> key != "XDP_GENERIC_CAPTURE_NO_FALLBACK"@
            &&& set.capture_timeout ==> key != "XDP_GENERIC_CAPTURE_TIMEOUT_MS"@
            &&& set.clipboard_protocol ==> key != "XDP_GENERIC_CLIPBOARD_PROTOCOL"@
            &&& set.clipboard_no_fallback ==> key != "XDP_GENERIC_CLIPBOARD_NO_FALLBACK"@
        }),
{
    reveal_strlit("XDP_GENERIC_CAPTURE_PROTOCOL");
    reveal_strlit("XDP_GENERIC_CAPTURE_NO_FALLBACK");
    reveal_strlit("XDP_GENERIC_CAPTURE_TIMEOUT_MS");
    reveal_strlit("XDP_GENERIC_CLIPBOARD_PROTOCOL");
    reveal_strlit("XDP_GENERIC_CLIPBOARD_NO_FALLBACK");
    assert("XDP_GENERIC_CAPTURE_PROTOCOL"@.len() == 28);
    assert("XDP_GENERIC_CAPTURE_NO_FALLBACK"@.len() == 31);
    assert("XDP_GENERIC_CAPTURE_TIMEOUT_MS"@[12] == 'C');
    assert("XDP_GENERIC_CAPTURE_TIMEOUT_MS"@[13] == 'A');
    assert("XDP_GENERIC_CLIPBOARD_PROTOCOL"@[13] == 'L');
    assert("XDP_GENERIC_CAPTURE_TIMEOUT_MS"@.len() == 30);
    assert("XDP_GENERIC_CLIPBOARD_PROTOCOL"@.len() == 30);
    assert("XDP_GENERIC_CLIPBOARD_NO_FALLBACK"@.len() == 33);
}

/// A configuration is accepted exactly where the listen address, the certificate and
/// the private key are good, every choice is one of those on offer, users are
/// authenticated through PAM only inside plain TLS, and the quantisation parameters
/// are in order.
pub proof fn accepted_configurations(c: &Config, facts: HostFacts)
    ensures
        first_problem(c, facts) is None <==> {
            &&& facts.listen_addr_valid
            &&& facts.cert_exists
            &&& facts.key_exists
            &&& {
                ||| c.security.auth_method@ == "none"@ && (c.security.security_mode@ == "tls"@
                    || c.security.security_mode@ == "hybrid"@ || c.security.security_mode@
                    == "auto"@)
                ||| c.security.auth_method@ == "pam"@ && c.security.security_mode@ == "tls"@
            }
            &&& c.video.cursor_mode@ == "embedded"@ || c.video.cursor_mode@ == "metadata"@
                || c.video.cursor_mode@ == "hidden"@
            &&& c.cursor.mode@ == "metadata"@ || c.cursor.mode@ == "painted"@ || c.cursor.mode@
                == "hidden"@ || c.cursor.mode@ == "predictive"@
            &&& c.egfx.zgfx_compression@ == "never"@ || c.egfx.zgfx_compression@ == "auto"@
                || c.egfx.zgfx_compression@ == "always"@
            &&& c.egfx.codec@ == "avc420"@ || c.egfx.codec@ == "avc444"@ || c.egfx.codec@ == "auto"@
            &&& c.damage_tracking.method@ == "pipewire"@ || c.damage_tracking.method@ == "diff"@
                || c.damage_tracking.method@ == "hybrid"@
            &&& c.hardware_encoding.quality_preset@ == "speed"@
                || c.hardware_encoding.quality_preset@ == "balanced"@
                || c.hardware_encoding.quality_preset@ == "quality"@
            &&& c.egfx.qp_min <= c.egfx.qp_default <= c.egfx.qp_max
        },
{
    reveal_strlit("none");
    reveal_strlit("pam");
    assert("none"@.len() != "pam"@.len());
}

/// What is reported as wrong is wrong, and is reported as it stands in the
/// configuration.
pub proof fn reported_problems_are_real(c: &Config, facts: HostFacts)
    ensures
        match first_problem(c, facts) {
            None => true,
            Some(Problem::InvalidListenAddress) => !facts.listen_addr_valid,
            Some(Problem::CertificateNotFound(path)) => !facts.cert_exists && path
                == c.security.cert_path@,
            Some(Problem::PrivateKeyNotFound(path)) => !facts.key_exists && path
                == c.security.key_path@,
            Some(Problem::InvalidAuthMethod(s)) => s == c.security.auth_method@ && s != "none"@ && s
                != "pam"@,
            Some(Problem::InvalidSecurityMode(s)) => s == c.security.security_mode@ && s != "tls"@
                && s != "hybrid"@ && s != "auto"@,
            Some(Problem::PamRequiresTls) => c.security.auth_method@ == "pam"@
                && c.security.security_mode@ != "tls"@,
            Some(Problem::InvalidCursorMode(s)) => s == c.video.cursor_mode@ && s != "embedded"@ && s
                != "metadata"@ && s != "hidden"@,
            Some(Problem::InvalidCursorStrategy(s)) => s == c.cursor.mode@ && s != "metadata"@ && s
                != "painted"@ && s != "hidden"@ && s != "predictive"@,
            Some(Problem::InvalidCompression(s)) => s == c.egfx.zgfx_compression@ && s != "never"@
                && s != "auto"@ && s != "always"@,
            Some(Problem::InvalidCodec(s)) => s == c.egfx.codec@ && s != "avc420"@ && s != "avc444"@
                && s != "auto"@,
            Some(Problem::InvalidDamageMethod(s)) => s == c.damage_tracking.method@ && s
                != "pipewire"@ && s != "diff"@ && s != "hybrid"@,
            Some(Problem::InvalidQualityPreset(s)) => s == c.hardware_encoding.quality_preset@ && s
                != "speed"@ && s != "balanced"@ && s != "quality"@,
            Some(Problem::QpRange { min, max }) => min == c.egfx.qp_min && max == c.egfx.qp_max
                && min > max,
            Some(Problem::QpDefault { default, min, max }) => default == c.egfx.qp_default && min
                == c.egfx.qp_min && max == c.egfx.qp_max && (default < min || default > max),
            Some(_) => false,
        },
{
}

/// The file that is read is the one that the settings come from: with no variable for
/// the server both tables hold what the file holds, and with a further one the table
/// has what it writes where its name leads.
pub proof fn variables_go_over_the_file(
    content: Option<Seq<char>>,
    vars: Seq<EnvVar>,
    r: Result<ConfigTables, ConfigError>,
)
    requires
        tables_loaded(content, vars, r),
    ensures
        content is None ==> !(r matches Err(e) && e@ is Unreadable),
        content matches Some(text) ==> (toml_document(text) is None <==> (r matches Err(e) && e@
            is Unreadable)),
        r matches Ok(t) ==> {
            &&& content matches Some(text) ==> toml_document(text) == Some(table_model(t.base))
            &&& content is None ==> table_model(t.base).dom() == Set::<Seq<char>>::empty()
            &&& (forall|i: int|
                0 <= i < vars.len() ==> !is_override((#[trigger] vars[i]).key@)) ==> (table_model(
                t.table,
            ) == table_model(t.base) && t.overrides@.len() == 0)
            &&& vars.len() > 0 && is_override(vars.last().key@) ==> get_path(
                table_model(t.table),
                override_path(vars.last().key@),
            ) == Some(inferred(vars.last().value@))
        },
{
    if let Ok(t) = r {
        let b = table_model(t.base);
        if forall|i: int| 0 <= i < vars.len() ==> !is_override((#[trigger] vars[i]).key@) {
            lemma_other_variables(b, vars);
        }
        if vars.len() > 0 && is_override(vars.last().key@) {
            let before = overlaid(b, vars.drop_last())->0;
            lemma_set_is_read(
                before,
                override_path(vars.last().key@),
                inferred(vars.last().value@),
            );
        }
    }
}

proof fn lemma_other_variables(m: Map<Seq<char>, TomlModel>, vars: Seq<EnvVar>)
    requires
        forall|i: int| 0 <= i < vars.len() ==> !is_override((#[trigger] vars[i]).key@),
    ensures
        overlaid(m, vars) == Some(m),
        override_keys(vars).len() == 0,
    decreases vars.len(),
{
    if vars.len() > 0 {
        assert(vars.last() == vars[vars.len() - 1]);
        assert forall|i: int| 0 <= i < vars.drop_last().len() implies !is_override(
            (#[trigger] vars.drop_last()[i]).key@,
        ) by {
            assert(vars.drop_last()[i] == vars[i]);
        }
        lemma_other_variables(m, vars.drop_last());
    }
}

proof fn lemma_set_is_read(m: Map<Seq<char>, TomlModel>, path: Seq<Seq<char>>, v: TomlModel)
    requires
        set_path(m, path, v) is Some,
    ensures
        get_path(set_path(m, path, v)->0, path) == Some(v),
    decreases path.len(),
{
    if path.len() > 1 {
        lemma_set_is_read(subtable(m, path[0])->0, path.drop_first(), v);
    }
}

/// Settings that could not be read are tried again without the variables, if there were
/// any; without variables the file itself is at fault.
pub proof fn variables_are_blamed_first(settings_read: bool, overrides: nat)
    ensures
        step_after_reading(settings_read, overrides) == LoadStep::Use <==> settings_read,
        step_after_reading(settings_read, overrides) == LoadStep::Fail <==> !settings_read
            && overrides == 0,
        step_after_reading(settings_read, overrides) == LoadStep::WithoutOverrides
            <==> !settings_read && overrides > 0,
{
}

/// A certificate and its private key come together: with both the server can start, with
/// neither they can be made, and one alone is an error that names the other's path.
pub proof fn certificates_come_with_their_keys(
    c: &Config,
    cert_exists: bool,
    key_exists: bool,
    r: Result<bool, ConfigError>,
)
    requires
        certificates_checked(c, cert_exists, key_exists, r),
    ensures
        (r matches Ok(b) && b) <==> cert_exists && key_exists,
        (r matches Ok(b) && !b) <==> !cert_exists && !key_exists,
        cert_exists && !key_exists ==> (r matches Err(e) && e@ == Problem::KeyMissing(
            c.security.key_path@,
        )),
        !cert_exists && key_exists ==> (r matches Err(e) && e@ == Problem::CertificateMissing(
            c.security.cert_path@,
        )),
{
}

/// Loaded settings have the present version, have passed the check, and differ from what
/// was read only in the security mode: the older switch for network-level authentication
/// chooses `hybrid` where the mode is left to the server.
pub proof fn loaded_settings_are_up_to_date(
    read: Config,
    facts: HostFacts,
    r: Result<Config, ConfigError>,
)
    requires
        load_finished(read, facts, r),
    ensures
        r matches Ok(c) ==> {
            &&& c.config_version == 1
            &&& first_problem(&c, facts) is None
            &&& read.security.enable_nla && read.security.security_mode@ == "auto"@
                ==> c.security.security_mode@ == "hybrid"@
            &&& !read.security.enable_nla || read.security.security_mode@ != "auto"@
                ==> c.security.security_mode@ == read.security.security_mode@
            &&& c == (Config {
                config_version: 1,
                security: SecurityConfig {
                    security_mode: c.security.security_mode,
                    ..read.security
                },
                ..read
            })
        },
        read.security.security_mode@ != "auto"@ ==> (r is Ok <==> first_problem(&read, facts) is None),
        read.security.security_mode@ != "auto"@ ==> (r matches Err(e) ==> first_problem(&read, facts)
            == Some(e@)),
{
    if let Err(e) = r {
        let c = choose|c: Config| migrated(read, c) && first_problem(&c, facts) == Some(e@);
        assert(read.security.security_mode@ != "auto"@ ==> first_problem(&c, facts)
            == first_problem(&read, facts));
    }
}

/// The address of the command line comes first, then that of the configuration with the
/// port of the command line; where there is neither, the configured text stays.
pub proof fn command_line_addresses_come_first(
    configured: Seq<char>,
    l: String,
    h: String,
    port: u16,
    host: Option<String>,
)
    ensures
        address_for(configured, Some(l), port, host) == l@ + seq![':'] + decimal(port as nat),
        address_for(configured, None, port, Some(h)) == h@ + seq![':'] + decimal(port as nat),
        address_for(configured, None, port, None) == configured,
{
    reveal_strlit(":");
    assert(":"@ =~= seq![':']);
}

/// The protocols are told exactly the settings that differ from the usual ones and that
/// the environment does not give already.
pub proof fn protocols_are_told_the_settings(
    c: &Config,
    set: ProtocolVars,
    key: Seq<char>,
    value: Seq<char>,
)
    ensures
        protocol_vars(c, set).contains((key, value)) <==> {
            ||| key == "XDP_GENERIC_CAPTURE_PROTOCOL"@ && value == c.capture.protocol@ && value
                != "auto"@ && !set.capture_protocol
            ||| key == "XDP_GENERIC_CAPTURE_NO_FALLBACK"@ && value == seq!['1']
                && !c.capture.allow_fallback && !set.capture_no_fallback
            ||| key == "XDP_GENERIC_CAPTURE_TIMEOUT_MS"@ && value == decimal(
                c.capture.handshake_timeout_ms as nat,
            ) && c.capture.handshake_timeout_ms != 5000 && !set.capture_timeout
            ||| key == "XDP_GENERIC_CLIPBOARD_PROTOCOL"@ && value == c.clipboard.protocol@ && value
                != "auto"@ && !set.clipboard_protocol
            ||| key == "XDP_GENERIC_CLIPBOARD_NO_FALLBACK"@ && value == seq!['1']
                && !c.clipboard.allow_fallback && !set.clipboard_no_fallback
        },
        protocol_vars(c, set).len() <= 5,
{
    broadcast use vstd::seq_lib::lemma_seq_concat_contains_all_elements;

    reveal_strlit("1");
    assert("1"@ =~= seq!['1']);
    lemma_wanted(
        !set.capture_protocol && c.capture.protocol@ != "auto"@,
        "XDP_GENERIC_CAPTURE_PROTOCOL"@,
        c.capture.protocol@,
        key,
        value,
    );
    lemma_wanted(
        !set.capture_no_fallback && !c.capture.allow_fallback,
        "XDP_GENERIC_CAPTURE_NO_FALLBACK"@,
        "1"@,
        key,
        value,
    );
    lemma_wanted(
        !set.capture_timeout && c.capture.handshake_timeout_ms != 5000,
        "XDP_GENERIC_CAPTURE_TIMEOUT_MS"@,
        decimal(c.capture.handshake_timeout_ms as nat),
        key,
        value,
    );
    lemma_wanted(
        !set.clipboard_protocol && c.clipboard.protocol@ != "auto"@,
        "XDP_GENERIC_CLIPBOARD_PROTOCOL"@,
        c.clipboard.protocol@,
        key,
        value,
    );
    lemma_wanted(
        !set.clipboard_no_fallback && !c.clipboard.allow_fallback,
        "XDP_GENERIC_CLIPBOARD_NO_FALLBACK"@,
        "1"@,
        key,
        value,
    );
}

proof fn lemma_wanted(wanted: bool, k: Seq<char>, v: Seq<char>, key: Seq<char>, value: Seq<char>)
    ensures
        if_wanted(wanted, k, v).contains((key, value)) <==> wanted && key == k && value == v,
{
    let s = if_wanted(wanted, k, v);
    if wanted {
        assert(s[0] == (k, v));
    }
}

/// The system's administrator keeps everything below `/etc`, other users below their own
/// directory, and a sandbox in the directory that it is given.
pub proof fn settings_are_kept_with_their_owner(env: &HostEnvironment, dir: String)
    ensures
        env.flatpak && env.config_dir == Some(dir) ==> cert_dir(env) == dir@,
        env.flatpak && env.config_dir is None ==> cert_dir(env) == "/app/config"@,
        !env.flatpak && (env.uid == 0 || env.config_dir is None) ==> cert_dir(env)
            == "/etc/lamco-rdp-server"@,
        !env.flatpak && env.uid != 0 && env.config_dir == Some(dir) ==> cert_dir(env) == path_in(
            dir@,
            "lamco-rdp-server"@,
        ),
{
}

/// Log files go where the settings say, except in a sandbox, which keeps them with its
/// data; where nothing is said they go below the user's data.
pub proof fn logs_are_kept_where_asked(
    env: &HostEnvironment,
    configured: &Option<String>,
    dir: String,
    data: String,
)
    ensures
        !env.flatpak && configured == Some(dir) ==> log_dir(env, configured) == dir@,
        !env.flatpak && configured is None && env.data_dir == Some(data) ==> log_dir(
            env,
            configured,
        ) == path_in(data@, "lamco-rdp-server/logs"@),
        !env.flatpak && configured is None && env.data_dir is None ==> log_dir(env, configured)
            == "/tmp/lamco-rdp-server"@,
        env.flatpak && env.data_dir == Some(data) ==> log_dir(env, configured) == path_in(
            data@,
            "logs"@,
        ),
        env.flatpak && env.data_dir is None ==> log_dir(env, configured) == path_in(
            "/app/data"@,
            "logs"@,
        ),
{
}

/// Keyboard and pointer are always passed on and everything can be shown; touch input
/// and more than one monitor follow the settings, and so does the cursor, whatever the
/// case of its name.
pub proof fn the_portal_is_asked_for_the_settings(c: &Config)
    ensures
        portal_settings(c).keyboard && portal_settings(c).pointer,
        portal_settings(c).monitors && portal_settings(c).windows,
        portal_settings(c).touchscreen == c.input.enable_touch,
        portal_settings(c).allow_multiple == c.multimon.enabled,
        portal_settings(c).cursor_mode == CursorMode::Embedded <==> lowercase(c.video.cursor_mode@)
            == "embedded"@,
        portal_settings(c).cursor_mode == CursorMode::Hidden <==> lowercase(c.video.cursor_mode@)
            == "hidden"@,
        lowercase(c.video.cursor_mode@) == "metadata"@ ==> portal_settings(c).cursor_mode
            == CursorMode::Metadata,
{
    reveal_strlit("embedded");
    reveal_strlit("metadata");
    reveal_strlit("hidden");
    assert("embedded"@.len() != "hidden"@.len());
    assert("metadata"@.len() != "hidden"@.len());
    assert("embedded"@[0] == 'e' && "metadata"@[0] == 'm');
}

/// The usual settings: any client may connect to the usual port over TLS, the clipboard,
/// the sound and all monitors are on, input is passed on, and limits that belong
/// together fit together.
pub proof fn usual_settings(c: &Config, env: &HostEnvironment)
    requires
        c.is_default(env),
    ensures
        c.config_version == 1,
        c.server.listen_addr@ == "0.0.0.0:3389"@,
        c.server.vsock_port == 3389 && !c.server.use_vsock,
        c.server.max_connections == 10 && c.server.session_timeout == 0,
        c.server.use_portals && !c.server.view_only,
        c.security.auth_method@ == "none"@ && c.security.security_mode@ == "auto"@,
        !c.security.enable_nla && !c.security.require_tls_13,
        c.security.cert_path@ == path_in(cert_dir(env), "cert.pem"@),
        c.security.key_path@ == path_in(cert_dir(env), "key.pem"@),
        c.video.target_fps == 30 && c.video.cursor_mode@ == "metadata"@,
        c.capture.protocol@ == "auto"@ && c.capture.allow_fallback && c.capture.handshake_timeout_ms
            == 5000,
        c.input.input_protocol@ == "auto"@ && c.input.use_libei is None && !c.input.enable_touch,
        c.clipboard.enabled && c.clipboard.allowed_types@.len() == 0,
        c.clipboard.max_size == 10 * 1024 * 1024 && c.clipboard.rate_limit_ms == 200,
        c.multimon.enabled && c.multimon.max_monitors == 4,
        c.performance.adaptive_fps.min_fps == 5 && c.performance.adaptive_fps.max_fps == 30,
        c.performance.latency.interactive_max_delay_ms
            < c.performance.latency.balanced_max_delay_ms
            < c.performance.latency.quality_max_delay_ms,
        c.logging.level@ == "info"@ && c.logging.log_dir is None,
        c.egfx.qp_min == 10 && c.egfx.qp_default == 23 && c.egfx.qp_max == 40,
        c.egfx.codec@ == "auto"@ && c.egfx.zgfx_compression@ == "never"@,
        c.damage_tracking.method@ == "diff"@,
        !c.hardware_encoding.enabled && c.hardware_encoding.quality_preset@ == "balanced"@,
        c.cursor.mode@ == "metadata"@,
        c.audio.enabled && c.audio.sample_rate == 48000 && c.audio.channels == 2,
        c.notifications.on_error,
        forall|set: ProtocolVars| #[trigger] protocol_vars(c, set).len() == 0,
{
    assert forall|set: ProtocolVars| #[trigger] protocol_vars(c, set).len() == 0 by {}
}

} // verus!
