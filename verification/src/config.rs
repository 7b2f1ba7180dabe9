//! The configuration of the logger and the store that holds it.
//!
//! A configuration arrives as a [`RawConfig`]: the decoded payload, in which
//! every optional field may be absent and the level is still text. Resolving
//! it fills in the defaults and reads the level. The store is a
//! [`PluginConfig`] owned by the caller: [`initialize`] replaces its contents
//! as a whole or leaves them untouched, [`teardown`] puts it back into the
//! state in which nothing is logged.

use vstd::prelude::*;
use vstd::string::*;
use crate::level::{parse_level, LogLevel, ParseError};

verus! {

/// Status of a call that did what was asked, or that suppressed a record on
/// purpose.
pub const STATUS_OK: i32 = 0;

/// Status of a call whose payload could not be read.
pub const STATUS_INVALID_PAYLOAD: i32 = 1;

/// Default size, in bytes, above which the log file is rotated: 10 MiB.
pub const DEFAULT_MAX_LOG_FILE_SIZE: u64 = 10485760;

/// Default number of archives that are kept.
pub const DEFAULT_MAX_LOG_FILE_COUNT: u32 = 5;

/// The active configuration.
#[derive(Debug, PartialEq, Eq)]
pub struct PluginConfig {
    pub app_name: String,
    pub log_file: String,
    pub log_to_file: bool,
    pub log_to_console: bool,
    pub minimum_log_level: LogLevel,
    pub max_log_file_size: u64,
    pub max_log_file_count: u32,
    pub enable_log_rotation: bool,
    pub log_to_file_colored: bool,
}

/// What a [`PluginConfig`] holds, as mathematical values.
pub struct ConfigView {
    pub app_name: Seq<char>,
    pub log_file: Seq<char>,
    pub log_to_file: bool,
    pub log_to_console: bool,
    pub minimum_log_level: LogLevel,
    pub max_log_file_size: u64,
    pub max_log_file_count: u32,
    pub enable_log_rotation: bool,
    pub log_to_file_colored: bool,
}

impl View for PluginConfig {
    type V = ConfigView;

    open spec fn view(&self) -> ConfigView {
        ConfigView {
            app_name: self.app_name@,
            log_file: self.log_file@,
            log_to_file: self.log_to_file,
            log_to_console: self.log_to_console,
            minimum_log_level: self.minimum_log_level,
            max_log_file_size: self.max_log_file_size,
            max_log_file_count: self.max_log_file_count,
            enable_log_rotation: self.enable_log_rotation,
            log_to_file_colored: self.log_to_file_colored,
        }
    }
}

/// A decoded configuration payload. Every field may be absent in it; the
/// application name is the one that must not be.
#[derive(Debug, PartialEq, Eq)]
pub struct RawConfig {
    pub app_name: Option<String>,
    pub log_file: Option<String>,
    pub log_to_file: Option<bool>,
    pub log_to_console: Option<bool>,
    pub minimum_log_level: Option<String>,
    pub max_log_file_size: Option<u64>,
    pub max_log_file_count: Option<u32>,
    pub enable_log_rotation: Option<bool>,
    pub log_to_file_colored: Option<bool>,
}

/// What a [`RawConfig`] holds, as mathematical values.
pub struct RawConfigView {
    pub app_name: Option<Seq<char>>,
    pub log_file: Option<Seq<char>>,
    pub log_to_file: Option<bool>,
    pub log_to_console: Option<bool>,
    pub minimum_log_level: Option<Seq<char>>,
    pub max_log_file_size: Option<u64>,
    pub max_log_file_count: Option<u32>,
    pub enable_log_rotation: Option<bool>,
    pub log_to_file_colored: Option<bool>,
}

impl View for RawConfig {
    type V = RawConfigView;

    open spec fn view(&self) -> RawConfigView {
        RawConfigView {
            app_name: self.app_name.deep_view(),
            log_file: self.log_file.deep_view(),
            log_to_file: self.log_to_file,
            log_to_console: self.log_to_console,
            minimum_log_level: self.minimum_log_level.deep_view(),
            max_log_file_size: self.max_log_file_size,
            max_log_file_count: self.max_log_file_count,
            enable_log_rotation: self.enable_log_rotation,
            log_to_file_colored: self.log_to_file_colored,
        }
    }
}

/// A present value, or the default in its place.
pub open spec fn or_default<T>(value: Option<T>, default: T) -> T {
    match value {
        Some(v) => v,
        None => default,
    }
}

/// The level that an optional text names: the default level where the text
/// is absent, an error where it names no level.
pub open spec fn level_or_default(text: Option<Seq<char>>) -> Result<LogLevel, ParseError> {
    match text {
        None => Ok(LogLevel::Info),
        Some(t) => match parse_level(t) {
            Some(level) => Ok(level),
            None => Err(ParseError::UnknownLevel),
        },
    }
}

/// The configuration that a payload stands for: each absent optional field
/// takes its default. The payload as a whole is refused where its level
/// text names no level, and where it gives no application name.
pub open spec fn resolve_config(raw: RawConfigView) -> Result<ConfigView, ParseError> {
    match (level_or_default(raw.minimum_log_level), raw.app_name) {
        (Err(e), _) => Err(e),
        (Ok(_), None) => Err(ParseError::MissingField),
        (Ok(level), Some(app_name)) => Ok(
            ConfigView {
                app_name: app_name,
                log_file: or_default(raw.log_file, "default.log"@),
                log_to_file: or_default(raw.log_to_file, true),
                log_to_console: or_default(raw.log_to_console, true),
                minimum_log_level: level,
                max_log_file_size: or_default(raw.max_log_file_size, DEFAULT_MAX_LOG_FILE_SIZE),
                max_log_file_count: or_default(raw.max_log_file_count, DEFAULT_MAX_LOG_FILE_COUNT),
                enable_log_rotation: or_default(raw.enable_log_rotation, true),
                log_to_file_colored: or_default(raw.log_to_file_colored, true),
            },
        ),
    }
}

/// The contents of a store that was never configured, or was torn down:
/// every name empty, every switch off, the level and the limits at their
/// defaults.
pub open spec fn unconfigured() -> ConfigView {
    ConfigView {
        app_name: Seq::empty(),
        log_file: Seq::empty(),
        log_to_file: false,
        log_to_console: false,
        minimum_log_level: LogLevel::Info,
        max_log_file_size: DEFAULT_MAX_LOG_FILE_SIZE,
        max_log_file_count: DEFAULT_MAX_LOG_FILE_COUNT,
        enable_log_rotation: false,
        log_to_file_colored: false,
    }
}

/// A payload that gives the application name and nothing else resolves to
/// that name with every default: the file `default.log`, both destinations
/// on, the level `Info`, 10 MiB, five archives, rotation on, a coloured
/// file.
pub proof fn lemma_absent_fields_take_defaults(app_name: Seq<char>)
    ensures
        resolve_config(
            RawConfigView {
                app_name: Some(app_name),
                log_file: None,
                log_to_file: None,
                log_to_console: None,
                minimum_log_level: None,
                max_log_file_size: None,
                max_log_file_count: None,
                enable_log_rotation: None,
                log_to_file_colored: None,
            },
        ) == Ok::<ConfigView, ParseError>(
            ConfigView {
                app_name: app_name,
                log_file: "default.log"@,
                log_to_file: true,
                log_to_console: true,
                minimum_log_level: LogLevel::Info,
                max_log_file_size: DEFAULT_MAX_LOG_FILE_SIZE,
                max_log_file_count: 5,
                enable_log_rotation: true,
                log_to_file_colored: true,
            },
        ),
        DEFAULT_MAX_LOG_FILE_SIZE == 10 * 1024 * 1024,
{
}

/// The log file of a payload that names none.
pub fn default_log_file() -> (r: String)
    ensures
        r@ == "default.log"@,
{
    String::from_str("default.log")
}

/// File output is on unless a payload says otherwise.
pub fn default_log_to_file() -> (r: bool)
    ensures
        r,
{
    true
}

/// Console output is on unless a payload says otherwise.
pub fn default_log_to_console() -> (r: bool)
    ensures
        r,
{
    true
}

/// The level of a payload that names none.
pub fn default_minimum_log_level() -> (r: LogLevel)
    ensures
        r == LogLevel::Info,
{
    LogLevel::Info
}

/// The size limit of a payload that gives none.
pub fn default_max_log_file_size() -> (r: u64)
    ensures
        r == DEFAULT_MAX_LOG_FILE_SIZE,
{
    DEFAULT_MAX_LOG_FILE_SIZE
}

/// The retention count of a payload that gives none.
pub fn default_max_log_file_count() -> (r: u32)
    ensures
        r == DEFAULT_MAX_LOG_FILE_COUNT,
{
    DEFAULT_MAX_LOG_FILE_COUNT
}

/// Rotation is on unless a payload says otherwise.
pub fn default_enable_log_rotation() -> (r: bool)
    ensures
        r,
{
    true
}

/// The log file is coloured unless a payload says otherwise.
pub fn default_log_to_file_colored() -> (r: bool)
    ensures
        r,
{
    true
}

/// Reads an optional level text; see [`level_or_default`].
pub fn read_level(text: &Option<String>) -> (r: Result<LogLevel, ParseError>)
    ensures
        r == level_or_default(text.deep_view()),
{
    match text {
        None => Ok(default_minimum_log_level()),
        Some(t) => LogLevel::from_str(t.as_str()),
    }
}

impl PluginConfig {
    /// The state of a store before it is configured.
    pub fn new() -> (r: PluginConfig)
        ensures
            r@ == unconfigured(),
    {
        PluginConfig {
            app_name: String::new(),
            log_file: String::new(),
            log_to_file: false,
            log_to_console: false,
            minimum_log_level: default_minimum_log_level(),
            max_log_file_size: default_max_log_file_size(),
            max_log_file_count: default_max_log_file_count(),
            enable_log_rotation: false,
            log_to_file_colored: false,
        }
    }

    /// Resolves a payload into a configuration; see [`resolve_config`].
    pub fn from_raw(raw: RawConfig) -> (r: Result<PluginConfig, ParseError>)
        ensures
            match resolve_config(raw@) {
                Ok(c) => r is Ok && r->Ok_0@ == c,
                Err(e) => r == Err::<PluginConfig, ParseError>(e),
            },
    {
        let level = match read_level(&raw.minimum_log_level) {
            Ok(level) => level,
            Err(e) => {
                return Err(e);
            },
        };
        let app_name = match raw.app_name {
            Some(name) => name,
            None => {
                return Err(ParseError::MissingField);
            },
        };
        Ok(
            PluginConfig {
                app_name: app_name,
                log_file: match raw.log_file {
                    Some(f) => f,
                    None => default_log_file(),
                },
                log_to_file: match raw.log_to_file {
                    Some(b) => b,
                    None => default_log_to_file(),
                },
                log_to_console: match raw.log_to_console {
                    Some(b) => b,
                    None => default_log_to_console(),
                },
                minimum_log_level: level,
                max_log_file_size: match raw.max_log_file_size {
                    Some(n) => n,
                    None => default_max_log_file_size(),
                },
                max_log_file_count: match raw.max_log_file_count {
                    Some(n) => n,
                    None => default_max_log_file_count(),
                },
                enable_log_rotation: match raw.enable_log_rotation {
                    Some(b) => b,
                    None => default_enable_log_rotation(),
                },
                log_to_file_colored: match raw.log_to_file_colored {
                    Some(b) => b,
                    None => default_log_to_file_colored(),
                },
            },
        )
    }

    /// An independent copy of the configuration, taken as a whole.
    pub fn snapshot(&self) -> (r: PluginConfig)
        ensures
            r@ == self@,
    {
        PluginConfig {
            app_name: self.app_name.clone(),
            log_file: self.log_file.clone(),
            log_to_file: self.log_to_file,
            log_to_console: self.log_to_console,
            minimum_log_level: self.minimum_log_level,
            max_log_file_size: self.max_log_file_size,
            max_log_file_count: self.max_log_file_count,
            enable_log_rotation: self.enable_log_rotation,
            log_to_file_colored: self.log_to_file_colored,
        }
    }
}

/// Configures the store from a payload. On success the whole store is
/// replaced and the status is [`STATUS_OK`]; where the payload is refused the
/// store keeps its contents and the status is [`STATUS_INVALID_PAYLOAD`].
pub fn initialize(store: &mut PluginConfig, raw: RawConfig) -> (status: i32)
    ensures
        match resolve_config(raw@) {
            Ok(c) => status == STATUS_OK && final(store)@ == c,
            Err(_) => status == STATUS_INVALID_PAYLOAD && final(store)@ == old(store)@,
        },
{
    match PluginConfig::from_raw(raw) {
        Ok(config) => {
            *store = config;
            STATUS_OK
        },
        Err(_) => STATUS_INVALID_PAYLOAD,
    }
}

/// Resets every field of the store; the status is always [`STATUS_OK`].
pub fn teardown(store: &mut PluginConfig) -> (status: i32)
    ensures
        status == STATUS_OK,
        final(store)@ == unconfigured(),
{
    *store = PluginConfig::new();
    STATUS_OK
}

} // verus!
