//! The configuration surface: every setting is optional and has a default.
//!
//! A setting arrives as the text that the environment holds for it, if any.
//! A text that does not read as a number of the setting's type counts as
//! absent. [`Config`] holds the value of every setting; it is made once at
//! startup and handed to each component by reference.

use crate::text::{
    i32_of_text, opt_text, parse_i32, parse_u64, parse_usize, u64_of_text, usize_of_text,
};
use vstd::prelude::*;

verus! {

/// The base URL of the kernel's HTTP interface.
pub const DEFAULT_API_URL: &'static str = "http://127.0.0.1:8000";

/// The page that the kernel is told to load once it is ready.
pub const DEFAULT_STARTUP_URL: &'static str = "https://www.xiaohongshu.com";

/// The file name of the kernel executable.
pub const DEFAULT_EXE_NAME: &'static str = "yuHai.exe";

/// The file name of the bundled kernel archive.
pub const DEFAULT_ZIP_NAME: &'static str = "yuHai-core.zip";

/// The width of the companion window, in logical pixels.
pub const DEFAULT_BROWSER_WIDTH: i32 = 500;

/// The debounce interval of the position sync, in milliseconds.
pub const DEFAULT_DEBOUNCE_MS: u64 = 200;

/// How many readiness probes are made at most.
pub const DEFAULT_CORE_READY_RETRY_COUNT: usize = 30;

/// The pause between two readiness probes, in milliseconds.
pub const DEFAULT_CORE_READY_RETRY_INTERVAL_MS: u64 = 2000;

/// The timeout of one readiness probe, in milliseconds.
pub const DEFAULT_CORE_READY_HTTP_TIMEOUT_MS: u64 = 2000;

/// The timeout of the shutdown request, in milliseconds.
pub const DEFAULT_CORE_SHUTDOWN_HTTP_TIMEOUT_MS: u64 = 2000;

/// The grace period after the shutdown request, in milliseconds.
pub const DEFAULT_CORE_SHUTDOWN_WAIT_MS: u64 = 500;

/// The characters of the text of a setting, if there is a text.
pub open spec fn text_of(raw: Option<&str>) -> Option<Seq<char>> {
    match raw {
        Some(text) => Some(text@),
        None => None,
    }
}

/// The value of a text setting: its text, else the default.
pub open spec fn text_setting(raw: Option<Seq<char>>, default: Seq<char>) -> Seq<char> {
    match raw {
        Some(text) => text,
        None => default,
    }
}

/// The value of an `i32` setting: what its text reads as, else the default.
pub open spec fn i32_setting(raw: Option<Seq<char>>, default: i32) -> i32 {
    match raw {
        Some(text) => match i32_of_text(text) {
            Some(value) => value,
            None => default,
        },
        None => default,
    }
}

/// The value of a `u64` setting: what its text reads as, else the default.
pub open spec fn u64_setting(raw: Option<Seq<char>>, default: u64) -> u64 {
    match raw {
        Some(text) => match u64_of_text(text) {
            Some(value) => value,
            None => default,
        },
        None => default,
    }
}

/// The value of a `usize` setting: what its text reads as, else the default.
pub open spec fn usize_setting(raw: Option<Seq<char>>, default: usize) -> usize {
    match raw {
        Some(text) => match usize_of_text(text) {
            Some(value) => value,
            None => default,
        },
        None => default,
    }
}

fn read_u64(raw: Option<&str>, default: u64) -> (value: u64)
    ensures
        value == u64_setting(text_of(raw), default),
{
    match raw {
        Some(text) => match parse_u64(text) {
            Some(value) => value,
            None => default,
        },
        None => default,
    }
}

fn read_text(raw: Option<String>, default: &str) -> (value: String)
    ensures
        value@ == text_setting(opt_text(raw), default@),
{
    match raw {
        Some(text) => text,
        None => String::from_str(default),
    }
}

fn borrowed(raw: &Option<String>) -> (r: Option<&str>)
    ensures
        text_of(r) == opt_text(*raw),
{
    match raw {
        Some(text) => Some(text.as_str()),
        None => None,
    }
}

/// The width of the companion window.
pub fn get_browser_width(raw: Option<&str>) -> (width: i32)
    ensures
        width == i32_setting(text_of(raw), DEFAULT_BROWSER_WIDTH),
{
    match raw {
        Some(text) => match parse_i32(text) {
            Some(value) => value,
            None => DEFAULT_BROWSER_WIDTH,
        },
        None => DEFAULT_BROWSER_WIDTH,
    }
}

/// The debounce interval of the position sync.
pub fn get_debounce_ms(raw: Option<&str>) -> (ms: u64)
    ensures
        ms == u64_setting(text_of(raw), DEFAULT_DEBOUNCE_MS),
{
    read_u64(raw, DEFAULT_DEBOUNCE_MS)
}

/// How many readiness probes are made at most.
pub fn get_core_ready_retry_count(raw: Option<&str>) -> (count: usize)
    ensures
        count == usize_setting(text_of(raw), DEFAULT_CORE_READY_RETRY_COUNT),
{
    match raw {
        Some(text) => match parse_usize(text) {
            Some(value) => value,
            None => DEFAULT_CORE_READY_RETRY_COUNT,
        },
        None => DEFAULT_CORE_READY_RETRY_COUNT,
    }
}

/// The pause between two readiness probes.
pub fn get_core_ready_retry_interval_ms(raw: Option<&str>) -> (ms: u64)
    ensures
        ms == u64_setting(text_of(raw), DEFAULT_CORE_READY_RETRY_INTERVAL_MS),
{
    read_u64(raw, DEFAULT_CORE_READY_RETRY_INTERVAL_MS)
}

/// The timeout of one readiness probe.
pub fn get_core_ready_http_timeout_ms(raw: Option<&str>) -> (ms: u64)
    ensures
        ms == u64_setting(text_of(raw), DEFAULT_CORE_READY_HTTP_TIMEOUT_MS),
{
    read_u64(raw, DEFAULT_CORE_READY_HTTP_TIMEOUT_MS)
}

/// The timeout of the shutdown request.
pub fn get_core_shutdown_http_timeout_ms(raw: Option<&str>) -> (ms: u64)
    ensures
        ms == u64_setting(text_of(raw), DEFAULT_CORE_SHUTDOWN_HTTP_TIMEOUT_MS),
{
    read_u64(raw, DEFAULT_CORE_SHUTDOWN_HTTP_TIMEOUT_MS)
}

/// The grace period after the shutdown request.
pub fn get_core_shutdown_wait_ms(raw: Option<&str>) -> (ms: u64)
    ensures
        ms == u64_setting(text_of(raw), DEFAULT_CORE_SHUTDOWN_WAIT_MS),
{
    read_u64(raw, DEFAULT_CORE_SHUTDOWN_WAIT_MS)
}

/// The text of every setting, as the environment holds it.
#[derive(Debug)]
pub struct RawConfig {
    pub api_url: Option<String>,
    pub install_dir: Option<String>,
    pub exe_name: Option<String>,
    pub zip_name: Option<String>,
    pub startup_url: Option<String>,
    pub browser_width: Option<String>,
    pub debounce_ms: Option<String>,
    pub core_ready_retry_count: Option<String>,
    pub core_ready_retry_interval_ms: Option<String>,
    pub core_ready_http_timeout_ms: Option<String>,
    pub core_shutdown_http_timeout_ms: Option<String>,
    pub core_shutdown_wait_ms: Option<String>,
}

/// The value of every setting.
#[derive(Debug)]
pub struct Config {
    /// The base URL of the kernel's HTTP interface.
    pub api_url: String,
    /// A directory that is scanned for a kernel binary before the
    /// application's own, if one is configured.
    pub install_dir: Option<String>,
    /// The file name of the kernel executable.
    pub exe_name: String,
    /// The file name of the bundled kernel archive.
    pub zip_name: String,
    /// The page that the kernel is told to load once it is ready.
    pub startup_url: String,
    /// The width of the companion window, in logical pixels.
    pub browser_width: i32,
    /// The debounce interval of the position sync, in milliseconds.
    pub debounce_ms: u64,
    /// How many readiness probes are made at most.
    pub core_ready_retry_count: usize,
    /// The pause between two readiness probes, in milliseconds.
    pub core_ready_retry_interval_ms: u64,
    /// The timeout of one readiness probe, in milliseconds.
    pub core_ready_http_timeout_ms: u64,
    /// The timeout of the shutdown request, in milliseconds.
    pub core_shutdown_http_timeout_ms: u64,
    /// The grace period after the shutdown request, in milliseconds.
    pub core_shutdown_wait_ms: u64,
}

impl RawConfig {
    /// The environment that holds no setting at all.
    pub fn empty() -> (raw: RawConfig)
        ensures
            raw.api_url is None,
            raw.install_dir is None,
            raw.exe_name is None,
            raw.zip_name is None,
            raw.startup_url is None,
            raw.browser_width is None,
            raw.debounce_ms is None,
            raw.core_ready_retry_count is None,
            raw.core_ready_retry_interval_ms is None,
            raw.core_ready_http_timeout_ms is None,
            raw.core_shutdown_http_timeout_ms is None,
            raw.core_shutdown_wait_ms is None,
    {
        RawConfig {
            api_url: None,
            install_dir: None,
            exe_name: None,
            zip_name: None,
            startup_url: None,
            browser_width: None,
            debounce_ms: None,
            core_ready_retry_count: None,
            core_ready_retry_interval_ms: None,
            core_ready_http_timeout_ms: None,
            core_shutdown_http_timeout_ms: None,
            core_shutdown_wait_ms: None,
        }
    }
}

impl Config {
    /// Whether `self` holds the values of the settings whose texts are `raw`.
    pub open spec fn resolves(self, raw: RawConfig) -> bool {
        &&& self.api_url@ == text_setting(opt_text(raw.api_url), DEFAULT_API_URL@)
        &&& opt_text(self.install_dir) == opt_text(raw.install_dir)
        &&& self.exe_name@ == text_setting(opt_text(raw.exe_name), DEFAULT_EXE_NAME@)
        &&& self.zip_name@ == text_setting(opt_text(raw.zip_name), DEFAULT_ZIP_NAME@)
        &&& self.startup_url@ == text_setting(
            opt_text(raw.startup_url),
            DEFAULT_STARTUP_URL@,
        )
        &&& self.browser_width == i32_setting(
            opt_text(raw.browser_width),
            DEFAULT_BROWSER_WIDTH,
        )
        &&& self.debounce_ms == u64_setting(opt_text(raw.debounce_ms), DEFAULT_DEBOUNCE_MS)
        &&& self.core_ready_retry_count == usize_setting(
            opt_text(raw.core_ready_retry_count),
            DEFAULT_CORE_READY_RETRY_COUNT,
        )
        &&& self.core_ready_retry_interval_ms == u64_setting(
            opt_text(raw.core_ready_retry_interval_ms),
            DEFAULT_CORE_READY_RETRY_INTERVAL_MS,
        )
        &&& self.core_ready_http_timeout_ms == u64_setting(
            opt_text(raw.core_ready_http_timeout_ms),
            DEFAULT_CORE_READY_HTTP_TIMEOUT_MS,
        )
        &&& self.core_shutdown_http_timeout_ms == u64_setting(
            opt_text(raw.core_shutdown_http_timeout_ms),
            DEFAULT_CORE_SHUTDOWN_HTTP_TIMEOUT_MS,
        )
        &&& self.core_shutdown_wait_ms == u64_setting(
            opt_text(raw.core_shutdown_wait_ms),
            DEFAULT_CORE_SHUTDOWN_WAIT_MS,
        )
    }

    /// The values of the settings whose texts are `raw`.
    pub fn resolve(raw: RawConfig) -> (config: Config)
        ensures
            config.resolves(raw),
    {
        let browser_width = get_browser_width(borrowed(&raw.browser_width));
        let debounce_ms = get_debounce_ms(borrowed(&raw.debounce_ms));
        let core_ready_retry_count = get_core_ready_retry_count(
            borrowed(&raw.core_ready_retry_count),
        );
        let core_ready_retry_interval_ms = get_core_ready_retry_interval_ms(
            borrowed(&raw.core_ready_retry_interval_ms),
        );
        let core_ready_http_timeout_ms = get_core_ready_http_timeout_ms(
            borrowed(&raw.core_ready_http_timeout_ms),
        );
        let core_shutdown_http_timeout_ms = get_core_shutdown_http_timeout_ms(
            borrowed(&raw.core_shutdown_http_timeout_ms),
        );
        let core_shutdown_wait_ms = get_core_shutdown_wait_ms(
            borrowed(&raw.core_shutdown_wait_ms),
        );
        Config {
            api_url: read_text(raw.api_url, DEFAULT_API_URL),
            install_dir: raw.install_dir,
            exe_name: read_text(raw.exe_name, DEFAULT_EXE_NAME),
            zip_name: read_text(raw.zip_name, DEFAULT_ZIP_NAME),
            startup_url: read_text(raw.startup_url, DEFAULT_STARTUP_URL),
            browser_width,
            debounce_ms,
            core_ready_retry_count,
            core_ready_retry_interval_ms,
            core_ready_http_timeout_ms,
            core_shutdown_http_timeout_ms,
            core_shutdown_wait_ms,
        }
    }
}

} // verus!
