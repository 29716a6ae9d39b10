//! The configuration schema and the defaults of its optional fields.

use vstd::prelude::*;

verus! {

/// The whole application configuration.
#[derive(Debug, Clone)]
pub struct Config {
    pub primary: PrimaryConfig,
    pub store: DatabaseConfig,
    pub server: ServerConfig,
    pub telemetry: TelemetryConfig,
    pub auth: AuthConfig,
}

/// Identity of the deployment.
#[derive(Debug, Clone)]
pub struct PrimaryConfig {
    pub env: String,
    pub name: String,
}

/// HTTP server settings.
#[derive(Debug, Clone)]
pub struct ServerConfig {
    pub host: String,
    pub port: u16,
    pub read_timeout_secs: u64,
    pub write_timeout_secs: u64,
    pub idle_timeout_secs: u64,
    pub request_timeout_secs: u64,
    pub shutdown_timeout_secs: u64,
    pub min_graceful_shutdown_secs: u64,
    pub max_body_size_bytes: usize,
    pub cors_allowed_origins: Vec<String>,
    pub path_prefix: String,
}

/// Database pool settings.
#[derive(Debug, Clone)]
pub struct DatabaseConfig {
    pub url: String,
    pub max_connections: u32,
    pub min_connections: u32,
    pub connect_timeout_secs: u64,
    pub acquire_timeout_secs: u64,
    pub idle_timeout_secs: u64,
    pub max_lifetime_secs: u64,
    pub sqlx_logging: bool,
}

/// Output format of log lines.
#[derive(Debug, Clone, Copy, PartialEq, Eq)]
pub enum LogFormat {
    Compact,
    Pretty,
    Json,
}

/// Logging and tracing settings.
#[derive(Debug, Clone)]
pub struct TelemetryConfig {
    pub service_name: String,
    pub environment: String,
    pub filter: String,
    pub format: LogFormat,
    pub ansi: bool,
    pub include_file: bool,
    pub include_line_number: bool,
    pub otlp: OtlpConfig,
}

/// OpenTelemetry exporter settings.
#[derive(Debug, Clone)]
pub struct OtlpConfig {
    pub enabled: bool,
    pub endpoint: String,
}

/// Authentication service settings.
#[derive(Debug, Clone)]
pub struct AuthConfig {
    pub secret: String,
    pub base_url: String,
    pub path_prefix: String,
    pub enable_signup: bool,
    pub password_min_length: u16,
    pub argon2: Argon2Settings,
}

/// Cost parameters of the Argon2id password hash.
#[derive(Debug, Clone, Copy, PartialEq, Eq)]
pub struct Argon2Settings {
    pub memory_cost: u32,
    pub time_cost: u32,
    pub parallelism: u32,
}

impl Default for LogFormat {
    fn default() -> (f: LogFormat)
        ensures
            f == LogFormat::Compact,
    {
        LogFormat::Compact
    }
}

impl Default for TelemetryConfig {
    /// Every field at its default; `ansi` follows whether stderr is a terminal.
    fn default() -> (t: TelemetryConfig)
        ensures
            t.service_name@ == "app"@,
            t.environment@ == "development"@,
            t.filter@ == "info,tower_http=info"@,
            t.format == LogFormat::Compact,
            !t.include_file,
            !t.include_line_number,
            !t.otlp.enabled,
            t.otlp.endpoint@ == "http://localhost:4317"@,
    {
        TelemetryConfig {
            service_name: default_service_name(),
            environment: default_environment(),
            filter: default_filter(),
            format: LogFormat::default(),
            ansi: default_ansi(),
            include_file: false,
            include_line_number: false,
            otlp: OtlpConfig::default(),
        }
    }
}

impl Default for OtlpConfig {
    fn default() -> (o: OtlpConfig)
        ensures
            !o.enabled,
            o.endpoint@ == "http://localhost:4317"@,
    {
        OtlpConfig { enabled: default_enabled(), endpoint: default_endpoint() }
    }
}

pub fn default_service_name() -> (s: String)
    ensures
        s@ == "app"@,
{
    "app".to_owned()
}

pub fn default_environment() -> (s: String)
    ensures
        s@ == "development"@,
{
    "development".to_owned()
}

pub fn default_filter() -> (s: String)
    ensures
        s@ == "info,tower_http=info"@,
{
    "info,tower_http=info".to_owned()
}

/// Whether stderr is a terminal (`std::io::IsTerminal` on `std::io::stderr()`);
/// the answer depends on how the process was started, so nothing is claimed of it.
#[verifier::external_body]
pub fn default_ansi() -> bool {
    std::io::IsTerminal::is_terminal(&std::io::stderr())
}

pub fn default_enabled() -> (b: bool)
    ensures
        !b,
{
    false
}

pub fn default_endpoint() -> (s: String)
    ensures
        s@ == "http://localhost:4317"@,
{
    "http://localhost:4317".to_owned()
}

pub fn default_host() -> (s: String)
    ensures
        s@ == "0.0.0.0"@,
{
    "0.0.0.0".to_owned()
}

pub fn default_port() -> (p: u16)
    ensures
        p == 8080,
{
    8080
}

pub fn default_read_timeout_secs() -> (n: u64)
    ensures
        n == 15,
{
    15
}

pub fn default_write_timeout_secs() -> (n: u64)
    ensures
        n == 15,
{
    15
}

pub fn default_idle_timeout_secs() -> (n: u64)
    ensures
        n == 60,
{
    60
}

pub fn default_request_timeout_secs() -> (n: u64)
    ensures
        n == 15,
{
    15
}

pub fn default_shutdown_timeout_secs() -> (n: u64)
    ensures
        n == 30,
{
    30
}

pub fn default_min_graceful_shutdown_secs() -> (n: u64)
    ensures
        n == 0,
{
    0
}

/// Ten mebibytes.
pub fn default_max_body_size_bytes() -> (n: usize)
    ensures
        n == 10 * 1024 * 1024,
{
    10 * 1024 * 1024
}

} // verus!
