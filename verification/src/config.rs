//! Configuration: what a configuration file may hold, its defaults and its
//! checks.
//!
//! Example:
//! ```toml
//! [upstream]
//! base_url = "https://api.code.umans.ai"
//!
//! [server]
//! listen = "127.0.0.1:8080"
//!
//! [throttle]
//! max_in_flight = 4
//! max_wait = "5m"
//! idle_timeout = "2m"
//! ```

use vstd::prelude::*;
use vstd::string::*;

use crate::duration::Duration;

verus! {

/// The address that the server listens on.
#[derive(Debug, Clone, Copy)]
pub enum ListenAddr {
    V4 { octets: [u8; 4], port: u16 },
    V6 { segments: [u16; 8], port: u16, flowinfo: u32, scope_id: u32 },
}

/// When to sample the upstream account usage endpoint.
#[derive(Debug, Clone, Copy, PartialEq, Eq, Structural)]
pub enum UsageSampling {
    Off,
    On429,
}

/// A complete configuration.
#[derive(Debug, Clone)]
pub struct Config {
    pub upstream: UpstreamConfig,
    pub server: ServerConfig,
    pub throttle: ThrottleConfig,
    pub observability: ObservabilityConfig,
}

#[derive(Debug, Clone)]
pub struct UpstreamConfig {
    pub base_url: String,
}

#[derive(Debug, Clone, Copy)]
pub struct ServerConfig {
    pub listen: ListenAddr,
    /// Grace period for in-flight requests after SIGTERM before forced exit.
    pub shutdown_timeout: Duration,
}

#[derive(Debug, Clone, Copy)]
pub struct ThrottleConfig {
    /// Max concurrent in-flight requests forwarded to upstream.
    /// Code Max = 4, Code Pro = 3.
    pub max_in_flight: usize,
    /// How long a request may wait in queue before it is rejected (503).
    pub max_wait: Duration,
    /// If no bytes arrive from upstream within this window, the stream is
    /// aborted and the permit released. Safety net against hung upstreams.
    pub idle_timeout: Duration,
    /// Delay between a local upstream response ending and releasing the permit.
    /// This absorbs small upstream account-counter lag without adding client
    /// response latency.
    pub release_grace: Duration,
}

#[derive(Debug, Clone, Copy)]
pub struct ObservabilityConfig {
    /// When to sample the upstream account usage endpoint.
    pub usage_sampling: UsageSampling,
}

/// What a configuration file holds, as written: a setting that has a default
/// may be absent.
#[derive(Debug, Clone)]
pub struct ConfigDocument {
    pub upstream: UpstreamConfig,
    pub server: ServerDocument,
    pub throttle: ThrottleDocument,
    pub observability: Option<ObservabilityDocument>,
}

/// The `[server]` table of a configuration file.
#[derive(Debug, Clone, Copy)]
pub struct ServerDocument {
    pub listen: ListenAddr,
    pub shutdown_timeout: Option<Duration>,
}

/// The `[throttle]` table of a configuration file.
#[derive(Debug, Clone, Copy)]
pub struct ThrottleDocument {
    pub max_in_flight: usize,
    pub max_wait: Option<Duration>,
    pub idle_timeout: Option<Duration>,
    pub release_grace: Option<Duration>,
}

/// The `[observability]` table of a configuration file.
#[derive(Debug, Clone, Copy)]
pub struct ObservabilityDocument {
    pub usage_sampling: Option<UsageSampling>,
}

/// Why there is no configuration.
#[derive(Debug, Clone)]
pub enum ConfigError {
    /// The file could not be read: its path and what went wrong.
    Read(String, String),
    /// The text is not a configuration file.
    Parse(String),
    /// A setting has a value that would cause silent misbehavior.
    Invalid(String),
}

/// The view of a [`ConfigError`].
pub ghost enum ConfigErrorView {
    Read(Seq<char>, Seq<char>),
    Parse(Seq<char>),
    Invalid(Seq<char>),
}

impl View for ConfigError {
    type V = ConfigErrorView;

    open spec fn view(&self) -> ConfigErrorView {
        match self {
            ConfigError::Read(path, cause) => ConfigErrorView::Read(path@, cause@),
            ConfigError::Parse(cause) => ConfigErrorView::Parse(cause@),
            ConfigError::Invalid(what) => ConfigErrorView::Invalid(what@),
        }
    }
}

impl ConfigErrorView {
    /// The error in words.
    pub open spec fn message(self) -> Seq<char> {
        match self {
            ConfigErrorView::Read(path, cause) => "failed to read config file "@ + path + ": "@
                + cause,
            ConfigErrorView::Parse(cause) => "failed to parse config: "@ + cause,
            ConfigErrorView::Invalid(what) => "invalid config: "@ + what,
        }
    }
}

impl ConfigError {
    /// The error in words.
    pub fn message(&self) -> (text: String)
        ensures
            text@ == self@.message(),
    {
        match self {
            ConfigError::Read(path, cause) => {
                let mut text = "failed to read config file ".to_owned();
                text.append(path.as_str());
                text.append(": ");
                text.append(cause.as_str());
                text
            },
            ConfigError::Parse(cause) => {
                let mut text = "failed to parse config: ".to_owned();
                text.append(cause.as_str());
                text
            },
            ConfigError::Invalid(what) => {
                let mut text = "invalid config: ".to_owned();
                text.append(what.as_str());
                text
            },
        }
    }
}

// ---------------------------------------------------------------------------
// Defaults
// ---------------------------------------------------------------------------

/// 5 minutes.
pub fn default_max_wait() -> (span: Duration)
    ensures
        span@ == 300_000_000_000,
{
    Duration::from_secs(300)
}

/// 2 minutes.
pub fn default_idle_timeout() -> (span: Duration)
    ensures
        span@ == 120_000_000_000,
{
    Duration::from_secs(120)
}

/// 250 milliseconds.
pub fn default_release_grace() -> (span: Duration)
    ensures
        span@ == 250_000_000,
{
    Duration::from_millis(250)
}

/// 30 seconds.
pub fn default_shutdown_timeout() -> (span: Duration)
    ensures
        span@ == 30_000_000_000,
{
    Duration::from_secs(30)
}

impl Default for UsageSampling {
    /// Sampling is on unless it is turned off.
    fn default() -> (sampling: UsageSampling)
        ensures
            sampling == UsageSampling::On429,
    {
        UsageSampling::On429
    }
}

impl Default for ThrottleConfig {
    fn default() -> (throttle: ThrottleConfig)
        ensures
            throttle.max_in_flight == 4,
            throttle.max_wait@ == 300_000_000_000,
            throttle.idle_timeout@ == 120_000_000_000,
            throttle.release_grace@ == 250_000_000,
    {
        ThrottleConfig {
            max_in_flight: 4,
            max_wait: default_max_wait(),
            idle_timeout: default_idle_timeout(),
            release_grace: default_release_grace(),
        }
    }
}

impl Default for ObservabilityConfig {
    fn default() -> (observability: ObservabilityConfig)
        ensures
            observability.usage_sampling == UsageSampling::On429,
    {
        ObservabilityConfig { usage_sampling: UsageSampling::On429 }
    }
}

// ---------------------------------------------------------------------------
// From a document to a configuration
// ---------------------------------------------------------------------------

/// The span that a document gives, in nanoseconds, or the default.
pub open spec fn given_or(given: Option<Duration>, default: nat) -> nat {
    match given {
        Some(span) => span@,
        None => default,
    }
}

impl ConfigDocument {
    /// The usage sampling that the document asks for, or the default.
    pub open spec fn sampling(self) -> UsageSampling {
        match self.observability {
            Some(table) => match table.usage_sampling {
                Some(sampling) => sampling,
                None => UsageSampling::On429,
            },
            None => UsageSampling::On429,
        }
    }

    /// `config` holds what the document gives, and the defaults where it gives
    /// nothing.
    pub open spec fn completed_by(self, config: Config) -> bool {
        &&& config.upstream.base_url@ == self.upstream.base_url@
        &&& config.server.listen == self.server.listen
        &&& config.server.shutdown_timeout@ == given_or(
            self.server.shutdown_timeout,
            30_000_000_000,
        )
        &&& config.throttle.max_in_flight == self.throttle.max_in_flight
        &&& config.throttle.max_wait@ == given_or(self.throttle.max_wait, 300_000_000_000)
        &&& config.throttle.idle_timeout@ == given_or(self.throttle.idle_timeout, 120_000_000_000)
        &&& config.throttle.release_grace@ == given_or(self.throttle.release_grace, 250_000_000)
        &&& config.observability.usage_sampling == self.sampling()
    }

    /// What is wrong with the values that the document gives.
    pub open spec fn fault(self) -> Option<Seq<char>> {
        settings_fault(self.throttle.max_in_flight, self.upstream.base_url@)
    }
}

/// What is wrong with these settings: the limit is looked at first.
pub open spec fn settings_fault(max_in_flight: usize, base_url: Seq<char>) -> Option<Seq<char>> {
    if max_in_flight == 0 {
        Some("throttle.max_in_flight must be at least 1"@)
    } else if base_url.len() == 0 {
        Some("upstream.base_url must not be empty"@)
    } else {
        None
    }
}

/// The result of turning a parsed document into a configuration.
pub open spec fn is_parse_result(
    parsed: Result<ConfigDocument, String>,
    result: Result<Config, ConfigError>,
) -> bool {
    match parsed {
        Err(cause) => result matches Err(e) && e@ == ConfigErrorView::Parse(cause@),
        Ok(document) => match document.fault() {
            Some(what) => result matches Err(e) && e@ == ConfigErrorView::Invalid(what),
            None => result matches Ok(config) && document.completed_by(config)
                && config.fault() is None,
        },
    }
}

impl Config {
    /// What is wrong with the configuration.
    pub open spec fn fault(self) -> Option<Seq<char>> {
        settings_fault(self.throttle.max_in_flight, self.upstream.base_url@)
    }

    /// Completes a document with the defaults.
    pub fn from_document(document: ConfigDocument) -> (config: Config)
        ensures
            document.completed_by(config),
    {
        let usage_sampling = match document.observability {
            Some(table) => match table.usage_sampling {
                Some(sampling) => sampling,
                None => UsageSampling::default(),
            },
            None => ObservabilityConfig::default().usage_sampling,
        };
        Config {
            upstream: document.upstream,
            server: ServerConfig {
                listen: document.server.listen,
                shutdown_timeout: document.server.shutdown_timeout.unwrap_or(
                    default_shutdown_timeout(),
                ),
            },
            throttle: ThrottleConfig {
                max_in_flight: document.throttle.max_in_flight,
                max_wait: document.throttle.max_wait.unwrap_or(default_max_wait()),
                idle_timeout: document.throttle.idle_timeout.unwrap_or(default_idle_timeout()),
                release_grace: document.throttle.release_grace.unwrap_or(default_release_grace()),
            },
            observability: ObservabilityConfig { usage_sampling },
        }
    }

    /// The configuration of a file: `read` is what reading the file at `path`
    /// and parsing its text gave, each failure with its cause in words.
    pub fn load(path: &str, read: Result<Result<ConfigDocument, String>, String>) -> (result:
        Result<Config, ConfigError>)
        ensures
            match read {
                Err(cause) => result matches Err(e) && e@ == ConfigErrorView::Read(path@, cause@),
                Ok(parsed) => is_parse_result(parsed, result),
            },
    {
        match read {
            Ok(parsed) => Config::parse_str(parsed),
            Err(cause) => Err(ConfigError::Read(path.to_owned(), cause)),
        }
    }

    /// The configuration of a text: `parsed` is what parsing the text gave, a
    /// failure with its cause in words.
    pub fn parse_str(parsed: Result<ConfigDocument, String>) -> (result: Result<
        Config,
        ConfigError,
    >)
        ensures
            is_parse_result(parsed, result),
    {
        match parsed {
            Ok(document) => {
                let config = Config::from_document(document);
                match config.validate() {
                    Ok(_) => Ok(config),
                    Err(e) => Err(e),
                }
            },
            Err(cause) => Err(ConfigError::Parse(cause)),
        }
    }

    /// Sanity-checks the values that would cause silent misbehavior.
    pub fn validate(&self) -> (result: Result<(), ConfigError>)
        ensures
            match self.fault() {
                Some(what) => result matches Err(e) && e@ == ConfigErrorView::Invalid(what),
                None => result is Ok,
            },
    {
        if self.throttle.max_in_flight == 0 {
            return Err(
                ConfigError::Invalid("throttle.max_in_flight must be at least 1".to_owned()),
            );
        }
        if self.upstream.base_url.as_str().is_empty() {
            return Err(ConfigError::Invalid("upstream.base_url must not be empty".to_owned()));
        }
        Ok(())
    }
}

} // verus!
