use vstd::prelude::*;
use vstd::string::*;

verus! {

/// Global settings snapshot: immutable once loaded, shared read-only by all
/// pipeline instances for the process lifetime.
#[derive(Clone, Debug)]
pub struct Settings {
    pub environment: String,
    pub application: ApplicationSettings,
}

/// Application-specific settings.
#[derive(Clone, Debug)]
pub struct ApplicationSettings {
    pub host: String,
    pub port: u16,
    /// Maximum number of in-flight requests before shedding load.
    pub max_concurrent_requests: usize,
    /// Request timeout in seconds.
    pub request_timeout_s: u64,
}

impl ApplicationSettings {
    /// The last layer of the settings loader: every field a configuration
    /// source did not supply takes its documented default.
    pub fn with_defaults(
        host: Option<String>,
        port: Option<u16>,
        max_concurrent_requests: Option<usize>,
        request_timeout_s: Option<u64>,
    ) -> (s: ApplicationSettings)
        ensures
            s.host@ == (match host {
                Some(h) => h@,
                None => "127.0.0.1"@,
            }),
            s.port == (match port {
                Some(p) => p,
                None => 8080u16,
            }),
            s.max_concurrent_requests == (match max_concurrent_requests {
                Some(m) => m,
                None => 10240usize,
            }),
            s.request_timeout_s == (match request_timeout_s {
                Some(t) => t,
                None => 20u64,
            }),
    {
        ApplicationSettings {
            host: (match host {
                Some(h) => h,
                None => String::from_str("127.0.0.1"),
            }),
            port: (match port {
                Some(p) => p,
                None => 8080,
            }),
            max_concurrent_requests: (match max_concurrent_requests {
                Some(m) => m,
                None => 10240,
            }),
            request_timeout_s: (match request_timeout_s {
                Some(t) => t,
                None => 20,
            }),
        }
    }
}

/// Runtime environment. It affects only log verbosity, never business logic.
#[derive(Clone, Copy, Debug, PartialEq, Eq, Structural)]
pub enum Environment {
    Local,
    Prod,
}

/// What `str::to_lowercase` returns for a given sequence of characters: the
/// result depends on the characters alone.
pub uninterp spec fn lower_of(s: Seq<char>) -> Seq<char>;

/// Relies on str::to_lowercase: the lowercase equivalent of the string,
/// depending on its characters alone.
#[verifier::external_body]
fn lowercase(s: &str) -> (r: String)
    ensures
        r@ == lower_of(s@),
{
    s.to_lowercase()
}

impl Environment {
    /// The environment's canonical name.
    pub open spec fn spec_str(self) -> Seq<char> {
        match self {
            Environment::Local => "local"@,
            Environment::Prod => "prod"@,
        }
    }

    pub fn as_str(&self) -> (s: &'static str)
        ensures
            s@ == self.spec_str(),
    {
        match self {
            Environment::Local => "local",
            Environment::Prod => "prod",
        }
    }

    /// Parse an environment name, case-insensitively; any name other than
    /// the two known ones is rejected with a message naming the input.
    pub fn try_from(value: String) -> (r: Result<Environment, String>)
        ensures
            lower_of(value@) == "local"@ ==> r == Ok::<Environment, String>(Environment::Local),
            lower_of(value@) == "prod"@ ==> r == Ok::<Environment, String>(Environment::Prod),
            (r is Ok) == (lower_of(value@) == "local"@ || lower_of(value@) == "prod"@),
            r matches Err(m) ==> m@ == "Unknown environment: "@ + value@
                + ". Use either `local` or `prod`."@,
    {
        proof {
            reveal_strlit("local");
            reveal_strlit("prod");
            assert("local"@.len() == 5);
            assert("prod"@.len() == 4);
        }
        let lower = lowercase(value.as_str());
        if lower == String::from_str("local") {
            Ok(Environment::Local)
        } else if lower == String::from_str("prod") {
            Ok(Environment::Prod)
        } else {
            Err(
                String::from_str("Unknown environment: ").concat(value.as_str()).concat(
                    ". Use either `local` or `prod`.",
                ),
            )
        }
    }
}

/// Log verbosity thresholds per environment.
#[derive(Clone, Copy, Debug, PartialEq, Eq, Structural)]
pub enum LogVerbosity {
    /// Everything, down to per-request trace events.
    Trace,
    /// Informational events and above.
    Info,
}

impl Settings {
    /// Verbose tracing in the local environment, informational elsewhere.
    /// The environment setting decides nothing but this.
    pub fn log_verbosity(&self) -> (v: LogVerbosity)
        ensures
            v == (if self.environment@ == Environment::Local.spec_str() {
                LogVerbosity::Trace
            } else {
                LogVerbosity::Info
            }),
    {
        if self.environment == String::from_str("local") {
            LogVerbosity::Trace
        } else {
            LogVerbosity::Info
        }
    }
}

} // verus!
