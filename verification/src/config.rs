//! Decisions of the git-cliff wrapper: whether the built-in configuration is
//! used, whether a stored copy of it is current, and the logging level.

use vstd::prelude::*;

verus! {

/// The configuration options that the wrapper reads from the command line.
#[derive(Debug, Clone)]
pub struct ConfigOpt {
    /// Sets the configuration file.
    pub config: Option<String>,
    /// Sets the URL for the configuration file.
    pub config_url: Option<String>,
}

impl ConfigOpt {
    /// Returns true if no custom config was provided, false otherwise.
    pub fn no_custom_config(&self) -> (r: bool)
        ensures
            r == (self.config is None && self.config_url is None),
    {
        self.config.is_none() && self.config_url.is_none()
    }
}

/// The lower-case hexadecimal SHA-256 digest of `data`.
pub uninterp spec fn sha256_hex(data: Seq<u8>) -> Seq<char>;

/// sha256::digest of a byte slice: the lower-case hexadecimal SHA-256 digest,
/// which depends on the bytes alone (named, not stated).
#[verifier::external_body]
fn sha256_digest(data: &[u8]) -> (r: String)
    ensures
        r@ == sha256_hex(data@),
{
    sha256::digest(data)
}

/// The digest by which configurations are compared: lower-case hexadecimal SHA-256.
pub fn config_digest(data: &[u8]) -> (r: String)
    ensures
        r@ == sha256_hex(data@),
{
    sha256_digest(data)
}

/// Whether the stored configuration has the same SHA-256 digest as the built-in one.
pub fn stored_config_is_current(stored: &[u8], builtin: &[u8]) -> (r: bool)
    ensures
        r == (sha256_hex(stored@) == sha256_hex(builtin@)),
{
    let stored_digest = config_digest(stored);
    let builtin_digest = config_digest(builtin);
    stored_digest == builtin_digest
}

/// A level of logging.
#[derive(Debug, Clone, Copy, PartialEq, Eq, Structural)]
pub enum LogLevel {
    Info,
    Debug,
    Trace,
}

impl LogLevel {
    /// The value of `RUST_LOG` for this level.
    pub fn as_str(&self) -> (r: &'static str)
        ensures
            *self == LogLevel::Info ==> r@ == "info"@,
            *self == LogLevel::Debug ==> r@ == "debug"@,
            *self == LogLevel::Trace ==> r@ == "trace"@,
    {
        match self {
            LogLevel::Info => "info",
            LogLevel::Debug => "debug",
            LogLevel::Trace => "trace",
        }
    }
}

/// The level that the wrapper sets `RUST_LOG` to: `debug` for one `-v`,
/// `trace` for more, `info` where neither is asked and `RUST_LOG` is unset;
/// `None` leaves `RUST_LOG` as it is.
pub fn log_level_override(verbose: u8, rust_log_set: bool) -> (r: Option<LogLevel>)
    ensures
        verbose == 1 ==> r == Some(LogLevel::Debug),
        verbose > 1 ==> r == Some(LogLevel::Trace),
        verbose == 0 && !rust_log_set ==> r == Some(LogLevel::Info),
        verbose == 0 && rust_log_set ==> r is None,
{
    if verbose == 1 {
        Some(LogLevel::Debug)
    } else if verbose > 1 {
        Some(LogLevel::Trace)
    } else if !rust_log_set {
        Some(LogLevel::Info)
    } else {
        None
    }
}

/// The default branch: the value of `DEFAULT_BRANCH` where it is set, else `main`.
pub fn default_branch(configured: Option<String>) -> (r: String)
    ensures
        configured matches Some(b) ==> r@ == b@,
        configured is None ==> r@ == "main"@,
{
    match configured {
        Some(b) => b,
        None => "main".to_owned(),
    }
}

/// The GitLab repository path `<owner>/<repo>`.
pub fn gitlab_repository(owner: &str, repo: &str) -> (r: String)
    ensures
        r@ == owner@ + "/"@ + repo@,
{
    let mut s = owner.to_owned();
    s.append("/");
    s.append(repo);
    s
}

} // verus!
