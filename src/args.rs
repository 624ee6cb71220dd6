//! Run settings, and how each one is resolved from an explicit value and
//! the environment.
use vstd::prelude::*;

verus! {

/// Retention window used when none is given.
pub const DEFAULT_KEEP_DAYS: u32 = 15;

/// The settings of one run.
#[derive(Debug)]
pub struct Opt {
    /// Activate debug mode.
    pub debug: bool,
    /// Verbosity level (the number of times the verbose flag was given).
    pub verbose: u8,
    /// Address of the cluster; may come from `ELASTICSEARCH_ADDR` instead.
    pub elasticsearch_addr: Option<String>,
    /// Snapshot repository; may come from `ELASTICSEARCH_REPO` instead.
    pub elasticsearch_repo: Option<String>,
    /// Comma-separated index name patterns, such as `kong-*,logstash-*`; may
    /// come from `ELASTICSEARCH_INDEX_FILTER` instead.
    pub index_filter: Option<String>,
    /// How many whole days an index is kept.
    pub keep_days: u32,
}

/// A required setting was given neither explicitly nor in the environment.
#[derive(Debug)]
pub struct ConfigError {
    /// The environment variable that was looked up.
    pub key: String,
}

/// Resolves a setting: the explicit value `other` wins; without one, the
/// environment's value `env_value` of variable `key` is taken; without
/// either, the setting is missing.
pub fn value_or_env(key: &str, other: Option<String>, env_value: Option<String>) -> (r: Result<
    String,
    ConfigError,
>)
    ensures
        match other {
            Some(v) => r == Ok::<String, ConfigError>(v),
            None => match env_value {
                Some(v) => r == Ok::<String, ConfigError>(v),
                None => r is Err && r->Err_0.key@ == key@,
            },
        },
{
    match other {
        Some(v) => Ok(v),
        None => match env_value {
            Some(v) => Ok(v),
            None => Err(ConfigError { key: key.to_owned() }),
        },
    }
}

/// Resolves a setting with the opposite precedence: the environment's value
/// `env_value` of variable `key` wins; without one, the explicit value
/// `other` is taken; without either, the setting is missing.
pub fn env_or(key: &str, other: Option<String>, env_value: Option<String>) -> (r: Result<
    String,
    ConfigError,
>)
    ensures
        match env_value {
            Some(v) => r == Ok::<String, ConfigError>(v),
            None => match other {
                Some(v) => r == Ok::<String, ConfigError>(v),
                None => r is Err && r->Err_0.key@ == key@,
            },
        },
{
    match env_value {
        Some(v) => Ok(v),
        None => match other {
            Some(v) => Ok(v),
            None => Err(ConfigError { key: key.to_owned() }),
        },
    }
}

} // verus!
