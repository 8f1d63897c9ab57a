use vstd::prelude::*;
use vstd::string::StringExecFns;

use crate::text::{parse_unsigned, parse_unsigned_up_to};

verus! {

/// The address the server listens on when none is set.
pub open spec fn default_bind_address() -> Seq<char> {
    "0.0.0.0:8080"@
}

/// The public base URL of short links when none is set.
pub open spec fn default_public_base_url() -> Seq<char> {
    "http://localhost:8080"@
}

/// The length of generated codes when none is set.
pub const DEFAULT_CODE_LENGTH: u64 = 7;

/// How long a URL stays in the cache, in seconds, when nothing is set.
pub const DEFAULT_CACHE_TTL_SECONDS: u64 = 86400;

/// The seconds between two flushes of access counts when nothing is set.
pub const DEFAULT_ACCESS_FLUSH_INTERVAL_SECONDS: u64 = 2;

/// The number that an optional setting gives: the setting read as `str::parse` reads an
/// unsigned integer no larger than `max`, or `default` where it is absent or unreadable.
pub open spec fn setting_value(setting: Option<Seq<char>>, max: nat, default: nat) -> nat {
    match setting {
        Some(s) => match parse_unsigned(s, max) {
            Some(n) => n,
            None => default,
        },
        None => default,
    }
}

/// The view of an optional setting.
pub open spec fn setting_view(setting: Option<String>) -> Option<Seq<char>> {
    match setting {
        Some(s) => Some(s@),
        None => None,
    }
}

/// Reads an optional numeric setting, falling back to `default`.
pub fn setting_or(setting: &Option<String>, max: u64, default: u64) -> (n: u64)
    ensures
        n as nat == setting_value(setting_view(*setting), max as nat, default as nat),
{
    match setting {
        Some(s) => match parse_unsigned_up_to(s.as_str(), max) {
            Some(n) => n,
            None => default,
        },
        None => default,
    }
}

/// The settings of the service.
#[derive(Debug)]
pub struct Config {
    pub bind_address: String,
    pub public_base_url: String,
    pub database_url: String,
    pub redis_url: String,
    pub code_length: usize,
    pub cache_ttl_seconds: u64,
    pub access_flush_interval_seconds: u64,
}

impl Clone for Config {
    fn clone(&self) -> (c: Self)
        ensures
            c == *self,
    {
        Config {
            bind_address: self.bind_address.clone(),
            public_base_url: self.public_base_url.clone(),
            database_url: self.database_url.clone(),
            redis_url: self.redis_url.clone(),
            code_length: self.code_length,
            cache_ttl_seconds: self.cache_ttl_seconds,
            access_flush_interval_seconds: self.access_flush_interval_seconds,
        }
    }
}

impl Config {
    /// Builds the settings from the values found in the environment (`None` for a variable
    /// that is not set): missing values take their defaults, and numbers that do not parse too.
    pub fn from_settings(
        bind_address: Option<String>,
        public_base_url: Option<String>,
        database_url: String,
        redis_url: String,
        code_length: Option<String>,
        cache_ttl_seconds: Option<String>,
        access_flush_interval_seconds: Option<String>,
    ) -> (config: Config)
        ensures
            config.bind_address@ == (match bind_address {
                Some(s) => s@,
                None => default_bind_address(),
            }),
            config.public_base_url@ == (match public_base_url {
                Some(s) => s@,
                None => default_public_base_url(),
            }),
            config.database_url == database_url,
            config.redis_url == redis_url,
            config.code_length as nat == setting_value(
                setting_view(code_length),
                usize::MAX as nat,
                DEFAULT_CODE_LENGTH as nat,
            ),
            config.cache_ttl_seconds as nat == setting_value(
                setting_view(cache_ttl_seconds),
                u64::MAX as nat,
                DEFAULT_CACHE_TTL_SECONDS as nat,
            ),
            config.access_flush_interval_seconds as nat == setting_value(
                setting_view(access_flush_interval_seconds),
                u64::MAX as nat,
                DEFAULT_ACCESS_FLUSH_INTERVAL_SECONDS as nat,
            ),
    {
        let bind_address = match bind_address {
            Some(s) => s,
            None => String::from_str("0.0.0.0:8080"),
        };
        let public_base_url = match public_base_url {
            Some(s) => s,
            None => String::from_str("http://localhost:8080"),
        };
        let code_length = setting_or(&code_length, usize::MAX as u64, DEFAULT_CODE_LENGTH) as usize;
        let cache_ttl_seconds = setting_or(&cache_ttl_seconds, u64::MAX, DEFAULT_CACHE_TTL_SECONDS);
        let access_flush_interval_seconds = setting_or(
            &access_flush_interval_seconds,
            u64::MAX,
            DEFAULT_ACCESS_FLUSH_INTERVAL_SECONDS,
        );
        Config {
            bind_address,
            public_base_url,
            database_url,
            redis_url,
            code_length,
            cache_ttl_seconds,
            access_flush_interval_seconds,
        }
    }
}

} // verus!
