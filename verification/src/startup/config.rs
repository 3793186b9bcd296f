//! Which configuration the service runs with.
use vstd::prelude::*;
use crate::text::text_eq;

verus! {

/// The environment the service runs in; each has a configuration file.
#[derive(Debug, Clone, Copy, PartialEq, Eq, Structural)]
pub enum Environment {
    Development,
    Production,
    DockerLocal,
}

/// The text with its letters in lower case, as `str::to_lowercase` writes it.
pub uninterp spec fn lowercase(s: Seq<char>) -> Seq<char>;

/// A character in lower case, if it is an ASCII capital letter.
pub open spec fn ascii_lower(c: char) -> char {
    if 'A' <= c && c <= 'Z' {
        ((c as u32) + 32) as char
    } else {
        c
    }
}

/// Whether every character of a text is ASCII.
pub open spec fn is_ascii_text(s: Seq<char>) -> bool {
    forall|i: int| 0 <= i < s.len() ==> (#[trigger] s[i] as u32) < 128
}

/// `str::to_lowercase`. Claimed: the result is the name `lowercase` of the text,
/// and for ASCII text (the documented Unicode lower-case mapping restricted to
/// ASCII) it is the text with each capital letter `A`-`Z` replaced by its small
/// letter; the mapping of other characters is left to the name.
#[verifier::external_body]
fn to_lowercase(s: &str) -> (r: String)
    ensures
        r@ == lowercase(s@),
        is_ascii_text(s@) ==> r@ == s@.map_values(|c: char| ascii_lower(c)),
{
    s.to_lowercase()
}

/// The environment that a lower-case name selects; any other name selects development.
pub open spec fn environment_named(name: Seq<char>) -> Environment {
    if name == "production"@ {
        Environment::Production
    } else if name == "docker_local"@ {
        Environment::DockerLocal
    } else {
        Environment::Development
    }
}

/// The environment that the value of `APP_ENV` selects, in any letter case;
/// without a value, development.
pub open spec fn environment_of(value: Option<Seq<char>>) -> Environment {
    match value {
        Some(v) => environment_named(lowercase(v)),
        None => environment_named(lowercase("development"@)),
    }
}

/// The name of a configuration file (without its extension).
pub open spec fn config_file_name(e: Environment) -> Seq<char> {
    match e {
        Environment::Development => "development"@,
        Environment::Production => "production"@,
        Environment::DockerLocal => "docker_local"@,
    }
}

/// Each environment's file name is lower-case ASCII, and selects that environment
/// again, as the value of `APP_ENV` in any letter case.
pub proof fn lemma_names_are_lower_case(e: Environment)
    ensures
        is_ascii_text(config_file_name(e)),
        config_file_name(e).map_values(|c: char| ascii_lower(c)) == config_file_name(e),
        environment_named(config_file_name(e)) == e,
{
    reveal_strlit("development");
    reveal_strlit("production");
    reveal_strlit("docker_local");
    let n = config_file_name(e);
    assert(n.map_values(|c: char| ascii_lower(c)) =~= n);
}

impl Environment {
    /// The environment that a lower-case name selects.
    pub fn from_lowercase_name(name: &str) -> (r: Environment)
        ensures
            r == environment_named(name@),
    {
        if text_eq(name, "production") {
            Environment::Production
        } else if text_eq(name, "docker_local") {
            Environment::DockerLocal
        } else {
            Environment::Development
        }
    }

    /// The environment that the value of `APP_ENV` selects.
    pub fn from_env_value(value: Option<String>) -> (r: Environment)
        ensures
            r == environment_of(value.deep_view()),
            value matches Some(v) ==> (is_ascii_text(v@)
                ==> r == environment_named(v@.map_values(|c: char| ascii_lower(c)))),
            value is None ==> r == Environment::Development,
    {
        let raw = match value {
            Some(v) => v,
            None => String::from_str("development"),
        };
        let name = to_lowercase(raw.as_str());
        proof {
            if value is None {
                lemma_names_are_lower_case(Environment::Development);
            }
        }
        Environment::from_lowercase_name(name.as_str())
    }

    /// The name of the environment's configuration file.
    pub fn config_filename(&self) -> (r: &'static str)
        ensures
            r@ == config_file_name(*self),
    {
        match self {
            Environment::Development => "development",
            Environment::Production => "production",
            Environment::DockerLocal => "docker_local",
        }
    }
}

/// The service's configuration.
pub struct Config {
    pub kratos: KratosConfig,
    pub server: ServerConfig,
    pub redis: RedisConfig,
}

pub struct RedisConfig {
    pub url: String,
    pub cache_ttl_secs: u64,
    pub max_retries: u32,
    pub retry_delay_ms: u64,
}

pub struct KratosConfig {
    pub admin_url: String,
    pub public_url: String,
    pub timeout_secs: u64,
    pub connect_timeout_secs: u64,
    pub pool_idle_timeout_secs: u64,
    pub pool_max_idle_per_host: usize,
    pub max_retries: u32,
    pub retry_delay_ms: u64,
    pub accept_invalid_certs: bool,
}

pub struct ServerConfig {
    pub host: String,
    pub port: u16,
    pub log_level: String,
    pub cors_max_age: usize,
    pub cors_allowed_origins: Vec<String>,
}

} // verus!
