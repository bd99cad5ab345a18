//! The process configuration, and what it demands of each kind of source.
use crate::segmenter::TARGET_SAMPLE_RATE;
use vstd::prelude::*;

verus! {

/// Port used when the configuration names none.
pub const DEFAULT_DATABASE_PORT: u16 = 5432;

/// Transport capacity for a decoded URL: one minute of audio at the target rate.
pub const URL_TRANSPORT_CAPACITY: usize = 960000;

pub struct DatabaseConfig {
    pub database_host: String,
    pub database_port: Option<u16>,
    pub database_user: String,
    pub database_password_key: String,
    pub database_name: String,
    pub require_ssl: bool,
}

impl DatabaseConfig {
    pub fn port_or_default(&self) -> (p: u16)
        ensures
            p == match self.database_port {
                Some(p) => p,
                None => DEFAULT_DATABASE_PORT,
            },
    {
        match self.database_port {
            Some(p) => p,
            None => DEFAULT_DATABASE_PORT,
        }
    }
}

#[derive(PartialEq, Eq, Structural, Clone, Copy, Debug)]
pub enum Source {
    Url,
    Microphone,
    /// Microphone input pushed from a web page.
    Web,
}

impl Source {
    /// A decoded URL gets a bounded transport (one minute at the target rate); the
    /// microphone and the web page feed an unbounded one.
    pub fn transport_capacity(&self) -> (c: usize)
        ensures
            c == (if *self == Source::Url {
                URL_TRANSPORT_CAPACITY
            } else {
                usize::MAX
            }),
            c > 0,
    {
        match self {
            Source::Url => URL_TRANSPORT_CAPACITY,
            _ => usize::MAX,
        }
    }
}

pub struct Config {
    pub source: Source,
    pub url: Option<String>,
    pub database_config: Option<DatabaseConfig>,
    pub language: String,
    pub show_name: String,
}

#[derive(PartialEq, Eq, Structural, Clone, Copy, Debug)]
pub enum ConfigError {
    /// The source is a URL but none is configured.
    MissingUrl,
    /// The source is the web page, which needs the database.
    MissingDatabaseConfig,
}

impl Config {
    /// A URL source needs a URL; a web source needs a database configuration.
    pub fn check_source(&self) -> (r: Result<(), ConfigError>)
        ensures
            r == (if self.source == Source::Url && self.url is None {
                Err(ConfigError::MissingUrl)
            } else if self.source == Source::Web && self.database_config is None {
                Err(ConfigError::MissingDatabaseConfig)
            } else {
                Ok(())
            }),
    {
        match self.source {
            Source::Url => {
                if self.url.is_none() {
                    return Err(ConfigError::MissingUrl);
                }
            },
            Source::Web => {
                if self.database_config.is_none() {
                    return Err(ConfigError::MissingDatabaseConfig);
                }
            },
            Source::Microphone => {},
        }
        Ok(())
    }
}

} // verus!
