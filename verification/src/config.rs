//! Configuration values, injected into the backends on construction.

use vstd::prelude::*;
use vstd::string::StringExecFns;

verus! {

#[derive(Debug, Clone)]
pub struct ServerConfig {
    pub host: String,
    pub port: u16,
    pub prefix: String,
    pub log_level: String,
}

#[derive(Debug, Clone)]
pub struct LogConfig {
    pub file_enabled: bool,
    pub file_path: String,
}

#[derive(Debug, Clone)]
pub struct FileSystemConfig {
    pub root_path: String,
}

#[derive(Debug, Clone)]
pub struct QuarkConfig {
    /// Session credential; required non-empty before any remote call.
    pub cookie: String,
    /// Reserved; the lister addresses the root as `"0"`.
    pub root_id: String,
}

#[derive(Debug, Clone)]
pub struct StorageConfig {
    pub backend: String,
    /// Directory of the download disk cache.
    pub temp_path: String,
    pub filesystem: FileSystemConfig,
    pub quark: QuarkConfig,
}

#[derive(Debug, Clone)]
pub struct Config {
    pub server: ServerConfig,
    pub storage: StorageConfig,
    pub log: LogConfig,
}

impl Config {
    /// Fills in the default disk-cache directory where the configuration
    /// file left it empty; everything else is kept as loaded.
    pub fn with_defaults(self) -> (r: Config)
        ensures
            self.storage.temp_path@.len() == 0 ==> r.storage.temp_path@ == "./temp"@,
            self.storage.temp_path@.len() != 0 ==> r.storage.temp_path == self.storage.temp_path,
            r.server == self.server,
            r.log == self.log,
            r.storage.backend == self.storage.backend,
            r.storage.filesystem == self.storage.filesystem,
            r.storage.quark == self.storage.quark,
    {
        let mut c = self;
        if c.storage.temp_path.as_str().is_empty() {
            proof {
                reveal_strlit("./temp");
            }
            c.storage.temp_path = String::from_str("./temp");
        }
        c
    }
}

/// A failure while loading the configuration file.
#[derive(Debug, Clone)]
pub enum ConfigError {
    ReadError(String),
    ParseError(String),
}

impl ConfigError {
    /// The human-readable rendering of this error.
    pub open spec fn spec_message(self) -> Seq<char> {
        match self {
            ConfigError::ReadError(m) => "Failed to read config file: "@ + m@,
            ConfigError::ParseError(m) => "Failed to parse config file: "@ + m@,
        }
    }

    /// Renders the error.
    pub fn message(&self) -> (s: String)
        ensures
            s@ == self.spec_message(),
    {
        proof {
            reveal_strlit("Failed to read config file: ");
            reveal_strlit("Failed to parse config file: ");
        }
        match self {
            ConfigError::ReadError(m) => {
                let mut s = String::from_str("Failed to read config file: ");
                s.append(m.as_str());
                s
            },
            ConfigError::ParseError(m) => {
                let mut s = String::from_str("Failed to parse config file: ");
                s.append(m.as_str());
                s
            },
        }
    }
}

} // verus!
