//! Configuration records.  Reading, templating and JSON parsing of the
//! configuration file happen outside the library; the typed records and
//! the log-level mapping live here.

use vstd::prelude::*;

use crate::text::str_eq;

verus! {

/// The whole configuration: the database, and the optional server,
/// invoker, storage, security and mail sections.
#[derive(Clone, Debug)]
pub struct Config {
    pub db: DatabaseConfig,
    pub socket_file: Option<String>,
    pub server: Option<Server>,
    pub invoker: Option<Invoker>,
    pub storage: Option<StorageConfig>,
    pub security: Option<Security>,
    pub smtp: Option<SMTP>,
    pub log_level: String,
}

#[derive(Clone, Debug)]
pub struct Server {
    pub host: String,
    pub port: u32,
    pub site_url: String,
}

#[derive(Clone, Debug)]
pub struct Invoker {
    pub workers: u32,
    pub temp_dir: String,
    pub safeexec: Option<Safeexec>,
}

#[derive(Clone, Debug)]
pub struct Safeexec {
    pub path: String,
    pub cgroup: String,
    pub disable_memory_peak: bool,
    pub disable_cpu_limit: bool,
}

#[derive(Clone, Debug)]
pub enum DatabaseConfig {
    SQLite(SQLiteConfig),
    Postgres(PostgresConfig),
}

#[derive(Clone, Debug)]
pub struct SQLiteConfig {
    pub path: String,
}

#[derive(Clone, Debug)]
pub struct PostgresConfig {
    pub hosts: Vec<String>,
    pub user: String,
    pub password: String,
    pub name: String,
    pub sslmode: String,
}

#[derive(Clone, Debug)]
pub enum StorageConfig {
    Local(LocalStorageConfig),
    S3(S3StorageConfig),
}

#[derive(Clone, Debug)]
pub struct LocalStorageConfig {
    pub files_dir: String,
}

#[derive(Clone, Debug)]
pub struct S3StorageConfig {
    pub region: String,
    pub access_key_id: String,
    pub secret_access_key: String,
    pub endpoint: String,
    pub bucket: String,
    pub path_prefix: String,
    pub use_path_style: bool,
}

#[derive(Clone, Debug)]
pub struct Security {
    pub password_salt: String,
}

#[derive(Clone, Debug)]
pub struct SMTP {
    pub host: String,
    pub port: u32,
    pub email: String,
    pub password: String,
    pub name: String,
}

/// The logging threshold the process runs under.
#[derive(Clone, Copy, Debug, PartialEq, Eq, Structural)]
pub enum LogLevel {
    Debug,
    Info,
    Warning,
    Error,
    Critical,
}

/// Maps the configured level name to a threshold; anything unrecognised
/// (the empty default included) means `Info`.
pub fn log_level_of(level: &str) -> (r: LogLevel)
    ensures
        r == (if level@ == "debug"@ {
            LogLevel::Debug
        } else if level@ == "warning"@ {
            LogLevel::Warning
        } else if level@ == "error"@ {
            LogLevel::Error
        } else if level@ == "critical"@ {
            LogLevel::Critical
        } else {
            LogLevel::Info
        }),
{
    if str_eq(level, "debug") {
        LogLevel::Debug
    } else if str_eq(level, "warning") {
        LogLevel::Warning
    } else if str_eq(level, "error") {
        LogLevel::Error
    } else if str_eq(level, "critical") {
        LogLevel::Critical
    } else {
        LogLevel::Info
    }
}

/// Builds the file storage a configuration names.  Only the local driver
/// exists here; the S3 driver is refused as unsupported storage.
pub fn new_storage(config: &StorageConfig) -> (r: Result<
    crate::files::LocalStorage,
    crate::error::Error,
>)
    ensures
        match r {
            Ok(s) => (config matches StorageConfig::Local(c) && s.root() == c.files_dir@),
            Err(e) => config is S3 && e.spec_kind() == crate::error::ErrorKind::Storage,
        },
{
    match config {
        StorageConfig::Local(c) => crate::files::LocalStorage::new(c.files_dir.as_str()),
        StorageConfig::S3(_) => Err(
            crate::error::Error::Storage("unsupported storage driver".to_owned()),
        ),
    }
}

} // verus!
