//! Bookkeeping for the local catalog store's connection.

use vstd::prelude::*;

verus! {

/// Connection status for the local database.
#[derive(Debug, Clone)]
pub enum ConnectionStatus {
    Connected,
    Disconnected,
    Syncing,
    Error(String),
}

/// Database configuration.
#[derive(Debug, Clone)]
pub struct DatabaseConfig {
    pub path: String,
}

impl Default for DatabaseConfig {
    /// The default store sits in the working directory.
    fn default() -> (r: Self)
        ensures
            r.path@ == "av_designer.db"@,
    {
        DatabaseConfig { path: String::from_str("av_designer.db") }
    }
}

/// Tracks the configuration and connection state of the local database.
pub struct DatabaseManager {
    config: DatabaseConfig,
    status: ConnectionStatus,
}

impl DatabaseManager {
    /// The connection status, as contracts see it.
    pub closed spec fn spec_status(&self) -> ConnectionStatus {
        self.status
    }

    /// The configured database path, as contracts see it.
    pub closed spec fn spec_path(&self) -> Seq<char> {
        self.config.path@
    }

    /// A manager over the default configuration, not yet connected.
    pub fn new() -> (r: Self)
        ensures
            r.spec_status() is Disconnected,
            r.spec_path() == "av_designer.db"@,
    {
        DatabaseManager { config: DatabaseConfig::default(), status: ConnectionStatus::Disconnected }
    }

    /// A manager over a custom configuration, not yet connected.
    pub fn with_config(config: DatabaseConfig) -> (r: Self)
        ensures
            r.spec_status() is Disconnected,
            r.spec_path() == config.path@,
    {
        DatabaseManager { config, status: ConnectionStatus::Disconnected }
    }

    /// The current connection status.
    pub fn status(&self) -> (r: &ConnectionStatus)
        ensures
            *r == self.spec_status(),
    {
        &self.status
    }

    /// The database path.
    pub fn path(&self) -> (r: &str)
        ensures
            r@ == self.spec_path(),
    {
        self.config.path.as_str()
    }
}

impl Default for DatabaseManager {
    fn default() -> (r: Self)
        ensures
            r.spec_status() is Disconnected,
            r.spec_path() == "av_designer.db"@,
    {
        DatabaseManager::new()
    }
}

} // verus!
