//! The configuration of the service and its defaults.

use vstd::prelude::*;

verus! {

/// How the HTTP server runs.
#[derive(Debug, PartialEq)]
pub struct ServerConfig {
    pub port: u16,
    pub log_level: String,
}

/// Where the device store is mirrored.
#[derive(Debug, PartialEq)]
pub struct StorageConfig {
    pub file_path: String,
}

/// How devices are woken.
#[derive(Debug, PartialEq)]
pub struct WolConfig {
    /// The port of a device that was made without one.
    pub default_port: u16,
}

/// The whole configuration.
#[derive(Debug, PartialEq)]
pub struct AppConfig {
    pub server: ServerConfig,
    pub storage: StorageConfig,
    pub wol: WolConfig,
}

impl Default for ServerConfig {
    fn default() -> (c: Self)
        ensures
            c.port == 3000,
            c.log_level@ == "info,tower_http=debug"@,
    {
        ServerConfig { port: 3000, log_level: String::from_str("info,tower_http=debug") }
    }
}

impl Default for StorageConfig {
    fn default() -> (c: Self)
        ensures
            c.file_path@ == "devices.json"@,
    {
        StorageConfig { file_path: String::from_str("devices.json") }
    }
}

impl Default for WolConfig {
    fn default() -> (c: Self)
        ensures
            c.default_port == 9,
    {
        WolConfig { default_port: 9 }
    }
}

impl Default for AppConfig {
    fn default() -> (c: Self)
        ensures
            c.server.port == 3000,
            c.server.log_level@ == "info,tower_http=debug"@,
            c.storage.file_path@ == "devices.json"@,
            c.wol.default_port == 9,
    {
        AppConfig {
            server: ServerConfig::default(),
            storage: StorageConfig::default(),
            wol: WolConfig::default(),
        }
    }
}

} // verus!
