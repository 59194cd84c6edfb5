//! The command-line options of the `server` subcommand.
use vstd::prelude::*;
use crate::server::settings::Settings;

verus! {

/// Options of the `server` subcommand: each one given replaces the
/// configured value.
#[derive(Debug, Clone, PartialEq, Eq)]
pub struct Server {
    pub host: Option<String>,
    pub port: Option<u16>,
}

impl Server {
    /// The settings the server runs with: `settings`, with the host and port
    /// given on the command line in place of the configured ones.
    pub fn apply(&self, settings: Settings) -> (applied: Settings)
        ensures
            applied.host@ == match self.host {
                Some(h) => h@,
                None => settings.host@,
            },
            applied.port == match self.port {
                Some(p) => p,
                None => settings.port,
            },
    {
        let mut settings = settings;
        if let Some(host) = &self.host {
            settings.host = host.clone();
        }
        if let Some(port) = self.port {
            settings.port = port;
        }
        settings
    }
}

} // verus!
