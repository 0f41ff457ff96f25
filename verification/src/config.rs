//! The running service configuration and the state shared across request
//! handlers.  Reading the environment is left to the binary around the
//! library; this module only holds the values and formats the bind address.

use vstd::prelude::*;

verus! {

/// The running API configuration.
pub struct Config {
    /// The TCP port the service listens on.
    pub port: String,
    /// The directory under which session records are stored.
    pub storage_path: String,
}

impl Config {
    /// Formats the host and port into an address for a TCP listener to bind
    /// to.
    pub fn get_address(&self) -> (r: String)
        ensures
            r@ == "localhost:"@ + self.port@,
    {
        let prefix: String = String::from_str("localhost:");
        prefix.concat(self.port.as_str())
    }
}

/// The data shared between request handlers.
pub struct AppState {
    pub config: Config,
}

} // verus!
