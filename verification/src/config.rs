//! Runtime configuration of the surrounding server program. Reading a
//! configuration file belongs outside this crate; what is decided here is
//! which port value a loaded file yields.

use vstd::prelude::*;

verus! {

/// The server's configuration: the port it listens on, as text.
pub struct Config {
    pub port: String,
}

impl Config {
    /// The configuration a loaded optional port yields: the port as loaded,
    /// or the default port when the file gave none.
    pub fn from_loaded_port(port: Option<String>) -> (r: Config)
        ensures
            match port {
                Some(p) => r.port@ == p@,
                None => r.port@ == "3478"@,
            },
    {
        match port {
            Some(port) => Config { port },
            None => Config { port: "3478".to_owned() },
        }
    }
}

} // verus!
