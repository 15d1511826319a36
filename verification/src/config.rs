use vstd::prelude::*;

use crate::errors::SpecterError;

verus! {

/// The process-wide configuration snapshot: an ordered list of ICE server
/// URLs, taken once at initialization time.
#[derive(Clone, Debug)]
pub struct Config {
    pub ice_servers: Vec<String>,
}

impl Config {
    /// Wraps an already-decoded list of ICE server URLs.
    pub fn new(ice_servers: Vec<String>) -> (c: Config)
        ensures
            c.ice_servers == ice_servers,
    {
        Config { ice_servers }
    }

    /// Builds the configuration from the decoded initialization options.
    ///
    /// The host hands in `Some(urls)` when the options were a map holding the
    /// list of ICE server URLs, and `None` for any malformed shape; a
    /// malformed shape is rejected synchronously.
    pub fn parse(opts: Option<Vec<String>>) -> (r: Result<Config, SpecterError>)
        ensures
            match opts {
                Some(urls) => (r matches Ok(c) && c.ice_servers == urls),
                None => r == Err::<Config, SpecterError>(SpecterError::InvalidConfiguration),
            },
    {
        match opts {
            Some(urls) => Ok(Config::new(urls)),
            None => Err(SpecterError::InvalidConfiguration),
        }
    }
}

} // verus!
