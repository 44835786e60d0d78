//! Where the cluster is to be found.

use vstd::prelude::*;
use vstd::string::StringExecFns;

verus! {

/// The endpoint used when none is configured: the local machine, on the port
/// that CQL servers listen on by convention.
pub open spec fn default_host() -> Seq<char> {
    "localhost:9042"@
}

/// The configuration of a client: the endpoint of the cluster, in the form
/// `host:port`. It is resolved once, at startup, and handed to whatever opens
/// the session.
#[derive(Debug, PartialEq, Eq)]
pub struct Config {
    pub host: String,
}

impl Config {
    /// The configuration for the given value of `DB_HOST`: the value itself
    /// where the variable is set, whatever it holds, and the default endpoint
    /// where it is not.
    pub fn from_db_host(value: Option<String>) -> (config: Config)
        ensures
            config.host@ == match value {
                Some(host) => host@,
                None => default_host(),
            },
    {
        match value {
            Some(host) => Config { host },
            None => Config { host: String::from_str("localhost:9042") },
        }
    }
}

} // verus!
