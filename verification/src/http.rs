//! Configuration for the HTTP retrieval layer.  The retrieval itself
//! is I/O and lives outside the library; the configuration it takes is
//! a plain value and is specified here.

use vstd::prelude::*;
use vstd::string::StringExecFns;

verus! {

/// Configuration for an HTTP client.
#[derive(Clone, Debug)]
pub struct Config {
    pub user_agent: String,
}

/// The user agent a client announces unless the caller picks another.
pub open spec fn default_user_agent() -> Seq<char> {
    "Flam HTTP(S) downloader client - see https://github.com/osak/flam for details"@
}

impl Default for Config {
    fn default() -> (r: Config)
        ensures
            r.user_agent@ == default_user_agent(),
    {
        Config {
            user_agent: String::from_str(
                "Flam HTTP(S) downloader client - see https://github.com/osak/flam for details",
            ),
        }
    }
}

} // verus!
