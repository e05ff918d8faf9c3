//! Client configuration: the server base URL. The default URL means the
//! locally supervised server; any other value means a remote server, and
//! the process supervisor then has nothing to manage.

use vstd::prelude::*;

verus! {

/// The configured server base URL.
pub struct Config {
    pub api_url: String,
}

/// The default server URL, standing for the locally managed instance.
pub open spec fn spec_default_url() -> Seq<char> {
    "https://spec.workers.io"@
}

impl Config {
    /// The default server URL.
    pub fn default_url() -> (r: &'static str)
        ensures
            r@ == spec_default_url(),
    {
        "https://spec.workers.io"
    }

    /// Whether this configuration points at a remote server, in which
    /// case supervisor operations are no-ops.
    pub open spec fn spec_is_remote(&self) -> bool {
        self.api_url@ != spec_default_url()
    }

    /// Tests whether the configured URL differs from the default.
    pub fn is_remote(&self) -> (r: bool)
        ensures
            r == self.spec_is_remote(),
    {
        let default: String = Config::default_url().to_owned();
        !self.api_url.eq(&default)
    }
}

impl Default for Config {
    /// The configuration used when none is stored: the default URL.
    fn default() -> (r: Config)
        ensures
            r.api_url@ == spec_default_url(),
    {
        Config { api_url: Config::default_url().to_owned() }
    }
}

} // verus!
