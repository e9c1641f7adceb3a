//! Connection parameters and the client that holds them.
use vstd::prelude::*;

verus! {

/// Where the service is and how to authenticate to it. Built once and only
/// read afterwards.
pub struct Configuration {
    /// Absolute base URL of the service, kept verbatim.
    pub base_path: String,
    /// Bearer credential; `None` sends requests unauthenticated.
    pub bearer_access_token: Option<String>,
}

/// The view of an optional string.
pub open spec fn opt_view(o: Option<String>) -> Option<Seq<char>> {
    match o {
        Some(s) => Some(s@),
        None => None,
    }
}

impl Configuration {
    /// Stores both arguments verbatim; no validation happens here.
    pub fn new(base_path: &str, bearer_access_token: Option<String>) -> (r: Configuration)
        ensures
            r.base_path@ == base_path@,
            opt_view(r.bearer_access_token) == opt_view(bearer_access_token),
    {
        Configuration { base_path: String::from_str(base_path), bearer_access_token }
    }
}

/// A client of the models listing endpoint.
pub struct Client {
    config: Configuration,
}

impl Client {
    /// A client for the service at `base_path` that authenticates with
    /// `api_key`.
    pub fn new(api_key: &str, base_path: &str) -> (r: Client)
        ensures
            r.spec_config().base_path@ == base_path@,
            opt_view(r.spec_config().bearer_access_token) == Some(api_key@),
    {
        let config = Configuration::new(base_path, Some(String::from_str(api_key)));
        Client { config }
    }

    /// A client over a configuration built by the caller.
    pub fn from_config(config: Configuration) -> (r: Client)
        ensures
            r.spec_config() == config,
    {
        Client { config }
    }

    pub closed spec fn spec_config(&self) -> Configuration {
        self.config
    }

    /// The configuration this client sends with.
    pub fn config(&self) -> (r: &Configuration)
        ensures
            *r == self.spec_config(),
    {
        &self.config
    }
}

} // verus!
