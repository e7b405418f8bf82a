//! Where the relay sends what it receives, and the fixed settings of the
//! process that hosts it.

use vstd::prelude::*;
use vstd::string::StringExecFns;

verus! {

/// The environment variable that names the downstream service.
pub const DOWNSTREAM_URL_VARIABLE: &'static str = "GO_SERVICE_URL";

/// The downstream service that is used when the environment names none.
pub const FALLBACK_BASE_URL: &'static str = "http://go-api:8081";

/// The path of the downstream endpoint, appended to the base URL as it stands.
pub const DOWNSTREAM_PATH: &'static str = "/procesar";

/// The address the host listens on.
pub const LISTEN_ADDRESS: &'static str = "0.0.0.0:8080";

/// The number of workers the host starts unless it is told otherwise.
pub const DEFAULT_WORKERS: usize = 4;

/// The base URL that results from a configured value and a fallback: the
/// configured value wins whenever there is one.
pub open spec fn resolved_base_url(configured: Option<Seq<char>>, fallback: Seq<char>) -> Seq<char> {
    match configured {
        Some(url) => url,
        None => fallback,
    }
}

/// The URL of the downstream endpoint under a base URL. The base is not
/// normalised: a trailing slash stays.
pub open spec fn endpoint_of(base_url: Seq<char>) -> Seq<char> {
    base_url + DOWNSTREAM_PATH@
}

/// The configuration of a relay: the base URL of the downstream service.
#[derive(Clone, Debug, PartialEq, Eq)]
pub struct RelayConfig {
    pub downstream_base_url: String,
}

impl View for RelayConfig {
    type V = Seq<char>;

    open spec fn view(&self) -> Seq<char> {
        self.downstream_base_url@
    }
}

impl RelayConfig {
    /// The configuration for the value found in the environment, if any, with
    /// [`FALLBACK_BASE_URL`] in its absence.
    pub fn from_environment(configured: Option<String>) -> (config: RelayConfig)
        ensures
            config@ == resolved_base_url(configured.deep_view(), FALLBACK_BASE_URL@),
            configured is Some ==> config@ == configured->0@,
            configured is None ==> config@ == FALLBACK_BASE_URL@,
    {
        RelayConfig::with_fallback(configured, FALLBACK_BASE_URL)
    }

    /// The configuration for the value found in the environment, if any, with
    /// a fallback of the caller's choice in its absence.
    pub fn with_fallback(configured: Option<String>, fallback: &str) -> (config: RelayConfig)
        ensures
            config@ == resolved_base_url(configured.deep_view(), fallback@),
            configured is Some ==> config@ == configured->0@,
            configured is None ==> config@ == fallback@,
    {
        match configured {
            Some(url) => RelayConfig { downstream_base_url: url },
            None => RelayConfig { downstream_base_url: String::from_str(fallback) },
        }
    }

    /// The URL that sale records are posted to.
    pub fn endpoint(&self) -> (url: String)
        ensures
            url@ == endpoint_of(self@),
            url@ == self@ + "/procesar"@,
    {
        self.downstream_base_url.clone().concat(DOWNSTREAM_PATH)
    }
}

} // verus!
