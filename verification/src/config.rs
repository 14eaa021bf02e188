//! Immutable client configuration: access token, server base URLs, request
//! timeout, user agent and debug flag. Constructed once and never mutated.

use vstd::prelude::*;

verus! {

/// Base URLs of the three logical remote services.
#[derive(Debug, Clone)]
pub struct ServerConfig {
    /// Base URL of the upload/transfer service.
    pub pcs_url: String,
    /// Base URL of the primary file service.
    pub pan_url: String,
    /// Base URL of the authentication service.
    pub openapi_url: String,
}

impl core::default::Default for ServerConfig {
    /// The provider's standard endpoints.
    fn default() -> (r: Self)
        ensures
            r.pcs_url@ == "https://d.pcs.baidu.com"@,
            r.pan_url@ == "https://pan.baidu.com"@,
            r.openapi_url@ == "https://openapi.baidu.com"@,
    {
        ServerConfig {
            pcs_url: "https://d.pcs.baidu.com".to_owned(),
            pan_url: "https://pan.baidu.com".to_owned(),
            openapi_url: "https://openapi.baidu.com".to_owned(),
        }
    }
}

/// Client configuration, shared read-only by every call made through one
/// client handle.
#[derive(Debug, Clone)]
pub struct Config {
    /// Access token appended as a query parameter to every request.
    pub access_token: String,
    /// Server base URLs.
    pub server: ServerConfig,
    /// Request timeout, in seconds, applied uniformly to every request.
    pub timeout: u64,
    /// User-Agent header value for API requests.
    pub user_agent: String,
    /// When set, the surrounding application may log resolved URLs and
    /// payloads.
    pub debug: bool,
}

impl Config {
    /// A configuration with the standard servers, a 120-second timeout and
    /// the default user agent.
    pub fn new(access_token: &str) -> (r: Self)
        ensures
            r.access_token@ == access_token@,
            r.server.pcs_url@ == "https://d.pcs.baidu.com"@,
            r.server.pan_url@ == "https://pan.baidu.com"@,
            r.server.openapi_url@ == "https://openapi.baidu.com"@,
            r.timeout == 120,
            r.user_agent@ == "bd-sdk-rust/0.1.0"@,
            r.debug == false,
    {
        Config {
            access_token: access_token.to_owned(),
            server: ServerConfig::default(),
            timeout: 120,
            user_agent: "bd-sdk-rust/0.1.0".to_owned(),
            debug: false,
        }
    }

    /// Replaces the server base URLs.
    pub fn with_server(self, server: ServerConfig) -> (r: Self)
        ensures
            r.server == server,
            r.access_token == self.access_token,
            r.timeout == self.timeout,
            r.user_agent == self.user_agent,
            r.debug == self.debug,
    {
        Config { server, ..self }
    }

    /// Replaces the request timeout (seconds).
    pub fn with_timeout(self, timeout: u64) -> (r: Self)
        ensures
            r.timeout == timeout,
            r.access_token == self.access_token,
            r.server == self.server,
            r.user_agent == self.user_agent,
            r.debug == self.debug,
    {
        Config { timeout, ..self }
    }

    /// Replaces the user agent.
    pub fn with_user_agent(self, user_agent: &str) -> (r: Self)
        ensures
            r.user_agent@ == user_agent@,
            r.access_token == self.access_token,
            r.server == self.server,
            r.timeout == self.timeout,
            r.debug == self.debug,
    {
        Config { user_agent: user_agent.to_owned(), ..self }
    }

    /// Sets the debug flag.
    pub fn with_debug(self, debug: bool) -> (r: Self)
        ensures
            r.debug == debug,
            r.access_token == self.access_token,
            r.server == self.server,
            r.timeout == self.timeout,
            r.user_agent == self.user_agent,
    {
        Config { debug, ..self }
    }
}

} // verus!
