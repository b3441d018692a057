//! The process configuration that every session reads.

use vstd::prelude::*;

verus! {

/// Where the listener binds.
#[derive(Clone, Debug)]
pub struct ServerConfig {
    pub host: String,
    pub port: u16,
}

/// Where decoded records are posted, and the header that authorizes it.
#[derive(Clone, Debug)]
pub struct ApiIntegrationConfig {
    pub http_endpoint_url: String,
    pub auth_header_name: String,
    pub auth_header_value: String,
}

/// The whole configuration.
#[derive(Clone, Debug)]
pub struct Config {
    pub server: ServerConfig,
    pub api_integration: ApiIntegrationConfig,
}

} // verus!
