use vstd::prelude::*;

verus! {

/// Where the listener should serve, and whether over TLS.
pub struct ApiConfig {
    pub api_ip: String,
    pub api_port: u16,
    pub https: HttpsConfig,
}

/// TLS material for the listener.
pub struct HttpsConfig {
    pub enabled: bool,
    pub cert_path: String,
    pub key_path: String,
    pub ca_bundle_path: String,
}

/// Logging destinations and levels.
pub struct LoggerConfig {
    pub filepath: String,
    pub rotation: String,
    pub global: String,
    pub tls: String,
    pub api: String,
}

/// Where the backing document store lives.
pub struct DatabaseConfig {
    pub url: String,
}

/// Everything the service needs to start, constructed once at process
/// start — from a file, the environment, or a test — and passed down
/// explicitly to the store-client constructor and the listener.
pub struct Config {
    pub api: ApiConfig,
    pub logger: LoggerConfig,
    pub database: DatabaseConfig,
}

} // verus!
