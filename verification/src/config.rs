//! Process configuration: explicit, immutable values assembled at startup
//! by the caller (typically from the environment) and passed down — never
//! read from ambient global state inside the domain layer.

use vstd::prelude::*;

verus! {

/// Server, database and signing configuration. The signing secret is
/// process-wide and never rotated during a process lifetime: changing it
/// invalidates all outstanding session tokens.
#[derive(Debug, Clone)]
pub struct AppConfig {
    pub server_host: String,
    pub server_port: u16,
    pub db_url: String,
    pub db_max_conn: u32,
    pub db_connect_timeout_secs: u64,
    pub db_idle_timeout: u64,
    pub jwt_secret: String,
}

} // verus!
