//! Configuration of the services that is more than a flag.

use vstd::prelude::*;

verus! {

/// Tracker account of the ingestor.
pub struct ServiceOpts {
    /// Tracker account e-mail.
    pub email: String,
    /// Tracker account password.
    pub password: String,
}

/// How to reach the shared store.
pub enum ServerConfig {
    /// A single server.
    Centralized { host: String, port: u16 },
    /// A set of sentinels that watch the named service.
    Sentinel { service_name: String, hosts: Vec<(String, u16)> },
}

/// The whole store configuration: the server, and the connection policy. Pipelining
/// is off, so that the per-call script deadline measures that call alone, and
/// blocking commands are refused outside the long stream read.
pub struct StoreConfig {
    pub server: ServerConfig,
    /// Whether commands may be pipelined.
    pub pipeline: bool,
    /// Whether a blocking command is refused rather than queued behind another.
    pub reject_blocking: bool,
}

/// Why no server configuration could be made.
#[derive(Clone, Copy, Debug, PartialEq, Eq, Structural)]
pub enum ConfigError {
    /// At least one address is required.
    NoAddress,
}

/// The store configuration for a list of `(host, port)` addresses: one address is a
/// single server, several are sentinels of `service_name`.
pub fn server_config(addresses: &Vec<(String, u16)>, service_name: String) -> (r: Result<
    ServerConfig,
    ConfigError,
>)
    ensures
        addresses@.len() == 0 ==> r == Err::<ServerConfig, _>(ConfigError::NoAddress),
        addresses@.len() == 1 ==> (r matches Ok(ServerConfig::Centralized { host, port })
            && host == addresses@[0].0 && port == addresses@[0].1),
        addresses@.len() > 1 ==> (r matches Ok(ServerConfig::Sentinel { service_name: name, hosts })
            && name == service_name && hosts@.len() == addresses@.len()
            && forall|i: int| 0 <= i < hosts@.len() ==> #[trigger] hosts@[i].0 == addresses@[i].0
            && hosts@[i].1 == addresses@[i].1),
{
    if addresses.len() == 0 {
        return Err(ConfigError::NoAddress);
    }
    if addresses.len() == 1 {
        return Ok(ServerConfig::Centralized { host: addresses[0].0.clone(), port: addresses[0].1 });
    }
    let mut hosts: Vec<(String, u16)> = Vec::new();
    let mut i: usize = 0;
    while i < addresses.len()
        invariant
            i <= addresses@.len(),
            hosts@.len() == i,
            forall|k: int| 0 <= k < i ==> #[trigger] hosts@[k].0 == addresses@[k].0 && hosts@[k].1
                == addresses@[k].1,
        decreases addresses@.len() - i,
    {
        hosts.push((addresses[i].0.clone(), addresses[i].1));
        i = i + 1;
    }
    Ok(ServerConfig::Sentinel { service_name, hosts })
}

/// The store configuration for a list of `(host, port)` addresses: the server as
/// `server_config` chooses it, pipelining off and blocking commands refused.
pub fn store_config(addresses: &Vec<(String, u16)>, service_name: String) -> (r: Result<
    StoreConfig,
    ConfigError,
>)
    ensures
        addresses@.len() == 0 ==> r is Err && r->Err_0 == ConfigError::NoAddress,
        addresses@.len() > 0 ==> r is Ok && !r->Ok_0.pipeline && r->Ok_0.reject_blocking,
        addresses@.len() == 1 ==> (r matches Ok(c) && c.server matches ServerConfig::Centralized {
            host,
            port,
        } && host == addresses@[0].0 && port == addresses@[0].1),
        addresses@.len() > 1 ==> (r matches Ok(c) && c.server matches ServerConfig::Sentinel {
            service_name: name,
            hosts,
        } && name == service_name && hosts@.len() == addresses@.len() && forall|i: int|
            0 <= i < hosts@.len() ==> #[trigger] hosts@[i].0 == addresses@[i].0 && hosts@[i].1
                == addresses@[i].1),
{
    match server_config(addresses, service_name) {
        Ok(server) => Ok(StoreConfig { server, pipeline: false, reject_blocking: true }),
        Err(e) => Err(e),
    }
}

} // verus!
