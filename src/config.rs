use crate::connection::ConnectionState;
use vstd::prelude::*;
use vstd::string::*;

verus! {

/// Why a configuration was refused.
#[derive(Clone, Copy, Debug, PartialEq, Eq, Structural)]
pub enum ConfigError {
    /// The address to listen on is empty.
    EmptyAddress,
    /// The root directory of the served files is empty.
    EmptyRoot,
}

/// The settings of a server: the address to listen on, the root directory of
/// the served files, and the idle timeout in seconds (none: no timeout).
pub struct Config {
    pub ip_port: String,
    pub web_page: String,
    pub keepalive_timeout: Option<u64>,
}

impl Config {
    /// Checks and gathers the settings of a server: neither the address nor
    /// the root directory may be empty.
    pub fn new(ip_port: String, web_page: String, keepalive_timeout: Option<u64>) -> (r: Result<
        Config,
        ConfigError,
    >)
        ensures
            ip_port@.len() == 0 ==> r == Err::<Config, ConfigError>(ConfigError::EmptyAddress),
            ip_port@.len() > 0 && web_page@.len() == 0 ==> r == Err::<Config, ConfigError>(
                ConfigError::EmptyRoot,
            ),
            ip_port@.len() > 0 && web_page@.len() > 0 ==> r is Ok && r->Ok_0.ip_port@ == ip_port@
                && r->Ok_0.web_page@ == web_page@ && r->Ok_0.keepalive_timeout
                == keepalive_timeout,
    {
        if ip_port.as_str().is_empty() {
            return Err(ConfigError::EmptyAddress);
        }
        if web_page.as_str().is_empty() {
            return Err(ConfigError::EmptyRoot);
        }
        Ok(Config { ip_port, web_page, keepalive_timeout })
    }
}

/// A server being configured: the root directory it serves and the idle
/// timeout of its connections, in seconds.
pub struct HttpServer {
    pub paths: Option<String>,
    pub keep_alive_timeouts: Option<u64>,
}

impl HttpServer {
    /// A server with no root directory and no idle timeout.
    pub fn new() -> (r: HttpServer)
        ensures
            r.paths is None,
            r.keep_alive_timeouts is None,
    {
        HttpServer { paths: None, keep_alive_timeouts: None }
    }

    /// Sets the idle timeout of the server's connections, in seconds.
    pub fn set_keep_alive(self, keep_alive: u64) -> (r: HttpServer)
        ensures
            r.keep_alive_timeouts == Some(keep_alive),
            r.paths == self.paths,
    {
        let mut server = self;
        server.keep_alive_timeouts = Some(keep_alive);
        server
    }

    /// Sets the root directory that the server serves; an empty one is
    /// refused.
    pub fn route(self, route_path: &str) -> (r: Result<HttpServer, ()>)
        ensures
            route_path@.len() == 0 <==> r is Err,
            r is Ok ==> r->Ok_0.paths is Some && r->Ok_0.paths->Some_0@ == route_path@
                && r->Ok_0.keep_alive_timeouts == self.keep_alive_timeouts,
    {
        if route_path.is_empty() {
            return Err(());
        }
        let mut server = self;
        server.paths = Some(String::from_str(route_path));
        Ok(server)
    }

    /// The bookkeeping of a newly accepted connection of this server.
    pub fn connection_state(&self) -> (r: ConnectionState)
        ensures
            r.idle_ticks == 0,
            r.timeout == self.keep_alive_timeouts,
            r.open,
    {
        ConnectionState::new(self.keep_alive_timeouts)
    }
}

impl Default for HttpServer {
    /// The same as `HttpServer::new`.
    fn default() -> (r: HttpServer)
        ensures
            r.paths is None,
            r.keep_alive_timeouts is None,
    {
        HttpServer::new()
    }
}

} // verus!
