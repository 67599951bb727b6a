//! Configuration read from the process environment.
//!
//! The binary looks the three variables up and hands over what it found;
//! [`ServerConfig::load`] decides whether that is enough to start and fills in
//! the defaults.

use vstd::prelude::*;
use vstd::string::StringExecFns;

verus! {

/// Name of the variable that holds the database connection string. Required.
pub const DATABASE_URL: &'static str = "DATABASE_URL";

/// Name of the variable that holds the interface to listen on. Optional.
pub const SERVER_HOST: &'static str = "SERVER_HOST";

/// Name of the variable that holds the TCP port to listen on. Optional.
pub const SERVER_PORT: &'static str = "SERVER_PORT";

/// Why the environment cannot be turned into a configuration.
#[derive(Clone, Copy, Debug, PartialEq, Eq, Structural)]
pub enum ConfigError {
    /// The database connection string is not set.
    MissingDatabaseUrl,
}

/// Everything the service needs to know before it starts.
#[derive(Clone, Debug, PartialEq, Eq)]
pub struct ServerConfig {
    /// Driver-specific connection string; passed on untouched.
    pub database_url: String,
    /// Interface the listening socket binds to.
    pub host: String,
    /// Port the listening socket binds to, as written in the environment.
    pub port: String,
}

/// Mathematical value of a [`ServerConfig`].
pub struct ServerConfigView {
    pub database_url: Seq<char>,
    pub host: Seq<char>,
    pub port: Seq<char>,
}

impl View for ServerConfig {
    type V = ServerConfigView;

    open spec fn view(&self) -> ServerConfigView {
        ServerConfigView { database_url: self.database_url@, host: self.host@, port: self.port@ }
    }
}

/// Host used when the environment names none.
pub open spec fn default_host() -> Seq<char> {
    "127.0.0.1"@
}

/// Port used when the environment names none.
pub open spec fn default_port() -> Seq<char> {
    "3000"@
}

/// The text of `value`, or `fallback` where there is none.
pub open spec fn text_or(value: Option<String>, fallback: Seq<char>) -> Seq<char> {
    match value {
        Some(text) => text@,
        None => fallback,
    }
}

/// What [`ServerConfig::load`] makes of the three lookups.
pub open spec fn loaded(
    database_url: Option<String>,
    server_host: Option<String>,
    server_port: Option<String>,
) -> Result<ServerConfigView, ConfigError> {
    match database_url {
        Some(url) => Ok(
            ServerConfigView {
                database_url: url@,
                host: text_or(server_host, default_host()),
                port: text_or(server_port, default_port()),
            },
        ),
        None => Err(ConfigError::MissingDatabaseUrl),
    }
}

/// A result of [`ServerConfig::load`] with the configuration taken by its view.
pub open spec fn outcome_view(result: Result<ServerConfig, ConfigError>) -> Result<
    ServerConfigView,
    ConfigError,
> {
    match result {
        Ok(config) => Ok(config@),
        Err(error) => Err(error),
    }
}

impl ServerConfigView {
    /// `host:port`, the address handed to the socket.
    pub open spec fn listen_address(self) -> Seq<char> {
        self.host + seq![':'] + self.port
    }
}

impl ServerConfig {
    /// Builds the configuration from the values found in the environment.
    ///
    /// The connection string is required: without it there is no
    /// configuration. Host and port fall back to `127.0.0.1` and `3000`. No
    /// value is validated or rewritten.
    pub fn load(
        database_url: Option<String>,
        server_host: Option<String>,
        server_port: Option<String>,
    ) -> (result: Result<ServerConfig, ConfigError>)
        ensures
            outcome_view(result) == loaded(database_url, server_host, server_port),
    {
        match database_url {
            None => Err(ConfigError::MissingDatabaseUrl),
            Some(url) => {
                let host = match server_host {
                    Some(host) => host,
                    None => "127.0.0.1".to_owned(),
                };
                let port = match server_port {
                    Some(port) => port,
                    None => "3000".to_owned(),
                };
                Ok(ServerConfig { database_url: url, host, port })
            },
        }
    }

    /// The address to bind the listening socket to: host, a colon, port.
    pub fn listen_address(&self) -> (address: String)
        ensures
            address@ == self@.listen_address(),
    {
        let mut address = self.host.clone();
        proof {
            reveal_strlit(":");
        }
        address.append(":");
        address.append(self.port.as_str());
        assert(address@ =~= self@.listen_address());
        address
    }
}

/// With neither host nor port in the environment the service listens on
/// `127.0.0.1:3000`, whatever the connection string is.
pub proof fn law_default_listen_address(database_url: String)
    ensures
        loaded(Some(database_url), None, None) matches Ok(config)
            && config.listen_address() == "127.0.0.1:3000"@,
{
    reveal_strlit("127.0.0.1");
    reveal_strlit("3000");
    reveal_strlit("127.0.0.1:3000");
    let config = loaded(Some(database_url), None, None)->Ok_0;
    assert(config.listen_address() =~= "127.0.0.1:3000"@);
}

} // verus!
