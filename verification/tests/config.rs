use axum_mysql_api::config::{ConfigError, ServerConfig, DATABASE_URL, SERVER_HOST, SERVER_PORT};

fn text(value: &str) -> Option<String> {
    Some(value.to_string())
}

#[test]
fn variable_names_are_the_documented_ones() {
    assert_eq!(DATABASE_URL, "DATABASE_URL");
    assert_eq!(SERVER_HOST, "SERVER_HOST");
    assert_eq!(SERVER_PORT, "SERVER_PORT");
}

#[test]
fn load_keeps_every_value_that_is_set() {
    let config = ServerConfig::load(text("mysql://u:p@db/app"), text("0.0.0.0"), text("8080"));
    assert_eq!(
        config,
        Ok(ServerConfig {
            database_url: "mysql://u:p@db/app".to_string(),
            host: "0.0.0.0".to_string(),
            port: "8080".to_string(),
        })
    );
}

#[test]
fn load_falls_back_to_default_host_and_port() {
    let config = ServerConfig::load(text("mysql://db/app"), None, None).unwrap();
    assert_eq!(config.database_url, "mysql://db/app");
    assert_eq!(config.host, "127.0.0.1");
    assert_eq!(config.port, "3000");
}

#[test]
fn load_defaults_host_and_port_independently() {
    let only_host = ServerConfig::load(text("mysql://db/app"), text("10.1.2.3"), None).unwrap();
    assert_eq!(only_host.host, "10.1.2.3");
    assert_eq!(only_host.port, "3000");
    let only_port = ServerConfig::load(text("mysql://db/app"), None, text("9000")).unwrap();
    assert_eq!(only_port.host, "127.0.0.1");
    assert_eq!(only_port.port, "9000");
}

#[test]
fn load_without_database_url_fails() {
    assert_eq!(ServerConfig::load(None, None, None), Err(ConfigError::MissingDatabaseUrl));
    assert_eq!(
        ServerConfig::load(None, text("0.0.0.0"), text("8080")),
        Err(ConfigError::MissingDatabaseUrl)
    );
}

#[test]
fn load_takes_an_empty_database_url_as_set() {
    let config = ServerConfig::load(text(""), None, None).unwrap();
    assert_eq!(config.database_url, "");
}

#[test]
fn load_does_not_validate_the_port() {
    let config = ServerConfig::load(text("mysql://db/app"), None, text("not-a-port")).unwrap();
    assert_eq!(config.port, "not-a-port");
    assert_eq!(config.listen_address(), "127.0.0.1:not-a-port");
}

#[test]
fn listen_address_joins_host_and_port_with_a_colon() {
    let config = ServerConfig::load(text("mysql://db/app"), text("0.0.0.0"), text("8080")).unwrap();
    assert_eq!(config.listen_address(), "0.0.0.0:8080");
}

#[test]
fn default_listen_address_is_loopback_3000() {
    let config = ServerConfig::load(text("mysql://db/app"), None, None).unwrap();
    assert_eq!(config.listen_address(), "127.0.0.1:3000");
}

#[test]
fn listen_address_of_empty_host_and_port_is_a_colon() {
    let config = ServerConfig::load(text("mysql://db/app"), text(""), text("")).unwrap();
    assert_eq!(config.listen_address(), ":");
}
