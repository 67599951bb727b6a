use std::time::Duration;

use axum_mysql_api::database::{
    connect_options, pool_options, PoolOptions, CONNECT_TIMEOUT_SECS, IDLE_TIMEOUT_SECS,
    MAX_CONNECTIONS, MIN_CONNECTIONS,
};

fn unusual() -> PoolOptions {
    PoolOptions {
        url: "mysql://reader@replica/app".to_string(),
        max_connections: 7,
        min_connections: 3,
        connect_timeout_secs: 11,
        idle_timeout_secs: 13,
        sqlx_logging: false,
    }
}

#[test]
fn pool_options_are_the_service_settings() {
    assert_eq!(
        pool_options("mysql://db/app".to_string()),
        PoolOptions {
            url: "mysql://db/app".to_string(),
            max_connections: 100,
            min_connections: 5,
            connect_timeout_secs: 8,
            idle_timeout_secs: 8,
            sqlx_logging: true,
        }
    );
}

#[test]
fn pool_options_keep_the_url_they_are_given() {
    assert_eq!(pool_options(String::new()).url, "");
    assert_eq!(pool_options("mysql://other/db".to_string()).url, "mysql://other/db");
}

#[test]
fn pool_never_needs_more_connections_than_it_may_have() {
    let options = pool_options("mysql://db/app".to_string());
    assert!(options.min_connections <= options.max_connections);
}

#[test]
fn pool_constants_have_their_values() {
    assert_eq!(MAX_CONNECTIONS, 100);
    assert_eq!(MIN_CONNECTIONS, 5);
    assert_eq!(CONNECT_TIMEOUT_SECS, 8);
    assert_eq!(IDLE_TIMEOUT_SECS, 8);
}

#[test]
fn connect_options_carry_the_service_settings_to_the_driver() {
    let connect = connect_options(&pool_options("mysql://db/app".to_string()));
    assert_eq!(connect.get_url(), "mysql://db/app");
    assert_eq!(connect.get_max_connections(), Some(100));
    assert_eq!(connect.get_min_connections(), Some(5));
    assert_eq!(connect.get_connect_timeout(), Some(Duration::from_secs(8)));
    assert_eq!(connect.get_idle_timeout(), Some(Some(Duration::from_secs(8))));
    assert!(connect.get_sqlx_logging());
}

#[test]
fn connect_options_carry_the_url() {
    assert_eq!(connect_options(&unusual()).get_url(), "mysql://reader@replica/app");
}

#[test]
fn connect_options_carry_the_maximum() {
    assert_eq!(connect_options(&unusual()).get_max_connections(), Some(7));
}

#[test]
fn connect_options_carry_the_minimum() {
    assert_eq!(connect_options(&unusual()).get_min_connections(), Some(3));
}

#[test]
fn connect_options_carry_the_connect_timeout() {
    let connect = connect_options(&unusual());
    assert_eq!(connect.get_connect_timeout(), Some(Duration::from_secs(11)));
    assert_eq!(connect.get_connect_timeout().map(|timeout| timeout.as_secs()), Some(11));
}

#[test]
fn connect_options_carry_the_idle_timeout() {
    let connect = connect_options(&unusual());
    assert_eq!(connect.get_idle_timeout(), Some(Some(Duration::from_secs(13))));
}

#[test]
fn connect_options_carry_statement_logging_off() {
    assert!(!connect_options(&unusual()).get_sqlx_logging());
}

#[test]
fn connect_options_leave_their_argument_as_it_is() {
    let options = unusual();
    let _ = connect_options(&options);
    assert_eq!(options, unusual());
}
