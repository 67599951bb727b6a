//! Settings of the database connection pool, and how they reach the driver.
//!
//! [`PoolOptions`] is the service's own record of how the pool is to be
//! sized and timed. [`connect_options`] hands such a record to the driver's
//! option builder, setting by setting, and states what the built object
//! then reports. The builder itself is not verified: what is assumed of each
//! of its methods stands above the function that calls it.

use std::time::Duration;

use sea_orm::ConnectOptions;
use vstd::prelude::*;

verus! {

/// Upper bound on the connections the pool keeps open.
pub const MAX_CONNECTIONS: u32 = 100;

/// Connections the pool keeps open even when idle.
pub const MIN_CONNECTIONS: u32 = 5;

/// Seconds to wait for a new connection before giving up.
pub const CONNECT_TIMEOUT_SECS: u64 = 8;

/// Seconds a connection may sit idle before the pool closes it.
pub const IDLE_TIMEOUT_SECS: u64 = 8;

/// How a connection pool for one database is to be sized and timed.
#[derive(Clone, Debug, PartialEq, Eq)]
pub struct PoolOptions {
    /// Connection string of the database the pool is for.
    pub url: String,
    pub max_connections: u32,
    pub min_connections: u32,
    pub connect_timeout_secs: u64,
    pub idle_timeout_secs: u64,
    /// Whether the driver logs every statement it runs.
    pub sqlx_logging: bool,
}

/// Mathematical value of a [`PoolOptions`].
pub struct PoolOptionsView {
    pub url: Seq<char>,
    pub max_connections: u32,
    pub min_connections: u32,
    pub connect_timeout_secs: u64,
    pub idle_timeout_secs: u64,
    pub sqlx_logging: bool,
}

impl View for PoolOptions {
    type V = PoolOptionsView;

    open spec fn view(&self) -> PoolOptionsView {
        PoolOptionsView {
            url: self.url@,
            max_connections: self.max_connections,
            min_connections: self.min_connections,
            connect_timeout_secs: self.connect_timeout_secs,
            idle_timeout_secs: self.idle_timeout_secs,
            sqlx_logging: self.sqlx_logging,
        }
    }
}

impl PoolOptionsView {
    /// The pool never has to keep more connections open than it may have.
    pub open spec fn well_formed(self) -> bool {
        self.min_connections <= self.max_connections
    }
}

/// The options of the service's pool for the database at `url`.
pub open spec fn service_pool(url: Seq<char>) -> PoolOptionsView {
    PoolOptionsView {
        url,
        max_connections: MAX_CONNECTIONS,
        min_connections: MIN_CONNECTIONS,
        connect_timeout_secs: CONNECT_TIMEOUT_SECS,
        idle_timeout_secs: IDLE_TIMEOUT_SECS,
        sqlx_logging: true,
    }
}

/// Describes the pool the service wants for the database at `database_url`:
/// between 5 and 100 connections, 8 seconds to connect, 8 seconds of
/// idleness, statement logging on.
pub fn pool_options(database_url: String) -> (options: PoolOptions)
    ensures
        options@ == service_pool(database_url@),
        options@.well_formed(),
{
    PoolOptions {
        url: database_url,
        max_connections: MAX_CONNECTIONS,
        min_connections: MIN_CONNECTIONS,
        connect_timeout_secs: CONNECT_TIMEOUT_SECS,
        idle_timeout_secs: IDLE_TIMEOUT_SECS,
        sqlx_logging: true,
    }
}

/// `sea_orm::ConnectOptions`, the driver's connection options. Nothing
/// inside is visible here; what an object holds is spoken of through what
/// its accessors give out.
#[verifier::external_type_specification]
#[verifier::external_body]
pub struct ExConnectOptions(sea_orm::ConnectOptions);

/// What `sea_orm::ConnectOptions::get_url` gives for these options.
pub uninterp spec fn url_of(options: ConnectOptions) -> Seq<char>;

/// What `sea_orm::ConnectOptions::get_max_connections` gives for these
/// options.
pub uninterp spec fn max_connections_of(options: ConnectOptions) -> Option<u32>;

/// What `sea_orm::ConnectOptions::get_min_connections` gives for these
/// options.
pub uninterp spec fn min_connections_of(options: ConnectOptions) -> Option<u32>;

/// What `sea_orm::ConnectOptions::get_connect_timeout` gives for these
/// options, in whole seconds.
pub uninterp spec fn connect_timeout_secs_of(options: ConnectOptions) -> Option<u64>;

/// What `sea_orm::ConnectOptions::get_idle_timeout` gives for these
/// options, in whole seconds.
pub uninterp spec fn idle_timeout_secs_of(options: ConnectOptions) -> Option<Option<u64>>;

/// What `sea_orm::ConnectOptions::get_sqlx_logging` gives for these
/// options.
pub uninterp spec fn sqlx_logging_of(options: ConnectOptions) -> bool;

/// The settings that driver options give out, side by side.
pub struct Reported {
    pub url: Seq<char>,
    pub max_connections: Option<u32>,
    pub min_connections: Option<u32>,
    pub connect_timeout_secs: Option<u64>,
    pub idle_timeout_secs: Option<Option<u64>>,
    pub sqlx_logging: bool,
}

/// Everything `options` gives out.
pub open spec fn reported(options: ConnectOptions) -> Reported {
    Reported {
        url: url_of(options),
        max_connections: max_connections_of(options),
        min_connections: min_connections_of(options),
        connect_timeout_secs: connect_timeout_secs_of(options),
        idle_timeout_secs: idle_timeout_secs_of(options),
        sqlx_logging: sqlx_logging_of(options),
    }
}

/// What driver options give out once every setting of `options` has been
/// handed to them.
pub open spec fn handed_over(options: PoolOptionsView) -> Reported {
    Reported {
        url: options.url,
        max_connections: Some(options.max_connections),
        min_connections: Some(options.min_connections),
        connect_timeout_secs: Some(options.connect_timeout_secs),
        idle_timeout_secs: Some(Some(options.idle_timeout_secs)),
        sqlx_logging: options.sqlx_logging,
    }
}

/// `sea_orm::ConnectOptions::new`: fresh options for a connection string.
/// They give out that string, no pool size and no timeout, and statement
/// logging on.
#[verifier::external_body]
fn new_options(url: String) -> (options: ConnectOptions)
    ensures
        url_of(options) == url@,
        max_connections_of(options) is None,
        min_connections_of(options) is None,
        connect_timeout_secs_of(options) is None,
        idle_timeout_secs_of(options) is None,
        sqlx_logging_of(options),
{
    ConnectOptions::new(url)
}

/// `sea_orm::ConnectOptions::max_connections`: afterwards the options give
/// out `value` as the maximum; every other setting is as before.
#[verifier::external_body]
fn set_max_connections(options: &mut ConnectOptions, value: u32)
    ensures
        reported(*final(options)) == (Reported {
            max_connections: Some(value),
            ..reported(*old(options))
        }),
{
    options.max_connections(value);
}

/// `sea_orm::ConnectOptions::min_connections`: afterwards the options give
/// out `value` as the minimum; every other setting is as before.
#[verifier::external_body]
fn set_min_connections(options: &mut ConnectOptions, value: u32)
    ensures
        reported(*final(options)) == (Reported {
            min_connections: Some(value),
            ..reported(*old(options))
        }),
{
    options.min_connections(value);
}

/// `sea_orm::ConnectOptions::connect_timeout`, called with a duration of
/// `seconds` whole seconds: afterwards the options give out that duration
/// as the connect timeout; every other setting is as before.
#[verifier::external_body]
fn set_connect_timeout(options: &mut ConnectOptions, seconds: u64)
    ensures
        reported(*final(options)) == (Reported {
            connect_timeout_secs: Some(seconds),
            ..reported(*old(options))
        }),
{
    options.connect_timeout(Duration::from_secs(seconds));
}

/// `sea_orm::ConnectOptions::idle_timeout`, called with a duration of
/// `seconds` whole seconds: afterwards the options give out that duration
/// as the idle timeout; every other setting is as before.
#[verifier::external_body]
fn set_idle_timeout(options: &mut ConnectOptions, seconds: u64)
    ensures
        reported(*final(options)) == (Reported {
            idle_timeout_secs: Some(Some(seconds)),
            ..reported(*old(options))
        }),
{
    options.idle_timeout(Duration::from_secs(seconds));
}

/// `sea_orm::ConnectOptions::sqlx_logging`: afterwards the options give out
/// `value` for statement logging; every other setting is as before.
#[verifier::external_body]
fn set_sqlx_logging(options: &mut ConnectOptions, value: bool)
    ensures
        reported(*final(options)) == (Reported { sqlx_logging: value, ..reported(*old(options)) }),
{
    options.sqlx_logging(value);
}

/// Builds the driver's options from the service's: the connection string
/// first, then each setting in turn. The result gives out exactly what
/// `options` holds.
pub fn connect_options(options: &PoolOptions) -> (connect: ConnectOptions)
    ensures
        reported(connect) == handed_over(options@),
{
    let mut connect = new_options(options.url.clone());
    set_max_connections(&mut connect, options.max_connections);
    set_min_connections(&mut connect, options.min_connections);
    set_connect_timeout(&mut connect, options.connect_timeout_secs);
    set_idle_timeout(&mut connect, options.idle_timeout_secs);
    set_sqlx_logging(&mut connect, options.sqlx_logging);
    connect
}

} // verus!
