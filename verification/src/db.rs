//! The database side of startup. The pool is *lazy*: no connection is
//! attempted while `build` runs, so bad database settings surface only when a
//! query is first issued. The settings-to-options conversion is verified
//! here; creating the pool itself hands its maintenance task to the ambient
//! async runtime — and the driver panics without one — so that one step is
//! performed beside the runtime, outside this crate, and the ready pool is
//! passed in. The driver's option type is an opaque handle behind a trusted
//! declaration; `sqlx::Pool` itself cannot be declared here (its generic
//! parameter is bound by the driver's `Database` trait), so the pool is held
//! inside an opaque struct of this crate instead.

use vstd::prelude::*;

verus! {

#[verifier::external_type_specification]
#[verifier::external_body]
pub struct ExPgConnectOptions(sqlx::postgres::PgConnectOptions);

/// An opaque handle to the lazily-connecting database pool.
#[verifier::external_body]
pub struct DbPool {
    pub pool: sqlx::PgPool,
}

/// Relies on sqlx's `PgConnectOptions::new`: default connection options read
/// from the process environment and from the password file it may name.
#[verifier::external_body]
pub(crate) fn pg_options_new() -> sqlx::postgres::PgConnectOptions {
    sqlx::postgres::PgConnectOptions::new()
}

/// Relies on sqlx's `PgConnectOptions::host`: records the host to connect to.
#[verifier::external_body]
pub(crate) fn pg_options_host(
    options: sqlx::postgres::PgConnectOptions,
    host: &str,
) -> sqlx::postgres::PgConnectOptions {
    options.host(host)
}

/// Relies on sqlx's `PgConnectOptions::port`: records the port to connect to.
#[verifier::external_body]
pub(crate) fn pg_options_port(
    options: sqlx::postgres::PgConnectOptions,
    port: u16,
) -> sqlx::postgres::PgConnectOptions {
    options.port(port)
}

/// Relies on sqlx's `PgConnectOptions::username`: records the user to connect
/// as.
#[verifier::external_body]
pub(crate) fn pg_options_username(
    options: sqlx::postgres::PgConnectOptions,
    username: &str,
) -> sqlx::postgres::PgConnectOptions {
    options.username(username)
}

/// Relies on sqlx's `PgConnectOptions::password`: records the password to use.
#[verifier::external_body]
pub(crate) fn pg_options_password(
    options: sqlx::postgres::PgConnectOptions,
    password: &str,
) -> sqlx::postgres::PgConnectOptions {
    options.password(password)
}

/// Relies on sqlx's `PgConnectOptions::database`: records the database to open.
#[verifier::external_body]
pub(crate) fn pg_options_database(
    options: sqlx::postgres::PgConnectOptions,
    database: &str,
) -> sqlx::postgres::PgConnectOptions {
    options.database(database)
}

/// Relies on sqlx's `Clone` for `Pool`: duplicates the handle to the same
/// underlying pool (a reference-count bump, no deep copy).
#[verifier::external_body]
pub(crate) fn clone_pool(pool: &DbPool) -> DbPool {
    DbPool { pool: pool.pool.clone() }
}

} // verus!
