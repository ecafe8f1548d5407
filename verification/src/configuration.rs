//! The configuration consumed by `build`: plain values for the listener, the
//! database, the mail client and the cache, with every secret wrapped.

use crate::db;
use crate::email_client::EmailClient;
use crate::secret::SecretValue;
use vstd::prelude::*;

verus! {

/// Settings for the listener and for the values the handlers share.
pub struct ApplicationSettings {
    pub host: String,
    pub port: u16,
    pub base_url: String,
    pub hmac_secret: SecretValue,
}

/// Settings the database pool is built from. The pool connects lazily, so
/// none of these are checked at startup.
pub struct DatabaseSettings {
    pub host: String,
    pub port: u16,
    pub username: String,
    pub password: SecretValue,
    pub database_name: String,
}

/// Settings the outbound-mail client is built from.
pub struct EmailClientSettings {
    pub base_url: String,
    pub sender_email: String,
    pub authorization_token: SecretValue,
}

/// Everything `build` consumes.
pub struct Settings {
    pub application: ApplicationSettings,
    pub database: DatabaseSettings,
    pub email_client: EmailClientSettings,
    pub redis_url: SecretValue,
}

impl DatabaseSettings {
    /// The driver's connection-options value for these settings. The options
    /// are an opaque handle of the driver; building them performs no I/O.
    pub fn connect_options(&self) -> sqlx::postgres::PgConnectOptions {
        let options = db::pg_options_new();
        let options = db::pg_options_host(options, self.host.as_str());
        let options = db::pg_options_port(options, self.port);
        let options = db::pg_options_username(options, self.username.as_str());
        let options = db::pg_options_password(options, self.password.expose_secret());
        db::pg_options_database(options, self.database_name.as_str())
    }
}

impl EmailClientSettings {
    /// Constructs the mail client from these settings, synchronously and
    /// without network I/O.
    pub fn client(&self) -> (c: EmailClient)
        ensures
            c.base_url_spec() == self.base_url@,
            c.sender_spec() == self.sender_email@,
            c.authorization_token_spec() == self.authorization_token@,
    {
        EmailClient::new(
            self.base_url.clone(),
            self.sender_email.clone(),
            self.authorization_token.clone(),
        )
    }
}

} // verus!
