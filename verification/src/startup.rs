//! The application lifecycle: the shared runtime context (`AppState`), the
//! staged startup that `build` performs, and the bound, runnable
//! `Application`. The stages are separate types so their order is fixed by
//! the signatures: prepare (infallible) → bind → open the cache connection →
//! assemble the context → package the application. The serving loop itself,
//! the listener bind and the cache connect are asynchronous work of the
//! surrounding runtime; this module decides, assembles and records.

use crate::address::{bind_address, bind_address_spec};
use crate::cache;
use crate::configuration::Settings;
use crate::db;
use crate::db::DbPool;
use crate::email_client::EmailClient;
use crate::secret::SecretValue;
use vstd::prelude::*;

verus! {

#[verifier::external_type_specification]
#[verifier::external_body]
#[verifier::reject_recursive_types(S)]
pub struct ExRouter<S>(axum::Router<S>);

#[verifier::external_type_specification]
#[verifier::external_body]
pub struct ExTcpListener(tokio::net::TcpListener);

/// Why startup aborted. Database settings never appear here: the pool is
/// lazy, so they cannot fail `build`.
#[derive(Debug)]
pub enum StartupError {
    /// The bind address was malformed or the port unavailable.
    Bind(String),
    /// The cache URL was rejected or the cache connection could not be
    /// established.
    Cache(String),
}

impl StartupError {
    /// The message carried by either variant.
    pub open spec fn detail_spec(&self) -> Seq<char> {
        match self {
            StartupError::Bind(m) => m@,
            StartupError::Cache(m) => m@,
        }
    }

    pub fn detail(&self) -> (m: &str)
        ensures
            m@ == self.detail_spec(),
    {
        match self {
            StartupError::Bind(m) => m.as_str(),
            StartupError::Cache(m) => m.as_str(),
        }
    }
}

/// This service's externally reachable origin, as distinct from an arbitrary
/// string.
pub struct ApplicationBaseUrl(pub String);

impl Clone for ApplicationBaseUrl {
    fn clone(&self) -> (r: Self)
        ensures
            r.0@ == self.0@,
    {
        ApplicationBaseUrl(self.0.clone())
    }
}

/// The HMAC key material, kept behind the secret wrapper.
pub struct HmacSecret(pub SecretValue);

impl Clone for HmacSecret {
    fn clone(&self) -> (r: Self)
        ensures
            r.0@ == self.0@,
    {
        HmacSecret(self.0.clone())
    }
}

/// The shared runtime context: every handle a request handler may need,
/// assembled once, never mutated afterwards, duplicated per handler. No
/// method takes `&mut self`; duplication is `Clone`, which copies handles,
/// not resources.
pub struct AppState {
    pub db_pool: DbPool,
    pub redis: redis::aio::ConnectionManager,
    pub email_client: EmailClient,
    pub base_url: ApplicationBaseUrl,
    pub hmac_secret: HmacSecret,
}

impl Clone for AppState {
    fn clone(&self) -> (r: Self)
        ensures
            r.base_url.0@ == self.base_url.0@,
            r.hmac_secret.0@ == self.hmac_secret.0@,
            r.email_client.base_url_spec() == self.email_client.base_url_spec(),
            r.email_client.sender_spec() == self.email_client.sender_spec(),
            r.email_client.authorization_token_spec()
                == self.email_client.authorization_token_spec(),
    {
        AppState {
            db_pool: db::clone_pool(&self.db_pool),
            redis: cache::clone_connection_manager(&self.redis),
            email_client: self.email_client.clone(),
            base_url: self.base_url.clone(),
            hmac_secret: self.hmac_secret.clone(),
        }
    }
}

/// Everything `build` prepares before any network step: the lazy pool, the
/// mail client, the bind address, and the values carried into the context.
/// There is no error path here — in particular, unreachable database
/// settings cannot abort startup.
pub struct StartupPlan {
    pub db_pool: DbPool,
    pub email_client: EmailClient,
    pub address: String,
    pub base_url: String,
    pub hmac_secret: SecretValue,
    pub redis_url: SecretValue,
}

/// The first, infallible stage of `build`: takes the lazily-connecting pool
/// (created beside the runtime, with no connection attempt, so no database
/// setting was checked), constructs the mail client, and derives the exact
/// `"{host}:{port}"` address the listener will be asked to bind.
pub fn prepare_startup(configuration: Settings, db_pool: DbPool) -> (plan: StartupPlan)
    ensures
        plan.db_pool == db_pool,
        plan.address@ == bind_address_spec(
            configuration.application.host@,
            configuration.application.port,
        ),
        plan.base_url@ == configuration.application.base_url@,
        plan.hmac_secret@ == configuration.application.hmac_secret@,
        plan.redis_url@ == configuration.redis_url@,
        plan.email_client.base_url_spec() == configuration.email_client.base_url@,
        plan.email_client.sender_spec() == configuration.email_client.sender_email@,
        plan.email_client.authorization_token_spec()
            == configuration.email_client.authorization_token@,
{
    let email_client = configuration.email_client.client();
    let address = bind_address(
        configuration.application.host.as_str(),
        configuration.application.port,
    );
    StartupPlan {
        db_pool,
        email_client,
        address,
        base_url: configuration.application.base_url,
        hmac_secret: configuration.application.hmac_secret,
        redis_url: configuration.redis_url,
    }
}

impl AppState {
    /// Assembles the shared context, and only once every resource stands
    /// ready: the plan's handles plus the eagerly established cache
    /// connection. A context either holds all of its handles or is never
    /// created — there is no partial context.
    pub fn assemble(plan: StartupPlan, redis: redis::aio::ConnectionManager) -> (state: AppState)
        ensures
            state.redis == redis,
            state.db_pool == plan.db_pool,
            state.base_url.0@ == plan.base_url@,
            state.hmac_secret.0@ == plan.hmac_secret@,
            state.email_client == plan.email_client,
    {
        AppState {
            db_pool: plan.db_pool,
            redis,
            email_client: plan.email_client,
            base_url: ApplicationBaseUrl(plan.base_url),
            hmac_secret: HmacSecret(plan.hmac_secret),
        }
    }
}

/// A bound, runnable server instance: the recorded port is the one the
/// listener actually holds (the configuration may have requested port 0 and
/// received an ephemeral one), and the router and open listener travel with
/// it.
pub struct Application {
    port: u16,
    router: axum::Router,
    listener: tokio::net::TcpListener,
}

impl Application {
    /// The port recorded at bind time.
    pub closed spec fn port_spec(&self) -> u16 {
        self.port
    }

    /// The router the application will serve.
    pub closed spec fn router_spec(&self) -> axum::Router {
        self.router
    }

    /// The open listener the application will serve on.
    pub closed spec fn listener_spec(&self) -> tokio::net::TcpListener {
        self.listener
    }

    /// Packages the outcome of a successful startup. `port` must be the port
    /// read back from the bound listener, not the requested one.
    pub fn new(port: u16, router: axum::Router, listener: tokio::net::TcpListener) -> (app: Self)
        ensures
            app.port_spec() == port,
            app.router_spec() == router,
            app.listener_spec() == listener,
    {
        Application { port, router, listener }
    }

    pub fn port(&self) -> (p: u16)
        ensures
            p == self.port_spec(),
    {
        self.port
    }

    /// Hands the open listener and the router to the serving loop, consuming
    /// the application: a built instance can enter the serving loop at most
    /// once, so one listener is never served twice. What is served is exactly
    /// what was packaged at build time.
    pub fn into_serve_parts(self) -> (parts: (tokio::net::TcpListener, axum::Router))
        ensures
            parts.0 == self.listener_spec(),
            parts.1 == self.router_spec(),
    {
        (self.listener, self.router)
    }
}

/// The liveness decision: report plain success, unconditionally. It consults
/// no state at all — neither database, cache nor mail client — so it proves
/// only that the process answers, and repeated calls, in any interleaving,
/// all answer alike.
pub fn health_check() -> (status: u16)
    ensures
        status == 200,
{
    200
}

} // verus!
