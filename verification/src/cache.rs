//! The cache side of startup. Unlike the database pool, the cache connection
//! is opened *eagerly*: a client is parsed from the URL and a managed
//! connection must stand before the shared context is assembled, and any
//! failure aborts the whole startup.

use crate::secret::SecretValue;
use crate::startup::StartupError;
use vstd::prelude::*;

verus! {

#[verifier::external_type_specification]
#[verifier::external_body]
pub struct ExClient(redis::Client);

#[verifier::external_type_specification]
#[verifier::external_body]
pub struct ExConnectionManager(redis::aio::ConnectionManager);

/// Whether the cache library accepts `url` as a well-formed connection URL.
pub uninterp spec fn valid_cache_url(url: Seq<char>) -> bool;

/// Relies on redis's `Client::open`: it only parses the URL — no connection is
/// attempted — and returns `Ok` exactly when the URL is well formed, which is
/// a fact of the URL text alone.
#[verifier::external_body]
fn client_open(url: &str) -> (r: Result<redis::Client, String>)
    ensures
        r is Ok <==> valid_cache_url(url@),
{
    match redis::Client::open(url) {
        Ok(client) => Ok(client),
        Err(e) => Err(format!("{e}")),
    }
}

/// Relies on redis's derived `Clone` for `ConnectionManager`: duplicates the
/// handle to the same managed connection.
#[verifier::external_body]
pub(crate) fn clone_connection_manager(
    manager: &redis::aio::ConnectionManager,
) -> redis::aio::ConnectionManager {
    manager.clone()
}

/// Opens the cache client from the secret-wrapped URL. This is the first
/// fallible startup step for the cache: it succeeds exactly on well-formed
/// URLs, and a failure is already the fatal cache startup error — nothing
/// downstream of it runs.
pub fn open_cache_client(url: &SecretValue) -> (r: Result<redis::Client, StartupError>)
    ensures
        r is Ok <==> valid_cache_url(url@),
        r is Err ==> r->Err_0 is Cache,
{
    match client_open(url.expose_secret()) {
        Ok(client) => Ok(client),
        Err(message) => Err(StartupError::Cache(message)),
    }
}

} // verus!
