//! Bootstrap for a small web service: configuration values, a shared runtime
//! context of resource handles, and the application lifecycle from `build`
//! (bind a listener, open the cache connection, assemble the context) to the
//! serving loop. The database pool is created lazily, the cache connection
//! eagerly; the liveness endpoint answers unconditionally.

pub mod address;
pub mod cache;
pub mod configuration;
pub mod db;
pub mod email_client;
pub mod secret;
pub mod startup;
