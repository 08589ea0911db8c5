//! The routing core of a host-based reverse proxy.
//!
//! A request is classified by its `Host` header against a base domain
//! ([`host`]). The base domain itself is the root site, which serves static
//! files ([`static_site`]); every other label is looked up in a fixed table
//! of backends ([`route`]). [`router::GW`] holds the configuration and makes
//! the decisions; [`laws`] states what holds of all of them.
//!
//! Nothing here opens a socket or a file: the caller reads the request,
//! performs what was decided, and hands back what it read. [`engine`] turns
//! a response into the header type of the proxy engine that sends it; it is
//! the one place where this crate rests on code it does not verify.

pub mod decimal;
pub mod engine;
pub mod error;
pub mod host;
pub mod laws;
pub mod route;
pub mod router;
pub mod static_site;
pub mod text;

pub use error::RouteError;
pub use route::{BackendAddress, RouteTable};
pub use router::{Decision, GW};
pub use static_site::{Header, StaticResponse};
