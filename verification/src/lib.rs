//! A greeting service: two routes that answer with a line of text.
//!
//! `GET /` greets the world and `GET /hello/<name>` greets whoever the path
//! names. A service can be configured to add the machine's host name to every
//! greeting. The crate holds the decisions of the service (which request gets
//! which answer) as verified functions on plain values; binding a socket and
//! speaking HTTP is left to whatever runtime the service is mounted on.

pub mod greeting;
pub mod host;
pub mod route;
pub mod service;

pub use greeting::{hello, index};
pub use host::{resolve_host, ServeError};
pub use route::{Handler, Method, Route};
pub use service::{rocket, Request, Response, Service};
