//! A minimal, extensible HTTP service framework fronting a read-oriented
//! relational data store.
//!
//! The crate centers on two subsystems:
//!
//! * the route-composition and error-observability layer: an [`server::ApiServer`]
//!   that registers handlers under a versioned path prefix and funnels every
//!   handler-raised error through a single structured-logging choke point; and
//! * the pooled-connection storage abstraction: a builder-configured connection
//!   pool exposed behind read-only and full capability interfaces.
//!
//! Everything that decides or computes — path composition, route lookup, the
//! error envelope, the observability rule, the server lifecycle — is verified
//! here. The surrounding process (socket listening, signal delivery, the actual
//! database driver) hands this crate plain values and acts on what it returns.

pub mod config;
pub mod db;
pub mod envelope;
pub mod error;
pub mod lifecycle;
pub mod middleware;
pub mod server;
