//! A verified core for a multi-mode publish/subscribe event loop.
//!
//! The native dispatch facility is driven from outside this crate; what is
//! decided here is how its status codes are read, how loop configurations
//! become creation arguments, and the bookkeeping that keeps native loops and
//! registrations alive exactly as long as something refers to them.
pub mod status;
pub mod config;
pub mod registry;
pub mod laws;
pub mod post_data;
