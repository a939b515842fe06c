//! Event-streaming core of an Asterisk REST Interface (ARI) client.
//!
//! The library decodes the JSON event feed into typed events, routes events to
//! registered handlers by kind, and decides every step of the connection
//! supervisor (keepalive, reconnect with backoff, cancellation). The socket and
//! the timers themselves are driven by the caller. The same schema readers
//! decode the resources that the REST interface returns.
pub mod asterisk;
pub mod bridges;
pub mod channels;
pub mod config;
pub mod connection;
pub mod device_stats;
pub mod endpoints;
pub mod events;
pub mod json;
pub mod mailboxes;
pub mod playbacks;
pub mod recordings;
pub mod registry;
pub mod schema;
pub mod sounds;
pub mod time;
