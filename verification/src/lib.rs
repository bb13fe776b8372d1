//! Client core for the Firefox Relay email-aliasing service.
//!
//! The library plans authenticated REST requests (create, list, delete,
//! enable/disable an alias; fetch account profiles), resolves which of the
//! two sub-resources — standard relay addresses or custom domain relay
//! addresses — an alias id belongs to, and interprets response outcomes.
//! Network transport, JSON serialization and the command-line front end
//! live outside the library and exchange plain values with it.

pub mod api;
pub mod cli;
pub mod error;
pub mod strutil;
pub mod types;
