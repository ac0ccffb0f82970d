//! The request-handling core of a small notes service: pagination of the
//! note listing, translation of database outcomes into HTTP replies, the
//! liveness of the shared connection, and the wrappers around each handler.

pub mod connection;
pub mod decimal;
pub mod http;
pub mod listing;
pub mod middleware;
pub mod migrations;
pub mod note;
pub mod query;
pub mod startup;
