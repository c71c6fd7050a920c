//! Decisions of the HTTP server.

pub mod acceptor;
pub mod chunked;
pub mod handler;
pub mod server;
pub mod service;
