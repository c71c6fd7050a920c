//! Decision logic of an image cache node: request tokens, cache bookkeeping, upstream fetching
//! and the exchange with the coordinating backend.

pub mod backend;
pub mod cache;
pub mod config;
pub mod http;
pub mod laws;
pub mod lifecycle;
pub mod outside;
pub mod run;
pub mod text;
pub mod tokens;
pub mod utils;
