//! Laws: what the functions of the library promise together, stated over their contracts.

pub mod backend;
pub mod cache;
pub mod config;
pub mod eviction;
pub mod images;
pub mod life;
pub mod server;
pub mod service;
pub mod stream;
pub mod text;
pub mod tokens;
