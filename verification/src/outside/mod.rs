//! Outside functions that the library calls, with what is taken for granted of each.

pub mod buffers;
pub mod clock;
pub mod pem;
pub mod sodium;
pub mod text;
pub mod web;
