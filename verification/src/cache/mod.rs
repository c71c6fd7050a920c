//! Images in the cache: their keys, their entries, and the bookkeeping of the cache engines.

pub mod entry;
pub mod fs;
pub mod key;
pub mod rocks;
pub mod size;
