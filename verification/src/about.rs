//! Information about the library itself.

pub mod version;
