//! Handlers for the standard instruction set extensions.

pub mod i;
