//! An extensible instruction-level emulator for a RISC-V-like processor.
//!
//! The crate is built from small parts, each with its contract: the
//! architectural [`state::State`], the physical memory map that routes every
//! access to a pluggable memory handler, instruction fetch, the decoder that
//! maps major opcodes to pluggable instruction handlers, the reference
//! handlers of the base integer instruction set, the log that execution
//! writes to, and the [`Instance`] that owns all of it and drives the cycle of
//! fetch, decode, execute and retire.

pub mod about;
pub mod decode;
pub mod fetch;
pub mod instance;
pub mod instruction_handler;
pub mod logging;
pub mod pmmap;
pub mod standard_extensions;
pub mod state;

pub use instance::Instance;
pub use logging::LogLevel;
pub use logging::LogReciever;
