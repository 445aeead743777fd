//! The contract between the emulator and the units that give instructions
//! their meaning.

use vstd::prelude::*;
use crate::decode::MajorOpcode;
use crate::fetch::RawInstruction;
use crate::pmmap::PhysicalMemoryMap;
use crate::state::{State, StateView};

verus! {

/// The semantics of all instructions of one major opcode.
///
/// A handler is consumed when it is registered; one that has to talk to the
/// code that made it can hold the sending end of a channel.
pub trait InstructionHandler: Send {
    /// The major opcode this handler answers for. A verified handler states
    /// it here; for any other it is left open.
    open spec fn opcode(&self) -> MajorOpcode {
        arbitrary()
    }

    /// Whether `instruction` is an encoding that this handler executes. An
    /// encoding that is architecturally invalid for the major opcode is not.
    /// A verified handler states it here; for any other it is left open.
    open spec fn legal(&self, instruction: RawInstruction) -> bool {
        arbitrary()
    }

    /// The meaning this handler gives to the legal encoding `instruction`:
    /// whether executing it may take the machine from `before` to `after` and
    /// the memory map from `memory_before` to `memory_after`. A handler that
    /// does not say what its instructions mean may do anything.
    open spec fn handled(
        &self,
        instruction: RawInstruction,
        before: StateView,
        after: StateView,
        memory_before: &PhysicalMemoryMap,
        memory_after: &PhysicalMemoryMap,
    ) -> bool {
        true
    }

    /// The major opcode this handler answers for.
    fn get_major_opcode_handled(&self) -> (opcode: MajorOpcode)
        ensures
            opcode == self.opcode(),
    ;

    /// Whether `instruction`, a 32-bit encoding, is one that this handler
    /// executes.
    fn is_legal(&self, instruction: RawInstruction) -> (legal: bool)
        requires
            instruction is Regular,
        ensures
            legal == self.legal(instruction),
    ;

    /// Executes `instruction`, a 32-bit encoding that is legal for this
    /// handler, on the machine. Counting the instruction as retired is the
    /// caller's business: a handler leaves the retirement counter alone.
    fn handle(&self, state: &mut State, pmmap: &mut PhysicalMemoryMap, instruction: RawInstruction)
        requires
            instruction is Regular,
            self.legal(instruction),
        ensures
            self.handled(instruction, old(state)@, final(state)@, old(pmmap), final(pmmap)),
            final(state)@.retired == old(state)@.retired,
    ;
}

} // verus!
