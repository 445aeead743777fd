//! Instruction fetch: reads the bytes at the program counter and tells a
//! 32-bit encoding from a 16-bit one.

use vstd::prelude::*;
use crate::pmmap::memory_handler::{AccessSize, AccessType};
use crate::pmmap::PhysicalMemoryMap;
use crate::state::State;

verus! {

/// What a fetch brings back.
#[derive(Debug, Clone, Copy, PartialEq, Eq, Structural)]
pub enum RawInstruction {
    /// A 32-bit encoding.
    Regular(u32),
    /// A 16-bit encoding of the reduced instruction set.
    Compressed(u16),
    /// The program counter was not 2-byte aligned.
    Unaligned,
    /// An access fault occurred while fetching.
    Fault,
}

/// Whether `first`, the halfword at the program counter, begins a 32-bit
/// encoding: its two lowest bits are both set.
pub open spec fn begins_regular(first: u16) -> bool {
    first & 0b11 == 0b11
}

/// The instruction that a fetch yields from the halfwords it read: `first`
/// at the program counter and `second` right after it, each absent where the
/// read failed. `second` counts only where `first` begins a 32-bit encoding.
pub open spec fn assemble(first: Option<u16>, second: Option<u16>) -> RawInstruction {
    match first {
        None => RawInstruction::Fault,
        Some(lo) => if begins_regular(lo) {
            match second {
                None => RawInstruction::Fault,
                Some(hi) => RawInstruction::Regular(((hi as u32) << 16) | (lo as u32)),
            }
        } else {
            RawInstruction::Compressed(lo)
        },
    }
}

/// A halfword that a read returned, or none, the way the memory map
/// remembers it.
pub open spec fn widened(value: Option<u16>) -> Option<u32> {
    match value {
        Some(data) => Some(data as u32),
        None => None,
    }
}

/// What a fetch at an aligned `pc` does to the memory map, from `pre` to
/// `post`, and which instruction it returns.
///
/// It reads the halfword at `pc`. Only where that halfword begins a 32-bit
/// encoding does it read a second halfword, at `pc + 2` modulo 2^32. It makes
/// no other access. The instruction is assembled from what the reads
/// returned.
pub open spec fn fetched(
    pre: &PhysicalMemoryMap,
    post: &PhysicalMemoryMap,
    pc: u32,
    instruction: RawInstruction,
) -> bool {
    exists|first: Option<u16>, second: Option<u16>, between: PhysicalMemoryMap|
        #![trigger pre.accessed(&between, AccessType::Read, AccessSize::Halfword, pc, widened(first)), widened(second)]
        {
            &&& pre.accessed(
                &between,
                AccessType::Read,
                AccessSize::Halfword,
                pc,
                widened(first),
            )
            &&& if first is Some && begins_regular(first->0) {
                between.accessed(
                    post,
                    AccessType::Read,
                    AccessSize::Halfword,
                    pc.wrapping_add(2),
                    widened(second),
                )
            } else {
                second is None && *post == between
            }
            &&& instruction == assemble(first, second)
        }
}

/// A fetch appends to the history of the memory map the one or two halfword
/// reads it made, and nothing else.
pub proof fn lemma_fetched_history(
    pre: &PhysicalMemoryMap,
    post: &PhysicalMemoryMap,
    pc: u32,
    instruction: RawInstruction,
)
    requires
        fetched(pre, post, pc, instruction),
    ensures
        instruction is Compressed ==> post.history().len() == pre.history().len() + 1,
        instruction is Regular ==> post.history().len() == pre.history().len() + 2,
        post.history().len() == pre.history().len() + 1 || post.history().len()
            == pre.history().len() + 2,
        forall|i: int|
            pre.history().len() <= i < post.history().len() ==> {
                &&& (#[trigger] post.history()[i]).access_type == AccessType::Read
                &&& post.history()[i].access_size == AccessSize::Halfword
            },
        post.history().take(pre.history().len() as int) == pre.history(),
        post.history()[pre.history().len() as int].addr == pc,
        post.history().len() == pre.history().len() + 2 ==> post.history().last().addr
            == pc.wrapping_add(2),
{
    let (first, second, between) = choose|
        first: Option<u16>,
        second: Option<u16>,
        between: PhysicalMemoryMap,
    |
        #![trigger pre.accessed(&between, AccessType::Read, AccessSize::Halfword, pc, widened(first)), widened(second)]
        {
            &&& pre.accessed(
                &between,
                AccessType::Read,
                AccessSize::Halfword,
                pc,
                widened(first),
            )
            &&& if first is Some && begins_regular(first->0) {
                between.accessed(
                    post,
                    AccessType::Read,
                    AccessSize::Halfword,
                    pc.wrapping_add(2),
                    widened(second),
                )
            } else {
                second is None && *post == between
            }
            &&& instruction == assemble(first, second)
        };
    assert(post.history().take(pre.history().len() as int) =~= pre.history());
}

/// Fetches the instruction at the program counter.
///
/// An odd program counter yields `Unaligned` and no memory access at all.
/// Otherwise the fetch makes one halfword read, or two for a 32-bit encoding,
/// and yields `Fault` where a read fails, `Regular` with the two halfwords
/// composed in little-endian order, or `Compressed` with the first halfword
/// alone. No read changes what a handler claims, serves or holds as plain
/// memory, and the machine state stays as it is.
pub fn fetch_raw(state: &mut State, pmmap: &mut PhysicalMemoryMap) -> (instruction: RawInstruction)
    ensures
        old(state)@.pc % 2 != 0 ==> instruction == RawInstruction::Unaligned && *final(pmmap)
            == *old(pmmap),
        old(state)@.pc % 2 == 0 ==> fetched(old(pmmap), final(pmmap), old(state)@.pc, instruction),
        final(pmmap).handlers().len() == old(pmmap).handlers().len(),
        forall|i: int|
            0 <= i < old(pmmap).handlers().len() ==> {
                &&& (#[trigger] final(pmmap).handlers()[i]).criteria() == old(pmmap).handlers()[i].criteria()
                &&& final(pmmap).handlers()[i].range() == old(pmmap).handlers()[i].range()
                &&& final(pmmap).handlers()[i].contents() == old(pmmap).handlers()[i].contents()
            },
        final(state)@ == old(state)@,
{
    let pc: u32 = state.pc();
    if pc % 2 != 0 {
        return RawInstruction::Unaligned;
    }
    let ghost before = *pmmap;
    let first: u16 = match pmmap.read_halfword(state, pc) {
        Ok(halfword) => halfword,
        Err(_) => {
            assert(before.accessed(
                pmmap,
                AccessType::Read,
                AccessSize::Halfword,
                pc,
                widened(None),
            ) && widened(None) is None);
            return RawInstruction::Fault;
        },
    };
    let ghost between = *pmmap;
    assert(before.accessed(
        &between,
        AccessType::Read,
        AccessSize::Halfword,
        pc,
        widened(Some(first)),
    ));
    proof {
        before.lemma_accessed_keeps_routes(
            &between,
            AccessType::Read,
            AccessSize::Halfword,
            pc,
            Some(first as u32),
        );
    }
    if (first & 0b11) == 0b11 {
        match pmmap.read_halfword(state, pc.wrapping_add(2)) {
            Ok(second) => {
                let word: u32 = ((second as u32) << 16) | (first as u32);
                assert(widened(Some(second)) == Some(second as u32));
                RawInstruction::Regular(word)
            },
            Err(_) => {
                assert(widened(None::<u16>) is None);
                RawInstruction::Fault
            },
        }
    } else {
        assert(widened(None::<u16>) is None);
        RawInstruction::Compressed(first)
    }
}

} // verus!
