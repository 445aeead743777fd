//! A memory handler that provides plain RAM.

use vstd::prelude::*;
use crate::pmmap::memory_handler::{
    access_within,
    any_satisfies,
    criteria_within,
    store_byte,
    AccessSize,
    AccessType,
    MatchCriteria,
    MemoryHandler,
};
use crate::state::State;

verus! {

/// The value of every byte of a [`Ram`] that has not been written yet.
/// It is not zero, so that a read of fresh memory stands out.
pub const RESET_CONTENTS: u8 = 0xA5;

/// What a [`Ram`] holds: the address of its first byte and its bytes.
pub struct RamView {
    pub start: u32,
    pub bytes: Seq<u8>,
}

impl RamView {
    /// The address just past the last byte.
    pub open spec fn end(self) -> int {
        self.start + self.bytes.len()
    }

    /// The three criteria a RAM publishes: fetches, reads and writes of any
    /// size, each over the whole region.
    pub open spec fn criteria(self) -> Seq<MatchCriteria> {
        seq![
            MatchCriteria::AddressRange(
                AccessType::Fetch,
                AccessSize::All,
                self.start,
                self.end() as u32,
            ),
            MatchCriteria::AddressRange(
                AccessType::Read,
                AccessSize::All,
                self.start,
                self.end() as u32,
            ),
            MatchCriteria::AddressRange(
                AccessType::Write,
                AccessSize::All,
                self.start,
                self.end() as u32,
            ),
        ]
    }

    /// The addresses of the region.
    pub open spec fn range(self) -> Set<u32> {
        Set::new(|addr: u32| self.start <= addr < self.end())
    }

    /// The bytes of the region by address.
    pub open spec fn contents(self) -> Map<u32, u8> {
        Map::new(
            |addr: u32| self.start <= addr < self.end(),
            |addr: u32| self.bytes[addr - self.start],
        )
    }

    /// A region is valid when it is not empty, ends within the address space
    /// and ends on a word boundary.
    pub open spec fn valid(self) -> bool {
        &&& self.bytes.len() > 0
        &&& self.end() <= u32::MAX
        &&& self.end() % 4 == 0
    }

    /// The criteria of a region claim an access exactly where its address
    /// lies in the region and it is a fetch, a read or a write.
    pub proof fn lemma_claims_its_range(
        self,
        addr: u32,
        access_type: AccessType,
        access_size: AccessSize,
    )
        requires
            self.valid(),
        ensures
            any_satisfies(self.criteria(), addr, access_type, access_size) <==> self.start <= addr
                < self.end() && access_type != AccessType::All,
    {
        let criteria = self.criteria();
        if self.start <= addr < self.end() && access_type != AccessType::All {
            let k = match access_type {
                AccessType::Fetch => 0int,
                AccessType::Read => 1int,
                _ => 2int,
            };
            assert(criteria[k].satisfies(addr, access_type, access_size));
        }
    }

    /// A fresh region holds the reset value in every byte.
    pub proof fn lemma_fresh_contents(self, addr: u32)
        requires
            self.valid(),
            self.bytes == Seq::new(self.bytes.len(), |i: int| RESET_CONTENTS),
            self.start <= addr < self.end(),
        ensures
            self.contents().contains_key(addr),
            self.contents()[addr] == RESET_CONTENTS,
    {
    }

    /// In a valid region no aligned access that the criteria claim reaches
    /// past the end.
    pub proof fn lemma_criteria_within(self)
        requires
            self.valid(),
        ensures
            criteria_within(self.criteria(), self.range()),
    {
        let criteria = self.criteria();
        let range = self.range();
        assert forall|k: int, addr: u32, access_type: AccessType, access_size: AccessSize|
            0 <= k < criteria.len() && access_size.aligned(addr) && (#[trigger] criteria[k].satisfies(
                addr,
                access_type,
                access_size,
            )) implies access_within(range, addr, access_size) by {
            assert(self.start <= addr < self.end());
            assert forall|offset: nat| offset < access_size.bytes() implies addr + offset
                <= u32::MAX && #[trigger] range.contains((addr + offset) as u32) by {
                assert(addr + offset < self.end());
            }
        }
    }
}

/// A contiguous, fixed-length region of byte-addressable memory.
pub struct Ram {
    start_addr: u32,
    backing_memory: Vec<u8>,
    match_criteria: Vec<MatchCriteria>,
}

impl View for Ram {
    type V = RamView;

    closed spec fn view(&self) -> RamView {
        RamView { start: self.start_addr, bytes: self.backing_memory@ }
    }
}

impl Ram {
    #[verifier::type_invariant]
    spec fn well_formed(&self) -> bool {
        &&& self@.valid()
        &&& self.match_criteria@ == self@.criteria()
    }

    /// A RAM of `size` bytes from `start_addr` on, every byte holding
    /// [`RESET_CONTENTS`]. The region must not be empty, must end within the
    /// 32-bit address space and must end on a word boundary.
    pub fn new(start_addr: u32, size: u32) -> (ram: Ram)
        requires
            size > 0,
            start_addr + size <= u32::MAX,
            (start_addr + size) % 4 == 0,
        ensures
            ram@.start == start_addr,
            ram@.bytes == Seq::new(size as nat, |i: int| RESET_CONTENTS),
            ram@.valid(),
    {
        let end_addr: u32 = start_addr + size;
        let backing_memory: Vec<u8> = vec![RESET_CONTENTS; size as usize];
        assert(backing_memory@ =~= Seq::new(size as nat, |i: int| RESET_CONTENTS));
        let mut match_criteria: Vec<MatchCriteria> = Vec::new();
        match_criteria.push(
            MatchCriteria::AddressRange(AccessType::Fetch, AccessSize::All, start_addr, end_addr),
        );
        match_criteria.push(
            MatchCriteria::AddressRange(AccessType::Read, AccessSize::All, start_addr, end_addr),
        );
        match_criteria.push(
            MatchCriteria::AddressRange(AccessType::Write, AccessSize::All, start_addr, end_addr),
        );
        let ghost view = RamView { start: start_addr, bytes: backing_memory@ };
        assert(match_criteria@ =~= view.criteria());
        Ram { start_addr, backing_memory, match_criteria }
    }

    /// The address just past the last byte of the region.
    pub fn end_addr(&self) -> (end: u32)
        ensures
            end == self@.end(),
    {
        proof {
            use_type_invariant(self);
        }
        self.start_addr + (self.backing_memory.len() as u32)
    }
}

impl MemoryHandler for Ram {
    open spec fn criteria(&self) -> Seq<MatchCriteria> {
        self@.criteria()
    }

    open spec fn range(&self) -> Set<u32> {
        self@.range()
    }

    open spec fn contents(&self) -> Map<u32, u8> {
        self@.contents()
    }

    fn get_match_criteria(&self) -> (criteria: Vec<MatchCriteria>) {
        proof {
            use_type_invariant(self);
            self@.lemma_criteria_within();
        }
        let criteria = self.match_criteria.clone();
        assert(criteria@ =~= self.match_criteria@);
        criteria
    }

    /// Reads the byte at `addr`, which must lie in the region. The RAM does
    /// not change.
    fn read_byte(&mut self, state: &mut State, addr: u32) -> (data: u8)
        ensures
            data == old(self)@.bytes[addr - old(self)@.start],
            final(self)@ == old(self)@,
    {
        proof {
            use_type_invariant(&*self);
        }
        self.backing_memory[(addr - self.start_addr) as usize]
    }

    /// Replaces the byte at `addr`, which must lie in the region. No other
    /// byte changes.
    fn write_byte(&mut self, state: &mut State, addr: u32, data: u8)
        ensures
            final(self)@.start == old(self)@.start,
            final(self)@.bytes == old(self)@.bytes.update(addr - old(self)@.start, data),
    {
        proof {
            use_type_invariant(&*self);
        }
        let index: usize = (addr - self.start_addr) as usize;
        self.backing_memory[index] = data;
        assert(self@.contents() =~= store_byte(old(self)@.contents(), addr, data));
        assert(self@.range() =~= old(self)@.range());
    }
}

} // verus!
