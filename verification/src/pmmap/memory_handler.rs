//! The contract between the physical memory map and the handlers it routes to.

use vstd::prelude::*;
use crate::state::State;

verus! {

/// What an access is for. `All` is a wildcard for match criteria; a request
/// always names one of the other three.
#[derive(Debug, Clone, Copy, PartialEq, Eq, Structural)]
pub enum AccessType {
    All,
    Fetch,
    Read,
    Write,
}

/// How many bytes an access touches. `All` is a wildcard for match criteria; a
/// request always names one of the other three.
#[derive(Debug, Clone, Copy, PartialEq, Eq, Structural)]
pub enum AccessSize {
    All,
    Byte,
    Halfword,
    Word,
}

/// A predicate over accesses that a handler publishes to claim them.
/// The end of an `AddressRange` is exclusive.
#[derive(Debug, Clone, Copy, PartialEq, Eq, Structural)]
pub enum MatchCriteria {
    Always(AccessType, AccessSize),
    SingleAddress(AccessType, AccessSize, u32),
    AddressRange(AccessType, AccessSize, u32, u32),
    Never,
}

impl AccessType {
    /// Whether a criterion of type `self` admits a request of type `other`.
    pub open spec fn spec_satisfies(&self, other: &AccessType) -> bool {
        *self == AccessType::All || *self == *other
    }

    /// Whether a criterion of type `self` admits a request of type `other`:
    /// the wildcard admits everything, any other type admits only itself.
    #[verifier::when_used_as_spec(spec_satisfies)]
    pub fn satisfies(&self, other: &AccessType) -> (admitted: bool)
        ensures
            admitted == self.spec_satisfies(other),
    {
        match (self, other) {
            (AccessType::All, _) => true,
            (AccessType::Fetch, AccessType::Fetch) => true,
            (AccessType::Read, AccessType::Read) => true,
            (AccessType::Write, AccessType::Write) => true,
            _ => false,
        }
    }
}

impl AccessSize {
    /// Whether a criterion of size `self` admits a request of size `other`.
    pub open spec fn spec_satisfies(&self, other: &AccessSize) -> bool {
        *self == AccessSize::All || *self == *other
    }

    /// Whether a criterion of size `self` admits a request of size `other`:
    /// the wildcard admits everything, any other size admits only itself.
    #[verifier::when_used_as_spec(spec_satisfies)]
    pub fn satisfies(&self, other: &AccessSize) -> (admitted: bool)
        ensures
            admitted == self.spec_satisfies(other),
    {
        match (self, other) {
            (AccessSize::All, _) => true,
            (AccessSize::Byte, AccessSize::Byte) => true,
            (AccessSize::Halfword, AccessSize::Halfword) => true,
            (AccessSize::Word, AccessSize::Word) => true,
            _ => false,
        }
    }

    /// The number of bytes a request of this size touches, and the alignment
    /// it needs. The wildcard is no request and touches nothing.
    pub open spec fn bytes(self) -> nat {
        match self {
            AccessSize::All => 0,
            AccessSize::Byte => 1,
            AccessSize::Halfword => 2,
            AccessSize::Word => 4,
        }
    }

    /// Whether `addr` is naturally aligned for a request of this size.
    pub open spec fn aligned(self, addr: u32) -> bool {
        match self {
            AccessSize::All => false,
            AccessSize::Byte => true,
            AccessSize::Halfword => addr % 2 == 0,
            AccessSize::Word => addr % 4 == 0,
        }
    }
}

impl MatchCriteria {
    /// Whether this criterion claims the request `(addr, access_type, access_size)`.
    pub open spec fn spec_satisfies(
        &self,
        addr: u32,
        access_type: AccessType,
        access_size: AccessSize,
    ) -> bool {
        match *self {
            MatchCriteria::Always(t, s) => t.satisfies(&access_type) && s.satisfies(&access_size),
            MatchCriteria::SingleAddress(t, s, a) => t.satisfies(&access_type) && s.satisfies(
                &access_size,
            ) && addr == a,
            MatchCriteria::AddressRange(t, s, start, end) => t.satisfies(&access_type)
                && s.satisfies(&access_size) && start <= addr < end,
            MatchCriteria::Never => false,
        }
    }

    /// Whether this criterion claims the request `(addr, access_type, access_size)`.
    #[verifier::when_used_as_spec(spec_satisfies)]
    pub fn satisfies(&self, addr: u32, access_type: AccessType, access_size: AccessSize) -> (claimed:
        bool)
        ensures
            claimed == self.spec_satisfies(addr, access_type, access_size),
    {
        match self {
            MatchCriteria::Always(match_access_type, match_access_size) => {
                match_access_type.satisfies(&access_type) && match_access_size.satisfies(
                    &access_size,
                )
            },
            MatchCriteria::SingleAddress(match_access_type, match_access_size, match_addr) => {
                match_access_type.satisfies(&access_type) && match_access_size.satisfies(
                    &access_size,
                ) && addr == *match_addr
            },
            MatchCriteria::AddressRange(
                match_access_type,
                match_access_size,
                match_start_addr,
                match_end_addr,
            ) => {
                match_access_type.satisfies(&access_type) && match_access_size.satisfies(
                    &access_size,
                ) && addr >= *match_start_addr && addr < *match_end_addr
            },
            MatchCriteria::Never => false,
        }
    }
}

/// Whether one of `criteria` claims the request.
pub open spec fn any_satisfies(
    criteria: Seq<MatchCriteria>,
    addr: u32,
    access_type: AccessType,
    access_size: AccessSize,
) -> bool {
    exists|k: int|
        0 <= k < criteria.len() && (#[trigger] criteria[k]).satisfies(addr, access_type, access_size)
}

/// Whether every byte of a request of `access_size` at `addr` lies in `range`.
pub open spec fn access_within(range: Set<u32>, addr: u32, access_size: AccessSize) -> bool {
    forall|offset: nat|
        offset < access_size.bytes() ==> addr + offset <= u32::MAX && #[trigger] range.contains(
            (addr + offset) as u32,
        )
}

/// The invariant that routing relies on: every aligned request that one of
/// `criteria` claims lies wholly within `range`, so that no access straddles
/// the edge of what its handler can serve.
pub open spec fn criteria_within(criteria: Seq<MatchCriteria>, range: Set<u32>) -> bool {
    forall|k: int, addr: u32, access_type: AccessType, access_size: AccessSize|
        0 <= k < criteria.len() && access_size.aligned(addr) && (#[trigger] criteria[k].satisfies(
            addr,
            access_type,
            access_size,
        )) ==> access_within(range, addr, access_size)
}

/// Little-endian composition of two bytes.
pub open spec fn halfword_from_bytes(b0: u8, b1: u8) -> u16 {
    (b0 as u16) | ((b1 as u16) << 8)
}

/// Little-endian composition of four bytes.
pub open spec fn word_from_bytes(b0: u8, b1: u8, b2: u8, b3: u8) -> u32 {
    (b0 as u32) | ((b1 as u32) << 8) | ((b2 as u32) << 16) | ((b3 as u32) << 24)
}

/// The halfword that `contents` holds at `addr`, least significant byte first.
pub open spec fn halfword_at(contents: Map<u32, u8>, addr: u32) -> u16 {
    halfword_from_bytes(contents[addr], contents[(addr + 1) as u32])
}

/// The word that `contents` holds at `addr`, least significant byte first.
pub open spec fn word_at(contents: Map<u32, u8>, addr: u32) -> u32 {
    word_from_bytes(
        contents[addr],
        contents[(addr + 1) as u32],
        contents[(addr + 2) as u32],
        contents[(addr + 3) as u32],
    )
}

/// Whether `contents` holds all `count` bytes from `addr` on.
pub open spec fn holds_bytes(contents: Map<u32, u8>, addr: u32, count: nat) -> bool {
    forall|offset: nat|
        offset < count ==> addr + offset <= u32::MAX && #[trigger] contents.contains_key(
            (addr + offset) as u32,
        )
}

/// `contents` after a byte write: the byte at `addr` is replaced where
/// `contents` holds one, and nothing changes where it holds none.
pub open spec fn store_byte(contents: Map<u32, u8>, addr: u32, data: u8) -> Map<u32, u8> {
    if contents.contains_key(addr) {
        contents.insert(addr, data)
    } else {
        contents
    }
}

/// `contents` after a halfword write, least significant byte first.
pub open spec fn store_halfword(contents: Map<u32, u8>, addr: u32, data: u16) -> Map<u32, u8> {
    store_byte(store_byte(contents, addr, data as u8), (addr + 1) as u32, (data >> 8) as u8)
}

/// `contents` after a word write, least significant byte first.
pub open spec fn store_word(contents: Map<u32, u8>, addr: u32, data: u32) -> Map<u32, u8> {
    store_byte(
        store_byte(
            store_byte(store_byte(contents, addr, data as u8), (addr + 1) as u32, (data >> 8) as u8),
            (addr + 2) as u32,
            (data >> 16) as u8,
        ),
        (addr + 3) as u32,
        (data >> 24) as u8,
    )
}

/// A byte that memory holds reads back as it was written last, and a write
/// changes no other byte and adds none.
pub proof fn lemma_store_byte(contents: Map<u32, u8>, addr: u32, data: u8)
    ensures
        store_byte(contents, addr, data).dom() == contents.dom(),
        contents.contains_key(addr) ==> store_byte(contents, addr, data)[addr] == data,
        forall|other: u32|
            other != addr ==> #[trigger] store_byte(contents, addr, data)[other] == contents[other],
{
    assert(store_byte(contents, addr, data).dom() =~= contents.dom());
}

/// A halfword that memory holds reads back as it was written last: the
/// little-endian split and the little-endian composition undo each other.
pub proof fn lemma_store_halfword(contents: Map<u32, u8>, addr: u32, data: u16)
    requires
        holds_bytes(contents, addr, 2),
    ensures
        store_halfword(contents, addr, data).dom() == contents.dom(),
        halfword_at(store_halfword(contents, addr, data), addr) == data,
{
    assert(contents.contains_key((addr + 0nat) as u32));
    assert(contents.contains_key((addr + 1nat) as u32));
    assert(store_halfword(contents, addr, data).dom() =~= contents.dom());
    assert(halfword_from_bytes(data as u8, (data >> 8) as u8) == data) by (bit_vector);
}

/// A word that memory holds reads back as it was written last: the
/// little-endian split and the little-endian composition undo each other.
pub proof fn lemma_store_word(contents: Map<u32, u8>, addr: u32, data: u32)
    requires
        holds_bytes(contents, addr, 4),
    ensures
        store_word(contents, addr, data).dom() == contents.dom(),
        word_at(store_word(contents, addr, data), addr) == data,
{
    assert(contents.contains_key((addr + 0nat) as u32));
    assert(contents.contains_key((addr + 1nat) as u32));
    assert(contents.contains_key((addr + 2nat) as u32));
    assert(contents.contains_key((addr + 3nat) as u32));
    assert(store_word(contents, addr, data).dom() =~= contents.dom());
    assert(word_from_bytes(data as u8, (data >> 8) as u8, (data >> 16) as u8, (data >> 24) as u8)
        == data) by (bit_vector);
}

/// A device on the physical address space.
///
/// A handler describes itself by three mathematical values. `criteria` is
/// what it publishes to claim accesses. `range` is the set of byte addresses
/// it is able to serve; calling it outside `range` is a caller's error.
/// `contents` holds the bytes it behaves like plain memory for: a read of such
/// a byte returns it, a write replaces it, and nothing else changes it. A
/// handler that makes no such promise for an address (a device register, say)
/// leaves that address out of `contents`.
///
/// No access changes what a handler claims or what it can serve, and none
/// changes the machine state: a handler may look at it, no more.
///
/// Accesses wider than a byte are composed from byte accesses in little-endian
/// order unless a handler overrides them; an override has to keep the same
/// contract. Wider accesses arrive naturally aligned.
pub trait MemoryHandler: Send {
    /// The criteria this handler publishes. A verified handler states them
    /// here; for any other they are left open.
    open spec fn criteria(&self) -> Seq<MatchCriteria> {
        arbitrary()
    }

    /// The byte addresses this handler can serve: all of them, unless the
    /// handler says otherwise.
    open spec fn range(&self) -> Set<u32> {
        Set::full()
    }

    /// The bytes for which this handler behaves like plain memory: none,
    /// unless the handler says otherwise.
    open spec fn contents(&self) -> Map<u32, u8> {
        Map::empty()
    }

    /// The criteria under which the memory map routes to this handler. Every
    /// aligned access they claim lies wholly within the handler's range.
    fn get_match_criteria(&self) -> (criteria: Vec<MatchCriteria>)
        ensures
            criteria@ == self.criteria(),
            criteria_within(self.criteria(), self.range()),
    ;

    /// Fetches the byte at `addr`, which lies in the handler's range. It is a
    /// read unless the handler says otherwise.
    fn fetch_byte(&mut self, state: &mut State, addr: u32) -> (data: u8)
        requires
            old(self).range().contains(addr),
        ensures
            final(self).criteria() == old(self).criteria(),
            final(self).range() == old(self).range(),
            final(self).contents() == old(self).contents(),
            old(self).contents().contains_key(addr) ==> data == old(self).contents()[addr],
            final(state)@ == old(state)@,
    {
        self.read_byte(state, addr)
    }

    /// Reads the byte at `addr`, which lies in the handler's range.
    fn read_byte(&mut self, state: &mut State, addr: u32) -> (data: u8)
        requires
            old(self).range().contains(addr),
        ensures
            final(self).criteria() == old(self).criteria(),
            final(self).range() == old(self).range(),
            final(self).contents() == old(self).contents(),
            old(self).contents().contains_key(addr) ==> data == old(self).contents()[addr],
            final(state)@ == old(state)@,
    ;

    /// Writes `data` to the byte at `addr`, which lies in the handler's range.
    fn write_byte(&mut self, state: &mut State, addr: u32, data: u8)
        requires
            old(self).range().contains(addr),
        ensures
            final(self).criteria() == old(self).criteria(),
            final(self).range() == old(self).range(),
            final(self).contents() == store_byte(old(self).contents(), addr, data),
            final(state)@ == old(state)@,
    ;

    /// Fetches the halfword at the even address `addr`, both bytes of which
    /// lie in the handler's range. It is a read unless the handler says
    /// otherwise.
    fn fetch_halfword(&mut self, state: &mut State, addr: u32) -> (data: u16)
        requires
            addr % 2 == 0,
            access_within(old(self).range(), addr, AccessSize::Halfword),
        ensures
            final(self).criteria() == old(self).criteria(),
            final(self).range() == old(self).range(),
            final(self).contents() == old(self).contents(),
            holds_bytes(old(self).contents(), addr, 2) ==> data == halfword_at(
                old(self).contents(),
                addr,
            ),
            final(state)@ == old(state)@,
    {
        self.read_halfword(state, addr)
    }

    /// Reads the halfword at the even address `addr`, both bytes of which lie
    /// in the handler's range: two byte reads, the lower address first,
    /// composed in little-endian order.
    fn read_halfword(&mut self, state: &mut State, addr: u32) -> (data: u16)
        requires
            addr % 2 == 0,
            access_within(old(self).range(), addr, AccessSize::Halfword),
        ensures
            final(self).criteria() == old(self).criteria(),
            final(self).range() == old(self).range(),
            final(self).contents() == old(self).contents(),
            holds_bytes(old(self).contents(), addr, 2) ==> data == halfword_at(
                old(self).contents(),
                addr,
            ),
            final(state)@ == old(state)@,
    {
        assert(old(self).range().contains((addr + 0nat) as u32));
        assert(old(self).range().contains((addr + 1nat) as u32));
        let ghost contents = self.contents();
        assert(holds_bytes(contents, addr, 2) ==> contents.contains_key((addr + 0nat) as u32)
            && contents.contains_key((addr + 1nat) as u32));
        let b0: u8 = self.read_byte(state, addr);
        let b1: u8 = self.read_byte(state, addr + 1);
        (b0 as u16) | ((b1 as u16) << 8)
    }

    /// Writes `data` to the halfword at the even address `addr`, both bytes of
    /// which lie in the handler's range: two byte writes, the least
    /// significant byte first and at the lower address.
    fn write_halfword(&mut self, state: &mut State, addr: u32, data: u16)
        requires
            addr % 2 == 0,
            access_within(old(self).range(), addr, AccessSize::Halfword),
        ensures
            final(self).criteria() == old(self).criteria(),
            final(self).range() == old(self).range(),
            final(self).contents() == store_halfword(old(self).contents(), addr, data),
            final(state)@ == old(state)@,
    {
        assert(old(self).range().contains((addr + 0nat) as u32));
        assert(old(self).range().contains((addr + 1nat) as u32));
        self.write_byte(state, addr, #[verifier::truncate] (data as u8));
        self.write_byte(state, addr + 1, #[verifier::truncate] ((data >> 8) as u8));
    }

    /// Fetches the word at `addr`, a multiple of four, all bytes of which lie
    /// in the handler's range. It is a read unless the handler says otherwise.
    fn fetch_word(&mut self, state: &mut State, addr: u32) -> (data: u32)
        requires
            addr % 4 == 0,
            access_within(old(self).range(), addr, AccessSize::Word),
        ensures
            final(self).criteria() == old(self).criteria(),
            final(self).range() == old(self).range(),
            final(self).contents() == old(self).contents(),
            holds_bytes(old(self).contents(), addr, 4) ==> data == word_at(
                old(self).contents(),
                addr,
            ),
            final(state)@ == old(state)@,
    {
        self.read_word(state, addr)
    }

    /// Reads the word at `addr`, a multiple of four, all bytes of which lie in
    /// the handler's range: four byte reads, the lowest address first,
    /// composed in little-endian order.
    fn read_word(&mut self, state: &mut State, addr: u32) -> (data: u32)
        requires
            addr % 4 == 0,
            access_within(old(self).range(), addr, AccessSize::Word),
        ensures
            final(self).criteria() == old(self).criteria(),
            final(self).range() == old(self).range(),
            final(self).contents() == old(self).contents(),
            holds_bytes(old(self).contents(), addr, 4) ==> data == word_at(
                old(self).contents(),
                addr,
            ),
            final(state)@ == old(state)@,
    {
        assert(old(self).range().contains((addr + 0nat) as u32));
        assert(old(self).range().contains((addr + 1nat) as u32));
        assert(old(self).range().contains((addr + 2nat) as u32));
        assert(old(self).range().contains((addr + 3nat) as u32));
        let ghost contents = self.contents();
        assert(holds_bytes(contents, addr, 4) ==> contents.contains_key((addr + 0nat) as u32)
            && contents.contains_key((addr + 1nat) as u32) && contents.contains_key(
            (addr + 2nat) as u32,
        ) && contents.contains_key((addr + 3nat) as u32));
        let b0: u8 = self.read_byte(state, addr);
        let b1: u8 = self.read_byte(state, addr + 1);
        let b2: u8 = self.read_byte(state, addr + 2);
        let b3: u8 = self.read_byte(state, addr + 3);
        (b0 as u32) | ((b1 as u32) << 8) | ((b2 as u32) << 16) | ((b3 as u32) << 24)
    }

    /// Writes `data` to the word at `addr`, a multiple of four, all bytes of
    /// which lie in the handler's range: four byte writes, the least
    /// significant byte first and at the lowest address.
    fn write_word(&mut self, state: &mut State, addr: u32, data: u32)
        requires
            addr % 4 == 0,
            access_within(old(self).range(), addr, AccessSize::Word),
        ensures
            final(self).criteria() == old(self).criteria(),
            final(self).range() == old(self).range(),
            final(self).contents() == store_word(old(self).contents(), addr, data),
            final(state)@ == old(state)@,
    {
        assert(old(self).range().contains((addr + 0nat) as u32));
        assert(old(self).range().contains((addr + 1nat) as u32));
        assert(old(self).range().contains((addr + 2nat) as u32));
        assert(old(self).range().contains((addr + 3nat) as u32));
        self.write_byte(state, addr, #[verifier::truncate] (data as u8));
        self.write_byte(state, addr + 1, #[verifier::truncate] ((data >> 8) as u8));
        self.write_byte(state, addr + 2, #[verifier::truncate] ((data >> 16) as u8));
        self.write_byte(state, addr + 3, #[verifier::truncate] ((data >> 24) as u8));
    }
}

} // verus!
