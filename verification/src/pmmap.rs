//! The physical memory map: routes every memory access to the handler that
//! claims it.

pub mod memory_handler;
pub mod ram;

use vstd::prelude::*;
use crate::pmmap::memory_handler::{
    access_within,
    any_satisfies,
    criteria_within,
    halfword_at,
    holds_bytes,
    lemma_store_byte,
    lemma_store_halfword,
    lemma_store_word,
    store_byte,
    store_halfword,
    store_word,
    word_at,
    AccessSize,
    AccessType,
    MemoryHandler,
};
use crate::pmmap::ram::RamView;
use crate::state::State;

verus! {

/// One access that went through the memory map, as it is remembered in the
/// map's history. `value` is the value read or written, widened to 32 bits,
/// or `None` where no handler took the access.
pub struct Access {
    pub access_type: AccessType,
    pub access_size: AccessSize,
    pub addr: u32,
    pub value: Option<u32>,
}

/// The value that a read of `access_size` at `addr` returns from memory that
/// holds `contents`, widened to 32 bits.
pub open spec fn load(contents: Map<u32, u8>, access_size: AccessSize, addr: u32) -> u32 {
    match access_size {
        AccessSize::Byte => contents[addr] as u32,
        AccessSize::Halfword => halfword_at(contents, addr) as u32,
        _ => word_at(contents, addr),
    }
}

/// `contents` after a write of the low bits of `data`, as many as
/// `access_size` says, at `addr`.
pub open spec fn store(contents: Map<u32, u8>, access_size: AccessSize, addr: u32, data: u32) -> Map<
    u32,
    u8,
> {
    match access_size {
        AccessSize::Byte => store_byte(contents, addr, data as u8),
        AccessSize::Halfword => store_halfword(contents, addr, data as u16),
        _ => store_word(contents, addr, data),
    }
}

/// The place of one handler in the map.
pub(crate) struct Slot<H: ?Sized> {
    pub(crate) handler: Box<H>,
}

/// The handlers of the physical address space in the order of their
/// registration, which is their priority: the first handler that claims an
/// access gets it.
pub struct PhysicalMemoryMap {
    handlers: Vec<Slot<dyn MemoryHandler>>,
    history: Ghost<Seq<Access>>,
}

impl PhysicalMemoryMap {
    /// The registered handlers, first registered first.
    pub closed spec fn handlers(&self) -> Seq<Box<dyn MemoryHandler>> {
        self.handlers@.map_values(|slot: Slot<dyn MemoryHandler>| slot.handler)
    }

    /// Every access made through the access functions of this map so far,
    /// oldest first.
    pub closed spec fn history(&self) -> Seq<Access> {
        self.history@
    }

    /// Whether handler `i` claims the request.
    pub open spec fn claims(
        &self,
        i: int,
        addr: u32,
        access_type: AccessType,
        access_size: AccessSize,
    ) -> bool {
        any_satisfies(self.handlers()[i].criteria(), addr, access_type, access_size)
    }

    /// Whether handler `i` is the first that claims the request.
    pub open spec fn claims_first(
        &self,
        i: int,
        addr: u32,
        access_type: AccessType,
        access_size: AccessSize,
    ) -> bool {
        &&& 0 <= i < self.handlers().len()
        &&& self.claims(i, addr, access_type, access_size)
        &&& forall|j: int| 0 <= j < i ==> !self.claims(j, addr, access_type, access_size)
    }

    /// The index of the handler that a request resolves to: none for a
    /// misaligned request, else the first handler that claims it, if any.
    pub open spec fn route(
        &self,
        addr: u32,
        access_type: AccessType,
        access_size: AccessSize,
    ) -> Option<int> {
        if access_size.aligned(addr) && exists|i: int|
            self.claims_first(i, addr, access_type, access_size) {
            Some(choose|i: int| self.claims_first(i, addr, access_type, access_size))
        } else {
            None
        }
    }

    /// An aligned request resolves to the first handler that claims it.
    pub proof fn lemma_route_first(
        &self,
        i: int,
        addr: u32,
        access_type: AccessType,
        access_size: AccessSize,
    )
        requires
            access_size.aligned(addr),
            self.claims_first(i, addr, access_type, access_size),
        ensures
            self.route(addr, access_type, access_size) == Some(i),
    {
        let chosen = choose|i: int| self.claims_first(i, addr, access_type, access_size);
        assert(self.claims_first(chosen, addr, access_type, access_size));
        assert(chosen == i) by {
            if chosen < i {
                assert(!self.claims(chosen, addr, access_type, access_size));
            } else if i < chosen {
                assert(!self.claims(i, addr, access_type, access_size));
            }
        }
    }

    /// A map without handlers and without history.
    pub fn new() -> (map: PhysicalMemoryMap)
        ensures
            map.handlers() == Seq::<Box<dyn MemoryHandler>>::empty(),
            map.history() == Seq::<Access>::empty(),
    {
        let map = PhysicalMemoryMap { handlers: Vec::new(), history: Ghost(Seq::empty()) };
        assert(map.handlers() =~= Seq::<Box<dyn MemoryHandler>>::empty());
        map
    }

    /// What registering `handler` does to a memory map, from `self` to
    /// `post`: the handler comes last, behind the handlers registered so far,
    /// which stay as they are, and the history stays.
    pub open spec fn registered(&self, post: &PhysicalMemoryMap, handler: &Box<dyn MemoryHandler>) -> bool {
        &&& post.handlers().len() == self.handlers().len() + 1
        &&& post.handlers().last() == *handler
        &&& forall|i: int| 0 <= i < self.handlers().len() ==> post.handlers()[i] == self.handlers()[i]
        &&& post.history() == self.history()
    }

    /// Takes ownership of `handler` and gives it the lowest priority so far.
    pub fn register_handler(&mut self, handler: Box<dyn MemoryHandler>)
        ensures
            old(self).registered(final(self), &handler),
    {
        let slot = Slot { handler };
        self.install(slot);
    }

    /// Appends a handler that already sits in its slot.
    pub(crate) fn install(&mut self, slot: Slot<dyn MemoryHandler>)
        ensures
            old(self).registered(final(self), &slot.handler),
    {
        self.handlers.push(slot);
    }

    /// The index of the handler that the request resolves to, if any.
    #[verifier::loop_isolation(false)]
    fn find(&self, addr: u32, access_type: AccessType, access_size: AccessSize) -> (found: Option<
        usize,
    >)
        requires
            access_size != AccessSize::All,
        ensures
            match found {
                Some(i) => self.route(addr, access_type, access_size) == Some(i as int)
                    && i < self.handlers().len() && access_within(
                    self.handlers()[i as int].range(),
                    addr,
                    access_size,
                ),
                None => self.route(addr, access_type, access_size) is None,
            },
    {
        match access_size {
            AccessSize::All => {},
            AccessSize::Byte => {},
            AccessSize::Halfword => {
                if (addr & 0x1) != 0 {
                    assert(addr & 0x1 != 0 ==> addr % 2 != 0) by (bit_vector);
                    return None;
                }
                assert(addr & 0x1 == 0 ==> addr % 2 == 0) by (bit_vector);
            },
            AccessSize::Word => {
                if (addr & 0x3) != 0 {
                    assert(addr & 0x3 != 0 ==> addr % 4 != 0) by (bit_vector);
                    return None;
                }
                assert(addr & 0x3 == 0 ==> addr % 4 == 0) by (bit_vector);
            },
        }
        let mut i: usize = 0;
        while i < self.handlers.len()
            invariant
                i <= self.handlers().len(),
                self.handlers().len() == self.handlers@.len(),
                access_size.aligned(addr),
                forall|j: int| 0 <= j < i ==> !self.claims(j, addr, access_type, access_size),
            decreases self.handlers.len() - i,
        {
            let criteria = self.handlers[i].handler.get_match_criteria();
            let ghost handler = self.handlers()[i as int];
            assert(handler == self.handlers@[i as int].handler);
            let mut k: usize = 0;
            while k < criteria.len()
                invariant
                    k <= criteria.len(),
                    forall|l: int|
                        0 <= l < k ==> !(#[trigger] criteria@[l]).satisfies(
                            addr,
                            access_type,
                            access_size,
                        ),
                decreases criteria.len() - k,
            {
                if criteria[k].satisfies(addr, access_type, access_size) {
                    proof {
                        assert(self.claims_first(i as int, addr, access_type, access_size));
                        self.lemma_route_first(i as int, addr, access_type, access_size);
                    }
                    return Some(i);
                }
                k += 1;
            }
            i += 1;
        }
        None
    }

    /// What one access does to a memory map, from `self` before it to `post`
    /// after it: `value` is what was read or written, or nothing where the
    /// request resolves to no handler.
    ///
    /// The access is appended to the history. It reaches the handler that the
    /// request resolves to and no other. That handler claims and serves what
    /// it did before. Where it holds the accessed bytes as plain memory, a
    /// read returns them and leaves them, and a write replaces them.
    pub open spec fn accessed(
        &self,
        post: &PhysicalMemoryMap,
        access_type: AccessType,
        access_size: AccessSize,
        addr: u32,
        value: Option<u32>,
    ) -> bool {
        let route = self.route(addr, access_type, access_size);
        &&& post.history() == self.history().push(Access { access_type, access_size, addr, value })
        &&& post.handlers().len() == self.handlers().len()
        &&& forall|j: int|
            0 <= j < self.handlers().len() && Some(j) != route ==> post.handlers()[j]
                == self.handlers()[j]
        &&& value is Some <==> route is Some
        &&& route is Some ==> {
            let before = self.handlers()[route->0];
            let after = post.handlers()[route->0];
            &&& after.criteria() == before.criteria()
            &&& after.range() == before.range()
            &&& access_type == AccessType::Write ==> after.contents() == store(
                before.contents(),
                access_size,
                addr,
                value->0,
            )
            &&& access_type != AccessType::Write ==> after.contents() == before.contents()
            &&& access_type != AccessType::Write && holds_bytes(
                before.contents(),
                addr,
                access_size.bytes(),
            ) ==> value->0 == load(before.contents(), access_size, addr)
        }
    }

    /// A request that no handler claims resolves to nothing. So does every
    /// request while no handler is registered.
    pub proof fn lemma_unclaimed_is_unmapped(
        &self,
        addr: u32,
        access_type: AccessType,
        access_size: AccessSize,
    )
        requires
            forall|i: int|
                0 <= i < self.handlers().len() ==> !self.claims(i, addr, access_type, access_size),
        ensures
            self.route(addr, access_type, access_size) is None,
    {
    }

    /// A request at an address outside the range of every handler resolves to
    /// nothing, provided that no handler claims more than it serves.
    pub proof fn lemma_outside_every_range_is_unmapped(
        &self,
        addr: u32,
        access_type: AccessType,
        access_size: AccessSize,
    )
        requires
            forall|i: int|
                0 <= i < self.handlers().len() ==> criteria_within(
                    (#[trigger] self.handlers()[i]).criteria(),
                    self.handlers()[i].range(),
                ) && !self.handlers()[i].range().contains(addr),
        ensures
            self.route(addr, access_type, access_size) is None,
    {
        if let Some(i) = self.route(addr, access_type, access_size) {
            assert(self.claims_first(i, addr, access_type, access_size));
            let handler = self.handlers()[i];
            let k = choose|k: int|
                0 <= k < handler.criteria().len() && (#[trigger] handler.criteria()[k]).satisfies(
                    addr,
                    access_type,
                    access_size,
                );
            assert(access_within(handler.range(), addr, access_size));
            assert(handler.range().contains((addr + 0nat) as u32));
        }
    }

    /// A halfword request at an odd address and a word request at an address
    /// that is no multiple of four resolve to nothing, whatever is registered
    /// and whatever the request is for.
    pub proof fn lemma_misaligned_is_unmapped(
        &self,
        addr: u32,
        access_type: AccessType,
        access_size: AccessSize,
    )
        requires
            (access_size == AccessSize::Halfword && addr % 2 != 0) || (access_size
                == AccessSize::Word && addr % 4 != 0),
        ensures
            self.route(addr, access_type, access_size) is None,
    {
    }

    /// Where a RAM is the only handler, every request outside its region
    /// resolves to nothing, and every aligned fetch, read or write inside
    /// resolves to the RAM.
    pub proof fn lemma_ram_alone(
        &self,
        ram: RamView,
        addr: u32,
        access_type: AccessType,
        access_size: AccessSize,
    )
        requires
            ram.valid(),
            self.handlers().len() == 1,
            self.handlers()[0].criteria() == ram.criteria(),
        ensures
            !(ram.start <= addr < ram.end()) ==> self.route(addr, access_type, access_size) is None,
            ram.start <= addr < ram.end() && access_type != AccessType::All && access_size.aligned(
                addr,
            ) ==> self.route(addr, access_type, access_size) == Some(0int),
    {
        ram.lemma_claims_its_range(addr, access_type, access_size);
        if ram.start <= addr < ram.end() && access_type != AccessType::All && access_size.aligned(
            addr,
        ) {
            assert(self.claims_first(0, addr, access_type, access_size));
            self.lemma_route_first(0, addr, access_type, access_size);
        }
    }

    /// What is written through the map is read back through it: where reads
    /// and writes of an address resolve to the same handler and that handler
    /// holds the written bytes as plain memory, a read that follows a write
    /// returns what was written.
    pub proof fn lemma_read_after_write(
        &self,
        written: &PhysicalMemoryMap,
        read: &PhysicalMemoryMap,
        access_size: AccessSize,
        addr: u32,
        data: u32,
        value: Option<u32>,
    )
        requires
            access_size != AccessSize::All,
            self.accessed(written, AccessType::Write, access_size, addr, Some(data)),
            written.accessed(read, AccessType::Read, access_size, addr, value),
            self.route(addr, AccessType::Read, access_size) == self.route(
                addr,
                AccessType::Write,
                access_size,
            ),
            holds_bytes(
                self.handlers()[self.route(addr, AccessType::Write, access_size)->0].contents(),
                addr,
                access_size.bytes(),
            ),
        ensures
            value is Some,
            access_size == AccessSize::Byte ==> value->0 == (data as u8) as u32,
            access_size == AccessSize::Halfword ==> value->0 == (data as u16) as u32,
            access_size == AccessSize::Word ==> value->0 == data,
    {
        self.lemma_accessed_keeps_routes(written, AccessType::Write, access_size, addr, Some(data));
        let i = self.route(addr, AccessType::Write, access_size)->0;
        assert(written.route(addr, AccessType::Read, access_size) == Some(i));
        let before = self.handlers()[i].contents();
        let after = written.handlers()[i].contents();
        match access_size {
            AccessSize::Byte => {
                assert(before.contains_key((addr + 0nat) as u32));
                lemma_store_byte(before, addr, data as u8);
                assert(after.contains_key((addr + 0nat) as u32));
            },
            AccessSize::Halfword => {
                lemma_store_halfword(before, addr, data as u16);
                assert forall|offset: nat| offset < 2 implies addr + offset <= u32::MAX
                    && #[trigger] after.contains_key((addr + offset) as u32) by {
                    assert(before.contains_key((addr + offset) as u32));
                }
            },
            _ => {
                lemma_store_word(before, addr, data);
                assert forall|offset: nat| offset < 4 implies addr + offset <= u32::MAX
                    && #[trigger] after.contains_key((addr + offset) as u32) by {
                    assert(before.contains_key((addr + offset) as u32));
                }
            },
        }
    }

    /// An access changes no route: every request resolves after it to the
    /// handler it resolved to before.
    pub proof fn lemma_accessed_keeps_routes(
        &self,
        post: &PhysicalMemoryMap,
        access_type: AccessType,
        access_size: AccessSize,
        addr: u32,
        value: Option<u32>,
    )
        requires
            self.accessed(post, access_type, access_size, addr, value),
        ensures
            forall|a: u32, t: AccessType, s: AccessSize| #[trigger]
                post.route(a, t, s) == self.route(a, t, s),
    {
        assert forall|a: u32, t: AccessType, s: AccessSize| #[trigger]
            post.route(a, t, s) == self.route(a, t, s) by {
            assert forall|i: int| 0 <= i < self.handlers().len() implies post.claims(i, a, t, s)
                == self.claims(i, a, t, s) by {
                assert(post.handlers()[i].criteria() == self.handlers()[i].criteria());
            }
            if let Some(i) = self.route(a, t, s) {
                assert(post.claims_first(i, a, t, s));
                post.lemma_route_first(i, a, t, s);
            } else if let Some(i) = post.route(a, t, s) {
                assert(self.claims_first(i, a, t, s));
                self.lemma_route_first(i, a, t, s);
            }
        }
    }

    /// Resolves a request to the handler that serves it: the first registered
    /// handler one of whose criteria claims the request. A halfword request
    /// that is not 2-byte aligned and a word request that is not 4-byte
    /// aligned resolve to nothing, whatever the handlers claim. The wildcard
    /// size is no request.
    pub fn search(&mut self, addr: u32, access_type: AccessType, access_size: AccessSize) -> (found:
        Result<&mut Box<dyn MemoryHandler>, ()>)
        requires
            access_size != AccessSize::All,
        ensures
            match found {
                Ok(handler) => {
                    &&& old(self).route(addr, access_type, access_size) is Some
                    &&& *handler == old(self).handlers()[old(self).route(
                        addr,
                        access_type,
                        access_size,
                    )->0]
                    &&& access_within(handler.range(), addr, access_size)
                    &&& final(self).handlers().len() == old(self).handlers().len()
                    &&& final(self).handlers()[old(self).route(addr, access_type, access_size)->0]
                        == *final(handler)
                    &&& forall|j: int|
                        0 <= j < old(self).handlers().len() && Some(j) != old(self).route(
                            addr,
                            access_type,
                            access_size,
                        ) ==> final(self).handlers()[j] == old(self).handlers()[j]
                    &&& final(self).history() == old(self).history()
                },
                Err(_) => {
                    &&& old(self).route(addr, access_type, access_size) is None
                    &&& final(self).handlers() == old(self).handlers()
                    &&& final(self).history() == old(self).history()
                },
            },
    {
        match self.find(addr, access_type, access_size) {
            Some(i) => Ok(&mut self.handlers[i].handler),
            None => Err(()),
        }
    }

    /// Fetches the byte at `addr` from the handler that claims the fetch.
    pub fn fetch_byte(&mut self, state: &mut State, addr: u32) -> (result: Result<u8, ()>)
        ensures
            old(self).accessed(
                final(self),
                AccessType::Fetch,
                AccessSize::Byte,
                addr,
                match result {
                    Ok(data) => Some(data as u32),
                    Err(_) => None,
                },
            ),
            final(state)@ == old(state)@,
    {
        let result = match self.search(addr, AccessType::Fetch, AccessSize::Byte) {
            Ok(handler) => {
                assert(handler.range().contains((addr + 0nat) as u32));
                Ok(handler.fetch_byte(state, addr))
            },
            Err(_) => Err(()),
        };
        self.history = Ghost(
            self.history@.push(
                Access {
                    access_type: AccessType::Fetch,
                    access_size: AccessSize::Byte,
                    addr,
                    value: match result {
                        Ok(data) => Some(data as u32),
                        Err(_) => None,
                    },
                },
            ),
        );
        result
    }

    /// Reads the byte at `addr` from the handler that claims the read.
    pub fn read_byte(&mut self, state: &mut State, addr: u32) -> (result: Result<u8, ()>)
        ensures
            old(self).accessed(
                final(self),
                AccessType::Read,
                AccessSize::Byte,
                addr,
                match result {
                    Ok(data) => Some(data as u32),
                    Err(_) => None,
                },
            ),
            final(state)@ == old(state)@,
    {
        let result = match self.search(addr, AccessType::Read, AccessSize::Byte) {
            Ok(handler) => {
                assert(handler.range().contains((addr + 0nat) as u32));
                Ok(handler.read_byte(state, addr))
            },
            Err(_) => Err(()),
        };
        self.history = Ghost(
            self.history@.push(
                Access {
                    access_type: AccessType::Read,
                    access_size: AccessSize::Byte,
                    addr,
                    value: match result {
                        Ok(data) => Some(data as u32),
                        Err(_) => None,
                    },
                },
            ),
        );
        result
    }

    /// Writes `data` to the byte at `addr` through the handler that claims the
    /// write.
    pub fn write_byte(&mut self, state: &mut State, addr: u32, data: u8) -> (result: Result<(), ()>)
        ensures
            old(self).accessed(
                final(self),
                AccessType::Write,
                AccessSize::Byte,
                addr,
                match result {
                    Ok(_) => Some(data as u32),
                    Err(_) => None,
                },
            ),
            final(state)@ == old(state)@,
    {
        let result = match self.search(addr, AccessType::Write, AccessSize::Byte) {
            Ok(handler) => {
                assert(handler.range().contains((addr + 0nat) as u32));
                assert((data as u32) as u8 == data) by (bit_vector);
                handler.write_byte(state, addr, data);
                Ok(())
            },
            Err(_) => Err(()),
        };
        self.history = Ghost(
            self.history@.push(
                Access {
                    access_type: AccessType::Write,
                    access_size: AccessSize::Byte,
                    addr,
                    value: match result {
                        Ok(_) => Some(data as u32),
                        Err(_) => None,
                    },
                },
            ),
        );
        result
    }

    /// Fetches the halfword at `addr`, which has to be 2-byte aligned, from the
    /// handler that claims the fetch.
    pub fn fetch_halfword(&mut self, state: &mut State, addr: u32) -> (result: Result<u16, ()>)
        ensures
            old(self).accessed(
                final(self),
                AccessType::Fetch,
                AccessSize::Halfword,
                addr,
                match result {
                    Ok(data) => Some(data as u32),
                    Err(_) => None,
                },
            ),
            final(state)@ == old(state)@,
    {
        let result = match self.search(addr, AccessType::Fetch, AccessSize::Halfword) {
            Ok(handler) => {
                Ok(handler.fetch_halfword(state, addr))
            },
            Err(_) => Err(()),
        };
        self.history = Ghost(
            self.history@.push(
                Access {
                    access_type: AccessType::Fetch,
                    access_size: AccessSize::Halfword,
                    addr,
                    value: match result {
                        Ok(data) => Some(data as u32),
                        Err(_) => None,
                    },
                },
            ),
        );
        result
    }

    /// Reads the halfword at `addr`, which has to be 2-byte aligned, from the
    /// handler that claims the read.
    pub fn read_halfword(&mut self, state: &mut State, addr: u32) -> (result: Result<u16, ()>)
        ensures
            old(self).accessed(
                final(self),
                AccessType::Read,
                AccessSize::Halfword,
                addr,
                match result {
                    Ok(data) => Some(data as u32),
                    Err(_) => None,
                },
            ),
            final(state)@ == old(state)@,
    {
        let result = match self.search(addr, AccessType::Read, AccessSize::Halfword) {
            Ok(handler) => {
                Ok(handler.read_halfword(state, addr))
            },
            Err(_) => Err(()),
        };
        self.history = Ghost(
            self.history@.push(
                Access {
                    access_type: AccessType::Read,
                    access_size: AccessSize::Halfword,
                    addr,
                    value: match result {
                        Ok(data) => Some(data as u32),
                        Err(_) => None,
                    },
                },
            ),
        );
        result
    }

    /// Writes `data` to the halfword at `addr`, which has to be 2-byte aligned,
    /// through the handler that claims the write.
    pub fn write_halfword(&mut self, state: &mut State, addr: u32, data: u16) -> (result: Result<(), ()>)
        ensures
            old(self).accessed(
                final(self),
                AccessType::Write,
                AccessSize::Halfword,
                addr,
                match result {
                    Ok(_) => Some(data as u32),
                    Err(_) => None,
                },
            ),
            final(state)@ == old(state)@,
    {
        let result = match self.search(addr, AccessType::Write, AccessSize::Halfword) {
            Ok(handler) => {
                assert((data as u32) as u16 == data) by (bit_vector);
                handler.write_halfword(state, addr, data);
                Ok(())
            },
            Err(_) => Err(()),
        };
        self.history = Ghost(
            self.history@.push(
                Access {
                    access_type: AccessType::Write,
                    access_size: AccessSize::Halfword,
                    addr,
                    value: match result {
                        Ok(_) => Some(data as u32),
                        Err(_) => None,
                    },
                },
            ),
        );
        result
    }

    /// Fetches the word at `addr`, which has to be 4-byte aligned, from the
    /// handler that claims the fetch.
    pub fn fetch_word(&mut self, state: &mut State, addr: u32) -> (result: Result<u32, ()>)
        ensures
            old(self).accessed(
                final(self),
                AccessType::Fetch,
                AccessSize::Word,
                addr,
                match result {
                    Ok(data) => Some(data as u32),
                    Err(_) => None,
                },
            ),
            final(state)@ == old(state)@,
    {
        let result = match self.search(addr, AccessType::Fetch, AccessSize::Word) {
            Ok(handler) => {
                Ok(handler.fetch_word(state, addr))
            },
            Err(_) => Err(()),
        };
        self.history = Ghost(
            self.history@.push(
                Access {
                    access_type: AccessType::Fetch,
                    access_size: AccessSize::Word,
                    addr,
                    value: match result {
                        Ok(data) => Some(data as u32),
                        Err(_) => None,
                    },
                },
            ),
        );
        result
    }

    /// Reads the word at `addr`, which has to be 4-byte aligned, from the handler
    /// that claims the read.
    pub fn read_word(&mut self, state: &mut State, addr: u32) -> (result: Result<u32, ()>)
        ensures
            old(self).accessed(
                final(self),
                AccessType::Read,
                AccessSize::Word,
                addr,
                match result {
                    Ok(data) => Some(data as u32),
                    Err(_) => None,
                },
            ),
            final(state)@ == old(state)@,
    {
        let result = match self.search(addr, AccessType::Read, AccessSize::Word) {
            Ok(handler) => {
                Ok(handler.read_word(state, addr))
            },
            Err(_) => Err(()),
        };
        self.history = Ghost(
            self.history@.push(
                Access {
                    access_type: AccessType::Read,
                    access_size: AccessSize::Word,
                    addr,
                    value: match result {
                        Ok(data) => Some(data as u32),
                        Err(_) => None,
                    },
                },
            ),
        );
        result
    }

    /// Writes `data` to the word at `addr`, which has to be 4-byte aligned,
    /// through the handler that claims the write.
    pub fn write_word(&mut self, state: &mut State, addr: u32, data: u32) -> (result: Result<(), ()>)
        ensures
            old(self).accessed(
                final(self),
                AccessType::Write,
                AccessSize::Word,
                addr,
                match result {
                    Ok(_) => Some(data as u32),
                    Err(_) => None,
                },
            ),
            final(state)@ == old(state)@,
    {
        let result = match self.search(addr, AccessType::Write, AccessSize::Word) {
            Ok(handler) => {
                handler.write_word(state, addr, data);
                Ok(())
            },
            Err(_) => Err(()),
        };
        self.history = Ghost(
            self.history@.push(
                Access {
                    access_type: AccessType::Write,
                    access_size: AccessSize::Word,
                    addr,
                    value: match result {
                        Ok(_) => Some(data as u32),
                        Err(_) => None,
                    },
                },
            ),
        );
        result
    }
}

} // verus!
