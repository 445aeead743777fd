use xrve::pmmap::memory_handler::{AccessSize, AccessType, MatchCriteria, MemoryHandler};
use xrve::pmmap::ram::{Ram, RESET_CONTENTS};
use xrve::pmmap::PhysicalMemoryMap;
use xrve::state::State;

#[test]
fn create_pmmap() {
    let _ = PhysicalMemoryMap::new();
}

#[test]
fn register_handler() {
    let mut pmmap = PhysicalMemoryMap::new();

    pmmap.register_handler(Box::new(Ram::new(0x1234, 0x5678)));
}

#[test]
fn search_sanity() {
    let mut pmmap = PhysicalMemoryMap::new();

    assert!(pmmap.search(0x1238, AccessType::Read, AccessSize::Byte).is_err());
    assert!(pmmap.search(0x123C, AccessType::Read, AccessSize::Halfword).is_err());
    assert!(pmmap.search(0x1244, AccessType::Read, AccessSize::Word).is_err());
    assert!(pmmap.search(0x1248, AccessType::Write, AccessSize::Byte).is_err());
    assert!(pmmap.search(0x124C, AccessType::Write, AccessSize::Halfword).is_err());
    assert!(pmmap.search(0x1250, AccessType::Write, AccessSize::Word).is_err());

    pmmap.register_handler(Box::new(Ram::new(0x1234, 0x5678)));

    assert!(pmmap.search(0x1238, AccessType::Read, AccessSize::Byte).is_ok());
    assert!(pmmap.search(0x123C, AccessType::Read, AccessSize::Halfword).is_ok());
    assert!(pmmap.search(0x1240, AccessType::Read, AccessSize::Word).is_ok());
    assert!(pmmap.search(0x1248, AccessType::Write, AccessSize::Byte).is_ok());
    assert!(pmmap.search(0x124C, AccessType::Write, AccessSize::Halfword).is_ok());
    assert!(pmmap.search(0x1250, AccessType::Write, AccessSize::Word).is_ok());

    assert!(pmmap.search(0x1000, AccessType::Read, AccessSize::Byte).is_err());
    assert!(pmmap.search(0x1000, AccessType::Read, AccessSize::Halfword).is_err());
    assert!(pmmap.search(0x1000, AccessType::Read, AccessSize::Word).is_err());
    assert!(pmmap.search(0x1000, AccessType::Write, AccessSize::Byte).is_err());
    assert!(pmmap.search(0x1000, AccessType::Write, AccessSize::Halfword).is_err());
    assert!(pmmap.search(0x1000, AccessType::Write, AccessSize::Word).is_err());
}

#[test]
fn search_unaligned() {
    let mut pmmap = PhysicalMemoryMap::new();

    assert!(pmmap.search(0x123B, AccessType::Read, AccessSize::Halfword).is_err());
    assert!(pmmap.search(0x123F, AccessType::Read, AccessSize::Word).is_err());
    assert!(pmmap.search(0x1247, AccessType::Write, AccessSize::Halfword).is_err());
    assert!(pmmap.search(0x124B, AccessType::Write, AccessSize::Word).is_err());

    pmmap.register_handler(Box::new(Ram::new(0x1234, 0x5678)));

    assert!(pmmap.search(0x123B, AccessType::Read, AccessSize::Halfword).is_err());
    assert!(pmmap.search(0x123F, AccessType::Read, AccessSize::Word).is_err());
    assert!(pmmap.search(0x1247, AccessType::Write, AccessSize::Halfword).is_err());
    assert!(pmmap.search(0x124B, AccessType::Write, AccessSize::Word).is_err());

    assert!(pmmap.search(0x1001, AccessType::Read, AccessSize::Halfword).is_err());
    assert!(pmmap.search(0x1001, AccessType::Read, AccessSize::Word).is_err());
    assert!(pmmap.search(0x1001, AccessType::Write, AccessSize::Halfword).is_err());
    assert!(pmmap.search(0x1001, AccessType::Write, AccessSize::Word).is_err());
}

#[test]
fn access_type_wildcard_admits_everything() {
    for other in [AccessType::All, AccessType::Fetch, AccessType::Read, AccessType::Write] {
        assert!(AccessType::All.satisfies(&other));
    }
    assert!(AccessType::Fetch.satisfies(&AccessType::Fetch));
    assert!(AccessType::Read.satisfies(&AccessType::Read));
    assert!(AccessType::Write.satisfies(&AccessType::Write));
    assert!(!AccessType::Fetch.satisfies(&AccessType::Read));
    assert!(!AccessType::Read.satisfies(&AccessType::Write));
    assert!(!AccessType::Write.satisfies(&AccessType::Fetch));
    assert!(!AccessType::Read.satisfies(&AccessType::All));
}

#[test]
fn access_size_wildcard_admits_everything() {
    for other in [AccessSize::All, AccessSize::Byte, AccessSize::Halfword, AccessSize::Word] {
        assert!(AccessSize::All.satisfies(&other));
    }
    assert!(AccessSize::Byte.satisfies(&AccessSize::Byte));
    assert!(AccessSize::Halfword.satisfies(&AccessSize::Halfword));
    assert!(AccessSize::Word.satisfies(&AccessSize::Word));
    assert!(!AccessSize::Byte.satisfies(&AccessSize::Word));
    assert!(!AccessSize::Halfword.satisfies(&AccessSize::Byte));
    assert!(!AccessSize::Word.satisfies(&AccessSize::All));
}

#[test]
fn criteria_always_and_never() {
    let always = MatchCriteria::Always(AccessType::Read, AccessSize::All);
    assert!(always.satisfies(0, AccessType::Read, AccessSize::Byte));
    assert!(always.satisfies(u32::MAX, AccessType::Read, AccessSize::Word));
    assert!(!always.satisfies(0, AccessType::Write, AccessSize::Byte));
    assert!(!MatchCriteria::Never.satisfies(0, AccessType::Read, AccessSize::Byte));
    assert!(!MatchCriteria::Never.satisfies(7, AccessType::Fetch, AccessSize::Word));
}

#[test]
fn criteria_single_address() {
    let single = MatchCriteria::SingleAddress(AccessType::All, AccessSize::Word, 0x100);
    assert!(single.satisfies(0x100, AccessType::Write, AccessSize::Word));
    assert!(single.satisfies(0x100, AccessType::Fetch, AccessSize::Word));
    assert!(!single.satisfies(0x100, AccessType::Write, AccessSize::Byte));
    assert!(!single.satisfies(0x104, AccessType::Write, AccessSize::Word));
    assert!(!single.satisfies(0xff, AccessType::Write, AccessSize::Word));
}

#[test]
fn criteria_range_end_is_exclusive() {
    let range = MatchCriteria::AddressRange(AccessType::Read, AccessSize::All, 0x10, 0x20);
    assert!(!range.satisfies(0x0f, AccessType::Read, AccessSize::Byte));
    assert!(range.satisfies(0x10, AccessType::Read, AccessSize::Byte));
    assert!(range.satisfies(0x1f, AccessType::Read, AccessSize::Byte));
    assert!(!range.satisfies(0x20, AccessType::Read, AccessSize::Byte));
    assert!(!range.satisfies(0x10, AccessType::Fetch, AccessSize::Byte));
}

#[test]
fn ram_publishes_three_ranges_over_its_span() {
    let ram = Ram::new(0x1000, 0x100);
    assert_eq!(ram.end_addr(), 0x1100);
    assert_eq!(
        ram.get_match_criteria(),
        vec![
            MatchCriteria::AddressRange(AccessType::Fetch, AccessSize::All, 0x1000, 0x1100),
            MatchCriteria::AddressRange(AccessType::Read, AccessSize::All, 0x1000, 0x1100),
            MatchCriteria::AddressRange(AccessType::Write, AccessSize::All, 0x1000, 0x1100),
        ]
    );
}

#[test]
fn ram_reads_reset_value_until_written() {
    let mut state = State::new();
    let mut ram = Ram::new(0x40, 0x40);
    assert_eq!(RESET_CONTENTS, 0xA5);
    for addr in 0x40..0x80 {
        assert_eq!(ram.read_byte(&mut state, addr), 0xA5);
        assert_eq!(ram.fetch_byte(&mut state, addr), 0xA5);
    }
    ram.write_byte(&mut state, 0x47, 0x12);
    for addr in 0x40..0x80 {
        let expected = if addr == 0x47 { 0x12 } else { 0xA5 };
        assert_eq!(ram.read_byte(&mut state, addr), expected);
    }
}

#[test]
fn ram_wide_accesses_are_little_endian() {
    let mut state = State::new();
    let mut ram = Ram::new(0, 16);
    ram.write_word(&mut state, 4, 0x1122_3344);
    assert_eq!(ram.read_byte(&mut state, 4), 0x44);
    assert_eq!(ram.read_byte(&mut state, 5), 0x33);
    assert_eq!(ram.read_byte(&mut state, 6), 0x22);
    assert_eq!(ram.read_byte(&mut state, 7), 0x11);
    assert_eq!(ram.read_halfword(&mut state, 4), 0x3344);
    assert_eq!(ram.read_halfword(&mut state, 6), 0x1122);
    assert_eq!(ram.fetch_halfword(&mut state, 6), 0x1122);
    assert_eq!(ram.read_word(&mut state, 4), 0x1122_3344);
    assert_eq!(ram.fetch_word(&mut state, 4), 0x1122_3344);
    ram.write_halfword(&mut state, 8, 0xbeef);
    assert_eq!(ram.read_byte(&mut state, 8), 0xef);
    assert_eq!(ram.read_byte(&mut state, 9), 0xbe);
    assert_eq!(ram.read_word(&mut state, 8), 0xa5a5_beef);
    assert_eq!(ram.read_word(&mut state, 0), 0xa5a5_a5a5);
}

#[test]
fn unmapped_addresses_stay_unmapped() {
    let mut state = State::new();
    let mut pmmap = PhysicalMemoryMap::new();
    for addr in [0u32, 0x0ffc, 0x1000, 0x1ffc, 0x2000, 0xffff_fffc] {
        assert_eq!(pmmap.read_byte(&mut state, addr), Err(()));
        assert_eq!(pmmap.fetch_word(&mut state, addr), Err(()));
        assert_eq!(pmmap.write_halfword(&mut state, addr, 1), Err(()));
    }
    pmmap.register_handler(Box::new(Ram::new(0x1000, 0x1000)));
    for addr in [0u32, 0x0ffc, 0x2000, 0xffff_fffc] {
        assert_eq!(pmmap.read_byte(&mut state, addr), Err(()));
        assert_eq!(pmmap.fetch_byte(&mut state, addr), Err(()));
        assert_eq!(pmmap.write_byte(&mut state, addr, 1), Err(()));
        assert_eq!(pmmap.read_halfword(&mut state, addr), Err(()));
        assert_eq!(pmmap.fetch_halfword(&mut state, addr), Err(()));
        assert_eq!(pmmap.write_halfword(&mut state, addr, 1), Err(()));
        assert_eq!(pmmap.read_word(&mut state, addr), Err(()));
        assert_eq!(pmmap.fetch_word(&mut state, addr), Err(()));
        assert_eq!(pmmap.write_word(&mut state, addr, 1), Err(()));
    }
    for addr in [0x1000u32, 0x1ffc] {
        assert_eq!(pmmap.read_byte(&mut state, addr), Ok(0xA5));
        assert_eq!(pmmap.fetch_word(&mut state, addr), Ok(0xa5a5_a5a5));
        assert_eq!(pmmap.write_halfword(&mut state, addr, 1), Ok(()));
    }
}

#[test]
fn routed_ram_keeps_what_was_written() {
    let mut state = State::new();
    let mut pmmap = PhysicalMemoryMap::new();
    pmmap.register_handler(Box::new(Ram::new(0x8000_0000, 0x100)));
    assert_eq!(pmmap.read_byte(&mut state, 0x8000_0010), Ok(0xA5));
    assert_eq!(pmmap.write_byte(&mut state, 0x8000_0010, 0x5a), Ok(()));
    assert_eq!(pmmap.read_byte(&mut state, 0x8000_0010), Ok(0x5a));
    assert_eq!(pmmap.fetch_byte(&mut state, 0x8000_0010), Ok(0x5a));
    assert_eq!(pmmap.read_byte(&mut state, 0x8000_0011), Ok(0xA5));
    assert_eq!(pmmap.write_word(&mut state, 0x8000_0020, 0xdead_beef), Ok(()));
    assert_eq!(pmmap.read_word(&mut state, 0x8000_0020), Ok(0xdead_beef));
    assert_eq!(pmmap.read_halfword(&mut state, 0x8000_0020), Ok(0xbeef));
    assert_eq!(pmmap.read_halfword(&mut state, 0x8000_0022), Ok(0xdead));
    assert_eq!(pmmap.read_byte(&mut state, 0x8000_0023), Ok(0xde));
    assert_eq!(pmmap.write_halfword(&mut state, 0x8000_0022, 0x1234), Ok(()));
    assert_eq!(pmmap.fetch_word(&mut state, 0x8000_0020), Ok(0x1234_beef));
    assert_eq!(state.retired_insts(), 0);
}

#[test]
fn misaligned_accesses_fail_for_every_access_type() {
    let mut state = State::new();
    let mut pmmap = PhysicalMemoryMap::new();
    for registered in [false, true] {
        if registered {
            pmmap.register_handler(Box::new(Ram::new(0, 0x1000)));
        }
        for addr in [1u32, 3, 0x101, 0xfff] {
            assert_eq!(pmmap.fetch_halfword(&mut state, addr), Err(()));
            assert_eq!(pmmap.read_halfword(&mut state, addr), Err(()));
            assert_eq!(pmmap.write_halfword(&mut state, addr, 0), Err(()));
        }
        for addr in [1u32, 2, 3, 0x102, 0xffe] {
            assert_eq!(pmmap.fetch_word(&mut state, addr), Err(()));
            assert_eq!(pmmap.read_word(&mut state, addr), Err(()));
            assert_eq!(pmmap.write_word(&mut state, addr, 0), Err(()));
        }
        for access_type in [AccessType::Fetch, AccessType::Read, AccessType::Write] {
            assert!(pmmap.search(0x11, access_type, AccessSize::Halfword).is_err());
            assert!(pmmap.search(0x12, access_type, AccessSize::Word).is_err());
        }
    }
    assert_eq!(pmmap.read_halfword(&mut state, 2), Ok(0xa5a5));
    assert_eq!(pmmap.read_byte(&mut state, 3), Ok(0xA5));
}

#[test]
fn first_registered_handler_wins() {
    let mut state = State::new();
    let mut pmmap = PhysicalMemoryMap::new();
    pmmap.register_handler(Box::new(Ram::new(0x100, 0x100)));
    pmmap.register_handler(Box::new(Ram::new(0x000, 0x400)));
    assert_eq!(pmmap.write_byte(&mut state, 0x180, 0x11), Ok(()));
    assert_eq!(pmmap.write_byte(&mut state, 0x080, 0x22), Ok(()));
    assert_eq!(pmmap.read_byte(&mut state, 0x180), Ok(0x11));
    assert_eq!(pmmap.read_byte(&mut state, 0x080), Ok(0x22));
    let first = pmmap.search(0x180, AccessType::Read, AccessSize::Byte).unwrap();
    assert_eq!(
        first.get_match_criteria()[0],
        MatchCriteria::AddressRange(AccessType::Fetch, AccessSize::All, 0x100, 0x200)
    );
    let second = pmmap.search(0x080, AccessType::Read, AccessSize::Byte).unwrap();
    assert_eq!(
        second.get_match_criteria()[0],
        MatchCriteria::AddressRange(AccessType::Fetch, AccessSize::All, 0x000, 0x400)
    );
    assert_eq!(second.read_byte(&mut state, 0x180), 0xA5);
}

#[test]
fn last_word_of_ram_is_reachable() {
    let mut state = State::new();
    let mut pmmap = PhysicalMemoryMap::new();
    pmmap.register_handler(Box::new(Ram::new(0x1234, 0x5678)));
    assert_eq!(pmmap.write_word(&mut state, 0x68a8, 0x0102_0304), Ok(()));
    assert_eq!(pmmap.read_word(&mut state, 0x68a8), Ok(0x0102_0304));
    assert_eq!(pmmap.read_byte(&mut state, 0x68ab), Ok(0x01));
    assert_eq!(pmmap.read_byte(&mut state, 0x68ac), Err(()));
    assert_eq!(pmmap.read_word(&mut state, 0x68ac), Err(()));
    assert_eq!(pmmap.read_byte(&mut state, 0x1233), Err(()));
    assert_eq!(pmmap.read_word(&mut state, 0x1230), Err(()));
    assert_eq!(pmmap.read_halfword(&mut state, 0x1234), Ok(0xa5a5));
}
