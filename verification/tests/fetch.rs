use xrve::fetch::{fetch_raw, RawInstruction};
use xrve::pmmap::memory_handler::{AccessSize, AccessType, MatchCriteria, MemoryHandler};
use xrve::pmmap::ram::Ram;
use xrve::pmmap::PhysicalMemoryMap;
use xrve::state::State;
use std::sync::atomic::{AtomicU32, Ordering};
use std::sync::Arc;

/// Memory of one repeated halfword that counts the reads it serves.
struct Counting {
    halfword: u16,
    reads: Arc<AtomicU32>,
}

impl MemoryHandler for Counting {
    fn get_match_criteria(&self) -> Vec<MatchCriteria> {
        vec![MatchCriteria::Always(AccessType::All, AccessSize::All)]
    }

    fn read_byte(&mut self, _: &mut State, addr: u32) -> u8 {
        self.reads.fetch_add(1, Ordering::Relaxed);
        (self.halfword >> (8 * (addr % 2))) as u8
    }

    fn write_byte(&mut self, _: &mut State, _: u32, _: u8) {}

    fn read_halfword(&mut self, _: &mut State, _: u32) -> u16 {
        self.reads.fetch_add(1, Ordering::Relaxed);
        self.halfword
    }
}

fn counting_map(halfword: u16) -> (PhysicalMemoryMap, Arc<AtomicU32>) {
    let reads = Arc::new(AtomicU32::new(0));
    let mut pmmap = PhysicalMemoryMap::new();
    pmmap.register_handler(Box::new(Counting { halfword, reads: reads.clone() }));
    (pmmap, reads)
}

#[test]
fn odd_pc_is_unaligned_without_any_access() {
    let (mut pmmap, reads) = counting_map(0x0013);
    let mut state = State::new();
    for pc in [1u32, 3, 0x1001, 0xffff_ffff] {
        state.set_pc(pc);
        assert_eq!(fetch_raw(&mut state, &mut pmmap), RawInstruction::Unaligned);
    }
    assert_eq!(reads.load(Ordering::Relaxed), 0);
    let mut empty = PhysicalMemoryMap::new();
    assert_eq!(fetch_raw(&mut state, &mut empty), RawInstruction::Unaligned);
}

#[test]
fn regular_encoding_takes_two_halfword_reads() {
    let (mut pmmap, reads) = counting_map(0x0013);
    let mut state = State::new();
    assert_eq!(fetch_raw(&mut state, &mut pmmap), RawInstruction::Regular(0x0013_0013));
    assert_eq!(reads.load(Ordering::Relaxed), 2);
    state.set_pc(0x102);
    assert_eq!(fetch_raw(&mut state, &mut pmmap), RawInstruction::Regular(0x0013_0013));
    assert_eq!(reads.load(Ordering::Relaxed), 4);
}

#[test]
fn compressed_encoding_takes_one_halfword_read() {
    for (halfword, expected_reads) in [(0x4501u16, 1), (0x0000, 1), (0xfffe, 1), (0x8082, 1)] {
        let (mut pmmap, reads) = counting_map(halfword);
        let mut state = State::new();
        assert_eq!(fetch_raw(&mut state, &mut pmmap), RawInstruction::Compressed(halfword));
        assert_eq!(reads.load(Ordering::Relaxed), expected_reads);
    }
}

#[test]
fn fetch_composes_halfwords_little_endian() {
    let mut state = State::new();
    let mut pmmap = PhysicalMemoryMap::new();
    pmmap.register_handler(Box::new(Ram::new(0x100, 0x100)));
    pmmap.write_word(&mut state, 0x100, 0x0050_0093).unwrap();
    pmmap.write_halfword(&mut state, 0x104, 0x4501).unwrap();
    pmmap.write_halfword(&mut state, 0x106, 0x2083).unwrap();
    pmmap.write_halfword(&mut state, 0x108, 0x0041).unwrap();
    state.set_pc(0x100);
    assert_eq!(fetch_raw(&mut state, &mut pmmap), RawInstruction::Regular(0x0050_0093));
    state.set_pc(0x104);
    assert_eq!(fetch_raw(&mut state, &mut pmmap), RawInstruction::Compressed(0x4501));
    state.set_pc(0x106);
    assert_eq!(fetch_raw(&mut state, &mut pmmap), RawInstruction::Regular(0x0041_2083));
    assert_eq!(state.pc(), 0x106);
    assert_eq!(state.retired_insts(), 0);
}

#[test]
fn fetch_faults_where_nothing_is_mapped() {
    let mut state = State::new();
    let mut pmmap = PhysicalMemoryMap::new();
    assert_eq!(fetch_raw(&mut state, &mut pmmap), RawInstruction::Fault);
    pmmap.register_handler(Box::new(Ram::new(0x100, 0x100)));
    assert_eq!(fetch_raw(&mut state, &mut pmmap), RawInstruction::Fault);
    state.set_pc(0x200);
    assert_eq!(fetch_raw(&mut state, &mut pmmap), RawInstruction::Fault);
    state.set_pc(0x100);
    assert_eq!(fetch_raw(&mut state, &mut pmmap), RawInstruction::Compressed(0xa5a5));
}

#[test]
fn fetch_faults_where_the_second_halfword_is_unmapped() {
    let mut state = State::new();
    let mut pmmap = PhysicalMemoryMap::new();
    pmmap.register_handler(Box::new(Ram::new(0x100, 0x100)));
    pmmap.write_halfword(&mut state, 0x1fe, 0x0093).unwrap();
    state.set_pc(0x1fe);
    assert_eq!(fetch_raw(&mut state, &mut pmmap), RawInstruction::Fault);
    pmmap.write_halfword(&mut state, 0x1fe, 0x4501).unwrap();
    assert_eq!(fetch_raw(&mut state, &mut pmmap), RawInstruction::Compressed(0x4501));
}

#[test]
fn second_halfword_wraps_around_the_address_space() {
    let mut state = State::new();
    let mut pmmap = PhysicalMemoryMap::new();
    pmmap.register_handler(Box::new(Ram::new(0, 0x10)));
    pmmap.register_handler(Box::new(Counting { halfword: 0x0003, reads: Arc::new(AtomicU32::new(0)) }));
    pmmap.write_halfword(&mut state, 0, 0x1234).unwrap();
    state.set_pc(0xffff_fffe);
    assert_eq!(fetch_raw(&mut state, &mut pmmap), RawInstruction::Regular(0x1234_0003));
}
