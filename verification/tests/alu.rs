use xrve::decode::MajorOpcode;
use xrve::fetch::RawInstruction;
use xrve::instruction_handler::InstructionHandler;
use xrve::pmmap::PhysicalMemoryMap;
use xrve::standard_extensions::i::{
    LoadInstructionHandler, OpImmInstructionHandler, OpInstructionHandler, StoreInstructionHandler,
};
use xrve::state::State;

fn r_type(funct7: u32, rs2: u32, rs1: u32, funct3: u32, rd: u32) -> RawInstruction {
    RawInstruction::Regular((funct7 << 25) | (rs2 << 20) | (rs1 << 15) | (funct3 << 12) | (rd << 7) | 0x33)
}

fn i_type(imm: u32, rs1: u32, funct3: u32, rd: u32) -> RawInstruction {
    RawInstruction::Regular(((imm & 0xfff) << 20) | (rs1 << 15) | (funct3 << 12) | (rd << 7) | 0x13)
}

/// Runs `funct7`/`funct3` of the `Op` group on `a` in x1 and `b` in x2 and
/// gives back what lands in x3, or nothing if the pair is illegal.
fn op(funct7: u32, funct3: u32, a: u32, b: u32) -> Option<u32> {
    let mut state = State::new();
    let mut pmmap = PhysicalMemoryMap::new();
    state.set_r(1, a);
    state.set_r(2, b);
    state.set_r(3, 0x5555_5555);
    let handler = OpInstructionHandler::new();
    let instruction = r_type(funct7, 2, 1, funct3, 3);
    if !handler.is_legal(instruction) {
        return None;
    }
    handler.handle(&mut state, &mut pmmap, instruction);
    assert_eq!(state.get_r(1), a);
    assert_eq!(state.get_r(2), b);
    assert_eq!(state.retired_insts(), 0);
    assert_eq!(state.pc(), 0);
    Some(state.get_r(3))
}

/// Runs `funct3` of the `OpImm` group on `a` in x1 with the 12-bit field
/// `imm` and gives back what lands in x3, or nothing if the encoding is
/// illegal.
fn op_imm(imm: u32, funct3: u32, a: u32) -> Option<u32> {
    let mut state = State::new();
    let mut pmmap = PhysicalMemoryMap::new();
    state.set_r(1, a);
    state.set_r(3, 0x5555_5555);
    let handler = OpImmInstructionHandler::new();
    let instruction = i_type(imm, 1, funct3, 3);
    if !handler.is_legal(instruction) {
        return None;
    }
    handler.handle(&mut state, &mut pmmap, instruction);
    assert_eq!(state.get_r(1), a);
    assert_eq!(state.retired_insts(), 0);
    Some(state.get_r(3))
}

#[test]
fn handlers_declare_their_opcodes() {
    assert_eq!(OpInstructionHandler::new().get_major_opcode_handled(), MajorOpcode::Op);
    assert_eq!(OpImmInstructionHandler::new().get_major_opcode_handled(), MajorOpcode::OpImm);
    let _ = LoadInstructionHandler::new();
    let _ = StoreInstructionHandler::new();
}

#[test]
fn add_and_sub_wrap() {
    assert_eq!(op(0, 0, 2, 3), Some(5));
    assert_eq!(op(0, 0, 0xffff_ffff, 1), Some(0));
    assert_eq!(op(0, 0, 0x8000_0000, 0x8000_0000), Some(0));
    assert_eq!(op(0, 0, 0xffff_ffff, 0xffff_ffff), Some(0xffff_fffe));
    assert_eq!(op(0b0100000, 0, 5, 3), Some(2));
    assert_eq!(op(0b0100000, 0, 0, 1), Some(0xffff_ffff));
    assert_eq!(op(0b0100000, 0, 3, 5), Some(0xffff_fffe));
    assert_eq!(op(0b0100000, 0, 0x8000_0000, 1), Some(0x7fff_ffff));
}

#[test]
fn shifts_use_the_low_five_bits() {
    assert_eq!(op(0, 0b001, 1, 4), Some(16));
    assert_eq!(op(0, 0b001, 1, 32), Some(1));
    assert_eq!(op(0, 0b001, 0xffff_ffff, 31), Some(0x8000_0000));
    assert_eq!(op(0, 0b001, 3, 0xffff_ffe1), Some(6));
    assert_eq!(op(0, 0b101, 0x8000_0000, 4), Some(0x0800_0000));
    assert_eq!(op(0, 0b101, 0x8000_0000, 63), Some(1));
    assert_eq!(op(0b0100000, 0b101, 0x8000_0000, 4), Some(0xf800_0000));
    assert_eq!(op(0b0100000, 0b101, 0x8000_0000, 31), Some(0xffff_ffff));
    assert_eq!(op(0b0100000, 0b101, 0x7fff_ffff, 4), Some(0x07ff_ffff));
    assert_eq!(op(0b0100000, 0b101, 0xffff_fff0, 36), Some(0xffff_ffff));
}

#[test]
fn slt_is_signed_and_sltu_is_unsigned() {
    assert_eq!(op(0, 0b010, 0x8000_0000, 1), Some(1));
    assert_eq!(op(0, 0b011, 0x8000_0000, 1), Some(0));
    assert_eq!(op(0, 0b010, 1, 0x8000_0000), Some(0));
    assert_eq!(op(0, 0b011, 1, 0x8000_0000), Some(1));
    assert_eq!(op(0, 0b010, 0xffff_ffff, 0), Some(1));
    assert_eq!(op(0, 0b011, 0xffff_ffff, 0), Some(0));
    assert_eq!(op(0, 0b010, 3, 4), Some(1));
    assert_eq!(op(0, 0b011, 3, 4), Some(1));
    assert_eq!(op(0, 0b010, 4, 4), Some(0));
    assert_eq!(op(0, 0b011, 4, 4), Some(0));
    assert_eq!(op(0, 0b010, 0x8000_0000, 0xffff_ffff), Some(1));
    assert_eq!(op(0, 0b011, 0x8000_0000, 0xffff_ffff), Some(1));
}

#[test]
fn bitwise_operations() {
    assert_eq!(op(0, 0b100, 0b1100, 0b1010), Some(0b0110));
    assert_eq!(op(0, 0b110, 0b1100, 0b1010), Some(0b1110));
    assert_eq!(op(0, 0b111, 0b1100, 0b1010), Some(0b1000));
    assert_eq!(op(0, 0b100, 0xffff_0000, 0x0f0f_0f0f), Some(0xf0f0_0f0f));
}

#[test]
fn unmatched_function_codes_are_illegal() {
    for (funct7, funct3) in [
        (0b0100000u32, 0b001u32),
        (0b0100000, 0b010),
        (0b0100000, 0b011),
        (0b0100000, 0b100),
        (0b0100000, 0b110),
        (0b0100000, 0b111),
        (0b0000001, 0b000),
        (0b1111111, 0b101),
        (0b0100001, 0b000),
    ] {
        assert!(!OpInstructionHandler::new().is_legal(r_type(funct7, 2, 1, funct3, 3)));
        assert_eq!(op(funct7, funct3, 10, 20), None);
    }
    for (funct7, funct3) in [
        (0u32, 0u32),
        (0b0100000, 0),
        (0, 1),
        (0, 2),
        (0, 3),
        (0, 4),
        (0, 5),
        (0b0100000, 5),
        (0, 6),
        (0, 7),
    ] {
        assert!(OpInstructionHandler::new().is_legal(r_type(funct7, 2, 1, funct3, 3)));
    }
}

#[test]
fn op_writes_to_register_zero_are_dropped() {
    let mut state = State::new();
    let mut pmmap = PhysicalMemoryMap::new();
    state.set_r(1, 7);
    state.set_r(2, 8);
    OpInstructionHandler::new().handle(&mut state, &mut pmmap, r_type(0, 2, 1, 0, 0));
    assert_eq!(state.get_r(0), 0);
    // add x4, x0, x2 reads zero for x0
    OpInstructionHandler::new().handle(&mut state, &mut pmmap, r_type(0, 2, 0, 0, 4));
    assert_eq!(state.get_r(4), 8);
}

#[test]
fn addi_sign_extends_its_immediate() {
    assert_eq!(op_imm(0xfff, 0, 5), Some(4));
    assert_eq!(op_imm(5, 0, 0), Some(5));
    assert_eq!(op_imm(0x7ff, 0, 1), Some(0x800));
    assert_eq!(op_imm(0x800, 0, 0), Some(0xffff_f800));
    assert_eq!(op_imm(1, 0, 0xffff_ffff), Some(0));
    assert_eq!(op_imm(0xfff, 0, 0), Some(0xffff_ffff));
}

#[test]
fn immediate_comparisons_and_bitwise_operations() {
    assert_eq!(op_imm(0xfff, 0b010, 0), Some(0));
    assert_eq!(op_imm(0xfff, 0b011, 0), Some(1));
    assert_eq!(op_imm(1, 0b010, 0x8000_0000), Some(1));
    assert_eq!(op_imm(1, 0b011, 0x8000_0000), Some(0));
    assert_eq!(op_imm(5, 0b010, 5), Some(0));
    assert_eq!(op_imm(6, 0b010, 5), Some(1));
    assert_eq!(op_imm(0xfff, 0b100, 0x0f0f_0f0f), Some(0xf0f0_f0f0));
    assert_eq!(op_imm(0x0f0, 0b110, 0x0000_000f), Some(0xff));
    assert_eq!(op_imm(0x800, 0b110, 1), Some(0xffff_f801));
    assert_eq!(op_imm(0x0ff, 0b111, 0x1234_5678), Some(0x78));
    assert_eq!(op_imm(0xf00, 0b111, 0x1234_5678), Some(0x1234_5600));
}

#[test]
fn immediate_shifts() {
    assert_eq!(op_imm(4, 0b001, 1), Some(16));
    assert_eq!(op_imm(31, 0b001, 1), Some(0x8000_0000));
    assert_eq!(op_imm(4, 0b101, 0x8000_0000), Some(0x0800_0000));
    assert_eq!(op_imm(0x400 | 4, 0b101, 0x8000_0000), Some(0xf800_0000));
    assert_eq!(op_imm(0x400 | 31, 0b101, 0x8000_0000), Some(0xffff_ffff));
    assert_eq!(op_imm(0x400 | 31, 0b101, 0x7fff_ffff), Some(0));
    assert_eq!(op_imm(0, 0b101, 0xdead_beef), Some(0xdead_beef));
}

#[test]
fn right_shift_with_unknown_funct7_is_illegal() {
    for imm in [0x020u32, 0x800, 0xfe0, 0x420 | 0x800] {
        assert!(!OpImmInstructionHandler::new().is_legal(i_type(imm, 1, 0b101, 3)));
        assert_eq!(op_imm(imm, 0b101, 0x1234), None);
    }
    // for every other function code the upper bits belong to the immediate
    for funct3 in [0u32, 1, 2, 3, 4, 6, 7] {
        for imm in [0u32, 0x020, 0x800, 0xfff] {
            assert!(OpImmInstructionHandler::new().is_legal(i_type(imm, 1, funct3, 3)));
        }
    }
}
