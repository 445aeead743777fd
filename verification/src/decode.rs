//! Decoding: from a raw instruction to its major opcode, its fields and the
//! handler that executes it.

use vstd::prelude::*;
use crate::fetch::RawInstruction;
use crate::instruction_handler::InstructionHandler;

verus! {

/// The 32 major opcodes of a 32-bit encoding, in the order of the value of
/// instruction bits 6:2. The slots that the base encoding keeps for longer
/// encodings or leaves reserved are listed too, so that a handler can be
/// registered for them.
#[derive(Debug, Copy, Clone, PartialEq, Eq, Hash, Structural)]
pub enum MajorOpcode {
    Load,
    LoadFp,
    Custom0,
    MiscMem,
    OpImm,
    Auipc,
    OpImm32,
    Reserved48b0,
    Store,
    StoreFp,
    Custom1,
    Amo,
    Op,
    Lui,
    Op32,
    Reserved64b,
    MAdd,
    MSub,
    NMSub,
    NMAdd,
    OpFp,
    Reserved0,
    Custom2,
    Reserved48b1,
    Branch,
    Jalr,
    Reserved1,
    Jal,
    System,
    Reserved2,
    Custom3,
    Reserved80b,
}

/// Bits 6:2 of an encoding: the major opcode as a number below 32.
pub open spec fn opcode_bits(instruction: u32) -> u32 {
    (instruction >> 2) & 0b11111
}

impl MajorOpcode {
    /// The major opcode whose bits 6:2 have the value `bits`.
    pub open spec fn from_bits(bits: u32) -> MajorOpcode {
        match bits {
            0b00_000 => MajorOpcode::Load,
            0b00_001 => MajorOpcode::LoadFp,
            0b00_010 => MajorOpcode::Custom0,
            0b00_011 => MajorOpcode::MiscMem,
            0b00_100 => MajorOpcode::OpImm,
            0b00_101 => MajorOpcode::Auipc,
            0b00_110 => MajorOpcode::OpImm32,
            0b00_111 => MajorOpcode::Reserved48b0,
            0b01_000 => MajorOpcode::Store,
            0b01_001 => MajorOpcode::StoreFp,
            0b01_010 => MajorOpcode::Custom1,
            0b01_011 => MajorOpcode::Amo,
            0b01_100 => MajorOpcode::Op,
            0b01_101 => MajorOpcode::Lui,
            0b01_110 => MajorOpcode::Op32,
            0b01_111 => MajorOpcode::Reserved64b,
            0b10_000 => MajorOpcode::MAdd,
            0b10_001 => MajorOpcode::MSub,
            0b10_010 => MajorOpcode::NMSub,
            0b10_011 => MajorOpcode::NMAdd,
            0b10_100 => MajorOpcode::OpFp,
            0b10_101 => MajorOpcode::Reserved0,
            0b10_110 => MajorOpcode::Custom2,
            0b10_111 => MajorOpcode::Reserved48b1,
            0b11_000 => MajorOpcode::Branch,
            0b11_001 => MajorOpcode::Jalr,
            0b11_010 => MajorOpcode::Reserved1,
            0b11_011 => MajorOpcode::Jal,
            0b11_100 => MajorOpcode::System,
            0b11_101 => MajorOpcode::Reserved2,
            0b11_110 => MajorOpcode::Custom3,
            _ => MajorOpcode::Reserved80b,
        }
    }

    /// The value of bits 6:2 in every encoding of this major opcode.
    pub open spec fn spec_bits(self) -> u32 {
        match self {
            MajorOpcode::Load => 0b00_000,
            MajorOpcode::LoadFp => 0b00_001,
            MajorOpcode::Custom0 => 0b00_010,
            MajorOpcode::MiscMem => 0b00_011,
            MajorOpcode::OpImm => 0b00_100,
            MajorOpcode::Auipc => 0b00_101,
            MajorOpcode::OpImm32 => 0b00_110,
            MajorOpcode::Reserved48b0 => 0b00_111,
            MajorOpcode::Store => 0b01_000,
            MajorOpcode::StoreFp => 0b01_001,
            MajorOpcode::Custom1 => 0b01_010,
            MajorOpcode::Amo => 0b01_011,
            MajorOpcode::Op => 0b01_100,
            MajorOpcode::Lui => 0b01_101,
            MajorOpcode::Op32 => 0b01_110,
            MajorOpcode::Reserved64b => 0b01_111,
            MajorOpcode::MAdd => 0b10_000,
            MajorOpcode::MSub => 0b10_001,
            MajorOpcode::NMSub => 0b10_010,
            MajorOpcode::NMAdd => 0b10_011,
            MajorOpcode::OpFp => 0b10_100,
            MajorOpcode::Reserved0 => 0b10_101,
            MajorOpcode::Custom2 => 0b10_110,
            MajorOpcode::Reserved48b1 => 0b10_111,
            MajorOpcode::Branch => 0b11_000,
            MajorOpcode::Jalr => 0b11_001,
            MajorOpcode::Reserved1 => 0b11_010,
            MajorOpcode::Jal => 0b11_011,
            MajorOpcode::System => 0b11_100,
            MajorOpcode::Reserved2 => 0b11_101,
            MajorOpcode::Custom3 => 0b11_110,
            MajorOpcode::Reserved80b => 0b11_111,
        }
    }

    /// The major opcode of a raw instruction: that of its bits 6:2 for a
    /// 32-bit encoding, none where the fetch brought no instruction back.
    pub open spec fn of(raw_inst: RawInstruction) -> Result<MajorOpcode, ()> {
        match raw_inst {
            RawInstruction::Regular(instruction) => Ok(
                MajorOpcode::from_bits(opcode_bits(instruction)),
            ),
            _ => Err(()),
        }
    }

    /// Numbering the major opcodes by their bits and reading the number back
    /// are inverse to each other.
    pub proof fn lemma_bits_round_trip(self)
        ensures
            self.spec_bits() < 32,
            MajorOpcode::from_bits(self.spec_bits()) == self,
    {
    }

    /// Every number below 32 is the bits of exactly one major opcode.
    pub proof fn lemma_from_bits_round_trip(bits: u32)
        requires
            bits < 32,
        ensures
            MajorOpcode::from_bits(bits).spec_bits() == bits,
    {
    }

    /// The major opcode depends on bits 6:2 of the encoding and on nothing
    /// else.
    pub proof fn lemma_opcode_of_bits_6_2(a: u32, b: u32)
        requires
            a & 0b1111100 == b & 0b1111100,
        ensures
            MajorOpcode::of(RawInstruction::Regular(a)) == MajorOpcode::of(
                RawInstruction::Regular(b),
            ),
    {
        assert(a & 0b1111100 == b & 0b1111100 ==> (a >> 2) & 0b11111 == (b >> 2) & 0b11111)
            by (bit_vector);
    }

    /// The value of bits 6:2 in every encoding of this major opcode.
    #[verifier::when_used_as_spec(spec_bits)]
    pub fn bits(self) -> (bits: u32)
        ensures
            bits == self.spec_bits(),
            bits < 32,
    {
        match self {
            MajorOpcode::Load => 0b00_000,
            MajorOpcode::LoadFp => 0b00_001,
            MajorOpcode::Custom0 => 0b00_010,
            MajorOpcode::MiscMem => 0b00_011,
            MajorOpcode::OpImm => 0b00_100,
            MajorOpcode::Auipc => 0b00_101,
            MajorOpcode::OpImm32 => 0b00_110,
            MajorOpcode::Reserved48b0 => 0b00_111,
            MajorOpcode::Store => 0b01_000,
            MajorOpcode::StoreFp => 0b01_001,
            MajorOpcode::Custom1 => 0b01_010,
            MajorOpcode::Amo => 0b01_011,
            MajorOpcode::Op => 0b01_100,
            MajorOpcode::Lui => 0b01_101,
            MajorOpcode::Op32 => 0b01_110,
            MajorOpcode::Reserved64b => 0b01_111,
            MajorOpcode::MAdd => 0b10_000,
            MajorOpcode::MSub => 0b10_001,
            MajorOpcode::NMSub => 0b10_010,
            MajorOpcode::NMAdd => 0b10_011,
            MajorOpcode::OpFp => 0b10_100,
            MajorOpcode::Reserved0 => 0b10_101,
            MajorOpcode::Custom2 => 0b10_110,
            MajorOpcode::Reserved48b1 => 0b10_111,
            MajorOpcode::Branch => 0b11_000,
            MajorOpcode::Jalr => 0b11_001,
            MajorOpcode::Reserved1 => 0b11_010,
            MajorOpcode::Jal => 0b11_011,
            MajorOpcode::System => 0b11_100,
            MajorOpcode::Reserved2 => 0b11_101,
            MajorOpcode::Custom3 => 0b11_110,
            MajorOpcode::Reserved80b => 0b11_111,
        }
    }

    /// Extracts the major opcode of a raw instruction from bits 6:2 of a
    /// 32-bit encoding. There is none where the fetch was unaligned or
    /// faulted. A compressed instruction has to be expanded to its 32-bit
    /// form before its opcode is asked for.
    pub fn try_from(raw_inst: &RawInstruction) -> (opcode: Result<MajorOpcode, ()>)
        requires
            !(raw_inst is Compressed),
        ensures
            opcode == MajorOpcode::of(*raw_inst),
    {
        match raw_inst {
            RawInstruction::Regular(instruction) => {
                let opcode: u32 = (*instruction & 0b1111100) >> 2;
                let opcode_lower: u32 = opcode & 0b111;
                let opcode_upper: u32 = (opcode >> 3) & 0b11;
                let word: u32 = *instruction;
                assert(opcode_bits(word) == ((((word & 0b1111100) >> 2) >> 3) & 0b11) * 8 + (((word
                    & 0b1111100) >> 2) & 0b111) && ((((word & 0b1111100) >> 2) >> 3) & 0b11) < 4
                    && (((word & 0b1111100) >> 2) & 0b111) < 8) by (bit_vector);
                match (opcode_upper, opcode_lower) {
                    (0b00, 0b000) => Ok(MajorOpcode::Load),
                    (0b00, 0b001) => Ok(MajorOpcode::LoadFp),
                    (0b00, 0b010) => Ok(MajorOpcode::Custom0),
                    (0b00, 0b011) => Ok(MajorOpcode::MiscMem),
                    (0b00, 0b100) => Ok(MajorOpcode::OpImm),
                    (0b00, 0b101) => Ok(MajorOpcode::Auipc),
                    (0b00, 0b110) => Ok(MajorOpcode::OpImm32),
                    (0b00, 0b111) => Ok(MajorOpcode::Reserved48b0),
                    (0b01, 0b000) => Ok(MajorOpcode::Store),
                    (0b01, 0b001) => Ok(MajorOpcode::StoreFp),
                    (0b01, 0b010) => Ok(MajorOpcode::Custom1),
                    (0b01, 0b011) => Ok(MajorOpcode::Amo),
                    (0b01, 0b100) => Ok(MajorOpcode::Op),
                    (0b01, 0b101) => Ok(MajorOpcode::Lui),
                    (0b01, 0b110) => Ok(MajorOpcode::Op32),
                    (0b01, 0b111) => Ok(MajorOpcode::Reserved64b),
                    (0b10, 0b000) => Ok(MajorOpcode::MAdd),
                    (0b10, 0b001) => Ok(MajorOpcode::MSub),
                    (0b10, 0b010) => Ok(MajorOpcode::NMSub),
                    (0b10, 0b011) => Ok(MajorOpcode::NMAdd),
                    (0b10, 0b100) => Ok(MajorOpcode::OpFp),
                    (0b10, 0b101) => Ok(MajorOpcode::Reserved0),
                    (0b10, 0b110) => Ok(MajorOpcode::Custom2),
                    (0b10, 0b111) => Ok(MajorOpcode::Reserved48b1),
                    (0b11, 0b000) => Ok(MajorOpcode::Branch),
                    (0b11, 0b001) => Ok(MajorOpcode::Jalr),
                    (0b11, 0b010) => Ok(MajorOpcode::Reserved1),
                    (0b11, 0b011) => Ok(MajorOpcode::Jal),
                    (0b11, 0b100) => Ok(MajorOpcode::System),
                    (0b11, 0b101) => Ok(MajorOpcode::Reserved2),
                    (0b11, 0b110) => Ok(MajorOpcode::Custom3),
                    _ => Ok(MajorOpcode::Reserved80b),
                }
            },
            RawInstruction::Compressed(_) => Err(()),
            RawInstruction::Unaligned => Err(()),
            RawInstruction::Fault => Err(()),
        }
    }
}

/// Bits 11:7 of an encoding: the destination register.
pub open spec fn rd_bits(instruction: u32) -> u8 {
    ((instruction >> 7) & 0b11111) as u8
}

/// Bits 19:15 of an encoding: the first source register.
pub open spec fn rs1_bits(instruction: u32) -> u8 {
    ((instruction >> 15) & 0b11111) as u8
}

/// Bits 24:20 of an encoding: the second source register.
pub open spec fn rs2_bits(instruction: u32) -> u8 {
    ((instruction >> 20) & 0b11111) as u8
}

/// Bits 14:12 of an encoding.
pub open spec fn funct3_bits(instruction: u32) -> u8 {
    ((instruction >> 12) & 0b111) as u8
}

/// Bits 31:25 of an encoding.
pub open spec fn funct7_bits(instruction: u32) -> u8 {
    ((instruction >> 25) & 0b1111111) as u8
}

/// Bits 24:20 of an encoding: the shift amount of the immediate shifts.
pub open spec fn shamt_bits(instruction: u32) -> u8 {
    ((instruction >> 20) & 0b11111) as u8
}

/// The immediate of the I format: bits 31:20, sign-extended.
pub open spec fn imm_i_bits(instruction: u32) -> u32 {
    ((instruction as i32) >> 20) as u32
}

/// The immediate of the S format: bits 31:25 above bits 11:7, sign-extended.
pub open spec fn imm_s_bits(instruction: u32) -> u32 {
    ((((instruction & 0xfe00_0000) as i32) >> 20) as u32) | ((instruction >> 7) & 0b11111)
}

/// The immediate of the B format: a multiple of two made of bit 31, bit 7,
/// bits 30:25 and bits 11:8, in that order from the top, sign-extended.
pub open spec fn imm_b_bits(instruction: u32) -> u32 {
    ((((instruction & 0x8000_0000) as i32) >> 19) as u32) | ((instruction & 0x80) << 4) | ((
    instruction >> 20) & 0x7e0) | ((instruction >> 7) & 0x1e)
}

/// The immediate of the U format: bits 31:12 in place, zeros below.
pub open spec fn imm_u_bits(instruction: u32) -> u32 {
    instruction & 0xffff_f000
}

/// The immediate of the J format: a multiple of two made of bit 31, bits
/// 19:12, bit 20 and bits 30:21, in that order from the top, sign-extended.
pub open spec fn imm_j_bits(instruction: u32) -> u32 {
    ((((instruction & 0x8000_0000) as i32) >> 11) as u32) | (instruction & 0xf_f000) | ((
    instruction >> 9) & 0x800) | ((instruction >> 20) & 0x7fe)
}

/// Register numbers and function codes stay within their field widths.
pub proof fn lemma_field_ranges(instruction: u32)
    ensures
        rd_bits(instruction) < 32,
        rs1_bits(instruction) < 32,
        rs2_bits(instruction) < 32,
        shamt_bits(instruction) < 32,
        funct3_bits(instruction) < 8,
        funct7_bits(instruction) < 128,
{
    assert((((instruction >> 7) & 0b11111) as u8) < 32) by (bit_vector);
    assert((((instruction >> 15) & 0b11111) as u8) < 32) by (bit_vector);
    assert((((instruction >> 20) & 0b11111) as u8) < 32) by (bit_vector);
    assert((((instruction >> 12) & 0b111) as u8) < 8) by (bit_vector);
    assert((((instruction >> 25) & 0b1111111) as u8) < 128) by (bit_vector);
}

/// Read as two's complement numbers, the immediates stay within the reach of
/// their formats, and those of branches and jumps are even.
pub proof fn lemma_immediate_ranges(instruction: u32)
    ensures
        -2048 <= (imm_i_bits(instruction) as i32) < 2048,
        -2048 <= (imm_s_bits(instruction) as i32) < 2048,
        -4096 <= (imm_b_bits(instruction) as i32) < 4096,
        imm_b_bits(instruction) % 2 == 0,
        imm_u_bits(instruction) % 4096 == 0,
        -1048576 <= (imm_j_bits(instruction) as i32) < 1048576,
        imm_j_bits(instruction) % 2 == 0,
{
    assert(-2048 <= ((((instruction as i32) >> 20) as u32) as i32) < 2048) by (bit_vector);
    assert(-2048 <= ((((((instruction & 0xfe00_0000) as i32) >> 20) as u32) | ((instruction >> 7)
        & 0b11111)) as i32) < 2048) by (bit_vector);
    assert(-4096 <= ((((((instruction & 0x8000_0000) as i32) >> 19) as u32) | ((instruction
        & 0x80) << 4) | ((instruction >> 20) & 0x7e0) | ((instruction >> 7) & 0x1e)) as i32)
        < 4096) by (bit_vector);
    assert((((((instruction & 0x8000_0000) as i32) >> 19) as u32) | ((instruction & 0x80) << 4) | ((
    instruction >> 20) & 0x7e0) | ((instruction >> 7) & 0x1e)) % 2 == 0) by (bit_vector);
    assert((instruction & 0xffff_f000) % 4096 == 0) by (bit_vector);
    assert(-1048576 <= ((((((instruction & 0x8000_0000) as i32) >> 11) as u32) | (instruction
        & 0xf_f000) | ((instruction >> 9) & 0x800) | ((instruction >> 20) & 0x7fe)) as i32)
        < 1048576) by (bit_vector);
    assert((((((instruction & 0x8000_0000) as i32) >> 11) as u32) | (instruction & 0xf_f000) | ((
    instruction >> 9) & 0x800) | ((instruction >> 20) & 0x7fe)) % 2 == 0) by (bit_vector);
}

/// The encoding of the R format: three registers and two function codes.
pub open spec fn r_format(
    funct7: u8,
    rs2: u8,
    rs1: u8,
    funct3: u8,
    rd: u8,
    opcode: MajorOpcode,
) -> u32 {
    ((funct7 as u32) << 25) | ((rs2 as u32) << 20) | ((rs1 as u32) << 15) | ((funct3 as u32) << 12)
        | ((rd as u32) << 7) | (opcode.spec_bits() << 2) | 0b11
}

/// The encoding of the I format: two registers, a function code and a
/// 12-bit immediate.
pub open spec fn i_format(imm: u32, rs1: u8, funct3: u8, rd: u8, opcode: MajorOpcode) -> u32 {
    ((imm & 0xfff) << 20) | ((rs1 as u32) << 15) | ((funct3 as u32) << 12) | ((rd as u32) << 7) | (
    opcode.spec_bits() << 2) | 0b11
}

/// The encoding of the S format: two source registers, a function code and a
/// 12-bit immediate in two pieces.
pub open spec fn s_format(imm: u32, rs2: u8, rs1: u8, funct3: u8, opcode: MajorOpcode) -> u32 {
    ((imm & 0xfe0) << 20) | ((rs2 as u32) << 20) | ((rs1 as u32) << 15) | ((funct3 as u32) << 12)
        | ((imm & 0x1f) << 7) | (opcode.spec_bits() << 2) | 0b11
}

/// The encoding of the B format: that of the S format with the bits of an
/// even 13-bit immediate in another order.
pub open spec fn b_format(imm: u32, rs2: u8, rs1: u8, funct3: u8, opcode: MajorOpcode) -> u32 {
    ((imm & 0x1000) << 19) | ((imm & 0x7e0) << 20) | ((rs2 as u32) << 20) | ((rs1 as u32) << 15)
        | ((funct3 as u32) << 12) | ((imm & 0x1e) << 7) | ((imm & 0x800) >> 4) | (
    opcode.spec_bits() << 2) | 0b11
}

/// The encoding of the U format: a register and the upper 20 bits of an
/// immediate.
pub open spec fn u_format(imm: u32, rd: u8, opcode: MajorOpcode) -> u32 {
    (imm & 0xffff_f000) | ((rd as u32) << 7) | (opcode.spec_bits() << 2) | 0b11
}

/// The encoding of the J format: that of the U format with the bits of an
/// even 21-bit immediate in another order.
pub open spec fn j_format(imm: u32, rd: u8, opcode: MajorOpcode) -> u32 {
    ((imm & 0x10_0000) << 11) | ((imm & 0x7fe) << 20) | ((imm & 0x800) << 9) | (imm & 0xf_f000) | ((
    rd as u32) << 7) | (opcode.spec_bits() << 2) | 0b11
}

/// The accessors read back what the R format encodes.
pub proof fn lemma_r_format(
    funct7: u8,
    rs2: u8,
    rs1: u8,
    funct3: u8,
    rd: u8,
    opcode: MajorOpcode,
)
    requires
        funct7 < 128,
        rs2 < 32,
        rs1 < 32,
        funct3 < 8,
        rd < 32,
    ensures
        funct7_bits(r_format(funct7, rs2, rs1, funct3, rd, opcode)) == funct7,
        rs2_bits(r_format(funct7, rs2, rs1, funct3, rd, opcode)) == rs2,
        rs1_bits(r_format(funct7, rs2, rs1, funct3, rd, opcode)) == rs1,
        funct3_bits(r_format(funct7, rs2, rs1, funct3, rd, opcode)) == funct3,
        rd_bits(r_format(funct7, rs2, rs1, funct3, rd, opcode)) == rd,
        MajorOpcode::of(RawInstruction::Regular(r_format(funct7, rs2, rs1, funct3, rd, opcode)))
            == Ok::<MajorOpcode, ()>(opcode),
{
    let op = opcode.spec_bits();
    opcode.lemma_bits_round_trip();
    let e = ((funct7 as u32) << 25) | ((rs2 as u32) << 20) | ((rs1 as u32) << 15) | ((funct3 as u32)
        << 12) | ((rd as u32) << 7) | (op << 2) | 0b11;
    assert(((e >> 25) & 0b1111111) as u8 == funct7 && ((e >> 20) & 0b11111) as u8 == rs2 && ((e
        >> 15) & 0b11111) as u8 == rs1 && ((e >> 12) & 0b111) as u8 == funct3 && ((e >> 7)
        & 0b11111) as u8 == rd && (e >> 2) & 0b11111 == op) by (bit_vector)
        requires
            e == ((funct7 as u32) << 25) | ((rs2 as u32) << 20) | ((rs1 as u32) << 15) | ((
            funct3 as u32) << 12) | ((rd as u32) << 7) | (op << 2) | 0b11,
            funct7 < 128,
            rs2 < 32,
            rs1 < 32,
            funct3 < 8,
            rd < 32,
            op < 32,
    ;
}

/// The accessors read back what the I format encodes.
pub proof fn lemma_i_format(imm: u32, rs1: u8, funct3: u8, rd: u8, opcode: MajorOpcode)
    requires
        imm < 0x800 || imm >= 0xffff_f800,
        rs1 < 32,
        funct3 < 8,
        rd < 32,
    ensures
        imm_i_bits(i_format(imm, rs1, funct3, rd, opcode)) == imm,
        rs1_bits(i_format(imm, rs1, funct3, rd, opcode)) == rs1,
        funct3_bits(i_format(imm, rs1, funct3, rd, opcode)) == funct3,
        rd_bits(i_format(imm, rs1, funct3, rd, opcode)) == rd,
        shamt_bits(i_format(imm, rs1, funct3, rd, opcode)) as u32 == imm & 0b11111,
        MajorOpcode::of(RawInstruction::Regular(i_format(imm, rs1, funct3, rd, opcode))) == Ok::<
            MajorOpcode,
            (),
        >(opcode),
{
    let op = opcode.spec_bits();
    opcode.lemma_bits_round_trip();
    let e = ((imm & 0xfff) << 20) | ((rs1 as u32) << 15) | ((funct3 as u32) << 12) | ((rd as u32)
        << 7) | (op << 2) | 0b11;
    assert(((e as i32) >> 20) as u32 == imm && ((e >> 15) & 0b11111) as u8 == rs1 && ((e >> 12)
        & 0b111) as u8 == funct3 && ((e >> 7) & 0b11111) as u8 == rd && (((e >> 20) & 0b11111)
        as u8) as u32 == imm & 0b11111 && (e >> 2) & 0b11111 == op) by (bit_vector)
        requires
            e == ((imm & 0xfff) << 20) | ((rs1 as u32) << 15) | ((funct3 as u32) << 12) | ((
            rd as u32) << 7) | (op << 2) | 0b11,
            imm < 0x800 || imm >= 0xffff_f800,
            rs1 < 32,
            funct3 < 8,
            rd < 32,
            op < 32,
    ;
}

/// The accessors read back what the S and B formats encode.
pub proof fn lemma_s_b_format(imm: u32, rs2: u8, rs1: u8, funct3: u8, opcode: MajorOpcode)
    requires
        rs2 < 32,
        rs1 < 32,
        funct3 < 8,
    ensures
        imm < 0x800 || imm >= 0xffff_f800 ==> imm_s_bits(s_format(imm, rs2, rs1, funct3, opcode))
            == imm,
        (imm < 0x1000 || imm >= 0xffff_f000) && imm % 2 == 0 ==> imm_b_bits(
            b_format(imm, rs2, rs1, funct3, opcode),
        ) == imm,
        rs2_bits(s_format(imm, rs2, rs1, funct3, opcode)) == rs2,
        rs1_bits(s_format(imm, rs2, rs1, funct3, opcode)) == rs1,
        funct3_bits(s_format(imm, rs2, rs1, funct3, opcode)) == funct3,
        rs2_bits(b_format(imm, rs2, rs1, funct3, opcode)) == rs2,
        rs1_bits(b_format(imm, rs2, rs1, funct3, opcode)) == rs1,
        funct3_bits(b_format(imm, rs2, rs1, funct3, opcode)) == funct3,
        MajorOpcode::of(RawInstruction::Regular(s_format(imm, rs2, rs1, funct3, opcode))) == Ok::<
            MajorOpcode,
            (),
        >(opcode),
        MajorOpcode::of(RawInstruction::Regular(b_format(imm, rs2, rs1, funct3, opcode))) == Ok::<
            MajorOpcode,
            (),
        >(opcode),
{
    let op = opcode.spec_bits();
    opcode.lemma_bits_round_trip();
    let s = ((imm & 0xfe0) << 20) | ((rs2 as u32) << 20) | ((rs1 as u32) << 15) | ((funct3 as u32)
        << 12) | ((imm & 0x1f) << 7) | (op << 2) | 0b11;
    let b = ((imm & 0x1000) << 19) | ((imm & 0x7e0) << 20) | ((rs2 as u32) << 20) | ((rs1 as u32)
        << 15) | ((funct3 as u32) << 12) | ((imm & 0x1e) << 7) | ((imm & 0x800) >> 4) | (op << 2)
        | 0b11;
    assert((imm < 0x800 || imm >= 0xffff_f800 ==> ((((s & 0xfe00_0000) as i32) >> 20) as u32) | ((s
        >> 7) & 0b11111) == imm) && ((s >> 20) & 0b11111) as u8 == rs2 && ((s >> 15) & 0b11111)
        as u8 == rs1 && ((s >> 12) & 0b111) as u8 == funct3 && (s >> 2) & 0b11111 == op)
        by (bit_vector)
        requires
            s == ((imm & 0xfe0) << 20) | ((rs2 as u32) << 20) | ((rs1 as u32) << 15) | ((
            funct3 as u32) << 12) | ((imm & 0x1f) << 7) | (op << 2) | 0b11,
            rs2 < 32,
            rs1 < 32,
            funct3 < 8,
            op < 32,
    ;
    assert(((imm < 0x1000 || imm >= 0xffff_f000) && imm % 2 == 0 ==> ((((b & 0x8000_0000) as i32)
        >> 19) as u32) | ((b & 0x80) << 4) | ((b >> 20) & 0x7e0) | ((b >> 7) & 0x1e) == imm) && ((b
        >> 20) & 0b11111) as u8 == rs2 && ((b >> 15) & 0b11111) as u8 == rs1 && ((b >> 12) & 0b111)
        as u8 == funct3 && (b >> 2) & 0b11111 == op) by (bit_vector)
        requires
            b == ((imm & 0x1000) << 19) | ((imm & 0x7e0) << 20) | ((rs2 as u32) << 20) | ((
            rs1 as u32) << 15) | ((funct3 as u32) << 12) | ((imm & 0x1e) << 7) | ((imm & 0x800)
                >> 4) | (op << 2) | 0b11,
            rs2 < 32,
            rs1 < 32,
            funct3 < 8,
            op < 32,
    ;
}

/// The accessors read back what the U and J formats encode.
pub proof fn lemma_u_j_format(imm: u32, rd: u8, opcode: MajorOpcode)
    requires
        rd < 32,
    ensures
        imm_u_bits(u_format(imm, rd, opcode)) == imm & 0xffff_f000,
        (imm < 0x10_0000 || imm >= 0xfff0_0000) && imm % 2 == 0 ==> imm_j_bits(
            j_format(imm, rd, opcode),
        ) == imm,
        rd_bits(u_format(imm, rd, opcode)) == rd,
        rd_bits(j_format(imm, rd, opcode)) == rd,
        MajorOpcode::of(RawInstruction::Regular(u_format(imm, rd, opcode))) == Ok::<
            MajorOpcode,
            (),
        >(opcode),
        MajorOpcode::of(RawInstruction::Regular(j_format(imm, rd, opcode))) == Ok::<
            MajorOpcode,
            (),
        >(opcode),
{
    let op = opcode.spec_bits();
    opcode.lemma_bits_round_trip();
    let u = (imm & 0xffff_f000) | ((rd as u32) << 7) | (op << 2) | 0b11;
    let j = ((imm & 0x10_0000) << 11) | ((imm & 0x7fe) << 20) | ((imm & 0x800) << 9) | (imm
        & 0xf_f000) | ((rd as u32) << 7) | (op << 2) | 0b11;
    assert(u & 0xffff_f000 == imm & 0xffff_f000 && ((u >> 7) & 0b11111) as u8 == rd && (u >> 2)
        & 0b11111 == op) by (bit_vector)
        requires
            u == (imm & 0xffff_f000) | ((rd as u32) << 7) | (op << 2) | 0b11,
            rd < 32,
            op < 32,
    ;
    assert(((imm < 0x10_0000 || imm >= 0xfff0_0000) && imm % 2 == 0 ==> ((((j & 0x8000_0000) as i32)
        >> 11) as u32) | (j & 0xf_f000) | ((j >> 9) & 0x800) | ((j >> 20) & 0x7fe) == imm) && ((j
        >> 7) & 0b11111) as u8 == rd && (j >> 2) & 0b11111 == op) by (bit_vector)
        requires
            j == ((imm & 0x10_0000) << 11) | ((imm & 0x7fe) << 20) | ((imm & 0x800) << 9) | (imm
                & 0xf_f000) | ((rd as u32) << 7) | (op << 2) | 0b11,
            rd < 32,
            op < 32,
    ;
}

/// What the field accessors of `encoding` give back: the field where there
/// is a 32-bit encoding to read it from, and "not applicable" where there is
/// none.
pub open spec fn field<T>(encoding: Option<u32>, bits: spec_fn(u32) -> T) -> Option<T> {
    match encoding {
        Some(instruction) => Some(bits(instruction)),
        None => None,
    }
}

/// Access to the fields that the standard instruction formats share.
///
/// The accessors extract bits and nothing more: they do not ask whether the
/// field means anything for the opcode at hand. A compressed instruction has
/// to be expanded to its 32-bit form before its fields are asked for.
pub trait RISCVStandardFieldsAccessible {
    /// The 32-bit encoding that the fields are read from, if there is one.
    spec fn encoding(&self) -> Option<u32>;

    /// Whether this is a compressed instruction that has not been expanded.
    spec fn needs_expansion(&self) -> bool;

    /// The destination register.
    fn rd(&self) -> (field: Option<u8>)
        requires
            !self.needs_expansion(),
        ensures
            field == self::field(self.encoding(), |i: u32| rd_bits(i)),
    ;

    /// The first source register.
    fn rs1(&self) -> (field: Option<u8>)
        requires
            !self.needs_expansion(),
        ensures
            field == self::field(self.encoding(), |i: u32| rs1_bits(i)),
    ;

    /// The second source register.
    fn rs2(&self) -> (field: Option<u8>)
        requires
            !self.needs_expansion(),
        ensures
            field == self::field(self.encoding(), |i: u32| rs2_bits(i)),
    ;

    /// The three-bit function code.
    fn funct3(&self) -> (field: Option<u8>)
        requires
            !self.needs_expansion(),
        ensures
            field == self::field(self.encoding(), |i: u32| funct3_bits(i)),
    ;

    /// The seven-bit function code.
    fn funct7(&self) -> (field: Option<u8>)
        requires
            !self.needs_expansion(),
        ensures
            field == self::field(self.encoding(), |i: u32| funct7_bits(i)),
    ;

    /// The sign-extended immediate of the I format.
    fn imm_i(&self) -> (field: Option<u32>)
        requires
            !self.needs_expansion(),
        ensures
            field == self::field(self.encoding(), |i: u32| imm_i_bits(i)),
    ;

    /// The sign-extended immediate of the S format.
    fn imm_s(&self) -> (field: Option<u32>)
        requires
            !self.needs_expansion(),
        ensures
            field == self::field(self.encoding(), |i: u32| imm_s_bits(i)),
    ;

    /// The sign-extended immediate of the B format.
    fn imm_b(&self) -> (field: Option<u32>)
        requires
            !self.needs_expansion(),
        ensures
            field == self::field(self.encoding(), |i: u32| imm_b_bits(i)),
    ;

    /// The immediate of the U format.
    fn imm_u(&self) -> (field: Option<u32>)
        requires
            !self.needs_expansion(),
        ensures
            field == self::field(self.encoding(), |i: u32| imm_u_bits(i)),
    ;

    /// The sign-extended immediate of the J format.
    fn imm_j(&self) -> (field: Option<u32>)
        requires
            !self.needs_expansion(),
        ensures
            field == self::field(self.encoding(), |i: u32| imm_j_bits(i)),
    ;

    /// The shift amount of a shift by an immediate.
    fn shamt(&self) -> (field: Option<u8>)
        requires
            !self.needs_expansion(),
        ensures
            field == self::field(self.encoding(), |i: u32| shamt_bits(i)),
    ;
}

impl RISCVStandardFieldsAccessible for u32 {
    open spec fn encoding(&self) -> Option<u32> {
        Some(*self)
    }

    open spec fn needs_expansion(&self) -> bool {
        false
    }

    fn rd(&self) -> (field: Option<u8>) {
        Some(#[verifier::truncate] (((*self >> 7) & 0b11111) as u8))
    }

    fn rs1(&self) -> (field: Option<u8>) {
        Some(#[verifier::truncate] (((*self >> 15) & 0b11111) as u8))
    }

    fn rs2(&self) -> (field: Option<u8>) {
        Some(#[verifier::truncate] (((*self >> 20) & 0b11111) as u8))
    }

    fn funct3(&self) -> (field: Option<u8>) {
        Some(#[verifier::truncate] (((*self >> 12) & 0b111) as u8))
    }

    fn funct7(&self) -> (field: Option<u8>) {
        Some(#[verifier::truncate] (((*self >> 25) & 0b1111111) as u8))
    }

    fn imm_i(&self) -> (field: Option<u32>) {
        Some(#[verifier::truncate] (((#[verifier::truncate] (*self as i32)) >> 20) as u32))
    }

    fn imm_s(&self) -> (field: Option<u32>) {
        let upper: u32 = #[verifier::truncate] (((#[verifier::truncate] ((*self & 0xfe00_0000)
            as i32)) >> 20) as u32);
        Some(upper | ((*self >> 7) & 0b11111))
    }

    fn imm_b(&self) -> (field: Option<u32>) {
        let sign: u32 = #[verifier::truncate] (((#[verifier::truncate] ((*self & 0x8000_0000)
            as i32)) >> 19) as u32);
        Some(sign | ((*self & 0x80) << 4) | ((*self >> 20) & 0x7e0) | ((*self >> 7) & 0x1e))
    }

    fn imm_u(&self) -> (field: Option<u32>) {
        Some(*self & 0xffff_f000)
    }

    fn imm_j(&self) -> (field: Option<u32>) {
        let sign: u32 = #[verifier::truncate] (((#[verifier::truncate] ((*self & 0x8000_0000)
            as i32)) >> 11) as u32);
        Some(sign | (*self & 0xf_f000) | ((*self >> 9) & 0x800) | ((*self >> 20) & 0x7fe))
    }

    fn shamt(&self) -> (field: Option<u8>) {
        Some(#[verifier::truncate] (((*self >> 20) & 0b11111) as u8))
    }
}

impl RISCVStandardFieldsAccessible for RawInstruction {
    open spec fn encoding(&self) -> Option<u32> {
        match *self {
            RawInstruction::Regular(instruction) => Some(instruction),
            _ => None,
        }
    }

    open spec fn needs_expansion(&self) -> bool {
        *self is Compressed
    }

    fn rd(&self) -> (field: Option<u8>) {
        match self {
            RawInstruction::Regular(inst_bits) => inst_bits.rd(),
            _ => None,
        }
    }

    fn rs1(&self) -> (field: Option<u8>) {
        match self {
            RawInstruction::Regular(inst_bits) => inst_bits.rs1(),
            _ => None,
        }
    }

    fn rs2(&self) -> (field: Option<u8>) {
        match self {
            RawInstruction::Regular(inst_bits) => inst_bits.rs2(),
            _ => None,
        }
    }

    fn funct3(&self) -> (field: Option<u8>) {
        match self {
            RawInstruction::Regular(inst_bits) => inst_bits.funct3(),
            _ => None,
        }
    }

    fn funct7(&self) -> (field: Option<u8>) {
        match self {
            RawInstruction::Regular(inst_bits) => inst_bits.funct7(),
            _ => None,
        }
    }

    fn imm_i(&self) -> (field: Option<u32>) {
        match self {
            RawInstruction::Regular(inst_bits) => inst_bits.imm_i(),
            _ => None,
        }
    }

    fn imm_s(&self) -> (field: Option<u32>) {
        match self {
            RawInstruction::Regular(inst_bits) => inst_bits.imm_s(),
            _ => None,
        }
    }

    fn imm_b(&self) -> (field: Option<u32>) {
        match self {
            RawInstruction::Regular(inst_bits) => inst_bits.imm_b(),
            _ => None,
        }
    }

    fn imm_u(&self) -> (field: Option<u32>) {
        match self {
            RawInstruction::Regular(inst_bits) => inst_bits.imm_u(),
            _ => None,
        }
    }

    fn imm_j(&self) -> (field: Option<u32>) {
        match self {
            RawInstruction::Regular(inst_bits) => inst_bits.imm_j(),
            _ => None,
        }
    }

    fn shamt(&self) -> (field: Option<u8>) {
        match self {
            RawInstruction::Regular(inst_bits) => inst_bits.shamt(),
            _ => None,
        }
    }
}

/// The registry of instruction handlers: at most one per major opcode.
pub struct Decoder {
    handlers: [Option<Box<dyn InstructionHandler>>; 32],
}

impl Decoder {
    /// The handler registered for `opcode`, if there is one.
    pub closed spec fn handler(&self, opcode: MajorOpcode) -> Option<Box<dyn InstructionHandler>> {
        self.handlers@[opcode.spec_bits() as int]
    }

    /// A decoder without handlers.
    pub fn new() -> (decoder: Decoder)
        ensures
            forall|opcode: MajorOpcode| decoder.handler(opcode) is None,
    {
        Decoder {
            handlers: [
                None,
                None,
                None,
                None,
                None,
                None,
                None,
                None,
                None,
                None,
                None,
                None,
                None,
                None,
                None,
                None,
                None,
                None,
                None,
                None,
                None,
                None,
                None,
                None,
                None,
                None,
                None,
                None,
                None,
                None,
                None,
                None,
            ],
        }
    }

    /// The handler that a raw instruction resolves to: the one registered for
    /// its major opcode, if it has an opcode and a handler is registered.
    pub open spec fn resolve(&self, raw_inst: RawInstruction) -> Option<Box<dyn InstructionHandler>> {
        match MajorOpcode::of(raw_inst) {
            Ok(opcode) => self.handler(opcode),
            Err(_) => None,
        }
    }

    /// What registering `handler` does to a decoder, from `self` to `post`,
    /// and what it hands back: the handler takes the place of `previous`, the
    /// one registered for its opcode so far; those of other opcodes stay.
    pub open spec fn registered(
        &self,
        post: &Decoder,
        handler: &Box<dyn InstructionHandler>,
        previous: Option<Box<dyn InstructionHandler>>,
    ) -> bool {
        &&& previous == self.handler(handler.opcode())
        &&& post.handler(handler.opcode()) is Some
        &&& post.handler(handler.opcode())->0 == *handler
        &&& forall|opcode: MajorOpcode|
            opcode != handler.opcode() ==> post.handler(opcode) == self.handler(opcode)
    }

    /// Of two handlers registered one after the other for the same opcode,
    /// the second registration hands the first handler back, and every
    /// instruction of that opcode resolves to the second from then on.
    pub proof fn lemma_second_registration_evicts_first(
        &self,
        after_first: &Decoder,
        after_second: &Decoder,
        first: &Box<dyn InstructionHandler>,
        second: &Box<dyn InstructionHandler>,
        first_previous: Option<Box<dyn InstructionHandler>>,
        second_previous: Option<Box<dyn InstructionHandler>>,
        raw_inst: RawInstruction,
    )
        requires
            first.opcode() == second.opcode(),
            self.registered(after_first, first, first_previous),
            after_first.registered(after_second, second, second_previous),
            MajorOpcode::of(raw_inst) == Ok::<MajorOpcode, ()>(second.opcode()),
        ensures
            second_previous is Some,
            second_previous->0 == *first,
            after_second.resolve(raw_inst) is Some,
            after_second.resolve(raw_inst)->0 == *second,
    {
    }

    /// A decoder is what it has registered: two decoders with the same
    /// handler for every major opcode are equal.
    pub proof fn lemma_equal_by_handlers(&self, other: &Decoder)
        requires
            forall|opcode: MajorOpcode| self.handler(opcode) == other.handler(opcode),
        ensures
            *self == *other,
    {
        assert forall|i: int| 0 <= i < 32 implies self.handlers@[i] == other.handlers@[i] by {
            MajorOpcode::lemma_from_bits_round_trip(i as u32);
            assert(self.handler(MajorOpcode::from_bits(i as u32)) == other.handler(
                MajorOpcode::from_bits(i as u32),
            ));
        }
        assert(self.handlers@ =~= other.handlers@);
        assert(self.handlers == other.handlers);
    }

    /// Installs `handler` for the major opcode it answers for and hands back
    /// the handler that was registered for that opcode before, if any.
    /// Handlers of other opcodes stay as they are.
    pub fn register_handler(&mut self, handler: Box<dyn InstructionHandler>) -> (previous: Option<
        Box<dyn InstructionHandler>,
    >)
        ensures
            old(self).registered(final(self), &handler, previous),
    {
        let entry = Some(handler);
        self.install(entry)
    }

    /// Puts the handler in `entry` in the place of the one registered for its
    /// major opcode and hands that one back.
    pub(crate) fn install(&mut self, entry: Option<Box<dyn InstructionHandler>>) -> (previous: Option<
        Box<dyn InstructionHandler>,
    >)
        requires
            entry is Some,
        ensures
            old(self).registered(final(self), &entry->0, previous),
    {
        let mut entry = entry;
        let opcode = match &entry {
            Some(handler) => handler.get_major_opcode_handled(),
            None => MajorOpcode::Load,
        };
        let index: usize = opcode.bits() as usize;
        std::mem::swap(&mut self.handlers[index], &mut entry);
        assert forall|other: MajorOpcode| other != opcode implies self.handler(other) == old(
            self).handler(other) by {
            other.lemma_bits_round_trip();
            opcode.lemma_bits_round_trip();
        }
        entry
    }

    /// Resolves a raw instruction to the handler registered for its major
    /// opcode. There is none where the fetch brought no instruction back, nor
    /// where nothing is registered for the opcode. A compressed instruction
    /// has to be expanded to its 32-bit form first.
    pub fn decode(&mut self, raw_inst: RawInstruction) -> (found: Result<
        &mut Box<dyn InstructionHandler>,
        (),
    >)
        requires
            !(raw_inst is Compressed),
        ensures
            match found {
                Ok(handler) => {
                    &&& old(self).resolve(raw_inst) is Some
                    &&& *handler == old(self).resolve(raw_inst)->0
                    &&& final(self).resolve(raw_inst) is Some
                    &&& final(self).resolve(raw_inst)->0 == *final(handler)
                    &&& forall|opcode: MajorOpcode|
                        Ok::<MajorOpcode, ()>(opcode) != MajorOpcode::of(raw_inst) ==> final(
                            self).handler(opcode) == old(self).handler(opcode)
                },
                Err(_) => {
                    &&& old(self).resolve(raw_inst) is None
                    &&& *final(self) == *old(self)
                },
            },
    {
        let major_opcode = match MajorOpcode::try_from(&raw_inst) {
            Ok(opcode) => opcode,
            Err(_) => {
                return Err(());
            },
        };
        let index: usize = major_opcode.bits() as usize;
        proof {
            assert forall|other: MajorOpcode| other != major_opcode implies other.spec_bits()
                != major_opcode.spec_bits() by {
                other.lemma_bits_round_trip();
                major_opcode.lemma_bits_round_trip();
            }
        }
        if self.handlers[index].is_none() {
            return Err(());
        }
        match &mut self.handlers[index] {
            Some(handler) => Ok(handler),
            None => Err(()),
        }
    }
}

} // verus!
