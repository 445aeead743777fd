//! The base integer instruction set: the handlers of the two ALU groups, and
//! the handler types of loads and stores.

use vstd::prelude::*;
use crate::decode::{
    funct3_bits,
    funct7_bits,
    imm_i_bits,
    lemma_field_ranges,
    rd_bits,
    rs1_bits,
    rs2_bits,
    shamt_bits,
    MajorOpcode,
    RISCVStandardFieldsAccessible,
};
use crate::fetch::RawInstruction;
use crate::instruction_handler::InstructionHandler;
use crate::pmmap::PhysicalMemoryMap;
use crate::state::{State, StateView};

verus! {

/// The number that a register value stands for when it is read as a two's
/// complement number.
pub open spec fn signed(value: u32) -> int {
    if value < 0x8000_0000 {
        value as int
    } else {
        value - 0x1_0000_0000
    }
}

/// The result of the register-register operation that `funct7` and `funct3`
/// select, on the operands `rs1` and `rs2`; none where the pair selects no
/// operation. All arithmetic is modulo 2^32, and shifts go by the low five
/// bits of `rs2`.
pub open spec fn op_result(funct7: u8, funct3: u8, rs1: u32, rs2: u32) -> Option<u32> {
    if funct7 == 0b0000000 && funct3 == 0b000 {
        Some(rs1.wrapping_add(rs2))
    } else if funct7 == 0b0100000 && funct3 == 0b000 {
        Some(rs1.wrapping_sub(rs2))
    } else if funct7 == 0b0000000 && funct3 == 0b001 {
        Some(rs1 << (rs2 & 0b11111))
    } else if funct7 == 0b0000000 && funct3 == 0b010 {
        Some(
            if signed(rs1) < signed(rs2) {
                1u32
            } else {
                0u32
            },
        )
    } else if funct7 == 0b0000000 && funct3 == 0b011 {
        Some(
            if rs1 < rs2 {
                1u32
            } else {
                0u32
            },
        )
    } else if funct7 == 0b0000000 && funct3 == 0b100 {
        Some(rs1 ^ rs2)
    } else if funct7 == 0b0000000 && funct3 == 0b101 {
        Some(rs1 >> (rs2 & 0b11111))
    } else if funct7 == 0b0100000 && funct3 == 0b101 {
        Some(((rs1 as i32) >> (rs2 & 0b11111)) as u32)
    } else if funct7 == 0b0000000 && funct3 == 0b110 {
        Some(rs1 | rs2)
    } else if funct7 == 0b0000000 && funct3 == 0b111 {
        Some(rs1 & rs2)
    } else {
        None
    }
}

/// The result of the register-immediate operation that `funct3` selects, on
/// the operand `rs1` and the sign-extended immediate `imm`; none where the
/// encoding selects no operation. Shifts go by `shamt`, and `funct7` tells
/// the logical right shift from the arithmetic one.
pub open spec fn op_imm_result(funct7: u8, funct3: u8, rs1: u32, imm: u32, shamt: u8) -> Option<
    u32,
> {
    if funct3 == 0b000 {
        Some(rs1.wrapping_add(imm))
    } else if funct3 == 0b001 {
        Some(rs1 << shamt)
    } else if funct3 == 0b010 {
        Some(
            if signed(rs1) < signed(imm) {
                1u32
            } else {
                0u32
            },
        )
    } else if funct3 == 0b011 {
        Some(
            if rs1 < imm {
                1u32
            } else {
                0u32
            },
        )
    } else if funct3 == 0b100 {
        Some(rs1 ^ imm)
    } else if funct3 == 0b101 && funct7 == 0b0000000 {
        Some(rs1 >> shamt)
    } else if funct3 == 0b101 && funct7 == 0b0100000 {
        Some(((rs1 as i32) >> shamt) as u32)
    } else if funct3 == 0b110 {
        Some(rs1 | imm)
    } else if funct3 == 0b111 {
        Some(rs1 & imm)
    } else {
        None
    }
}

/// Whether `funct7` and `funct3` select a register-register operation. The
/// operands have no say in it.
pub open spec fn op_legal(funct7: u8, funct3: u8) -> bool {
    op_result(funct7, funct3, 0, 0) is Some
}

/// Whether `funct7` and `funct3` select a register-immediate operation. The
/// operands have no say in it. For all but the right shifts `funct7` is a
/// part of the immediate and selects nothing.
pub open spec fn op_imm_legal(funct7: u8, funct3: u8) -> bool {
    op_imm_result(funct7, funct3, 0, 0, 0) is Some
}

/// The state after the register-register instruction `instruction`, where
/// its function codes select an operation: the result is in `rd`.
pub open spec fn op_executed(state: StateView, instruction: u32) -> Option<StateView> {
    match op_result(
        funct7_bits(instruction),
        funct3_bits(instruction),
        state.regs[rs1_bits(instruction) as int],
        state.regs[rs2_bits(instruction) as int],
    ) {
        Some(result) => Some(state.write_reg(rd_bits(instruction), result)),
        None => None,
    }
}

/// The state after the register-immediate instruction `instruction`, where
/// its function codes select an operation: the result is in `rd`.
pub open spec fn op_imm_executed(state: StateView, instruction: u32) -> Option<StateView> {
    match op_imm_result(
        funct7_bits(instruction),
        funct3_bits(instruction),
        state.regs[rs1_bits(instruction) as int],
        imm_i_bits(instruction),
        shamt_bits(instruction),
    ) {
        Some(result) => Some(state.write_reg(rd_bits(instruction), result)),
        None => None,
    }
}

/// A cast to `i32` reads a register value as a two's complement number.
pub proof fn lemma_cast_is_signed(value: u32)
    ensures
        (value as i32) as int == signed(value),
{
    assert(value < 0x8000_0000u32 ==> (value as i32) == value) by (bit_vector);
    assert(value >= 0x8000_0000u32 ==> (value as i32) == value - 0x1_0000_0000) by (bit_vector);
}

/// Addition and subtraction are modulo 2^32, with a register or with an
/// immediate, which counts as the two's complement number it encodes.
pub proof fn lemma_add_sub_wrap(rs1: u32, rs2: u32, funct7: u8, shamt: u8)
    ensures
        op_result(0b0000000, 0b000, rs1, rs2) == Some(((rs1 + rs2) % 0x1_0000_0000) as u32),
        op_result(0b0100000, 0b000, rs1, rs2) == Some(((rs1 - rs2) % 0x1_0000_0000) as u32),
        op_imm_result(funct7, 0b000, rs1, rs2, shamt) == Some(
            ((rs1 + signed(rs2)) % 0x1_0000_0000) as u32,
        ),
{
    let sum = rs1.wrapping_add(rs2);
    let difference = rs1.wrapping_sub(rs2);
    assert(sum == if rs1 + rs2 > u32::MAX {
        rs1 + rs2 - 0x1_0000_0000
    } else {
        rs1 + rs2
    });
    assert(difference == if rs1 - rs2 < 0 {
        rs1 - rs2 + 0x1_0000_0000
    } else {
        rs1 - rs2
    });
}

/// The signed and the unsigned comparison agree exactly where both operands
/// lie on the same side of the sign boundary. Where they do not, the operand
/// with the top bit set is the smaller one signed and the larger one unsigned.
pub proof fn lemma_slt_sltu(rs1: u32, rs2: u32)
    ensures
        op_result(0, 0b010, rs1, rs2) == op_result(0, 0b011, rs1, rs2) <==> (rs1 < 0x8000_0000
            <==> rs2 < 0x8000_0000),
        rs1 >= 0x8000_0000 && rs2 < 0x8000_0000 ==> op_result(0, 0b010, rs1, rs2) == Some(1u32)
            && op_result(0, 0b011, rs1, rs2) == Some(0u32),
        rs1 < 0x8000_0000 && rs2 >= 0x8000_0000 ==> op_result(0, 0b010, rs1, rs2) == Some(0u32)
            && op_result(0, 0b011, rs1, rs2) == Some(1u32),
{
}

/// The handler type of the major opcode `Load`. What a load does when its
/// access fails is a matter of how the machine traps, which an embedder
/// decides: the type comes without an implementation of the handler contract.
pub struct LoadInstructionHandler {}

/// The handler type of the major opcode `Store`. What a store does when its
/// access fails is a matter of how the machine traps, which an embedder
/// decides: the type comes without an implementation of the handler contract.
pub struct StoreInstructionHandler {}

/// Handler of the major opcode `Op`: the register-register ALU group.
pub struct OpInstructionHandler {}

/// Handler of the major opcode `OpImm`: the register-immediate ALU group.
pub struct OpImmInstructionHandler {}

impl OpInstructionHandler {
    /// A handler of the register-register ALU group. It holds no state.
    pub fn new() -> (handler: Self)
        ensures
            handler.opcode() == MajorOpcode::Op,
    {
        Self {  }
    }
}

impl OpImmInstructionHandler {
    /// A handler of the register-immediate ALU group. It holds no state.
    pub fn new() -> (handler: Self)
        ensures
            handler.opcode() == MajorOpcode::OpImm,
    {
        Self {  }
    }
}

impl LoadInstructionHandler {
    /// A value of the handler type of loads. It holds no state.
    pub fn new() -> Self {
        Self {  }
    }
}

impl StoreInstructionHandler {
    /// A value of the handler type of stores. It holds no state.
    pub fn new() -> Self {
        Self {  }
    }
}

impl InstructionHandler for OpInstructionHandler {
    open spec fn opcode(&self) -> MajorOpcode {
        MajorOpcode::Op
    }

    open spec fn handled(
        &self,
        instruction: RawInstruction,
        before: StateView,
        after: StateView,
        memory_before: &PhysicalMemoryMap,
        memory_after: &PhysicalMemoryMap,
    ) -> bool {
        &&& Some(after) == op_executed(before, instruction->Regular_0)
        &&& *memory_after == *memory_before
    }

    open spec fn legal(&self, instruction: RawInstruction) -> bool {
        op_legal(funct7_bits(instruction->Regular_0), funct3_bits(instruction->Regular_0))
    }

    fn get_major_opcode_handled(&self) -> (opcode: MajorOpcode) {
        MajorOpcode::Op
    }

    fn is_legal(&self, instruction: RawInstruction) -> (legal: bool) {
        let funct3: u8 = instruction.funct3().unwrap();
        let funct7: u8 = instruction.funct7().unwrap();
        match (funct7, funct3) {
            (0b0000000, 0b000) => true,
            (0b0100000, 0b000) => true,
            (0b0000000, 0b001) => true,
            (0b0000000, 0b010) => true,
            (0b0000000, 0b011) => true,
            (0b0000000, 0b100) => true,
            (0b0000000, 0b101) => true,
            (0b0100000, 0b101) => true,
            (0b0000000, 0b110) => true,
            (0b0000000, 0b111) => true,
            _ => false,
        }
    }

    /// Reads `rs1` and `rs2`, performs the operation that `funct7` and
    /// `funct3` select and writes the result to `rd`. Memory is not touched.
    fn handle(&self, state: &mut State, pmmap: &mut PhysicalMemoryMap, instruction: RawInstruction) {
        proof {
            lemma_field_ranges(instruction->Regular_0);
        }
        let rd_index: u8 = instruction.rd().unwrap();
        let rs1_index: u8 = instruction.rs1().unwrap();
        let rs2_index: u8 = instruction.rs2().unwrap();
        let funct3: u8 = instruction.funct3().unwrap();
        let funct7: u8 = instruction.funct7().unwrap();

        let rs1: u32 = state.get_r(rs1_index);
        let rs2: u32 = state.get_r(rs2_index);
        proof {
            lemma_cast_is_signed(rs1);
            lemma_cast_is_signed(rs2);
        }
        assert((rs2 & 0b11111) < 32) by (bit_vector);

        let result: u32 = match (funct7, funct3) {
            (0b0000000, 0b000) => rs1.wrapping_add(rs2),
            (0b0100000, 0b000) => rs1.wrapping_sub(rs2),
            (0b0000000, 0b001) => rs1 << (rs2 & 0b11111),
            (0b0000000, 0b010) => if (#[verifier::truncate] (rs1 as i32)) < (
            #[verifier::truncate] (rs2 as i32)) {
                1
            } else {
                0
            },
            (0b0000000, 0b011) => if rs1 < rs2 {
                1
            } else {
                0
            },
            (0b0000000, 0b100) => rs1 ^ rs2,
            (0b0000000, 0b101) => rs1 >> (rs2 & 0b11111),
            (0b0100000, 0b101) => #[verifier::truncate] (((#[verifier::truncate] (rs1 as i32)) >> (
            rs2 & 0b11111)) as u32),
            (0b0000000, 0b110) => rs1 | rs2,
            (0b0000000, 0b111) => rs1 & rs2,
            _ => unreached(),
        };

        state.set_r(rd_index, result);
    }
}

impl InstructionHandler for OpImmInstructionHandler {
    open spec fn opcode(&self) -> MajorOpcode {
        MajorOpcode::OpImm
    }

    open spec fn handled(
        &self,
        instruction: RawInstruction,
        before: StateView,
        after: StateView,
        memory_before: &PhysicalMemoryMap,
        memory_after: &PhysicalMemoryMap,
    ) -> bool {
        &&& Some(after) == op_imm_executed(before, instruction->Regular_0)
        &&& *memory_after == *memory_before
    }

    open spec fn legal(&self, instruction: RawInstruction) -> bool {
        op_imm_legal(funct7_bits(instruction->Regular_0), funct3_bits(instruction->Regular_0))
    }

    fn get_major_opcode_handled(&self) -> (opcode: MajorOpcode) {
        MajorOpcode::OpImm
    }

    fn is_legal(&self, instruction: RawInstruction) -> (legal: bool) {
        proof {
            lemma_field_ranges(instruction->Regular_0);
        }
        let funct3: u8 = instruction.funct3().unwrap();
        let funct7: u8 = instruction.funct7().unwrap();
        funct3 != 0b101 || funct7 == 0b0000000 || funct7 == 0b0100000
    }

    /// Reads `rs1`, performs the operation that `funct3` selects with the
    /// sign-extended immediate, or with the shift amount for a shift, and
    /// writes the result to `rd`. Memory is not touched.
    fn handle(&self, state: &mut State, pmmap: &mut PhysicalMemoryMap, instruction: RawInstruction) {
        proof {
            lemma_field_ranges(instruction->Regular_0);
        }
        let rd_index: u8 = instruction.rd().unwrap();
        let rs1_index: u8 = instruction.rs1().unwrap();
        let funct3: u8 = instruction.funct3().unwrap();
        let funct7: u8 = instruction.funct7().unwrap();
        let imm: u32 = instruction.imm_i().unwrap();
        let shamt: u8 = instruction.shamt().unwrap();

        let rs1: u32 = state.get_r(rs1_index);
        proof {
            lemma_cast_is_signed(rs1);
            lemma_cast_is_signed(imm);
        }

        let result: u32 = match funct3 {
            0b000 => rs1.wrapping_add(imm),
            0b001 => rs1 << shamt,
            0b010 => if (#[verifier::truncate] (rs1 as i32)) < (#[verifier::truncate] (imm as i32)) {
                1
            } else {
                0
            },
            0b011 => if rs1 < imm {
                1
            } else {
                0
            },
            0b100 => rs1 ^ imm,
            0b101 => {
                if funct7 == 0b0000000 {
                    rs1 >> shamt
                } else if funct7 == 0b0100000 {
                    #[verifier::truncate] (((#[verifier::truncate] (rs1 as i32)) >> shamt) as u32)
                } else {
                    unreached()
                }
            },
            0b110 => rs1 | imm,
            0b111 => rs1 & imm,
            _ => unreached(),
        };

        state.set_r(rd_index, result);
    }
}

} // verus!
