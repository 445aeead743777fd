//! The architectural state of the emulated hart.

use vstd::prelude::*;

verus! {

/// Number of general-purpose registers, the hard-wired `x0` included.
pub const NUM_REGISTERS: u8 = 32;

/// `std::time::Instant`, a reading of the monotonic clock. Nothing is known
/// of what is inside.
#[verifier::external_type_specification]
#[verifier::external_body]
pub struct ExInstant(std::time::Instant);

/// What a [`State`] holds, as mathematical values.
///
/// In the view of a `State`, `regs` has 32 entries and entry 0 is zero, so
/// that the hard-wired register needs no special case in specifications.
pub struct StateView {
    pub pc: u32,
    pub regs: Seq<u32>,
    pub retired: u64,
}

impl StateView {
    /// The state that results from writing `val` to register `r`.
    /// Writes to register 0 are discarded.
    pub open spec fn write_reg(self, r: u8, val: u32) -> StateView {
        if r == 0 {
            self
        } else {
            StateView { regs: self.regs.update(r as int, val), ..self }
        }
    }

    /// The state that results from retiring one more instruction.
    /// The counter wraps around at 2^64.
    pub open spec fn retire(self) -> StateView {
        StateView {
            retired: if self.retired == u64::MAX {
                0
            } else {
                (self.retired + 1) as u64
            },
            ..self
        }
    }

    /// The state that results from retiring `n` instructions in a row.
    pub open spec fn retire_many(self, n: nat) -> StateView
        decreases n,
    {
        if n == 0 {
            self
        } else {
            self.retire_many((n - 1) as nat).retire()
        }
    }

    /// The state that results from the register writes `writes`, each a
    /// register number and a value, in their order.
    pub open spec fn write_regs(self, writes: Seq<(u8, u32)>) -> StateView
        decreases writes.len(),
    {
        if writes.len() == 0 {
            self
        } else {
            self.write_regs(writes.drop_last()).write_reg(writes.last().0, writes.last().1)
        }
    }

    /// After `n` retirements the counter has advanced by `n` modulo 2^64, and
    /// nothing else has changed.
    pub proof fn lemma_retire_many(self, n: nat)
        ensures
            self.retire_many(n).retired == (self.retired + n) % 0x1_0000_0000_0000_0000,
            self.retire_many(n).pc == self.pc,
            self.retire_many(n).regs == self.regs,
        decreases n,
    {
        if n > 0 {
            self.lemma_retire_many((n - 1) as nat);
            let before = self.retire_many((n - 1) as nat);
            assert(before.retire().retired == (before.retired + 1) % 0x1_0000_0000_0000_0000);
            assert(((self.retired + (n - 1)) % 0x1_0000_0000_0000_0000 + 1)
                % 0x1_0000_0000_0000_0000 == (self.retired + n) % 0x1_0000_0000_0000_0000)
                by (nonlinear_arith);
        }
    }

    /// Register 0 is immutable: whatever is written to whichever registers,
    /// register 0 holds what it held before. A sequence of writes that all go
    /// to register 0 changes nothing at all.
    pub proof fn lemma_register_zero_immutable(self, writes: Seq<(u8, u32)>)
        requires
            self.regs.len() == 32,
            forall|i: int| 0 <= i < writes.len() ==> (#[trigger] writes[i]).0 < 32,
        ensures
            self.write_regs(writes).regs.len() == 32,
            self.write_regs(writes).regs[0] == self.regs[0],
            (forall|i: int| 0 <= i < writes.len() ==> (#[trigger] writes[i]).0 == 0)
                ==> self.write_regs(writes) == self,
        decreases writes.len(),
    {
        if writes.len() > 0 {
            self.lemma_register_zero_immutable(writes.drop_last());
            assert(writes.last() == writes[writes.len() - 1]);
            assert forall|i: int| 0 <= i < writes.drop_last().len() implies (
            #[trigger] writes.drop_last()[i]).0 == writes[i].0 by {}
        }
    }
}

/// Program counter, general-purpose registers and retirement bookkeeping.
///
/// Register 0 is not stored: it reads as zero and ignores writes.
pub struct State {
    pc: u32,
    registers: [u32; 31],
    insts_retired: u64,
    boot_time: std::time::Instant,
}

impl View for State {
    type V = StateView;

    closed spec fn view(&self) -> StateView {
        StateView {
            pc: self.pc,
            regs: Seq::new(
                32,
                |i: int|
                    if 1 <= i < 32 {
                        self.registers@[i - 1]
                    } else {
                        0u32
                    },
            ),
            retired: self.insts_retired,
        }
    }
}

/// Reads the monotonic clock through `std::time::Instant::now`.
/// Nothing is claimed of the instant that comes back.
#[verifier::external_body]
fn instant_now() -> std::time::Instant {
    std::time::Instant::now()
}

/// Asks `std::time::Instant::elapsed` how long ago `since` was taken.
/// Nothing is claimed of the duration that comes back.
#[verifier::external_body]
fn instant_elapsed(since: &std::time::Instant) -> std::time::Duration {
    since.elapsed()
}

impl State {
    /// Every view of a state has 32 registers, the first of which is zero.
    pub proof fn lemma_view_shape(&self)
        ensures
            self@.regs.len() == 32,
            self@.regs[0] == 0,
    {
    }

    /// A fresh state: program counter zero, all registers zero, nothing retired.
    pub fn new() -> (state: State)
        ensures
            state@.pc == 0,
            state@.regs == Seq::new(32, |i: int| 0u32),
            state@.retired == 0,
    {
        let state = State {
            pc: 0,
            registers: [0;31],
            insts_retired: 0,
            boot_time: instant_now(),
        };
        assert(state@.regs =~= Seq::new(32, |i: int| 0u32));
        state
    }

    /// The current program counter.
    pub fn pc(&self) -> (pc: u32)
        ensures
            pc == self@.pc,
    {
        self.pc
    }

    /// Redirects the program counter; registers and retirement count stay.
    pub fn set_pc(&mut self, pc: u32)
        ensures
            final(self)@ == (StateView { pc, ..old(self)@ }),
    {
        self.pc = pc;
        assert(self@.regs =~= old(self)@.regs);
    }

    /// Reads general-purpose register `r`; register 0 reads as zero.
    pub fn get_r(&self, r: u8) -> (val: u32)
        requires
            r < NUM_REGISTERS,
        ensures
            val == self@.regs[r as int],
            r == 0 ==> val == 0,
    {
        if r == 0 {
            0
        } else {
            self.registers[(r as usize) - 1]
        }
    }

    /// Writes general-purpose register `r`; a write to register 0 changes nothing.
    pub fn set_r(&mut self, r: u8, val: u32)
        requires
            r < NUM_REGISTERS,
        ensures
            final(self)@ == old(self)@.write_reg(r, val),
            final(self)@.regs[0] == 0,
    {
        if r != 0 {
            self.registers[(r as usize) - 1] = val;
            assert(self@.regs =~= old(self)@.regs.update(r as int, val));
        }
    }

    /// Counts one more retired instruction, wrapping around at 2^64.
    pub fn retire_inst(&mut self)
        ensures
            final(self)@ == old(self)@.retire(),
    {
        self.insts_retired = self.insts_retired.wrapping_add(1);
        assert(self@.regs =~= old(self)@.regs);
    }

    /// How many instructions have been retired, modulo 2^64.
    pub fn retired_insts(&self) -> (n: u64)
        ensures
            n == self@.retired,
    {
        self.insts_retired
    }

    /// Wall-clock time since this state was created.
    pub fn time_since_boot(&self) -> std::time::Duration {
        instant_elapsed(&self.boot_time)
    }
}

} // verus!
