//! The emulator instance: owner of the machine state, the memory map and the
//! decoder, and driver of the fetch, decode, execute, retire cycle.

use vstd::prelude::*;
use crate::decode::{Decoder, MajorOpcode};
use crate::fetch::{fetch_raw, fetched, RawInstruction};
use crate::instruction_handler::InstructionHandler;
use crate::logging::{init_logging, LogLevel, LogReciever, Logger};
use crate::pmmap::memory_handler::{AccessSize, AccessType, MemoryHandler};
use crate::pmmap::{PhysicalMemoryMap, Slot};
use crate::state::{State, StateView};

verus! {

/// Why a tick did not retire an instruction.
#[derive(Debug, Clone, Copy, PartialEq, Eq, Structural)]
pub enum TickError {
    /// Nothing executes what was fetched: the fetch brought no instruction
    /// back, or a compressed one that nothing expands, or no handler is
    /// registered for the major opcode.
    Unhandled,
    /// The handler of the major opcode finds the encoding illegal.
    IllegalInstruction,
}

/// Whether `decoder` resolves `raw_inst` to a handler: it is a 32-bit
/// encoding and a handler is registered for its major opcode.
pub open spec fn resolvable(decoder: &Decoder, raw_inst: RawInstruction) -> bool {
    !(raw_inst is Compressed) && decoder.resolve(raw_inst) is Some
}

/// What executing `raw_inst` does, with the handlers of `decoder`, to the
/// machine, from `before` to `after`, and to the memory map.
///
/// An instruction that resolves to no handler is unhandled and changes
/// nothing. One that its handler finds illegal changes nothing either. Any
/// other is given to its handler, has the meaning that the handler gives it
/// and is then counted as retired.
pub open spec fn executed(
    decoder: &Decoder,
    raw_inst: RawInstruction,
    before: StateView,
    after: StateView,
    memory_before: &PhysicalMemoryMap,
    memory_after: &PhysicalMemoryMap,
    result: Result<(), TickError>,
) -> bool {
    if !resolvable(decoder, raw_inst) {
        &&& result == Err::<(), TickError>(TickError::Unhandled)
        &&& after == before
        &&& *memory_after == *memory_before
    } else if !decoder.resolve(raw_inst)->0.legal(raw_inst) {
        &&& result == Err::<(), TickError>(TickError::IllegalInstruction)
        &&& after == before
        &&& *memory_after == *memory_before
    } else {
        let handled = StateView { retired: before.retired, ..after };
        &&& result is Ok
        &&& decoder.resolve(raw_inst)->0.handled(
            raw_inst,
            before,
            handled,
            memory_before,
            memory_after,
        )
        &&& after == handled.retire()
    }
}

/// What one tick does: a fetch at the program counter, then the execution of
/// what was fetched.
pub open spec fn ticked(
    decoder: &Decoder,
    before: StateView,
    after: StateView,
    memory_before: &PhysicalMemoryMap,
    memory_after: &PhysicalMemoryMap,
    result: Result<(), TickError>,
) -> bool {
    exists|raw_inst: RawInstruction, fetched_memory: PhysicalMemoryMap|
        {
            &&& if before.pc % 2 == 0 {
                fetched(memory_before, &fetched_memory, before.pc, raw_inst)
            } else {
                &&& raw_inst == RawInstruction::Unaligned
                &&& fetched_memory == *memory_before
            }
            &&& #[trigger] executed(
                decoder,
                raw_inst,
                before,
                after,
                &fetched_memory,
                memory_after,
                result,
            )
        }
}

/// Executes an instruction that has been fetched: resolves it to the handler
/// of its major opcode, lets the handler execute it if the handler finds it
/// legal, and counts it as retired.
pub fn execute(
    state: &mut State,
    pmmap: &mut PhysicalMemoryMap,
    decoder: &mut Decoder,
    raw_inst: RawInstruction,
) -> (result: Result<(), TickError>)
    ensures
        executed(old(decoder), raw_inst, old(state)@, final(state)@, old(pmmap), final(pmmap), result),
        *final(decoder) == *old(decoder),
        final(state)@.retired == if result is Ok {
            old(state)@.retire().retired
        } else {
            old(state)@.retired
        },
{
    if let RawInstruction::Compressed(_) = raw_inst {
        return Err(TickError::Unhandled);
    }
    let handler = match decoder.decode(raw_inst) {
        Ok(handler) => handler,
        Err(_) => {
            return Err(TickError::Unhandled);
        },
    };
    if !handler.is_legal(raw_inst) {
        proof {
            decoder.lemma_equal_by_handlers(old(decoder));
        }
        return Err(TickError::IllegalInstruction);
    }
    handler.handle(state, pmmap, raw_inst);
    proof {
        decoder.lemma_equal_by_handlers(old(decoder));
    }
    let ghost handled = state@;
    state.retire_inst();
    assert(handled == StateView { retired: old(state)@.retired, ..state@ });
    Ok(())
}

/// One cycle of the machine: fetch at the program counter, decode, execute,
/// retire. The retirement counter goes up by one, modulo 2^64, exactly where
/// the tick succeeds. The program counter moves only where a handler moves
/// it.
pub fn tick(state: &mut State, pmmap: &mut PhysicalMemoryMap, decoder: &mut Decoder) -> (result:
    Result<(), TickError>)
    ensures
        ticked(old(decoder), old(state)@, final(state)@, old(pmmap), final(pmmap), result),
        *final(decoder) == *old(decoder),
        final(state)@.retired == if result is Ok {
            old(state)@.retire().retired
        } else {
            old(state)@.retired
        },
{
    let raw_inst = fetch_raw(state, pmmap);
    let ghost fetched_memory = *pmmap;
    let result = execute(state, pmmap, decoder, raw_inst);
    assert(executed(
        old(decoder),
        raw_inst,
        old(state)@,
        state@,
        &fetched_memory,
        pmmap,
        result,
    ));
    result
}

/// The objects that execution works on. They change hands as a whole: at any
/// time either the instance holds them or the execution context that runs the
/// emulator in the background does.
pub struct Machine {
    pub state: State,
    pub pmmap: PhysicalMemoryMap,
    pub decoder: Decoder,
}

/// An emulator. It is idle while it holds its machine, and running from the
/// moment it hands the machine over until it takes it back. Everything but
/// taking the machine back is legal only while it is idle. Its logger goes
/// where the machine goes.
pub struct Instance {
    machine: Option<Machine>,
    l: Logger,
}

impl Instance {
    /// Whether the instance holds its machine.
    pub closed spec fn idle(&self) -> bool {
        self.machine is Some
    }

    /// The machine of an idle instance.
    pub closed spec fn machine(&self) -> Machine {
        self.machine->0
    }

    /// The logger that the instance holds.
    pub closed spec fn logger(&self) -> Logger {
        self.l
    }

    /// What handing the machine over does to an instance, from `self` to
    /// `post`: an idle instance gives away `machine` and `logger`, which it
    /// held, and is running, without a logger.
    pub open spec fn handed_over(&self, post: &Instance, machine: Machine, logger: Logger) -> bool {
        &&& self.idle()
        &&& !post.idle()
        &&& !post.logger().installed()
        &&& machine == self.machine()
        &&& logger == self.logger()
    }

    /// What taking the machine back does to an instance, from `self` to
    /// `post`: a running instance holds `machine` and `logger` and is idle.
    pub open spec fn taken_back(&self, post: &Instance, machine: Machine, logger: Logger) -> bool {
        &&& !self.idle()
        &&& post.idle()
        &&& post.machine() == machine
        &&& post.logger() == logger
    }

    /// An instance that hands its machine and logger over and takes the same
    /// back is as it was: idle, with its objects intact.
    pub proof fn lemma_take_back_restores(
        &self,
        running: &Instance,
        after: &Instance,
        machine: Machine,
        logger: Logger,
    )
        requires
            self.handed_over(running, machine, logger),
            running.taken_back(after, machine, logger),
        ensures
            *after == *self,
    {
    }

    /// An idle instance with a fresh state, an empty memory map, an empty
    /// decoder and no log.
    pub fn new() -> (instance: Instance)
        ensures
            instance.idle(),
            !instance.logger().installed(),
            instance.machine().state@.pc == 0,
            instance.machine().state@.regs == Seq::new(32, |i: int| 0u32),
            instance.machine().state@.retired == 0,
            instance.machine().pmmap.handlers().len() == 0,
            instance.machine().pmmap.history().len() == 0,
            forall|opcode: MajorOpcode| instance.machine().decoder.handler(opcode) is None,
    {
        Instance {
            machine: Some(
                Machine {
                    state: State::new(),
                    pmmap: PhysicalMemoryMap::new(),
                    decoder: Decoder::new(),
                },
            ),
            l: Logger::absent(),
        }
    }

    /// Whether the instance holds its machine.
    pub fn is_idle(&self) -> (idle: bool)
        ensures
            idle == self.idle(),
    {
        self.machine.is_some()
    }

    /// Whether the instance holds a logger that writes to a log.
    pub fn has_log(&self) -> (installed: bool)
        ensures
            installed == self.logger().installed(),
    {
        self.l.is_installed()
    }

    /// The machine state of an idle instance.
    pub fn state(&self) -> (state: &State)
        requires
            self.idle(),
        ensures
            *state == self.machine().state,
    {
        &self.machine.as_ref().unwrap().state
    }

    /// Performs one tick on the machine of an idle instance.
    pub fn single_step(&mut self) -> (result: Result<(), TickError>)
        requires
            old(self).idle(),
        ensures
            final(self).idle(),
            ticked(
                &old(self).machine().decoder,
                old(self).machine().state@,
                final(self).machine().state@,
                &old(self).machine().pmmap,
                &final(self).machine().pmmap,
                result,
            ),
            final(self).machine().decoder == old(self).machine().decoder,
            final(self).machine().state@.retired == if result is Ok {
                old(self).machine().state@.retire().retired
            } else {
                old(self).machine().state@.retired
            },
            final(self).logger() == old(self).logger(),
    {
        let machine = self.machine.as_mut().unwrap();
        tick(&mut machine.state, &mut machine.pmmap, &mut machine.decoder)
    }

    /// Opens the log of an idle instance that has none yet and hands out its
    /// receiving end. From now on the instance and whoever runs its machine
    /// write to that log.
    pub fn get_log_receiver(&mut self) -> (receiver: LogReciever)
        requires
            old(self).idle(),
            !old(self).logger().installed(),
        ensures
            final(self).idle(),
            final(self).logger().installed(),
            final(self).machine() == old(self).machine(),
    {
        let (logger, log_reciever) = init_logging();
        self.l = logger;
        self.l.log(LogLevel::Info(2), "Returning log reciever to user");
        log_reciever
    }

    /// Hands the machine and the logger over to an execution context: the
    /// instance is running from now on.
    pub fn hand_over(&mut self) -> (parts: (Machine, Logger))
        requires
            old(self).idle(),
        ensures
            old(self).handed_over(final(self), parts.0, parts.1),
    {
        self.l.log(LogLevel::Info(0), "Starting XRVE in thread");
        let logger = self.l.take();
        (self.machine.take().unwrap(), logger)
    }

    /// Takes the machine and the logger back from the execution context that
    /// ran the machine: the instance is idle again.
    pub fn take_back(&mut self, machine: Machine, logger: Logger)
        requires
            !old(self).idle(),
        ensures
            old(self).taken_back(final(self), machine, logger),
    {
        self.machine = Some(machine);
        self.l = logger;
        self.l.log(LogLevel::Info(0), "XRVE thread stopped successfully");
    }

    /// Registers an instruction handler with the decoder of an idle instance
    /// and hands back the handler that it displaces, if any.
    pub fn register_instruction_handler(&mut self, handler: Box<dyn InstructionHandler>) -> (previous:
        Option<Box<dyn InstructionHandler>>)
        requires
            old(self).idle(),
        ensures
            final(self).idle(),
            old(self).machine().decoder.registered(
                &final(self).machine().decoder,
                &handler,
                previous,
            ),
            final(self).machine().state == old(self).machine().state,
            final(self).machine().pmmap == old(self).machine().pmmap,
            final(self).logger() == old(self).logger(),
    {
        self.l.log(LogLevel::Info(1), "Registering instruction handler");
        let entry = Some(handler);
        self.machine.as_mut().unwrap().decoder.install(entry)
    }

    /// Registers a memory handler with the memory map of an idle instance.
    pub fn register_memory_handler(&mut self, handler: Box<dyn MemoryHandler>)
        requires
            old(self).idle(),
        ensures
            final(self).idle(),
            old(self).machine().pmmap.registered(&final(self).machine().pmmap, &handler),
            final(self).machine().state == old(self).machine().state,
            final(self).machine().decoder == old(self).machine().decoder,
            final(self).logger() == old(self).logger(),
    {
        self.l.log(LogLevel::Info(1), "Registering memory handler");
        let slot = Slot { handler };
        self.machine.as_mut().unwrap().pmmap.install(slot);
    }

    /// Reads a byte of the physical address space of an idle instance.
    pub fn read_byte_from_memory(&mut self, addr: u32) -> (result: Result<u8, ()>)
        requires
            old(self).idle(),
        ensures
            final(self).idle(),
            old(self).machine().pmmap.accessed(
                &final(self).machine().pmmap,
                AccessType::Read,
                AccessSize::Byte,
                addr,
                match result {
                    Ok(data) => Some(data as u32),
                    Err(_) => None,
                },
            ),
            final(self).machine().state@ == old(self).machine().state@,
            final(self).machine().decoder == old(self).machine().decoder,
            final(self).logger() == old(self).logger(),
    {
        let machine = self.machine.as_mut().unwrap();
        machine.pmmap.read_byte(&mut machine.state, addr)
    }

    /// Writes a byte of the physical address space of an idle instance.
    pub fn write_byte_to_memory(&mut self, addr: u32, data: u8) -> (result: Result<(), ()>)
        requires
            old(self).idle(),
        ensures
            final(self).idle(),
            old(self).machine().pmmap.accessed(
                &final(self).machine().pmmap,
                AccessType::Write,
                AccessSize::Byte,
                addr,
                match result {
                    Ok(_) => Some(data as u32),
                    Err(_) => None,
                },
            ),
            final(self).machine().state@ == old(self).machine().state@,
            final(self).machine().decoder == old(self).machine().decoder,
            final(self).logger() == old(self).logger(),
    {
        let machine = self.machine.as_mut().unwrap();
        machine.pmmap.write_byte(&mut machine.state, addr, data)
    }

    /// Reads an aligned halfword of the physical address space of an idle
    /// instance.
    pub fn read_halfword_from_memory(&mut self, addr: u32) -> (result: Result<u16, ()>)
        requires
            old(self).idle(),
        ensures
            final(self).idle(),
            old(self).machine().pmmap.accessed(
                &final(self).machine().pmmap,
                AccessType::Read,
                AccessSize::Halfword,
                addr,
                match result {
                    Ok(data) => Some(data as u32),
                    Err(_) => None,
                },
            ),
            final(self).machine().state@ == old(self).machine().state@,
            final(self).machine().decoder == old(self).machine().decoder,
            final(self).logger() == old(self).logger(),
    {
        let machine = self.machine.as_mut().unwrap();
        machine.pmmap.read_halfword(&mut machine.state, addr)
    }

    /// Writes an aligned halfword of the physical address space of an idle
    /// instance.
    pub fn write_halfword_to_memory(&mut self, addr: u32, data: u16) -> (result: Result<(), ()>)
        requires
            old(self).idle(),
        ensures
            final(self).idle(),
            old(self).machine().pmmap.accessed(
                &final(self).machine().pmmap,
                AccessType::Write,
                AccessSize::Halfword,
                addr,
                match result {
                    Ok(_) => Some(data as u32),
                    Err(_) => None,
                },
            ),
            final(self).machine().state@ == old(self).machine().state@,
            final(self).machine().decoder == old(self).machine().decoder,
            final(self).logger() == old(self).logger(),
    {
        let machine = self.machine.as_mut().unwrap();
        machine.pmmap.write_halfword(&mut machine.state, addr, data)
    }

    /// Reads an aligned word of the physical address space of an idle instance.
    pub fn read_word_from_memory(&mut self, addr: u32) -> (result: Result<u32, ()>)
        requires
            old(self).idle(),
        ensures
            final(self).idle(),
            old(self).machine().pmmap.accessed(
                &final(self).machine().pmmap,
                AccessType::Read,
                AccessSize::Word,
                addr,
                match result {
                    Ok(data) => Some(data as u32),
                    Err(_) => None,
                },
            ),
            final(self).machine().state@ == old(self).machine().state@,
            final(self).machine().decoder == old(self).machine().decoder,
            final(self).logger() == old(self).logger(),
    {
        let machine = self.machine.as_mut().unwrap();
        machine.pmmap.read_word(&mut machine.state, addr)
    }

    /// Writes an aligned word of the physical address space of an idle instance.
    pub fn write_word_to_memory(&mut self, addr: u32, data: u32) -> (result: Result<(), ()>)
        requires
            old(self).idle(),
        ensures
            final(self).idle(),
            old(self).machine().pmmap.accessed(
                &final(self).machine().pmmap,
                AccessType::Write,
                AccessSize::Word,
                addr,
                match result {
                    Ok(_) => Some(data as u32),
                    Err(_) => None,
                },
            ),
            final(self).machine().state@ == old(self).machine().state@,
            final(self).machine().decoder == old(self).machine().decoder,
            final(self).logger() == old(self).logger(),
    {
        let machine = self.machine.as_mut().unwrap();
        machine.pmmap.write_word(&mut machine.state, addr, data)
    }
}

} // verus!
