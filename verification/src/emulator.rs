//! The interpreter: it owns the processor and the bus, and executes one
//! instruction at a time until the processor halts.

use crate::cpu::Cpu;
use crate::error::EmulatorError;
use crate::machine::{Machine, STACK_BASE};
use crate::memory::{MemoryBus, RESET_VECTOR};
use crate::opcode::Opcode;
use vstd::prelude::*;

verus! {

/// One emulated machine. Nothing is shared between two of them.
pub struct Emulator {
    pub bus: MemoryBus,
    pub cpu: Cpu,
}

impl Emulator {
    /// The machine that this emulator is.
    pub open spec fn view(&self) -> Machine {
        Machine { memory: self.bus@, cpu: self.cpu }
    }

    /// A machine with `ram` bytes of RAM and `rom` bytes of ROM, the
    /// processor at power-on.
    pub fn new(ram: u16, rom: u16) -> (emulator: Emulator)
        ensures
            emulator@ == Machine::power_on(ram as nat, rom as nat),
    {
        Emulator { bus: MemoryBus::new(ram, rom), cpu: Cpu::new() }
    }

    /// Reads the byte under the program counter and moves one byte on.
    fn fetch(&mut self) -> (byte: u8)
        ensures
            byte == old(self)@.next_byte(),
            final(self)@ == old(self)@.advanced(),
    {
        let byte: u8 = self.bus.read(self.cpu.program_counter);
        self.cpu.program_counter = self.cpu.program_counter.wrapping_add(1);
        byte
    }

    /// Reads the address under the program counter, low byte first, and
    /// moves two bytes on.
    fn fetch_word(&mut self) -> (address: u16)
        ensures
            address == old(self)@.next_word(),
            final(self)@ == old(self)@.advanced().advanced(),
    {
        let low: u8 = self.fetch();
        let high: u8 = self.fetch();
        (high as u16) * 256 + (low as u16)
    }

    /// Stores `value` at `address` for an instruction that costs `cycles`.
    fn store(&mut self, address: u16, value: u8, cycles: usize) -> (outcome: Result<
        usize,
        EmulatorError,
    >)
        ensures
            (final(self)@, outcome) == old(self)@.stored(address, value, cycles),
    {
        match self.bus.write(address, value) {
            Ok(()) => Ok(cycles),
            Err(error) => Err(error),
        }
    }

    /// Consumes the offset of a branch and jumps if the branch is taken.
    fn branch(&mut self, taken: bool) -> (outcome: Result<usize, EmulatorError>)
        ensures
            (final(self)@, outcome) == old(self)@.advanced().branched(
                taken,
                old(self)@.next_byte(),
            ),
    {
        let offset: u8 = self.fetch();
        if taken {
            let origin: u16 = self.cpu.program_counter;
            self.cpu.program_counter = if offset < 0x80 {
                origin.wrapping_add(offset as u16)
            } else {
                origin.wrapping_sub(0x100 - offset as u16)
            };
            Ok(3)
        } else {
            Ok(2)
        }
    }

    /// Pushes `value` onto the stack.
    pub fn push(&mut self, value: u8) -> (outcome: Result<(), EmulatorError>)
        ensures
            (final(self)@, outcome) == old(self)@.pushed(value),
    {
        match self.bus.write(STACK_BASE + self.cpu.stack_pointer as u16, value) {
            Ok(()) => {
                self.cpu.stack_pointer = self.cpu.stack_pointer.wrapping_sub(1);
                Ok(())
            },
            Err(error) => Err(error),
        }
    }

    /// Pulls the top of the stack.
    pub fn pull(&mut self) -> (value: u8)
        ensures
            (final(self)@, value) == old(self)@.pulled(),
    {
        self.cpu.stack_pointer = self.cpu.stack_pointer.wrapping_add(1);
        self.bus.read(STACK_BASE + self.cpu.stack_pointer as u16)
    }

    /// Executes one instruction, whether or not the processor is halted,
    /// and returns the cycles it cost.
    pub fn emulate_cpu(&mut self) -> (outcome: Result<usize, EmulatorError>)
        ensures
            (final(self)@, outcome) == old(self)@.step(),
    {
        let opcode = match Opcode::try_from(self.fetch()) {
            Ok(opcode) => opcode,
            Err(error) => {
                return Err(error);
            },
        };
        match opcode {
            Opcode::HLT => {
                self.cpu.halted = true;
                Ok(0)
            },
            Opcode::LDY_Immediate => {
                self.cpu.reg_y = self.fetch();
                Ok(2)
            },
            Opcode::LDX_Immediate => {
                self.cpu.reg_x = self.fetch();
                Ok(2)
            },
            Opcode::LDA_Immediate => {
                self.cpu.reg_a = self.fetch();
                self.cpu.flags.set_result(self.cpu.reg_a);
                Ok(2)
            },
            Opcode::LDA_ZeroPage => {
                let operand: u8 = self.fetch();
                self.cpu.reg_a = self.bus.read(operand as u16);
                Ok(3)
            },
            Opcode::LDA_Absolute => {
                let address: u16 = self.fetch_word();
                self.cpu.reg_a = self.bus.read(address);
                Ok(4)
            },
            Opcode::STY_ZeroPage => {
                let operand: u8 = self.fetch();
                self.store(operand as u16, self.cpu.reg_y, 3)
            },
            Opcode::STX_ZeroPage => {
                let operand: u8 = self.fetch();
                self.store(operand as u16, self.cpu.reg_x, 3)
            },
            Opcode::STA_ZeroPage => {
                let operand: u8 = self.fetch();
                self.store(operand as u16, self.cpu.reg_a, 3)
            },
            Opcode::STY_Absolute => {
                let address: u16 = self.fetch_word();
                self.store(address, self.cpu.reg_y, 4)
            },
            Opcode::STX_Absolute => {
                let address: u16 = self.fetch_word();
                self.store(address, self.cpu.reg_x, 4)
            },
            Opcode::STA_Absolute => {
                let address: u16 = self.fetch_word();
                self.store(address, self.cpu.reg_a, 4)
            },
            Opcode::PHA => match self.push(self.cpu.reg_a) {
                Ok(()) => Ok(3),
                Err(error) => Err(error),
            },
            Opcode::PLA => {
                self.cpu.reg_a = self.pull();
                self.cpu.flags.set_result(self.cpu.reg_a);
                Ok(4)
            },
            Opcode::BNE => self.branch(!self.cpu.flags.zero_flag),
            Opcode::BEQ => self.branch(self.cpu.flags.zero_flag),
            Opcode::BPL => self.branch(!self.cpu.flags.negative_flag),
            Opcode::BMI => self.branch(self.cpu.flags.negative_flag),
        }
    }

    /// Executes instructions until the processor halts, a step fails, or
    /// `max_steps` of them are done, whichever comes first. A processor
    /// that never halts is no error: the caller sees it in `cpu.halted` and
    /// may go on with another run.
    pub fn run(&mut self, max_steps: u64) -> (outcome: Result<(), EmulatorError>)
        ensures
            (final(self)@, outcome) == old(self)@.run(max_steps as nat),
    {
        let mut remaining: u64 = max_steps;
        while !self.cpu.halted && remaining > 0
            invariant
                self@.run(remaining as nat) == old(self)@.run(max_steps as nat),
            decreases remaining,
        {
            match self.emulate_cpu() {
                Ok(_) => {},
                Err(error) => {
                    return Err(error);
                },
            }
            remaining -= 1;
        }
        Ok(())
    }

    /// Populates the ROM from `image`, a header followed by the program,
    /// and seeds the program counter from the reset vector.
    pub fn reset(&mut self, image: &[u8]) -> (outcome: Result<(), EmulatorError>)
        ensures
            (final(self)@, outcome) == old(self)@.reset(image@),
    {
        match self.bus.load_image(image) {
            Ok(()) => {
                let low: u8 = self.bus.read(RESET_VECTOR);
                let high: u8 = self.bus.read(RESET_VECTOR + 1);
                self.cpu.program_counter = (high as u16) * 256 + (low as u16);
                Ok(())
            },
            Err(error) => Err(error),
        }
    }
}

} // verus!
