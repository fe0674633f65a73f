//! The machine as mathematics: what one instruction does to memory and
//! registers, and what a run of them does.
//!
//! The program counter wraps modulo 2^16 and the stack pointer modulo 2^8;
//! no arithmetic here can fail. The stack lives in the page at `STACK_BASE`:
//! a push stores at `STACK_BASE + stack_pointer` and then moves the pointer
//! down, a pull moves the pointer up and then reads from
//! `STACK_BASE + stack_pointer`, so a pull reads what the last push stored.

use crate::cpu::{Cpu, StatusFlags};
use crate::error::EmulatorError;
use crate::memory::{Memory, ROM_BASE};
use crate::opcode::{decode_inverts_encoding, Opcode};
use vstd::prelude::*;

verus! {

/// The first address of the stack page.
pub const STACK_BASE: u16 = 0x0100;

/// `n` modulo 2^16, as an address.
pub open spec fn wrap16(n: int) -> u16 {
    (n % 0x1_0000) as u16
}

/// `n` modulo 2^8, as a byte.
pub open spec fn wrap8(n: int) -> u8 {
    (n % 0x100) as u8
}

/// `byte` read as a two's-complement number, from -128 to 127.
pub open spec fn signed(byte: u8) -> int {
    if byte >= 0x80 {
        byte - 0x100
    } else {
        byte as int
    }
}

/// The address made of two bytes.
pub open spec fn word(low: u8, high: u8) -> u16 {
    (high * 256 + low) as u16
}

/// The address of the stack slot that `stack_pointer` selects.
pub open spec fn stack_slot(stack_pointer: u8) -> u16 {
    (STACK_BASE + stack_pointer) as u16
}

/// Whether a branch instruction jumps under `flags`. Of any other operation
/// this is false.
pub open spec fn branch_taken(op: Opcode, flags: StatusFlags) -> bool {
    match op {
        Opcode::BEQ => flags.zero_flag,
        Opcode::BNE => !flags.zero_flag,
        Opcode::BMI => flags.negative_flag,
        Opcode::BPL => !flags.negative_flag,
        _ => false,
    }
}

/// Memory and processor together.
pub struct Machine {
    pub memory: Memory,
    pub cpu: Cpu,
}

impl Machine {
    /// The machine as constructed: fresh memory, processor at power-on.
    pub open spec fn power_on(ram: nat, rom: nat) -> Machine {
        Machine { memory: Memory::fresh(ram, rom), cpu: Cpu::power_on() }
    }

    /// The byte under the program counter.
    pub open spec fn next_byte(self) -> u8 {
        self.memory.read(self.cpu.program_counter)
    }

    /// This machine with the program counter at `address`.
    pub open spec fn at(self, address: u16) -> Machine {
        Machine { cpu: Cpu { program_counter: address, ..self.cpu }, ..self }
    }

    /// This machine with the program counter one byte on.
    pub open spec fn advanced(self) -> Machine {
        self.at(wrap16(self.cpu.program_counter + 1))
    }

    /// The address in the two bytes under the program counter, low byte
    /// first.
    pub open spec fn next_word(self) -> u16 {
        word(self.next_byte(), self.advanced().next_byte())
    }

    /// A store of `value` at `address` by an instruction that costs
    /// `cycles`. Without RAM at `address` nothing changes and the store
    /// fails.
    pub open spec fn stored(self, address: u16, value: u8, cycles: usize) -> (
        Machine,
        Result<usize, EmulatorError>,
    ) {
        if self.memory.in_ram(address) {
            (Machine { memory: self.memory.write(address, value), ..self }, Ok(cycles))
        } else {
            (self, Err(EmulatorError::InvalidWriteTarget(address)))
        }
    }

    /// A push of `value`: it is stored in the slot under the stack pointer,
    /// and the pointer moves one down. Without RAM at the slot nothing
    /// changes and the push fails.
    pub open spec fn pushed(self, value: u8) -> (Machine, Result<(), EmulatorError>) {
        let address = stack_slot(self.cpu.stack_pointer);
        if self.memory.in_ram(address) {
            (
                Machine {
                    memory: self.memory.write(address, value),
                    cpu: Cpu { stack_pointer: wrap8(self.cpu.stack_pointer - 1), ..self.cpu },
                },
                Ok(()),
            )
        } else {
            (self, Err(EmulatorError::InvalidWriteTarget(address)))
        }
    }

    /// A pull: the stack pointer moves one up, and the byte in the slot
    /// under it is the value pulled.
    pub open spec fn pulled(self) -> (Machine, u8) {
        let stack_pointer = wrap8(self.cpu.stack_pointer + 1);
        (
            Machine { cpu: Cpu { stack_pointer, ..self.cpu }, ..self },
            self.memory.read(stack_slot(stack_pointer)),
        )
    }

    /// A branch whose operand `offset` has been consumed: if taken, the
    /// signed offset is added to the program counter, for 3 cycles; if not,
    /// nothing changes, for 2.
    pub open spec fn branched(self, taken: bool, offset: u8) -> (
        Machine,
        Result<usize, EmulatorError>,
    ) {
        if taken {
            (self.at(wrap16(self.cpu.program_counter + signed(offset))), Ok(3))
        } else {
            (self, Ok(2))
        }
    }

    /// The effect of `op` on a machine whose program counter is past the
    /// opcode byte: the machine afterwards, and the cycles spent or the
    /// reason of failure. Operand bytes are consumed before the effect, so
    /// after a failed store the program counter is past the operands. Only
    /// `LDA_Immediate` and `PLA` touch the flags.
    pub open spec fn execute(self, op: Opcode) -> (Machine, Result<usize, EmulatorError>) {
        let operand = self.next_byte();
        let address = self.next_word();
        let past_one = self.advanced();
        let past_two = past_one.advanced();
        match op {
            Opcode::HLT => (Machine { cpu: Cpu { halted: true, ..self.cpu }, ..self }, Ok(0)),
            Opcode::LDY_Immediate => (
                Machine { cpu: Cpu { reg_y: operand, ..past_one.cpu }, ..self },
                Ok(2),
            ),
            Opcode::LDX_Immediate => (
                Machine { cpu: Cpu { reg_x: operand, ..past_one.cpu }, ..self },
                Ok(2),
            ),
            Opcode::LDA_Immediate => (
                Machine {
                    cpu: Cpu {
                        reg_a: operand,
                        flags: self.cpu.flags.with_result(operand),
                        ..past_one.cpu
                    },
                    ..self
                },
                Ok(2),
            ),
            Opcode::LDA_ZeroPage => (
                Machine {
                    cpu: Cpu { reg_a: self.memory.read(operand as u16), ..past_one.cpu },
                    ..self
                },
                Ok(3),
            ),
            Opcode::LDA_Absolute => (
                Machine { cpu: Cpu { reg_a: self.memory.read(address), ..past_two.cpu }, ..self },
                Ok(4),
            ),
            Opcode::STA_ZeroPage => past_one.stored(operand as u16, self.cpu.reg_a, 3),
            Opcode::STX_ZeroPage => past_one.stored(operand as u16, self.cpu.reg_x, 3),
            Opcode::STY_ZeroPage => past_one.stored(operand as u16, self.cpu.reg_y, 3),
            Opcode::STA_Absolute => past_two.stored(address, self.cpu.reg_a, 4),
            Opcode::STX_Absolute => past_two.stored(address, self.cpu.reg_x, 4),
            Opcode::STY_Absolute => past_two.stored(address, self.cpu.reg_y, 4),
            Opcode::PHA => match self.pushed(self.cpu.reg_a) {
                (machine, Ok(_)) => (machine, Ok(3)),
                (machine, Err(error)) => (machine, Err(error)),
            },
            Opcode::PLA => {
                let (machine, value) = self.pulled();
                (
                    Machine {
                        cpu: Cpu {
                            reg_a: value,
                            flags: machine.cpu.flags.with_result(value),
                            ..machine.cpu
                        },
                        ..machine
                    },
                    Ok(4),
                )
            },
            Opcode::BEQ | Opcode::BNE | Opcode::BMI | Opcode::BPL => past_one.branched(
                branch_taken(op, self.cpu.flags),
                operand,
            ),
        }
    }

    /// One instruction: the byte under the program counter is fetched, the
    /// program counter moves past it, and the operation that the byte
    /// encodes is executed. A byte that encodes none fails the step, with
    /// the program counter past that byte.
    pub open spec fn step(self) -> (Machine, Result<usize, EmulatorError>) {
        let opcode = self.next_byte();
        match Opcode::decode(opcode) {
            Some(op) => self.advanced().execute(op),
            None => (self.advanced(), Err(EmulatorError::UnimplementedOpcode(opcode))),
        }
    }

    /// A run of at most `steps` instructions: it ends at the first of a
    /// halted processor, a failed step, and `steps` instructions done.
    pub open spec fn run(self, steps: nat) -> (Machine, Result<(), EmulatorError>)
        decreases steps,
    {
        if self.cpu.halted || steps == 0 {
            (self, Ok(()))
        } else {
            match self.step() {
                (machine, Ok(_)) => machine.run((steps - 1) as nat),
                (machine, Err(error)) => (machine, Err(error)),
            }
        }
    }

    /// A reset with `image`: the ROM takes the program of the image, and the
    /// program counter the address in the reset vector. An image that the
    /// memory does not accept changes nothing and fails the reset.
    pub open spec fn reset(self, image: Seq<u8>) -> (Machine, Result<(), EmulatorError>) {
        if self.memory.accepts(image) {
            let loaded = Machine { memory: self.memory.with_image(image), ..self };
            (loaded.at(loaded.memory.reset_vector()), Ok(()))
        } else {
            (self, Err(EmulatorError::StartupIOError))
        }
    }
}

/// An immediate load of the accumulator consumes one operand byte, puts it
/// in the accumulator, and sets the zero and negative flags from it: zero
/// exactly for 0x00, negative exactly from 0x80 up.
pub proof fn load_accumulator_sets_flags(machine: Machine)
    requires
        machine.next_byte() == Opcode::LDA_Immediate.encoding(),
    ensures
        ({
            let operand = machine.advanced().next_byte();
            let (after, outcome) = machine.step();
            &&& outcome == Ok::<usize, EmulatorError>(2)
            &&& after.memory == machine.memory
            &&& after.cpu.reg_a == operand
            &&& after.cpu.flags.zero_flag == (operand == 0x00)
            &&& after.cpu.flags.negative_flag == (operand >= 0x80)
            &&& after.cpu.program_counter == wrap16(machine.cpu.program_counter + 2)
        }),
{
    decode_inverts_encoding(Opcode::LDA_Immediate);
}

/// A push succeeds whenever the RAM covers the stack page.
pub proof fn push_succeeds_with_stack_in_ram(machine: Machine, value: u8)
    requires
        machine.memory.ram.len() >= STACK_BASE + 0x100,
    ensures
        machine.pushed(value).1 is Ok,
{
}

/// A pull that follows a push, with nothing written to the stack in between,
/// returns the value pushed and leaves the stack pointer where it was before
/// the push.
pub proof fn pull_returns_pushed(machine: Machine, value: u8)
    requires
        machine.pushed(value).1 is Ok,
    ensures
        ({
            let (after, pulled) = machine.pushed(value).0.pulled();
            &&& pulled == value
            &&& after.cpu.stack_pointer == machine.cpu.stack_pointer
        }),
{
}

/// `PHA` directly followed by `PLA` leaves the accumulator and the stack
/// pointer as they were. The push must succeed, which it does when RAM backs
/// the stack slot.
pub proof fn push_then_pull_restores(machine: Machine)
    requires
        machine.next_byte() == Opcode::PHA.encoding(),
        machine.step().1 is Ok,
        machine.step().0.next_byte() == Opcode::PLA.encoding(),
    ensures
        ({
            let (after, outcome) = machine.step().0.step();
            &&& outcome == Ok::<usize, EmulatorError>(4)
            &&& after.cpu.reg_a == machine.cpu.reg_a
            &&& after.cpu.stack_pointer == machine.cpu.stack_pointer
        }),
{
    decode_inverts_encoding(Opcode::PHA);
    decode_inverts_encoding(Opcode::PLA);
    pull_returns_pushed(machine.advanced(), machine.cpu.reg_a);
}

/// A branch whose condition holds adds its operand, read as a signed
/// number, to the program counter that is already past the operand, and
/// costs 3 cycles. Nothing else changes.
pub proof fn taken_branch_adds_offset(machine: Machine, op: Opcode)
    requires
        machine.next_byte() == op.encoding(),
        branch_taken(op, machine.cpu.flags),
    ensures
        ({
            let offset = machine.advanced().next_byte();
            let past_operand = wrap16(machine.cpu.program_counter + 2);
            machine.step() == (
                machine.at(wrap16(past_operand + signed(offset))),
                Ok::<usize, EmulatorError>(3),
            )
        }),
{
    decode_inverts_encoding(op);
}

/// A taken branch with operand 0xFE, which is -2, lands two bytes before the
/// position that follows its operand: on the branch itself.
pub proof fn taken_branch_by_minus_two(machine: Machine, op: Opcode)
    requires
        machine.next_byte() == op.encoding(),
        branch_taken(op, machine.cpu.flags),
        machine.advanced().next_byte() == 0xFE,
    ensures
        signed(0xFE) == -2,
        machine.step().0.cpu.program_counter == wrap16(
            wrap16(machine.cpu.program_counter + 2) - 2,
        ),
        machine.step().0.cpu.program_counter == machine.cpu.program_counter,
{
    taken_branch_adds_offset(machine, op);
}

/// A branch whose condition does not hold leaves the program counter on the
/// byte that follows its operand, and costs 2 cycles. Nothing else changes.
pub proof fn untaken_branch_falls_through(machine: Machine, op: Opcode)
    requires
        op is BEQ || op is BNE || op is BMI || op is BPL,
        machine.next_byte() == op.encoding(),
        !branch_taken(op, machine.cpu.flags),
    ensures
        machine.step() == (
            machine.at(wrap16(machine.cpu.program_counter + 2)),
            Ok::<usize, EmulatorError>(2),
        ),
{
    decode_inverts_encoding(op);
}

/// A store aimed at ROM or at the reserved gap fails with the address, and
/// memory and registers stay as they were.
pub proof fn store_outside_ram_fails(machine: Machine, address: u16, value: u8, cycles: usize)
    requires
        address >= ROM_BASE || address >= machine.memory.ram.len(),
    ensures
        machine.stored(address, value, cycles) == (
            machine,
            Err::<usize, EmulatorError>(EmulatorError::InvalidWriteTarget(address)),
        ),
{
}

/// No instruction changes the ROM or the size of the RAM, whether it
/// succeeds or fails.
pub proof fn step_keeps_rom(machine: Machine)
    ensures
        machine.step().0.memory.rom == machine.memory.rom,
        machine.step().0.memory.ram.len() == machine.memory.ram.len(),
{
}

/// No run changes the ROM or the size of the RAM.
pub proof fn run_keeps_rom(machine: Machine, steps: nat)
    ensures
        machine.run(steps).0.memory.rom == machine.memory.rom,
        machine.run(steps).0.memory.ram.len() == machine.memory.ram.len(),
    decreases steps,
{
    if !machine.cpu.halted && steps > 0 {
        step_keeps_rom(machine);
        if machine.step().1 is Ok {
            run_keeps_rom(machine.step().0, (steps - 1) as nat);
        }
    }
}

/// A halted machine is not stepped: a run returns it as it is.
pub proof fn halted_machine_stays(machine: Machine, steps: nat)
    requires
        machine.cpu.halted,
    ensures
        machine.run(steps) == (machine, Ok::<(), EmulatorError>(())),
{
}

/// A run may be made in parts: a run of `first + second` steps is a run of
/// `first` steps followed, unless that failed, by a run of `second` steps
/// from where it ended.
pub proof fn run_in_parts(machine: Machine, first: nat, second: nat)
    ensures
        machine.run(first + second) == (match machine.run(first) {
            (reached, Ok(_)) => reached.run(second),
            (reached, Err(error)) => (reached, Err(error)),
        }),
    decreases first,
{
    if machine.cpu.halted {
        halted_machine_stays(machine, second);
    } else if first > 0 {
        if machine.step().1 is Ok {
            run_in_parts(machine.step().0, (first - 1) as nat, second);
        }
    }
}

} // verus!
