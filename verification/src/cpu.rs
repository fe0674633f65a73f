//! The register file: plain data, no behaviour beyond its power-on value and
//! the rule by which a result sets the zero and negative flags.

use vstd::prelude::*;

verus! {

/// The five status flags.
#[derive(Clone, Copy, Debug, PartialEq, Eq, Structural)]
pub struct StatusFlags {
    pub carry_flag: bool,
    pub zero_flag: bool,
    pub interrupt_disable_flag: bool,
    pub overflow_flag: bool,
    pub negative_flag: bool,
}

/// The architectural state of the processor.
#[derive(Clone, Copy, Debug, PartialEq, Eq, Structural)]
pub struct Cpu {
    pub flags: StatusFlags,
    /// Address of the next byte to fetch.
    pub program_counter: u16,
    /// Offset of the next free slot in the stack page.
    pub stack_pointer: u8,
    /// Once set, a run issues no further step.
    pub halted: bool,
    pub reg_a: u8,
    pub reg_x: u8,
    pub reg_y: u8,
}

impl StatusFlags {
    /// The flags at power-on: only interrupt-disable is set.
    pub open spec fn power_on() -> StatusFlags {
        StatusFlags {
            carry_flag: false,
            zero_flag: false,
            interrupt_disable_flag: true,
            overflow_flag: false,
            negative_flag: false,
        }
    }

    /// These flags after an instruction that produced `value`: zero says
    /// that the value is 0, negative that its high bit is set. The other
    /// three flags stay.
    pub open spec fn with_result(self, value: u8) -> StatusFlags {
        StatusFlags { zero_flag: value == 0, negative_flag: value >= 0x80, ..self }
    }

    pub fn new() -> (flags: StatusFlags)
        ensures
            flags == StatusFlags::power_on(),
    {
        StatusFlags {
            carry_flag: false,
            zero_flag: false,
            interrupt_disable_flag: true,
            overflow_flag: false,
            negative_flag: false,
        }
    }

    /// Records `value` as the latest result.
    pub fn set_result(&mut self, value: u8)
        ensures
            *final(self) == old(self).with_result(value),
    {
        self.zero_flag = value == 0;
        self.negative_flag = value >= 0x80;
    }
}

impl Cpu {
    /// The processor at power-on: every register zero, running, with the
    /// power-on flags.
    pub open spec fn power_on() -> Cpu {
        Cpu {
            flags: StatusFlags::power_on(),
            program_counter: 0,
            stack_pointer: 0,
            halted: false,
            reg_a: 0,
            reg_x: 0,
            reg_y: 0,
        }
    }

    pub fn new() -> (cpu: Cpu)
        ensures
            cpu == Cpu::power_on(),
    {
        Cpu {
            flags: StatusFlags::new(),
            program_counter: 0,
            stack_pointer: 0,
            halted: false,
            reg_a: 0,
            reg_x: 0,
            reg_y: 0,
        }
    }
}

} // verus!
