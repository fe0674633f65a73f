//! The opcode table: which byte encodes which operation.

use crate::error::EmulatorError;
use vstd::prelude::*;

verus! {

/// One operation of the processor, named by mnemonic and addressing mode.
#[allow(non_camel_case_types)]
#[derive(Clone, Copy, Debug, PartialEq, Eq, Structural)]
pub enum Opcode {
    HLT,
    PHA,
    PLA,
    BPL,
    BMI,
    BNE,
    BEQ,
    LDY_Immediate,
    LDX_Immediate,
    LDA_ZeroPage,
    LDA_Immediate,
    LDA_Absolute,
    STA_ZeroPage,
    STA_Absolute,
    STX_ZeroPage,
    STX_Absolute,
    STY_ZeroPage,
    STY_Absolute,
}

impl Opcode {
    /// The byte that encodes this operation.
    pub open spec fn encoding(self) -> u8 {
        match self {
            Opcode::HLT => 0x02,
            Opcode::PHA => 0x48,
            Opcode::PLA => 0x68,
            Opcode::BPL => 0x10,
            Opcode::BMI => 0x30,
            Opcode::BNE => 0xD0,
            Opcode::BEQ => 0xF0,
            Opcode::LDY_Immediate => 0xA0,
            Opcode::LDX_Immediate => 0xA2,
            Opcode::LDA_ZeroPage => 0xA5,
            Opcode::LDA_Immediate => 0xA9,
            Opcode::LDA_Absolute => 0xAD,
            Opcode::STA_ZeroPage => 0x85,
            Opcode::STA_Absolute => 0x8D,
            Opcode::STX_ZeroPage => 0x86,
            Opcode::STX_Absolute => 0x8E,
            Opcode::STY_ZeroPage => 0x84,
            Opcode::STY_Absolute => 0x8C,
        }
    }

    /// The operation that `byte` encodes, if it encodes one.
    pub open spec fn decode(byte: u8) -> Option<Opcode> {
        if exists|op: Opcode| op.encoding() == byte {
            Some(choose|op: Opcode| op.encoding() == byte)
        } else {
            None
        }
    }

    /// The byte that encodes this operation.
    pub fn byte(self) -> (byte: u8)
        ensures
            byte == self.encoding(),
    {
        match self {
            Opcode::HLT => 0x02,
            Opcode::PHA => 0x48,
            Opcode::PLA => 0x68,
            Opcode::BPL => 0x10,
            Opcode::BMI => 0x30,
            Opcode::BNE => 0xD0,
            Opcode::BEQ => 0xF0,
            Opcode::LDY_Immediate => 0xA0,
            Opcode::LDX_Immediate => 0xA2,
            Opcode::LDA_ZeroPage => 0xA5,
            Opcode::LDA_Immediate => 0xA9,
            Opcode::LDA_Absolute => 0xAD,
            Opcode::STA_ZeroPage => 0x85,
            Opcode::STA_Absolute => 0x8D,
            Opcode::STX_ZeroPage => 0x86,
            Opcode::STX_Absolute => 0x8E,
            Opcode::STY_ZeroPage => 0x84,
            Opcode::STY_Absolute => 0x8C,
        }
    }

    /// Decodes a byte. A byte that encodes no operation is an error that
    /// carries the byte, never a silent no-op.
    pub fn try_from(byte: u8) -> (decoded: Result<Opcode, EmulatorError>)
        ensures
            decoded == (match Opcode::decode(byte) {
                Some(op) => Ok::<Opcode, EmulatorError>(op),
                None => Err(EmulatorError::UnimplementedOpcode(byte)),
            }),
    {
        let found = match byte {
            0x02 => Some(Opcode::HLT),
            0x48 => Some(Opcode::PHA),
            0x68 => Some(Opcode::PLA),
            0x10 => Some(Opcode::BPL),
            0x30 => Some(Opcode::BMI),
            0xD0 => Some(Opcode::BNE),
            0xF0 => Some(Opcode::BEQ),
            0xA0 => Some(Opcode::LDY_Immediate),
            0xA2 => Some(Opcode::LDX_Immediate),
            0xA5 => Some(Opcode::LDA_ZeroPage),
            0xA9 => Some(Opcode::LDA_Immediate),
            0xAD => Some(Opcode::LDA_Absolute),
            0x85 => Some(Opcode::STA_ZeroPage),
            0x8D => Some(Opcode::STA_Absolute),
            0x86 => Some(Opcode::STX_ZeroPage),
            0x8E => Some(Opcode::STX_Absolute),
            0x84 => Some(Opcode::STY_ZeroPage),
            0x8C => Some(Opcode::STY_Absolute),
            _ => None,
        };
        match found {
            Some(op) => {
                proof {
                    decode_agrees_with_encoding(byte, op);
                }
                Ok(op)
            },
            None => {
                assert(forall|op: Opcode| op.encoding() != byte);
                Err(EmulatorError::UnimplementedOpcode(byte))
            },
        }
    }
}

/// No two operations share a byte.
pub proof fn bytes_are_distinct(a: Opcode, b: Opcode)
    requires
        a.encoding() == b.encoding(),
    ensures
        a == b,
{
}

/// Decoding the byte of an operation gives that operation back.
pub proof fn decode_inverts_encoding(op: Opcode)
    ensures
        Opcode::decode(op.encoding()) == Some(op),
{
    bytes_are_distinct(op, choose|other: Opcode| other.encoding() == op.encoding());
}

/// A byte decodes to an operation exactly when it is that operation's byte.
pub proof fn decode_agrees_with_encoding(byte: u8, op: Opcode)
    ensures
        Opcode::decode(byte) == Some(op) <==> op.encoding() == byte,
{
    if op.encoding() == byte {
        decode_inverts_encoding(op);
    }
}

} // verus!
