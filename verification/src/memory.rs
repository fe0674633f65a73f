//! The memory bus: a 16-bit address space over RAM, a reserved gap and ROM.
//!
//! RAM starts at address 0 and ROM at `ROM_BASE`. An address that neither
//! region backs reads as zero and cannot be written. RAM that would reach
//! `ROM_BASE` or beyond is not addressable: the two regions never overlap.

use crate::buffer::{as_mut_slice, as_slice, buffer_bytes, lower_hex, to_lower_hex};
use crate::error::EmulatorError;
use bytes::BytesMut;
use vstd::prelude::*;
use vstd::slice::{slice_subrange, slice_to_vec};

verus! {

/// What every byte of RAM holds until it is written: reads of memory that
/// was never written stand out.
pub const RAM_FILL: u8 = 0xFF;

/// The address at which ROM is mapped.
pub const ROM_BASE: u16 = 0x8000;

/// The length of the header that precedes the program in an image.
pub const HEADER_SIZE: usize = 16;

/// The address of the low byte of the reset vector; the high byte follows.
pub const RESET_VECTOR: u16 = 0xFFFC;

/// What a bus holds: the bytes of its two regions.
pub struct Memory {
    pub ram: Seq<u8>,
    pub rom: Seq<u8>,
}

impl Memory {
    /// A bus as constructed: `ram` bytes of RAM that all hold `RAM_FILL`, and
    /// `rom` bytes of ROM that all hold zero.
    pub open spec fn fresh(ram: nat, rom: nat) -> Memory {
        Memory { ram: Seq::new(ram, |i: int| RAM_FILL), rom: Seq::new(rom, |i: int| 0u8) }
    }

    /// Whether `address` selects a byte of RAM.
    pub open spec fn in_ram(self, address: u16) -> bool {
        address < ROM_BASE && address < self.ram.len()
    }

    /// Whether `address` selects a byte of ROM.
    pub open spec fn in_rom(self, address: u16) -> bool {
        address >= ROM_BASE && address - ROM_BASE < self.rom.len()
    }

    /// The byte that a read of `address` returns.
    pub open spec fn read(self, address: u16) -> u8 {
        if self.in_ram(address) {
            self.ram[address as int]
        } else if self.in_rom(address) {
            self.rom[address - ROM_BASE]
        } else {
            0
        }
    }

    /// This memory with `value` stored in RAM at `address`.
    pub open spec fn write(self, address: u16, value: u8) -> Memory
        recommends
            self.in_ram(address),
    {
        Memory { ram: self.ram.update(address as int, value), ..self }
    }

    /// This memory after the attempts `writes`, each an address and a value,
    /// made first to last. An attempt at an address that RAM does not back
    /// changes nothing.
    pub open spec fn after_writes(self, writes: Seq<(u16, u8)>) -> Memory
        decreases writes.len(),
    {
        if writes.len() == 0 {
            self
        } else {
            let before = self.after_writes(writes.drop_last());
            if before.in_ram(writes.last().0) {
                before.write(writes.last().0, writes.last().1)
            } else {
                before
            }
        }
    }

    /// The address held by the reset vector, low byte first.
    pub open spec fn reset_vector(self) -> u16 {
        (self.read((RESET_VECTOR + 1) as u16) * 256 + self.read(RESET_VECTOR)) as u16
    }

    /// Whether `image` is a header followed by exactly as many bytes as the
    /// ROM holds.
    pub open spec fn accepts(self, image: Seq<u8>) -> bool {
        image.len() == HEADER_SIZE + self.rom.len()
    }

    /// This memory with the ROM holding what follows the header of `image`.
    pub open spec fn with_image(self, image: Seq<u8>) -> Memory
        recommends
            self.accepts(image),
    {
        Memory { rom: image.skip(HEADER_SIZE as int), ..self }
    }
}

/// The bus itself. Its regions are sized at construction and never resized.
pub struct MemoryBus {
    ram: BytesMut,
    rom: BytesMut,
}

impl MemoryBus {
    /// The bytes that the bus holds.
    pub closed spec fn view(&self) -> Memory {
        Memory { ram: buffer_bytes(self.ram), rom: buffer_bytes(self.rom) }
    }

    /// A bus with `ram` bytes of RAM and `rom` bytes of ROM.
    pub fn new(ram: u16, rom: u16) -> (bus: MemoryBus)
        ensures
            bus@ == Memory::fresh(ram as nat, rom as nat),
    {
        let mut ram_region = BytesMut::with_capacity(ram as usize);
        ram_region.resize(ram as usize, RAM_FILL);
        let bus = MemoryBus { ram: ram_region, rom: BytesMut::zeroed(rom as usize) };
        assert(bus@.ram =~= Memory::fresh(ram as nat, rom as nat).ram);
        bus
    }

    /// Reads the byte at `address`. Never fails: an address that nothing
    /// backs reads as zero.
    pub fn read(&self, address: u16) -> (value: u8)
        ensures
            value == self@.read(address),
    {
        if address < ROM_BASE {
            let ram = as_slice(&self.ram);
            if (address as usize) < ram.len() {
                ram[address as usize]
            } else {
                0
            }
        } else {
            let rom = as_slice(&self.rom);
            let offset: usize = (address - ROM_BASE) as usize;
            if offset < rom.len() {
                rom[offset]
            } else {
                0
            }
        }
    }

    /// Stores `value` at `address` if RAM backs it. Any other address, in
    /// the reserved gap or in ROM, is refused and nothing changes.
    pub fn write(&mut self, address: u16, value: u8) -> (written: Result<(), EmulatorError>)
        ensures
            written is Ok <==> old(self)@.in_ram(address),
            written is Ok ==> final(self)@ == old(self)@.write(address, value),
            written is Err ==> written->Err_0 == EmulatorError::InvalidWriteTarget(address),
            written is Err ==> final(self)@ == old(self)@,
            address >= ROM_BASE ==> written is Err,
            final(self)@.rom == old(self)@.rom,
            final(self)@.ram.len() == old(self)@.ram.len(),
    {
        let ram = as_mut_slice(&mut self.ram);
        if address < ROM_BASE && (address as usize) < ram.len() {
            ram[address as usize] = value;
            Ok(())
        } else {
            Err(EmulatorError::InvalidWriteTarget(address))
        }
    }

    /// Populates the ROM with the program that follows the header of
    /// `image`. An image of any other length than header plus ROM is refused
    /// and nothing changes.
    pub fn load_image(&mut self, image: &[u8]) -> (loaded: Result<(), EmulatorError>)
        ensures
            loaded is Ok <==> old(self)@.accepts(image@),
            loaded is Ok ==> final(self)@ == old(self)@.with_image(image@),
            loaded is Err ==> loaded->Err_0 == EmulatorError::StartupIOError,
            loaded is Err ==> final(self)@ == old(self)@,
            final(self)@.ram == old(self)@.ram,
            final(self)@.rom.len() == old(self)@.rom.len(),
    {
        let rom = as_mut_slice(&mut self.rom);
        if image.len() >= HEADER_SIZE && image.len() - HEADER_SIZE == rom.len() {
            rom.copy_from_slice(slice_subrange(image, HEADER_SIZE, image.len()));
            Ok(())
        } else {
            Err(EmulatorError::StartupIOError)
        }
    }

    /// A copy of the whole RAM.
    pub fn ram(&self) -> (bytes: Vec<u8>)
        ensures
            bytes@ == self@.ram,
    {
        slice_to_vec(as_slice(&self.ram))
    }

    /// The whole RAM as lower-case hexadecimal text, two digits a byte.
    pub fn ram_hex(&self) -> (text: String)
        ensures
            text@ == lower_hex(self@.ram),
    {
        to_lower_hex(&self.ram)
    }
}

/// Every address of RAM reads as `RAM_FILL` on a bus that was never written.
pub proof fn fresh_ram_reads_fill(ram: nat, rom: nat, address: u16)
    requires
        Memory::fresh(ram, rom).in_ram(address),
    ensures
        Memory::fresh(ram, rom).read(address) == RAM_FILL,
{
}

/// A byte of RAM reads as `RAM_FILL` until it is written itself, whatever
/// has been written elsewhere.
pub proof fn unwritten_ram_reads_fill(ram: nat, rom: nat, writes: Seq<(u16, u8)>, address: u16)
    requires
        Memory::fresh(ram, rom).in_ram(address),
        forall|i: int| 0 <= i < writes.len() ==> writes[i].0 != address,
    ensures
        Memory::fresh(ram, rom).after_writes(writes).read(address) == RAM_FILL,
        Memory::fresh(ram, rom).after_writes(writes).ram.len() == ram,
    decreases writes.len(),
{
    if writes.len() > 0 {
        unwritten_ram_reads_fill(ram, rom, writes.drop_last(), address);
    }
}

/// A write changes what is read at its own address and nowhere else.
pub proof fn write_changes_one_address(memory: Memory, target: u16, value: u8, address: u16)
    requires
        memory.in_ram(target),
    ensures
        memory.write(target, value).read(address) == (if address == target {
            value
        } else {
            memory.read(address)
        }),
{
}

/// No address at or above `ROM_BASE` selects RAM: a write there is refused.
pub proof fn rom_is_not_writable(memory: Memory, address: u16)
    requires
        address >= ROM_BASE,
    ensures
        !memory.in_ram(address),
{
}

} // verus!
