use vstd::prelude::*;
use crate::address::{effective, snes_to_effective};

verus! {

/// Byte at a banked address.
pub open spec fn byte_at(rom: Seq<u8>, address: u32) -> u8 {
    rom[effective(address)]
}

/// Whether `n` bytes starting at the translation of `address` lie in the ROM.
pub open spec fn readable(rom: Seq<u8>, address: u32, n: int) -> bool {
    effective(address) + n <= rom.len()
}

/// Little-endian 16-bit value at the translation of `address` and the byte after it.
pub open spec fn u16_at(rom: Seq<u8>, address: u32) -> int {
    let o = effective(address);
    rom[o] + 0x100 * rom[o + 1]
}

/// Little-endian 24-bit value at the translation of `address` and the two bytes after it.
pub open spec fn u24_at(rom: Seq<u8>, address: u32) -> int {
    let o = effective(address);
    rom[o] + 0x100 * rom[o + 1] + 0x10000 * rom[o + 2]
}

/// A loaded ROM image, read through banked addresses.
pub struct Syvalion {
    pub rom: Vec<u8>,
}

impl Syvalion {
    pub fn new(rom: Vec<u8>) -> (r: Self)
        ensures
            r.rom@ == rom@,
    {
        Syvalion { rom }
    }

    /// Whether `n` bytes at the translation of `address` lie in the ROM.
    pub fn can_read(&self, address: u32, n: usize) -> (r: bool)
        ensures
            r == readable(self.rom@, address, n as int),
    {
        let o = snes_to_effective(address);
        o <= self.rom.len() && n <= self.rom.len() - o
    }

    pub fn get_u8(&self, snes_address: u32) -> (r: u8)
        requires
            readable(self.rom@, snes_address, 1),
        ensures
            r == byte_at(self.rom@, snes_address),
    {
        self.rom[snes_to_effective(snes_address)]
    }

    pub fn make_u16(&self, snes_address: u32) -> (r: u16)
        requires
            readable(self.rom@, snes_address, 2),
        ensures
            r as int == u16_at(self.rom@, snes_address),
    {
        let offset = snes_to_effective(snes_address);
        let lo = self.rom[offset] as u16;
        let hi = self.rom[offset + 1] as u16;
        lo + hi * 0x100
    }

    pub fn make_u24(&self, snes_address: u32) -> (r: u32)
        requires
            readable(self.rom@, snes_address, 3),
        ensures
            r as int == u24_at(self.rom@, snes_address),
    {
        let offset = snes_to_effective(snes_address);
        let b0 = self.rom[offset] as u32;
        let b1 = self.rom[offset + 1] as u32;
        let b2 = self.rom[offset + 2] as u32;
        b0 + b1 * 0x100 + b2 * 0x10000
    }
}

} // verus!
