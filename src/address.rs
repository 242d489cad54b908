use vstd::prelude::*;

verus! {

/// Flat offset of a banked address: the bank (bits 16 and up) selects a
/// 0x8000-byte window, and the in-bank offset counts from 0x8000, modulo 0x10000.
pub open spec fn effective(address: u32) -> int {
    (address as int / 0x10000) * 0x8000 + ((address as int % 0x10000) - 0x8000) % 0x10000
}

/// Translates a banked address into an offset in the ROM buffer.
pub fn snes_to_effective(address: u32) -> (r: usize)
    ensures
        r as int == effective(address),
{
    let high = address >> 16;
    let low = address & 0xFFFF;
    assert(address >> 16 <= 0xFFFF && address & 0xFFFF <= 0xFFFF) by (bit_vector);
    let bank = high * 0x8000;
    let offset = (low + 0x8000) & 0xFFFF;
    proof {
        assert(address >> 16 == address / 0x10000) by (bit_vector);
        assert(address & 0xFFFF == address % 0x10000) by (bit_vector);
        assert(((low + 0x8000) as u32) & 0xFFFF == ((low + 0x8000) as u32) % 0x10000) by (bit_vector);
        assert((low as int + 0x8000) % 0x10000 == (low as int - 0x8000) % 0x10000) by (nonlinear_arith)
            requires low < 0x10000;
    }
    (bank + offset) as usize
}

} // verus!
