//! Computation of PCI configuration-space addresses.
//!
//! Every access to configuration space writes a 32-bit address to the
//! configuration-address port and then moves data through the
//! configuration-data port. The address packs an enable bit, the bus,
//! the device slot, the function, and a register byte offset.

use vstd::prelude::*;

verus! {

/// The 32-bit value latched to select configuration dword `register` of
/// (`bus`, `slot`, `func`): enable bit 31, bus in bits 16..24, slot in
/// bits 11..16, function in bits 8..11, byte offset `register * 4` below.
pub open spec fn spec_config_address(bus: u8, slot: u8, func: u8, register: u8) -> u32 {
    0x8000_0000u32 | ((bus as u32) << 16) | ((slot as u32) << 11) | ((func as u32) << 8)
        | (((register as u32) * 4) as u32)
}

/// Computes the configuration address for a dword access.
pub fn config_address(bus: u8, slot: u8, func: u8, register: u8) -> (addr: u32)
    requires
        slot < 32,
        func < 8,
        register < 64,
    ensures
        addr == spec_config_address(bus, slot, func, register),
{
    let lbus = bus as u32;
    let lslot = slot as u32;
    let lfunc = func as u32;
    let loffset = (register as u32) * 4;

    0x8000_0000u32 | (lbus << 16) | (lslot << 11) | (lfunc << 8) | loffset
}

/// The 32-bit value latched for a word access at byte offset `offset`:
/// the same packing as [`spec_config_address`], with the offset forced
/// down to its enclosing dword boundary.
pub open spec fn spec_word_address(bus: u8, slot: u8, func: u8, offset: u8) -> u32 {
    0x8000_0000u32 | ((bus as u32) << 16) | ((slot as u32) << 11) | ((func as u32) << 8)
        | ((offset as u32) & 0xFC)
}

/// Computes the configuration address for a word access at a byte offset.
pub fn word_address(bus: u8, slot: u8, func: u8, offset: u8) -> (addr: u32)
    requires
        slot < 32,
        func < 8,
    ensures
        addr == spec_word_address(bus, slot, func, offset),
{
    let lbus = bus as u32;
    let lslot = slot as u32;
    let lfunc = func as u32;
    let loffset = offset as u32;

    0x8000_0000u32 | (lbus << 16) | (lslot << 11) | (lfunc << 8) | (loffset & 0xFC)
}

/// The 16-bit half of `dword` selected by byte offset `offset`: the high
/// half when bit 1 of the offset is set, the low half otherwise.
pub open spec fn spec_select_word(dword: u32, offset: u8) -> u16 {
    ((dword >> (((((offset as u32) & 2) * 8) as u32) as u32)) & 0xFFFF) as u16
}

/// Selects the requested half-word out of a configuration dword.
pub fn select_word(dword: u32, offset: u8) -> (w: u16)
    ensures
        w == spec_select_word(dword, offset),
{
    assert(((offset as u32) & 2) * 8 < 32) by (bit_vector);
    let sel_hi_shift = ((offset as u32) & 2) * 8;
    assert((dword >> sel_hi_shift) & 0xFFFF < 0x10000) by (bit_vector);
    ((dword >> sel_hi_shift) & 0xFFFF) as u16
}

/// At byte offset 0 the selected word is the low half of the dword.
pub proof fn lemma_select_word_low(dword: u32)
    ensures
        spec_select_word(dword, 0) == crate::headers::spec_half_u32(dword).1,
{
    assert(((dword >> ((((0u32 & 2) * 8) as u32) as u32)) & 0xFFFF) as u16 == (dword & 0xFFFF)
        as u16) by (bit_vector);
}

/// A dword of all ones, as read from an absent device, selects to an
/// all-ones word at every offset.
pub proof fn lemma_select_word_absent(offset: u8)
    ensures
        spec_select_word(0xFFFF_FFFF, offset) == 0xFFFF,
{
    assert(((0xFFFF_FFFFu32 >> (((((offset as u32) & 2) * 8) as u32) as u32)) & 0xFFFF) as u16
        == 0xFFFF) by (bit_vector);
}

} // verus!
