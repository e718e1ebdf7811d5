//! Parsed views of the 64-byte PCI configuration header.
//!
//! A header is read as sixteen configuration dwords. Dwords 0 through 3
//! carry the fields common to every layout; a Type-0 (general device)
//! header adds base-address registers, subsystem identifiers, and
//! interrupt routing in dwords 4 through 0xF.

use vstd::prelude::*;

verus! {

/// The header fields shared by every PCI configuration-space layout,
/// decoded from configuration dwords 0 through 3.
#[derive(Debug, Clone, Copy, PartialEq, Eq)]
pub struct PciHeaderCommon {
    pub device_id: u16,
    pub vendor_id: u16,

    pub status: u16,
    pub command: u16,

    pub class_code: u8,
    pub subclass: u8,
    pub prog_if: u8,
    pub revision_id: u8,

    pub built_in_self_test: u8,
    pub header_type: u8,
    pub latency_timer: u8,
    pub cache_line_size: u8,
}

/// A Type-0 header: the common fields plus the general-device layout of
/// configuration dwords 4 through 0xF.
#[derive(Debug, Clone, Copy, PartialEq, Eq)]
pub struct PciHeaderType0 {
    pub headhead: PciHeaderCommon,

    pub base_addresses: [u32; 6],

    pub cardbus_cis_pointer: u32,

    pub subsystem_id: u16,
    pub subsystem_vendor_id: u16,

    pub expansion_rom_base_address: u32,

    pub capabilites_pointer: u8,
    pub max_latency: u8,
    pub min_grant: u8,
    pub interrupt_pin: u8,
    pub interrupt_line: u8,
}

/// The two 16-bit halves of a dword, high half first.
pub open spec fn spec_half_u32(x: u32) -> (u16, u16) {
    (((x >> 16) & 0xFFFF) as u16, (x & 0xFFFF) as u16)
}

/// The two bytes of a word, high byte first.
pub open spec fn spec_half_u16(x: u16) -> (u8, u8) {
    (((x >> 8) & 0xFF) as u8, (x & 0xFF) as u8)
}

/// The four bytes of a dword, highest byte first.
pub open spec fn spec_quarter_u32(x: u32) -> (u8, u8, u8, u8) {
    (
        ((x >> 24) & 0xFF) as u8,
        ((x >> 16) & 0xFF) as u8,
        ((x >> 8) & 0xFF) as u8,
        (x & 0xFF) as u8,
    )
}

/// Splits a dword into its two 16-bit halves, high place values on the left.
pub fn half_u32(x: u32) -> (r: (u16, u16))
    ensures
        r == spec_half_u32(x),
{
    let low = x & 0xFFFF;
    let high = (x >> 16) & 0xFFFF;
    (high as u16, low as u16)
}

/// Splits a word into its two bytes, high place values on the left.
pub fn half_u16(x: u16) -> (r: (u8, u8))
    ensures
        r == spec_half_u16(x),
{
    let low = x & 0xFF;
    let high = (x >> 8) & 0xFF;
    (high as u8, low as u8)
}

/// Splits a dword into its four bytes, high place values on the left.
pub fn quarter_u32(x: u32) -> (r: (u8, u8, u8, u8))
    ensures
        r == spec_quarter_u32(x),
{
    let b0 = (x & 0xFF) as u8;
    let b1 = ((x >> 8) & 0xFF) as u8;
    let b2 = ((x >> 16) & 0xFF) as u8;
    let b3 = ((x >> 24) & 0xFF) as u8;

    (b3, b2, b1, b0)
}

/// A dword assembled from two 16-bit halves, high half first.
pub open spec fn spec_pack_u32(high: u16, low: u16) -> u32 {
    ((high as u32) << 16) | (low as u32)
}

/// A dword assembled from four bytes, highest byte first.
pub open spec fn spec_pack_bytes(b3: u8, b2: u8, b1: u8, b0: u8) -> u32 {
    ((b3 as u32) << 24) | ((b2 as u32) << 16) | ((b1 as u32) << 8) | (b0 as u32)
}

/// Splitting a packed dword recovers both halves.
pub proof fn lemma_half_u32_pack(high: u16, low: u16)
    ensures
        spec_half_u32(spec_pack_u32(high, low)) == (high, low),
{
    let x = spec_pack_u32(high, low);
    assert(((x >> 16) & 0xFFFF) as u16 == high && (x & 0xFFFF) as u16 == low) by (bit_vector)
        requires
            x == ((high as u32) << 16) | (low as u32),
    ;
}

/// Splitting a dword packed from four bytes recovers all four.
pub proof fn lemma_quarter_u32_pack(b3: u8, b2: u8, b1: u8, b0: u8)
    ensures
        spec_quarter_u32(spec_pack_bytes(b3, b2, b1, b0)) == (b3, b2, b1, b0),
{
    let x = spec_pack_bytes(b3, b2, b1, b0);
    assert(((x >> 24) & 0xFF) as u8 == b3 && ((x >> 16) & 0xFF) as u8 == b2 && ((x >> 8) & 0xFF)
        as u8 == b1 && (x & 0xFF) as u8 == b0) by (bit_vector)
        requires
            x == ((b3 as u32) << 24) | ((b2 as u32) << 16) | ((b1 as u32) << 8) | (b0 as u32),
    ;
}

/// A synthetic configuration space whose first four dwords carry the
/// fields of `h` at their places in the common header layout.
pub open spec fn spec_encode_header_common(h: PciHeaderCommon) -> Seq<u32> {
    seq![
        spec_pack_u32(h.device_id, h.vendor_id),
        spec_pack_u32(h.status, h.command),
        spec_pack_bytes(h.class_code, h.subclass, h.prog_if, h.revision_id),
        spec_pack_bytes(h.built_in_self_test, h.header_type, h.latency_timer, h.cache_line_size),
    ]
}

/// Parsing a synthetic configuration space built from known common-header
/// fields recovers exactly those field values.
pub proof fn lemma_header_common_roundtrip(h: PciHeaderCommon)
    ensures
        spec_parse_header_common(spec_encode_header_common(h)) == h,
{
    lemma_half_u32_pack(h.device_id, h.vendor_id);
    lemma_half_u32_pack(h.status, h.command);
    lemma_quarter_u32_pack(h.class_code, h.subclass, h.prog_if, h.revision_id);
    lemma_quarter_u32_pack(
        h.built_in_self_test,
        h.header_type,
        h.latency_timer,
        h.cache_line_size,
    );
}

/// A synthetic sixteen-dword configuration space carrying the fields of
/// `h` at their places in the Type-0 layout. Dword 0xE, which the layout
/// leaves reserved, is zero.
pub open spec fn spec_encode_header_type0(h: PciHeaderType0) -> Seq<u32> {
    spec_encode_header_common(h.headhead) + seq![
        h.base_addresses[0],
        h.base_addresses[1],
        h.base_addresses[2],
        h.base_addresses[3],
        h.base_addresses[4],
        h.base_addresses[5],
        h.cardbus_cis_pointer,
        spec_pack_u32(h.subsystem_id, h.subsystem_vendor_id),
        h.expansion_rom_base_address,
        spec_pack_bytes(0, 0, 0, h.capabilites_pointer),
        0,
        spec_pack_bytes(h.max_latency, h.min_grant, h.interrupt_pin, h.interrupt_line),
    ]
}

/// Parsing a synthetic configuration space built from known Type-0 header
/// fields recovers exactly those field values: each decoded field formula,
/// applied to the encoded dwords, denotes the field it was built from.
pub proof fn lemma_header_type0_roundtrip(h: PciHeaderType0)
    ensures
        spec_encode_header_type0(h).len() == 16,
        spec_parse_header_common(spec_encode_header_type0(h)) == h.headhead,
        forall|i: int|
            0 <= i < 6 ==> spec_encode_header_type0(h)[4 + i] == h.base_addresses[i],
        spec_encode_header_type0(h)[0xA] == h.cardbus_cis_pointer,
        spec_half_u32(spec_encode_header_type0(h)[0xB]) == (
            h.subsystem_id,
            h.subsystem_vendor_id,
        ),
        spec_encode_header_type0(h)[0xC] == h.expansion_rom_base_address,
        spec_quarter_u32(spec_encode_header_type0(h)[0xD]).3 == h.capabilites_pointer,
        spec_quarter_u32(spec_encode_header_type0(h)[0xF]) == (
            h.max_latency,
            h.min_grant,
            h.interrupt_pin,
            h.interrupt_line,
        ),
{
    let common = spec_encode_header_common(h.headhead);
    let regs = spec_encode_header_type0(h);
    assert(common.len() == 4);
    assert(regs.len() == 16);
    assert(regs[0] == common[0] && regs[1] == common[1] && regs[2] == common[2] && regs[3]
        == common[3]);
    lemma_header_common_roundtrip(h.headhead);
    lemma_half_u32_pack(h.subsystem_id, h.subsystem_vendor_id);
    lemma_quarter_u32_pack(0, 0, 0, h.capabilites_pointer);
    lemma_quarter_u32_pack(h.max_latency, h.min_grant, h.interrupt_pin, h.interrupt_line);
}

/// The common header denoted by the first four configuration dwords.
pub open spec fn spec_parse_header_common(regs: Seq<u32>) -> PciHeaderCommon
    recommends
        regs.len() >= 4,
{
    PciHeaderCommon {
        device_id: spec_half_u32(regs[0]).0,
        vendor_id: spec_half_u32(regs[0]).1,
        status: spec_half_u32(regs[1]).0,
        command: spec_half_u32(regs[1]).1,
        class_code: spec_quarter_u32(regs[2]).0,
        subclass: spec_quarter_u32(regs[2]).1,
        prog_if: spec_quarter_u32(regs[2]).2,
        revision_id: spec_quarter_u32(regs[2]).3,
        built_in_self_test: spec_quarter_u32(regs[3]).0,
        header_type: spec_quarter_u32(regs[3]).1,
        latency_timer: spec_quarter_u32(regs[3]).2,
        cache_line_size: spec_quarter_u32(regs[3]).3,
    }
}

/// Decodes the common header from a sixteen-dword configuration snapshot.
pub fn parse_header_common(regs: &Vec<u32>) -> (h: PciHeaderCommon)
    requires
        regs@.len() == 16,
    ensures
        h == spec_parse_header_common(regs@),
{
    let (device_id, vendor_id) = half_u32(regs[0]);
    let (status, command) = half_u32(regs[1]);
    let (class_code, subclass, prog_if, revision_id) = quarter_u32(regs[2]);
    let (built_in_self_test, header_type, latency_timer, cache_line_size) = quarter_u32(regs[3]);

    PciHeaderCommon {
        device_id,
        vendor_id,
        status,
        command,
        class_code,
        subclass,
        prog_if,
        revision_id,
        built_in_self_test,
        header_type,
        latency_timer,
        cache_line_size,
    }
}

/// Decodes the Type-0 layout from a sixteen-dword configuration snapshot,
/// carrying along an already-decoded common header.
pub fn parse_header_type0(regs: &Vec<u32>, headhead: PciHeaderCommon) -> (h: PciHeaderType0)
    requires
        regs@.len() == 16,
    ensures
        h.headhead == headhead,
        forall|i: int| 0 <= i < 6 ==> h.base_addresses[i] == regs@[4 + i],
        h.cardbus_cis_pointer == regs@[0xA],
        h.subsystem_id == spec_half_u32(regs@[0xB]).0,
        h.subsystem_vendor_id == spec_half_u32(regs@[0xB]).1,
        h.expansion_rom_base_address == regs@[0xC],
        h.capabilites_pointer == spec_quarter_u32(regs@[0xD]).3,
        h.max_latency == spec_quarter_u32(regs@[0xF]).0,
        h.min_grant == spec_quarter_u32(regs@[0xF]).1,
        h.interrupt_pin == spec_quarter_u32(regs@[0xF]).2,
        h.interrupt_line == spec_quarter_u32(regs@[0xF]).3,
{
    let base_addresses = [regs[4], regs[5], regs[6], regs[7], regs[8], regs[9]];
    let cardbus_cis_pointer = regs[0xA];
    let (subsystem_id, subsystem_vendor_id) = half_u32(regs[0xB]);
    let expansion_rom_base_address = regs[0xC];

    let (_, _, _, capabilites_pointer) = quarter_u32(regs[0xD]);

    let (max_latency, min_grant, interrupt_pin, interrupt_line) = quarter_u32(regs[0xF]);

    PciHeaderType0 {
        headhead,
        base_addresses,
        cardbus_cis_pointer,
        subsystem_id,
        subsystem_vendor_id,
        expansion_rom_base_address,
        capabilites_pointer,
        max_latency,
        min_grant,
        interrupt_pin,
        interrupt_line,
    }
}

} // verus!
