use ac97_core::headers::{half_u16, half_u32, parse_header_common, parse_header_type0, quarter_u32};

#[test]
fn splitters_split_high_first() {
    assert_eq!(half_u32(0x1234_5678), (0x1234, 0x5678));
    assert_eq!(half_u32(0xFFFF_0000), (0xFFFF, 0x0000));
    assert_eq!(half_u16(0xABCD), (0xAB, 0xCD));
    assert_eq!(quarter_u32(0x0102_0304), (0x01, 0x02, 0x03, 0x04));
    assert_eq!(quarter_u32(0xFF00_FF00), (0xFF, 0x00, 0xFF, 0x00));
}

fn pack_u32(high: u16, low: u16) -> u32 {
    ((high as u32) << 16) | (low as u32)
}

fn pack_bytes(b3: u8, b2: u8, b1: u8, b0: u8) -> u32 {
    ((b3 as u32) << 24) | ((b2 as u32) << 16) | ((b1 as u32) << 8) | (b0 as u32)
}

/// A synthetic configuration space with known header fields.
fn synthetic_regs() -> Vec<u32> {
    vec![
        pack_u32(0x2415, 0x8086),               // device, vendor
        pack_u32(0x0280, 0x0007),               // status, command
        pack_bytes(0x04, 0x01, 0x00, 0x02),     // class, subclass, prog-if, revision
        pack_bytes(0x00, 0x00, 0x10, 0x08),     // bist, header type, latency, cache line
        0x0000_D101,                            // base address 0
        0x0000_D201,                            // base address 1
        0x0000_0003,                            // base address 2
        0x0000_0004,                            // base address 3
        0x0000_0005,                            // base address 4
        0x0000_0006,                            // base address 5
        0xCAFE_F00D,                            // cardbus CIS pointer
        pack_u32(0x4711, 0x1028),               // subsystem id, subsystem vendor id
        0xFEED_0000,                            // expansion ROM base
        pack_bytes(0xAA, 0xBB, 0xCC, 0x60),     // reserved bytes, capabilities pointer
        0xDEAD_BEEF,                            // reserved dword
        pack_bytes(0x0A, 0x0B, 0x01, 0x05),     // max latency, min grant, pin, line
    ]
}

#[test]
fn common_header_recovers_every_field() {
    let regs = synthetic_regs();
    let h = parse_header_common(&regs);
    assert_eq!(h.device_id, 0x2415);
    assert_eq!(h.vendor_id, 0x8086);
    assert_eq!(h.status, 0x0280);
    assert_eq!(h.command, 0x0007);
    assert_eq!(h.class_code, 0x04);
    assert_eq!(h.subclass, 0x01);
    assert_eq!(h.prog_if, 0x00);
    assert_eq!(h.revision_id, 0x02);
    assert_eq!(h.built_in_self_test, 0x00);
    assert_eq!(h.header_type, 0x00);
    assert_eq!(h.latency_timer, 0x10);
    assert_eq!(h.cache_line_size, 0x08);
}

#[test]
fn type0_header_recovers_every_field() {
    let regs = synthetic_regs();
    let common = parse_header_common(&regs);
    let h = parse_header_type0(&regs, common);
    assert_eq!(h.headhead.device_id, 0x2415);
    assert_eq!(h.headhead.vendor_id, 0x8086);
    assert_eq!(
        h.base_addresses,
        [0x0000_D101, 0x0000_D201, 3, 4, 5, 6]
    );
    assert_eq!(h.cardbus_cis_pointer, 0xCAFE_F00D);
    assert_eq!(h.subsystem_id, 0x4711);
    assert_eq!(h.subsystem_vendor_id, 0x1028);
    assert_eq!(h.expansion_rom_base_address, 0xFEED_0000);
    assert_eq!(h.capabilites_pointer, 0x60);
    assert_eq!(h.max_latency, 0x0A);
    assert_eq!(h.min_grant, 0x0B);
    assert_eq!(h.interrupt_pin, 0x01);
    assert_eq!(h.interrupt_line, 0x05);
}

#[test]
fn header_round_trip_over_every_byte_value() {
    // re-encoding the parsed common header gives back the same dwords
    for step in 0..=255u32 {
        let d0 = step * 0x0101_0101;
        let regs = vec![
            d0,
            d0.rotate_left(8),
            d0.rotate_left(16),
            d0.rotate_left(24),
            0, 0, 0, 0, 0, 0, 0, 0, 0, 0, 0, 0,
        ];
        let h = parse_header_common(&regs);
        assert_eq!(pack_u32(h.device_id, h.vendor_id), regs[0]);
        assert_eq!(pack_u32(h.status, h.command), regs[1]);
        assert_eq!(pack_bytes(h.class_code, h.subclass, h.prog_if, h.revision_id), regs[2]);
        assert_eq!(
            pack_bytes(h.built_in_self_test, h.header_type, h.latency_timer, h.cache_line_size),
            regs[3]
        );
    }
}
