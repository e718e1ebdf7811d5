use ac97_core::config_space::{ConfigSpace, SlotConfig};
use ac97_core::scan::{init_pci, pci_check_vendor, scan_pci_devices, Vendor};

fn pack_u32(high: u16, low: u16) -> u32 {
    ((high as u32) << 16) | (low as u32)
}

fn pack_bytes(b3: u8, b2: u8, b1: u8, b0: u8) -> u32 {
    ((b3 as u32) << 24) | ((b2 as u32) << 16) | ((b1 as u32) << 8) | (b0 as u32)
}

/// A slot whose header carries the given identity and the two I/O-space
/// base-address registers.
fn slot(bus: u8, slot: u8, vendor: u16, class: u8, subclass: u8, header_type: u8, bar0: u32, bar1: u32) -> SlotConfig {
    SlotConfig {
        bus,
        slot,
        regs: vec![
            pack_u32(0x2415, vendor),
            pack_u32(0, 0),
            pack_bytes(class, subclass, 0, 1),
            pack_bytes(0, header_type, 0, 0),
            bar0,
            bar1,
            0, 0, 0, 0, 0, 0, 0, 0, 0, 0,
        ],
    }
}

#[test]
fn vendor_id_none_when_all_ones() {
    assert_eq!(Vendor(0xFFFF).id(), None);
    assert_eq!(Vendor(0x8086).id(), Some(0x8086));
}

#[test]
fn absent_slot_reads_all_ones_and_is_never_a_device() {
    let space = ConfigSpace { slots: vec![] };
    assert_eq!(space.read_u32(0, 0, 0), 0xFFFF_FFFF);
    assert_eq!(space.read_word(7, 13, 0), 0xFFFF);
    assert_eq!(pci_check_vendor(&space, 7, 13).0, 0xFFFF);
    let devs = scan_pci_devices(&space);
    assert!(devs.ac97.is_none());
}

#[test]
fn explicit_all_ones_vendor_is_not_parsed_as_a_device() {
    // a slot whose vendor word reads 0xFFFF counts as no device even if
    // the rest of its header would match
    let space = ConfigSpace {
        slots: vec![slot(0, 1, 0xFFFF, 0x04, 0x01, 0, 0xD101, 0xD201)],
    };
    assert!(scan_pci_devices(&space).ac97.is_none());
}

#[test]
fn finds_the_audio_controller_and_masks_its_bars() {
    let space = ConfigSpace {
        slots: vec![
            slot(0, 2, 0x1022, 0x02, 0x00, 0, 0x1111, 0x2222), // network class: skipped
            slot(3, 7, 0x8086, 0x04, 0x01, 0, 0xD103, 0xD201),
            slot(3, 9, 0x8086, 0x04, 0x03, 0, 0x3333, 0x4444), // wrong subclass
            slot(4, 1, 0x8086, 0x04, 0x01, 1, 0x5555, 0x6666), // wrong header type
        ],
    };
    let devs = scan_pci_devices(&space);
    let a = devs.ac97.expect("audio controller present");
    assert_eq!(a.bus, 3);
    assert_eq!(a.slot, 7);
    // the low space-type bits of each base address are cleared
    assert_eq!(a.mixer_port_base, 0xD100);
    assert_eq!(a.buffer_port_base, 0xD200);
}

#[test]
fn last_matching_device_wins() {
    let space = ConfigSpace {
        slots: vec![
            slot(1, 0, 0x8086, 0x04, 0x01, 0, 0xA001, 0xB001),
            slot(200, 30, 0x10EC, 0x04, 0x01, 0, 0xC001, 0xD001),
            slot(5, 5, 0x1102, 0x04, 0x01, 0, 0xE001, 0xF001),
        ],
    };
    let a = scan_pci_devices(&space).ac97.expect("audio controller present");
    assert_eq!(a.bus, 200);
    assert_eq!(a.slot, 30);
    assert_eq!(a.mixer_port_base, 0xC000);
    assert_eq!(a.buffer_port_base, 0xD000);
}

#[test]
fn write_u32_hits_only_the_addressed_device() {
    let mut space = ConfigSpace {
        slots: vec![
            slot(0, 1, 0x8086, 0x04, 0x01, 0, 0xD101, 0xD201),
            slot(0, 2, 0x1022, 0x02, 0x00, 0, 0x1111, 0x2222),
        ],
    };
    space.write_u32(0, 1, 7, 0xAABB_CCDD);
    assert_eq!(space.read_u32(0, 1, 7), 0xAABB_CCDD);
    assert_eq!(space.read_u32(0, 1, 4), 0xD101);
    assert_eq!(space.read_u32(0, 2, 7), 0);
    // a write to an absent address changes nothing
    space.write_u32(9, 9, 0, 0x1234_5678);
    assert_eq!(space.read_u32(9, 9, 0), 0xFFFF_FFFF);
    assert_eq!(space.read_u32(0, 1, 0), ((0x2415u32) << 16) | 0x8086);
}

#[test]
fn init_pci_sets_enable_bits_on_audio_class_devices() {
    let mut space = ConfigSpace {
        slots: vec![
            slot(0, 2, 0x1022, 0x02, 0x00, 0, 0x1111, 0x2222),
            slot(3, 7, 0x8086, 0x04, 0x01, 0, 0xD103, 0xD201),
            slot(4, 1, 0x8086, 0x04, 0x05, 0, 0x5555, 0x6666), // class 4, any subclass
        ],
    };
    let before_net = space.slots[0].regs[1];
    let before_audio = space.slots[1].regs[1];
    let before_other = space.slots[2].regs[1];
    init_pci(&mut space);
    // non-audio device untouched
    assert_eq!(space.slots[0].regs[1], before_net);
    // audio multimedia class: I/O-space enable (bit 0) and bus-master
    // enable (bit 2) set in the command word
    assert_eq!(space.slots[1].regs[1], before_audio | 0b101);
    assert_eq!(space.slots[2].regs[1], before_other | 0b101);
    // the rest of the header is untouched
    assert_eq!(space.slots[1].regs[0], pack_u32(0x2415, 0x8086));
    assert_eq!(space.slots[1].regs[4], 0xD103);
}
