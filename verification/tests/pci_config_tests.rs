use ac97_core::pci_config::{config_address, select_word, word_address};
use ac97_core::{CONFIG_ADDRESS, CONFIG_DATA};

#[test]
fn fixed_ports() {
    assert_eq!(CONFIG_ADDRESS, 0xCF8);
    assert_eq!(CONFIG_DATA, 0xCFC);
}

#[test]
fn dword_address_packs_the_tuple() {
    // bus 1, slot 2, function 3, register index 4
    let expected = 0x8000_0000u32 | (1 << 16) | (2 << 11) | (3 << 8) | (4 * 4);
    assert_eq!(expected, 0x8001_1310);
    assert_eq!(config_address(1, 2, 3, 4), 0x8001_1310);
}

#[test]
fn dword_address_corners() {
    assert_eq!(config_address(0, 0, 0, 0), 0x8000_0000);
    assert_eq!(config_address(255, 31, 7, 63), 0x8000_0000 | (255 << 16) | (31 << 11) | (7 << 8) | 252);
}

#[test]
fn word_address_clears_low_offset_bits() {
    assert_eq!(word_address(0, 0, 0, 0x0A), 0x8000_0008);
    assert_eq!(word_address(1, 2, 3, 2), 0x8001_1300);
    assert_eq!(word_address(0, 0, 0, 0xFF), 0x8000_00FC);
}

#[test]
fn select_word_picks_the_addressed_half() {
    assert_eq!(select_word(0xDEAD_BEEF, 0), 0xBEEF);
    assert_eq!(select_word(0xDEAD_BEEF, 2), 0xDEAD);
    // only bit 1 of the offset selects the half
    assert_eq!(select_word(0xDEAD_BEEF, 4), 0xBEEF);
    assert_eq!(select_word(0xDEAD_BEEF, 7), 0xDEAD);
    // an absent device's all-ones dword selects to all ones everywhere
    assert_eq!(select_word(0xFFFF_FFFF, 0), 0xFFFF);
    assert_eq!(select_word(0xFFFF_FFFF, 2), 0xFFFF);
}
