//! Enumeration of the PCI bus and location of the audio controller.
//!
//! Every (bus, device) pair is probed at function 0 only: this driver
//! supports single-function devices, and never inspects the
//! multi-function bit of the header-type byte, so the non-zero functions
//! of a multi-function device stay invisible. A present device whose
//! Type-0 header carries the audio multimedia class and audio-codec
//! subclass yields a handle; when several match, the last one found in
//! scan order wins, which the surrounding system may report as a
//! diagnostic.

use vstd::prelude::*;

use crate::audio_ac97::AudioAc97;
use crate::config_space::{ConfigSpace, SlotConfig};
use crate::headers::{parse_header_common, parse_header_type0, spec_parse_header_common};
use crate::pci_config::lemma_select_word_low;

verus! {

/// A vendor-identifier word as read from configuration space.
pub struct Vendor(pub u16);

impl Vendor {
    /// The identifier, unless the word is all ones: no vendor is ever
    /// assigned `0xFFFF`, so that reading is an absent device.
    pub fn id(&self) -> (r: Option<u16>)
        ensures
            r == if self.0 == 0xFFFF {
                None::<u16>
            } else {
                Some(self.0)
            },
    {
        if self.0 == 0xFFFF {
            None
        } else {
            Some(self.0)
        }
    }
}

/// Reads the vendor word of (bus, slot) at function 0.
pub fn pci_check_vendor(space: &ConfigSpace, bus: u8, slot: u8) -> (v: Vendor)
    requires
        space.wf(),
        slot < 32,
    ensures
        v.0 == spec_parse_header_common(space.spec_regs(bus, slot)).vendor_id,
{
    let w = space.read_word(bus, slot, 0);
    proof {
        lemma_select_word_low(space.spec_regs(bus, slot)[0]);
    }
    Vendor(w)
}

/// The devices the scan yields: at most one audio controller. Absence
/// is a normal outcome, not an error.
pub struct PciDevices {
    pub ac97: Option<AudioAc97>,
}

/// Whether (bus, slot) answers as a present, single-function audio
/// controller: vendor present, Type-0 header, audio multimedia class
/// (0x04) and audio-codec subclass (0x01).
pub open spec fn spec_slot_matches(space: ConfigSpace, bus: u8, slot: u8) -> bool {
    let h = spec_parse_header_common(space.spec_regs(bus, slot));
    &&& h.vendor_id != 0xFFFF
    &&& h.header_type == 0x0
    &&& h.class_code == 0x04
    &&& h.subclass == 0x01
}

/// The handle built for a matching (bus, slot): the two port bases come
/// from base-address registers 0 and 1 (configuration dwords 4 and 5),
/// masked to clear the low space-type bits.
pub open spec fn spec_audio_handle(space: ConfigSpace, bus: u8, slot: u8) -> AudioAc97 {
    let regs = space.spec_regs(bus, slot);
    (AudioAc97 {
        bus,
        slot,
        mixer_port_base: (regs[4] & 0xFFFC) as u16,
        buffer_port_base: (regs[5] & 0xFFFC) as u16,
    })
}

/// The scan-order position of (bus, slot): bus-major, slot-minor.
pub open spec fn flat_index(bus: u8, slot: u8) -> int {
    bus as int * 32 + slot as int
}

/// What holds of the scan result after the first `n` scan positions:
/// nothing found means no position below `n` matches; a handle means its
/// position matches, the handle is the one that position denotes, and no
/// later position below `n` matches — the last match wins.
pub open spec fn scan_prefix_ok(space: ConfigSpace, audio: Option<AudioAc97>, n: int) -> bool {
    match audio {
        None => forall|b: u8, s: u8|
            s < 32 && flat_index(b, s) < n ==> !#[trigger] spec_slot_matches(space, b, s),
        Some(a) => {
            &&& a.slot < 32
            &&& flat_index(a.bus, a.slot) < n
            &&& spec_slot_matches(space, a.bus, a.slot)
            &&& a == spec_audio_handle(space, a.bus, a.slot)
            &&& forall|b: u8, s: u8|
                s < 32 && flat_index(a.bus, a.slot) < flat_index(b, s) < n
                    ==> !#[trigger] spec_slot_matches(space, b, s)
        },
    }
}

/// Scans all 256 buses and 32 device slots at function 0 and keeps the
/// last matching audio controller, if any.
pub fn scan_pci_devices(space: &ConfigSpace) -> (devs: PciDevices)
    requires
        space.wf(),
    ensures
        scan_prefix_ok(*space, devs.ac97, 8192),
        (devs.ac97 is None) <==> (forall|b: u8, s: u8|
            s < 32 ==> !#[trigger] spec_slot_matches(*space, b, s)),
{
    let mut audio: Option<AudioAc97> = None;

    let mut bus: u16 = 0;
    while bus < 256
        invariant
            space.wf(),
            bus <= 256,
            scan_prefix_ok(*space, audio, bus as int * 32),
        decreases 256 - bus,
    {
        let mut device: u8 = 0;
        while device < 32
            invariant
                space.wf(),
                bus < 256,
                device <= 32,
                scan_prefix_ok(*space, audio, bus as int * 32 + device as int),
            decreases 32 - device,
        {
            let b = bus as u8;
            let vendor = space.read_word(b, device, 0);
            proof {
                lemma_select_word_low(space.spec_regs(b, device)[0]);
            }
            if vendor != 0xFFFF {
                let regs = space.regs_of(b, device);
                let headhead = parse_header_common(&regs);
                assert(vendor == headhead.vendor_id);

                if headhead.header_type == 0x0 && headhead.class_code == 0x04 && headhead.subclass
                    == 0x01 {
                    // a Type-0 header type byte means a single-function
                    // device: bit 7 would mark multi-function
                    let full_header = parse_header_type0(&regs, headhead);

                    // several matches: the last found wins
                    audio = Some(AudioAc97::new(b, device, &full_header));
                    assert(spec_slot_matches(*space, b, device));
                    assert(audio == Some(spec_audio_handle(*space, b, device)));
                } else {
                    assert(!spec_slot_matches(*space, b, device));
                }
            } else {
                assert(!spec_slot_matches(*space, b, device));
            }
            device = device + 1;
        }
        bus = bus + 1;
    }
    proof {
        assert(scan_prefix_ok(*space, audio, 8192));
        if audio is None {
            assert forall|b: u8, s: u8| s < 32 implies !spec_slot_matches(*space, b, s) by {
                assert(flat_index(b, s) < 8192);
            }
        }
    }
    PciDevices { ac97: audio }
}

/// Whether the initialisation pass rewrites an entry's command register:
/// a present device with a Type-0 header in the audio multimedia class.
pub open spec fn spec_enable_cond(e: SlotConfig) -> bool {
    let h = spec_parse_header_common(e.regs@);
    &&& h.vendor_id != 0xFFFF
    &&& h.header_type == 0x0
    &&& h.class_code == 0x04
}

/// What one entry looks like after the initialisation pass: the command
/// register dword gains the I/O-space-enable and bus-master-enable bits
/// when the entry is a present Type-0 audio-class device, and nothing
/// else changes.
pub open spec fn spec_enabled_entry(e: SlotConfig, f: SlotConfig) -> bool {
    &&& f.bus == e.bus
    &&& f.slot == e.slot
    &&& (spec_enable_cond(e) ==> f.regs@ =~= e.regs@.update(1, e.regs@[1] | 0b101))
    &&& (!spec_enable_cond(e) ==> f == e)
}

/// Walks every populated slot; for each present Type-0 device of the
/// audio multimedia class, writes its status and command words back with
/// the I/O-space-enable and bus-master-enable bits set. Absent slots
/// ignore configuration writes, so walking the populated entries covers
/// the whole bus.
fn check_all(space: &mut ConfigSpace)
    requires
        old(space).wf(),
    ensures
        final(space).wf(),
        final(space).slots@.len() == old(space).slots@.len(),
        forall|i: int|
            0 <= i < old(space).slots@.len() ==> spec_enabled_entry(
                old(space).slots@[i],
                #[trigger] final(space).slots@[i],
            ),
{
    let ghost n = old(space).slots@.len() as int;
    let mut i: usize = 0;
    while i < space.slots.len()
        invariant
            space.wf(),
            space.slots@.len() == n,
            i <= n,
            forall|k: int| i <= k < n ==> space.slots@[k] == old(space).slots@[k],
            forall|k: int|
                0 <= k < i ==> spec_enabled_entry(
                    old(space).slots@[k],
                    #[trigger] space.slots@[k],
                ),
        decreases n - i,
    {
        proof {
            assert(space.slots@[i as int].wf());
        }
        let bus = space.slots[i].bus;
        let slot = space.slots[i].slot;
        let h = parse_header_common(&space.slots[i].regs);
        if h.vendor_id != 0xFFFF && h.header_type == 0x0 && h.class_code == 0x04 {
            let x = space.slots[i].regs[1];
            // write the status and command words back with the enable
            // bits set; together they are the whole dword again
            let line = (((h.status as u32) << 16) | (h.command as u32)) | 0b101;
            proof {
                assert((((((x >> 16) & 0xFFFF) as u16 as u32) << 16) | ((x & 0xFFFF) as u16
                    as u32)) | 0b101 == x | 0b101) by (bit_vector);
            }
            space.write_u32(bus, slot, 0x1, line);
        }
        i = i + 1;
    }
}

/// Runs the initialisation pass over the bus: every present Type-0
/// device of the audio multimedia class has the I/O-space-enable and
/// bus-master-enable bits set in its command register.
pub fn init_pci(space: &mut ConfigSpace)
    requires
        old(space).wf(),
    ensures
        final(space).wf(),
        final(space).slots@.len() == old(space).slots@.len(),
        forall|i: int|
            0 <= i < old(space).slots@.len() ==> spec_enabled_entry(
                old(space).slots@[i],
                #[trigger] final(space).slots@[i],
            ),
{
    check_all(space)
}

} // verus!
