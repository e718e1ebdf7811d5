//! The AC97 codec's register protocol.
//!
//! The codec is driven through two I/O port blocks whose bases come from
//! the device's first two base-address registers: the mixer block (reset
//! and volume registers) and the bus-master block (the ring of buffer
//! descriptors). Every register access is a port operation; this module
//! computes the exact operations, in the exact order the codec requires,
//! as [`HwOp`] values that the unverified shell performs on the machine.

use vstd::prelude::*;

use crate::headers::PciHeaderType0;

verus! {

/// Number of entries in a buffer descriptor list, fixed by the codec.
pub const NUM_BUFFERS: usize = 32;

/// The most samples one buffer descriptor may carry, fixed by the codec.
pub const MAX_SAMPLES_PER_BUF: u16 = 0xFFFE;

/// Samples per ring slot; this driver always uses full descriptors.
pub const SAMPLES_PER_BUF: u16 = MAX_SAMPLES_PER_BUF;

/// Bytes of one 16-bit sample.
pub const SAMPLE_SIZE: usize = 2;

/// Interleaved stereo: two sample channels per frame.
pub const NUM_CHANNELS: usize = 2;

/// Bytes of sample data behind one ring slot.
pub const BYTES_PER_BUF: u32 = 0xFFFE * 2;

/// Mixer block: reset register offset.
pub const MIXER_RESET_OFFSET: u16 = 0x00;

/// Mixer block: master output volume register offset.
pub const MASTER_VOLUME_OFFSET: u16 = 0x02;

/// Mixer block: auxiliary output volume register offset.
pub const AUX_VOLUME_OFFSET: u16 = 0x04;

/// Mixer block: PCM output volume register offset.
pub const PCM_VOLUME_OFFSET: u16 = 0x18;

/// Bus-master block: global control register offset.
pub const GLOBAL_CONTROL: u16 = 0x2C;

/// Bus-master block: base of the PCM-output channel's registers.
pub const PCM_OUT: u16 = 0x10;

/// PCM-output channel: current-processed-entry register offset.
pub const CURRENT_PROCESSED_ENTRY_OFFSET: u16 = 0x04;

/// PCM-output channel: last-valid-entry register offset.
pub const LAST_VALID_ENTRY_OFFSET: u16 = 0x05;

/// PCM-output channel: transfer-control register offset.
pub const TRANSFER_CONTROL_OFFSET: u16 = 0x0B;

/// Global-control bit that resumes codec operation.
pub const RESUME_OPERATION: u32 = 1 << 1;

/// Transfer-control bit that resets the output channel.
pub const OUTPUT_CHANNEL_RESET: u8 = 1 << 1;

/// Transfer-control bit that starts the transfer of sound data.
pub const TRANSFER_SOUND_DATA: u8 = 1 << 0;

/// One entry of the buffer descriptor list, as the codec reads it from
/// memory: the physical address of a run of samples, how many samples it
/// holds, and control bits (interrupt on completion, stop after this
/// entry) that this driver leaves clear — the ring never stops, it is
/// republished instead.
#[derive(Debug, Clone, Copy, PartialEq, Eq)]
pub struct BufferDescriptor {
    pub physical_addr: u32,
    pub num_samples: u16,
    pub control: u16,
}

/// One hardware access for the unverified shell to perform: a write to a
/// device I/O port, a read-modify-write of a PCI configuration dword, or
/// a poll that waits for bits of a port to clear.
#[derive(Debug, Clone, Copy, PartialEq, Eq)]
#[allow(inconsistent_fields)]
pub enum HwOp {
    /// Read configuration dword `register` of (`bus`, `slot`, `func`),
    /// set the bits of `mask`, and write the dword back, re-latching the
    /// address before the write.
    ConfigSetBits { bus: u8, slot: u8, func: u8, register: u8, mask: u32 },
    /// Write one byte to an I/O port.
    PortWriteU8 { port: u16, value: u8 },
    /// Write one word to an I/O port.
    PortWriteU16 { port: u16, value: u16 },
    /// Write one dword to an I/O port.
    PortWriteU32 { port: u16, value: u32 },
    /// Read the byte at `port` until the bits of `mask` are all clear.
    /// By design there is no bound on the wait: the codec clears the
    /// reset bit nearly at once, and this runs only at start-up.
    AwaitClearU8 { port: u16, mask: u8 },
}

/// The audio controller found on the bus: where it sits in configuration
/// space and the two port bases derived from its base-address registers.
#[derive(Debug, Clone, Copy, PartialEq, Eq)]
pub struct AudioAc97 {
    pub bus: u8,
    pub slot: u8,

    /// Native Audio Mixer registers: reset and volume control.
    pub mixer_port_base: u16,

    /// Native Audio Bus Master registers: the descriptor ring.
    pub buffer_port_base: u16,
}

impl AudioAc97 {
    /// The handle is usable when its slot is addressable and both port
    /// bases leave room for the register offsets added to them.
    pub open spec fn wf(self) -> bool {
        &&& self.slot < 32
        &&& self.mixer_port_base <= 0xFFFF - PCM_VOLUME_OFFSET
        &&& self.buffer_port_base <= 0xFFFF - GLOBAL_CONTROL
    }

    /// Builds the handle for the device at (bus, slot) from its parsed
    /// Type-0 header: the mixer port base from base-address register 0
    /// and the bus-master port base from base-address register 1, each
    /// masked to clear the low space-type bits.
    pub fn new(bus: u8, slot: u8, header: &PciHeaderType0) -> (a: AudioAc97)
        ensures
            a.bus == bus,
            a.slot == slot,
            a.mixer_port_base == (header.base_addresses[0] & 0xFFFC) as u16,
            a.buffer_port_base == (header.base_addresses[1] & 0xFFFC) as u16,
    {
        let bar0 = header.base_addresses[0];
        let bar1 = header.base_addresses[1];
        assert(bar0 & 0xFFFC <= 0xFFFC && bar1 & 0xFFFC <= 0xFFFC) by (bit_vector);
        AudioAc97 {
            bus,
            slot,
            mixer_port_base: (bar0 & 0xFFFC) as u16,
            buffer_port_base: (bar1 & 0xFFFC) as u16,
        }
    }

    /// Whether the handle satisfies [`Self::wf`]; an unverified caller
    /// checks this before driving the codec, since a device could answer
    /// with port bases too high for the register offsets.
    pub fn ports_in_range(&self) -> (b: bool)
        ensures
            b == self.wf(),
    {
        self.slot < 32 && self.mixer_port_base <= 0xFFFF - PCM_VOLUME_OFFSET
            && self.buffer_port_base <= 0xFFFF - GLOBAL_CONTROL
    }

    /// The port of the PCM-output last-valid-entry register.
    pub open spec fn spec_last_valid_entry_port(self) -> u16 {
        (self.buffer_port_base + PCM_OUT + LAST_VALID_ENTRY_OFFSET) as u16
    }

    /// The port of the PCM-output current-processed-entry register.
    pub open spec fn spec_current_entry_port(self) -> u16 {
        (self.buffer_port_base + PCM_OUT + CURRENT_PROCESSED_ENTRY_OFFSET) as u16
    }

    /// The port of the PCM-output transfer-control register.
    pub open spec fn spec_transfer_control_port(self) -> u16 {
        (self.buffer_port_base + PCM_OUT + TRANSFER_CONTROL_OFFSET) as u16
    }

    /// The write that publishes `buf` as the last ring entry the codec
    /// may play before it must stall.
    pub open spec fn spec_set_filled_op(self, buf: u8) -> HwOp {
        (HwOp::PortWriteU8 { port: self.spec_last_valid_entry_port(), value: buf })
    }

    /// Publishes how far the ring is filled: the codec may play up to
    /// and including entry `buf`, and no further. This write is the sole
    /// flow control between the processor and the codec.
    pub fn set_filled_up_to(&self, buf: u8) -> (op: HwOp)
        requires
            self.wf(),
            buf < 32,
        ensures
            op == self.spec_set_filled_op(buf),
    {
        let last_valid_entry = self.buffer_port_base + PCM_OUT + LAST_VALID_ENTRY_OFFSET;
        HwOp::PortWriteU8 { port: last_valid_entry, value: buf }
    }

    /// The port to read for the ring entry the codec is playing now; the
    /// byte read back is in `0..32`.
    pub fn current_buffer_port(&self) -> (port: u16)
        requires
            self.wf(),
        ensures
            port == self.spec_current_entry_port(),
    {
        self.buffer_port_base + PCM_OUT + CURRENT_PROCESSED_ENTRY_OFFSET
    }

    /// The start-up sequence, in the order the codec requires: enable
    /// I/O space and bus mastering in the PCI command register, reset
    /// the mixer, resume operation through global control, raise PCM,
    /// master and auxiliary outputs to full volume (register value 0 on
    /// the codec's inverted scale), then reset the output channel and
    /// wait for the codec to clear the reset bit.
    pub open spec fn spec_init_ops(self) -> Seq<HwOp> {
        seq![
            (HwOp::ConfigSetBits { bus: self.bus, slot: self.slot, func: 0, register: 0x1, mask: 0b101 }),
            (HwOp::PortWriteU16 { port: (self.mixer_port_base + MIXER_RESET_OFFSET) as u16, value: 0xFFFF }),
            (HwOp::PortWriteU32 { port: (self.buffer_port_base + GLOBAL_CONTROL) as u16, value: RESUME_OPERATION }),
            (HwOp::PortWriteU16 { port: (self.mixer_port_base + PCM_VOLUME_OFFSET) as u16, value: 0x0 }),
            (HwOp::PortWriteU16 { port: (self.mixer_port_base + MASTER_VOLUME_OFFSET) as u16, value: 0x0 }),
            (HwOp::PortWriteU16 { port: (self.mixer_port_base + AUX_VOLUME_OFFSET) as u16, value: 0x0 }),
            (HwOp::PortWriteU8 { port: self.spec_transfer_control_port(), value: OUTPUT_CHANNEL_RESET }),
            (HwOp::AwaitClearU8 { port: self.spec_transfer_control_port(), mask: OUTPUT_CHANNEL_RESET }),
        ]
    }

    /// Emits the start-up sequence. The order of these operations is
    /// significant and must be preserved exactly; the contract pins each
    /// operation and its place.
    pub fn init(&self) -> (ops: Vec<HwOp>)
        requires
            self.wf(),
        ensures
            ops@ == self.spec_init_ops(),
    {
        let mut ops: Vec<HwOp> = Vec::new();

        // The PCI command register must have I/O space and bus mastering
        // enabled before anything else touches the codec.
        ops.push(
            HwOp::ConfigSetBits { bus: self.bus, slot: self.slot, func: 0, register: 0x1, mask: 0b101 },
        );

        ops.push(
            HwOp::PortWriteU16 { port: self.mixer_port_base + MIXER_RESET_OFFSET, value: 0xFFFF },
        );

        ops.push(
            HwOp::PortWriteU32 {
                port: self.buffer_port_base + GLOBAL_CONTROL,
                value: RESUME_OPERATION,
            },
        );

        // Register value 0 is full volume on the codec's inverted scale.
        ops.push(
            HwOp::PortWriteU16 { port: self.mixer_port_base + PCM_VOLUME_OFFSET, value: 0x0 },
        );
        ops.push(
            HwOp::PortWriteU16 { port: self.mixer_port_base + MASTER_VOLUME_OFFSET, value: 0x0 },
        );
        ops.push(
            HwOp::PortWriteU16 { port: self.mixer_port_base + AUX_VOLUME_OFFSET, value: 0x0 },
        );

        // Set the output channel's reset bit and wait for the codec to
        // clear it again before any transfer is configured.
        let pcm_out_transfer = self.buffer_port_base + PCM_OUT + TRANSFER_CONTROL_OFFSET;
        ops.push(HwOp::PortWriteU8 { port: pcm_out_transfer, value: OUTPUT_CHANNEL_RESET });
        ops.push(HwOp::AwaitClearU8 { port: pcm_out_transfer, mask: OUTPUT_CHANNEL_RESET });

        proof {
            assert(ops@ =~= self.spec_init_ops());
        }
        ops
    }

    /// The transfer start: the descriptor list's physical base into the
    /// buffer-descriptor-base register, the initially valid entry count
    /// into last-valid-entry, then the transfer-enable bit.
    pub open spec fn spec_begin_transfer_ops(self, bdl_phys_addr: u32, initial_valid_bufs: u8) -> Seq<
        HwOp,
    > {
        seq![
            (HwOp::PortWriteU32 { port: (self.buffer_port_base + PCM_OUT) as u16, value: bdl_phys_addr }),
            (HwOp::PortWriteU8 { port: self.spec_last_valid_entry_port(), value: initial_valid_bufs }),
            (HwOp::PortWriteU8 { port: self.spec_transfer_control_port(), value: TRANSFER_SOUND_DATA }),
        ]
    }

    /// Emits the transfer start. [`Self::init`]'s sequence must have been
    /// performed first, and `bdl_phys_addr` must be the physical address
    /// of an already prepared descriptor list. From the last operation on
    /// the codec walks the ring on its own.
    pub fn begin_transfer(&self, bdl_phys_addr: u32, initial_valid_bufs: u8) -> (ops: Vec<HwOp>)
        requires
            self.wf(),
            initial_valid_bufs < 32,
        ensures
            ops@ == self.spec_begin_transfer_ops(bdl_phys_addr, initial_valid_bufs),
    {
        let mut ops: Vec<HwOp> = Vec::new();

        ops.push(HwOp::PortWriteU32 { port: self.buffer_port_base + PCM_OUT, value: bdl_phys_addr });

        let last_valid_entry = self.buffer_port_base + PCM_OUT + LAST_VALID_ENTRY_OFFSET;
        ops.push(HwOp::PortWriteU8 { port: last_valid_entry, value: initial_valid_bufs });

        let pcm_out_transfer = self.buffer_port_base + PCM_OUT + TRANSFER_CONTROL_OFFSET;
        ops.push(HwOp::PortWriteU8 { port: pcm_out_transfer, value: TRANSFER_SOUND_DATA });

        proof {
            assert(ops@ =~= self.spec_begin_transfer_ops(bdl_phys_addr, initial_valid_bufs));
        }
        ops
    }
}

} // verus!
