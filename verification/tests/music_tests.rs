use ac97_core::audio_ac97::{AudioAc97, HwOp, BYTES_PER_BUF, SAMPLES_PER_BUF};
use ac97_core::music_loop::{MusicLoop, BDL_BYTES, BLOB_BYTES, SAMPLES_IN_BLOB};
use ac97_core::phys_alloc::{MemRegion, PhysAllocator};

fn handle() -> AudioAc97 {
    AudioAc97 { bus: 0, slot: 0, mixer_port_base: 0x1000, buffer_port_base: 0x2000 }
}

/// An allocator over a region big enough for the blob and the list.
fn allocator() -> PhysAllocator {
    let map = vec![MemRegion { start: 0, end: 8 * 1024 * 1024, usable: true }];
    PhysAllocator::new(&map, 0).unwrap()
}

#[test]
fn geometry_constants() {
    assert_eq!(SAMPLES_IN_BLOB, 32 * 0xFFFE);
    assert_eq!(BLOB_BYTES, 2 * 32 * 0xFFFE);
    assert_eq!(BYTES_PER_BUF, 2 * 0xFFFE);
    assert_eq!(BDL_BYTES, 256);
}

#[test]
fn initial_fill_wraps_the_source_over_the_whole_blob() {
    let music: Vec<i16> = vec![1, 2, 3, 4];
    let mut alloc = allocator();
    let ml = MusicLoop::new(&mut alloc, &music, handle());

    // a 32-entry descriptor list and a full blob were allocated
    assert_eq!(ml.samples_blob.r_phys, 0);
    assert_eq!(ml.buffer_descriptor_list.r_phys, BLOB_BYTES as u32);
    assert_eq!(ml.samples_blob.rw_virt.len(), SAMPLES_IN_BLOB);
    assert_eq!(ml.buffer_descriptor_list.rw_virt.len(), 32);

    // each descriptor points at its slice of the blob
    for (i, d) in ml.buffer_descriptor_list.rw_virt.iter().enumerate() {
        assert_eq!(d.physical_addr, BYTES_PER_BUF * i as u32);
        assert_eq!(d.num_samples, SAMPLES_PER_BUF);
        assert_eq!(d.control, 0);
    }

    // every blob slot holds the source sample at its index, modulo the
    // track length
    for (i, &s) in ml.samples_blob.rw_virt.iter().enumerate() {
        assert_eq!(s, music[i % music.len()]);
    }

    // the whole blob is a multiple of the track length, so the read
    // cursor is back at the start, and all 32 slots are marked filled
    assert_eq!(ml.music_data_read_head, 0);
    assert_eq!(ml.last_buffer_filled, 31);
}

#[test]
fn play_initialises_then_begins_the_transfer() {
    let music: Vec<i16> = vec![5, -3];
    let mut alloc = allocator();
    let mut ml = MusicLoop::new(&mut alloc, &music, handle());
    let ops = ml.play();
    assert_eq!(ops.len(), 11);
    // the start-up sequence comes first, in order
    assert_eq!(ops[0], HwOp::ConfigSetBits { bus: 0, slot: 0, func: 0, register: 1, mask: 0b101 });
    assert_eq!(ops[6], HwOp::PortWriteU8 { port: 0x201B, value: 0b10 });
    assert_eq!(ops[7], HwOp::AwaitClearU8 { port: 0x201B, mask: 0b10 });
    // then the transfer start, pointed at this ring with 31 valid
    assert_eq!(ops[8], HwOp::PortWriteU32 { port: 0x2010, value: BLOB_BYTES as u32 });
    assert_eq!(ops[9], HwOp::PortWriteU8 { port: 0x2015, value: 31 });
    assert_eq!(ops[10], HwOp::PortWriteU8 { port: 0x201B, value: 0b1 });
}

#[test]
fn wind_refills_up_to_the_playing_entry() {
    let music: Vec<i16> = vec![1, 2, 3, 4];
    let mut alloc = allocator();
    let mut ml = MusicLoop::new(&mut alloc, &music, handle());

    // the codec reports entry 5: slots 0 through 4 are rewritten with
    // the next samples of the looping track, and entry 4 is published
    let op = ml.wind(5);
    assert_eq!(op, HwOp::PortWriteU8 { port: 0x2015, value: 4 });
    assert_eq!(ml.last_buffer_filled, 4);
    // five slots of 0xFFFE samples were drawn from the looping cursor
    assert_eq!(ml.music_data_read_head, (5 * 0xFFFE) % 4);
    // drawn from cursor 0, the rewritten slots again hold the track
    // sample at index mod 4, and the untouched slots still do
    for (i, &s) in ml.samples_blob.rw_virt.iter().enumerate() {
        assert_eq!(s, music[i % 4]);
    }
}

#[test]
fn wind_with_nothing_to_refill_only_republishes() {
    let music: Vec<i16> = vec![9, 8, 7];
    let mut alloc = allocator();
    let mut ml = MusicLoop::new(&mut alloc, &music, handle());
    let head = ml.music_data_read_head;

    // the codec still plays entry 0, one past the last filled slot 31:
    // nothing is rewritten, and slot 31 is published again
    let op = ml.wind(0);
    assert_eq!(op, HwOp::PortWriteU8 { port: 0x2015, value: 31 });
    assert_eq!(ml.last_buffer_filled, 31);
    assert_eq!(ml.music_data_read_head, head);
}

#[test]
fn last_filled_moves_only_forward_around_the_ring() {
    let music: Vec<i16> = vec![1, 2, 3, 4, 5];
    let mut alloc = allocator();
    let mut ml = MusicLoop::new(&mut alloc, &music, handle());

    let op = ml.wind(5);
    assert_eq!(ml.last_buffer_filled, 4);
    assert_eq!(op, HwOp::PortWriteU8 { port: 0x2015, value: 4 });

    let op = ml.wind(9);
    assert_eq!(ml.last_buffer_filled, 8);
    assert_eq!(op, HwOp::PortWriteU8 { port: 0x2015, value: 8 });

    // the hardware standing still publishes the same index again
    ml.wind(9);
    assert_eq!(ml.last_buffer_filled, 8);

    // wrapping the ring: slots 9 through 31 are refilled, slot 31 wins
    ml.wind(0);
    assert_eq!(ml.last_buffer_filled, 31);

    ml.wind(1);
    assert_eq!(ml.last_buffer_filled, 0);
}

#[test]
fn read_cursor_loops_and_never_leaves_the_track() {
    // a track of exactly one slot of samples: every slot refill is one
    // whole lap, so the cursor returns to the start each time
    let n = 0xFFFE;
    let music: Vec<i16> = (0..n).map(|i| i as i16).collect();
    let mut alloc = allocator();
    let mut ml = MusicLoop::new(&mut alloc, &music, handle());
    assert_eq!(ml.music_data_read_head, 0);

    ml.wind(5);
    assert_eq!(ml.music_data_read_head, 0);
    ml.wind(11);
    assert_eq!(ml.music_data_read_head, 0);

    // a track one sample shorter drifts by one per slot, and the cursor
    // stays inside the track
    let n2 = 0xFFFD;
    let music2: Vec<i16> = (0..n2).map(|i| i as i16).collect();
    let mut alloc2 = allocator();
    let mut ml2 = MusicLoop::new(&mut alloc2, &music2, handle());
    assert_eq!(ml2.music_data_read_head, (32 * 0xFFFE) % 0xFFFD);
    let before = ml2.music_data_read_head;
    ml2.wind(3);
    assert_eq!(ml2.music_data_read_head, (before + 3 * 0xFFFE) % 0xFFFD);
    assert!(ml2.music_data_read_head < n2);
}
