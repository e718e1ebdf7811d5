//! The streaming engine: a ring of sample buffers the codec consumes
//! while the processor refills behind it.
//!
//! One contiguous sample blob backs all 32 ring slots; a buffer
//! descriptor list points the codec at each slot's slice. The source
//! track loops: a read cursor walks it and wraps to the start at the
//! end. Once per timer tick, [`MusicLoop::wind`] learns which entry the
//! codec is playing, rewrites every slot from just past the last one
//! filled up to (but not including) the playing entry, and republishes
//! the entry one behind the playing one as the last valid — the
//! processor always writes ahead of playback without overtaking it.

use vstd::prelude::*;

use vstd::arithmetic::div_mod::{
    lemma_fundamental_div_mod, lemma_fundamental_div_mod_converse, lemma_mod_bound,
};

use crate::audio_ac97::{
    AudioAc97, BufferDescriptor, HwOp, BYTES_PER_BUF, NUM_BUFFERS, SAMPLES_PER_BUF,
};
use crate::phys_alloc::{DualPtr32, PhysAllocator};

verus! {

/// Samples in the blob: one full run of [`SAMPLES_PER_BUF`] for each of
/// the 32 ring slots.
pub const SAMPLES_IN_BLOB: usize = 0xFFFE * 32;

/// Bytes of the sample blob: two per sample.
pub const BLOB_BYTES: u64 = 0xFFFE * 2 * 32;

/// Bytes of the buffer descriptor list: 32 entries of 8 bytes each
/// (a dword address, a word count, a word of control bits).
pub const BDL_BYTES: u64 = 32 * 8;

/// The sample the looping source yields `k` steps after read position
/// `h`: the track index wraps at the track length.
pub open spec fn spec_source_at(music: Seq<i16>, h: int, k: int) -> i16
    recommends
        music.len() > 0,
{
    music[(h + k) % (music.len() as int)]
}

/// How many ring slots a refill rewrites when the codec plays entry
/// `current` and `last` was the last slot filled: the circular distance
/// from the slot after `last` up to, and not including, `current`.
pub open spec fn spec_fill_count(last: u8, current: u8) -> int {
    (current as int + 31 - last as int) % 32
}

/// The position of ring slot `s` in the circular refill order that
/// starts just after slot `last`: position 0 is slot `last + 1 mod 32`.
pub open spec fn spec_slot_pos(last: u8, s: int) -> int {
    (s + 31 - last as int) % 32
}

/// The blob contents midway through a refill that started with blob
/// contents `old_blob`, read cursor `h0` and last filled slot `last`:
/// `jdone` whole slots have been rewritten and `tdone` samples of the
/// next slot. Sample `idx` of a rewritten slot carries the source
/// sample that many steps past `h0`; every other sample is untouched.
pub open spec fn spec_refill_value(
    old_blob: Seq<i16>,
    music: Seq<i16>,
    h0: int,
    last: u8,
    jdone: int,
    tdone: int,
    idx: int,
) -> i16
    recommends
        music.len() > 0,
        0 <= idx < old_blob.len(),
{
    let s = idx / (SAMPLES_PER_BUF as int);
    let t = idx % (SAMPLES_PER_BUF as int);
    let p = spec_slot_pos(last, s);
    if p < jdone || (p == jdone && t < tdone) {
        spec_source_at(music, h0, p * (SAMPLES_PER_BUF as int) + t)
    } else {
        old_blob[idx]
    }
}

/// Stepping a reduced cursor: the wrap-at-`n` successor of `x % n` is
/// `(x + 1) % n`.
proof fn lemma_mod_step(x: int, n: int)
    requires
        n > 0,
        x >= 0,
    ensures
        (x + 1) % n == if (x % n) + 1 < n {
            (x % n) + 1
        } else {
            0
        },
{
    lemma_fundamental_div_mod(x, n);
    lemma_mod_bound(x, n);
    let q = x / n;
    let r = x % n;
    assert(n * q == q * n) by (nonlinear_arith);
    if r + 1 < n {
        assert(x + 1 == q * n + (r + 1));
        lemma_fundamental_div_mod_converse(x + 1, n, q, r + 1);
    } else {
        assert(r + 1 == n);
        assert((q + 1) * n == q * n + n) by (nonlinear_arith);
        assert(x + 1 == (q + 1) * n + 0);
        lemma_fundamental_div_mod_converse(x + 1, n, q + 1, 0);
    }
}

/// Ring monotonicity: a refill moves the last-filled slot only forward
/// around the ring — by exactly the number of freshly filled slots,
/// always fewer than a full lap — and the index it publishes is the one
/// slot behind the entry the codec reported playing. The playing entry
/// itself sits just past every filled slot, so the refill never reaches
/// it, let alone overtakes it.
pub proof fn lemma_wind_monotone(last: u8, current: u8)
    requires
        last < 32,
        current < 32,
    ensures
        0 <= spec_fill_count(last, current) < 32,
        (current as int + 31) % 32 == (last as int + spec_fill_count(last, current)) % 32,
        spec_slot_pos(last, current as int) == spec_fill_count(last, current),
        forall|s: int|
            0 <= s < 32 && #[trigger] spec_slot_pos(last, s) < spec_fill_count(last, current)
                ==> s != current,
{
    assert((current as int + 31) % 32 == (last as int + (current as int + 31 - last as int) % 32)
        % 32);
}

/// A refill leaves the playing entry alone: every sample of the slot the
/// codec reported playing still holds what it held before the refill.
pub proof fn lemma_refill_skips_playing_slot(
    old_blob: Seq<i16>,
    music: Seq<i16>,
    h0: int,
    last: u8,
    current: u8,
    idx: int,
)
    requires
        last < 32,
        current < 32,
        music.len() > 0,
        0 <= idx < old_blob.len(),
        idx / (SAMPLES_PER_BUF as int) == current,
    ensures
        spec_refill_value(old_blob, music, h0, last, spec_fill_count(last, current), 0, idx)
            == old_blob[idx],
{
    assert(spec_slot_pos(last, current as int) == spec_fill_count(last, current));
}

/// Looping source: the read cursor is where the total number of samples
/// consumed lands in the track. From cursor `h`, consuming `total` more
/// samples puts it at `(h + total)` modulo the track length `n`: when
/// `total` is a whole number of laps (`k * n` samples) the cursor is
/// back exactly where it began, and it never reaches past index `n - 1`.
pub proof fn lemma_looping_source(h: int, total: int, n: int)
    requires
        n > 0,
        0 <= h < n,
        0 <= total,
    ensures
        0 <= (h + total) % n < n,
        total % n == 0 ==> (h + total) % n == h,
{
    lemma_mod_bound(h + total, n);
    if total % n == 0 {
        lemma_fundamental_div_mod(total, n);
        let q = total / n;
        assert(n * q == q * n) by (nonlinear_arith);
        lemma_fundamental_div_mod_converse(h + total, n, q, h);
    }
}

/// The ring of sound being played: the codec handle, the looping source
/// track with its read cursor, the sample blob and descriptor list in
/// DMA-reachable memory, and the last ring slot the processor filled.
pub struct MusicLoop<'a> {
    pub ac97: AudioAc97,
    pub music_data: &'a [i16],
    pub music_data_read_head: usize,
    pub samples_blob: DualPtr32<Vec<i16>>,
    pub buffer_descriptor_list: DualPtr32<Vec<BufferDescriptor>>,
    pub last_buffer_filled: u8,
}

impl<'a> MusicLoop<'a> {
    /// The descriptor that slot `i` must carry: the slice of the blob
    /// starting `i` buffer-lengths past the blob's physical base, a full
    /// buffer of samples, and no control bits.
    pub open spec fn spec_descriptor(self, i: int) -> BufferDescriptor {
        (BufferDescriptor {
            physical_addr: (self.samples_blob.r_phys + i * (BYTES_PER_BUF as int)) as u32,
            num_samples: SAMPLES_PER_BUF,
            control: 0,
        })
    }

    /// The engine's invariant: a usable codec handle, a nonempty track
    /// with its cursor inside it, a full-sized blob whose physical span
    /// stays below the 32-bit limit, and 32 descriptors each pointing at
    /// its slot's slice of the blob.
    pub open spec fn wf(self) -> bool {
        &&& self.ac97.wf()
        &&& self.music_data@.len() >= 1
        &&& self.music_data_read_head < self.music_data@.len()
        &&& self.samples_blob.rw_virt@.len() == SAMPLES_IN_BLOB
        &&& self.samples_blob.r_phys + BLOB_BYTES <= u32::MAX
        &&& self.buffer_descriptor_list.rw_virt@.len() == NUM_BUFFERS
        &&& self.last_buffer_filled < 32
        &&& forall|i: int|
            0 <= i < NUM_BUFFERS ==> self.buffer_descriptor_list.rw_virt@[i]
                == self.spec_descriptor(i)
    }

    /// Builds the ring: reserves the blob and the descriptor list from
    /// the allocator, points each descriptor at its slice of the blob,
    /// and performs the initial fill, which writes the whole blob from
    /// the start of the track and marks every slot filled. The source
    /// is 16-bit samples; the allocator must have room for the blob and
    /// the list, and the blob must land below the 32-bit physical limit
    /// the descriptors can address.
    pub fn new(phys_alloc: &mut PhysAllocator, music_data: &'a [i16], ac97: AudioAc97) -> (ml:
        MusicLoop<'a>)
        requires
            old(phys_alloc).wf(),
            ac97.wf(),
            music_data@.len() >= 1,
            old(phys_alloc).next_addr() + BLOB_BYTES + BDL_BYTES <= old(
                phys_alloc,
            ).prime_region.end,
            old(phys_alloc).next_addr() + BLOB_BYTES + BDL_BYTES <= u32::MAX,
        ensures
            final(phys_alloc).wf(),
            final(phys_alloc).prime_region == old(phys_alloc).prime_region,
            final(phys_alloc).physical_memory_offset == old(phys_alloc).physical_memory_offset,
            final(phys_alloc).offset == old(phys_alloc).next_addr() + BLOB_BYTES + BDL_BYTES - old(
                phys_alloc,
            ).prime_region.start,
            ml.wf(),
            ml.ac97 == ac97,
            ml.music_data == music_data,
            ml.samples_blob.r_phys == old(phys_alloc).next_addr(),
            ml.buffer_descriptor_list.r_phys == old(phys_alloc).next_addr() + BLOB_BYTES,
            forall|i: int|
                0 <= i < SAMPLES_IN_BLOB ==> ml.samples_blob.rw_virt@[i] == music_data@[
                    i % (music_data@.len() as int)
                ],
            ml.music_data_read_head == (SAMPLES_IN_BLOB as int) % (music_data@.len() as int),
            ml.last_buffer_filled == 31,
    {
        let mut samples_storage: Vec<i16> = Vec::new();
        let mut k: usize = 0;
        while k < SAMPLES_IN_BLOB
            invariant
                k <= SAMPLES_IN_BLOB,
                samples_storage@.len() == k,
            decreases SAMPLES_IN_BLOB - k,
        {
            samples_storage.push(0);
            k = k + 1;
        }
        let samples_blob = phys_alloc.alloc32(BLOB_BYTES, samples_storage);

        let mut bdl_storage: Vec<BufferDescriptor> = Vec::new();
        let blob_phys = samples_blob.r_phys;
        let mut i: u32 = 0;
        while i < 32
            invariant
                i <= 32,
                bdl_storage@.len() == i,
                blob_phys + BLOB_BYTES <= u32::MAX,
                forall|j: int|
                    0 <= j < i ==> bdl_storage@[j] == (BufferDescriptor {
                        physical_addr: (blob_phys + j * (BYTES_PER_BUF as int)) as u32,
                        num_samples: SAMPLES_PER_BUF,
                        control: 0,
                    }),
            decreases 32 - i,
        {
            bdl_storage.push(
                BufferDescriptor {
                    physical_addr: blob_phys + BYTES_PER_BUF * i,
                    num_samples: SAMPLES_PER_BUF,
                    control: 0,
                },
            );
            i = i + 1;
        }
        let buffer_descriptor_list = phys_alloc.alloc32(BDL_BYTES, bdl_storage);

        let mut me = MusicLoop {
            ac97,
            music_data,
            music_data_read_head: 0,
            samples_blob,
            buffer_descriptor_list,
            last_buffer_filled: 0,
        };

        me.fill_sound_blob();

        me
    }

    /// Writes the whole blob from the start of the looping track — every
    /// blob sample `i` becomes track sample `i` modulo the track length —
    /// leaves the read cursor where the last write put it, and marks the
    /// final slot as the last filled: the blob spans every slot, so after
    /// this all 32 are valid. It runs at construction, before playback
    /// can start, so the codec never sees an unwritten descriptor.
    fn fill_sound_blob(&mut self)
        requires
            old(self).wf(),
            old(self).music_data_read_head == 0,
        ensures
            final(self).wf(),
            final(self).ac97 == old(self).ac97,
            final(self).music_data == old(self).music_data,
            final(self).samples_blob.r_phys == old(self).samples_blob.r_phys,
            final(self).buffer_descriptor_list == old(self).buffer_descriptor_list,
            forall|i: int|
                0 <= i < SAMPLES_IN_BLOB ==> final(self).samples_blob.rw_virt@[i] == old(
                    self,
                ).music_data@[i % (old(self).music_data@.len() as int)],
            final(self).music_data_read_head == (SAMPLES_IN_BLOB as int) % (old(
                self,
            ).music_data@.len() as int),
            final(self).last_buffer_filled == 31,
    {
        let n = self.music_data.len();
        let ghost music = self.music_data@;
        proof {
            vstd::arithmetic::div_mod::lemma_small_mod(0, n as nat);
        }
        let mut i: usize = 0;
        while i < SAMPLES_IN_BLOB
            invariant
                old(self).wf(),
                self.ac97 == old(self).ac97,
                self.music_data == old(self).music_data,
                self.samples_blob.r_phys == old(self).samples_blob.r_phys,
                self.buffer_descriptor_list == old(self).buffer_descriptor_list,
                self.last_buffer_filled == old(self).last_buffer_filled,
                n == music.len(),
                music == self.music_data@,
                n >= 1,
                i <= SAMPLES_IN_BLOB,
                self.samples_blob.rw_virt@.len() == SAMPLES_IN_BLOB,
                self.music_data_read_head == i as int % n as int,
                forall|j: int|
                    0 <= j < i ==> self.samples_blob.rw_virt@[j] == music[j % (n as int)],
                forall|j: int|
                    i <= j < SAMPLES_IN_BLOB ==> self.samples_blob.rw_virt@[j] == old(
                        self,
                    ).samples_blob.rw_virt@[j],
            decreases SAMPLES_IN_BLOB - i,
        {
            proof {
                lemma_mod_bound(i as int, n as int);
            }
            self.samples_blob.rw_virt[i] = self.music_data[i % n];

            self.music_data_read_head = self.music_data_read_head + 1;
            if self.music_data_read_head >= n {
                self.music_data_read_head = 0;
            }
            proof {
                lemma_mod_step(i as int, n as int);
            }
            i = i + 1;
        }
        // the blob stretches across all buffers, so every slot is valid
        self.last_buffer_filled = (NUM_BUFFERS as u8) - 1;
        proof {
            lemma_mod_bound(SAMPLES_IN_BLOB as int, n as int);
            assert forall|k: int|
                0 <= k < NUM_BUFFERS implies self.buffer_descriptor_list.rw_virt@[k]
                == self.spec_descriptor(k) by {
                assert(old(self).buffer_descriptor_list.rw_virt@[k] == old(self).spec_descriptor(
                    k,
                ));
            }
        }
    }

    /// Emits the whole start sequence: the codec's initialisation
    /// followed by the transfer start, pointed at this ring's descriptor
    /// list with all 32 entries (index 31) already valid.
    pub fn play(&mut self) -> (ops: Vec<HwOp>)
        requires
            old(self).wf(),
        ensures
            *final(self) == *old(self),
            ops@ == old(self).ac97.spec_init_ops() + old(self).ac97.spec_begin_transfer_ops(
                old(self).buffer_descriptor_list.r_phys,
                31,
            ),
    {
        let mut ops = self.ac97.init();
        let mut more = self.ac97.begin_transfer(
            self.buffer_descriptor_list.r_phys,
            (NUM_BUFFERS as u8) - 1,
        );
        ops.append(&mut more);
        ops
    }

    /// One tick of the refill discipline. `current_buf` is the ring
    /// entry the codec reported it is playing. Every slot from just past
    /// the last filled one up to, and not including, the playing entry
    /// is rewritten with the next run of the looping track; the read
    /// cursor advances by exactly the samples written; the slot one
    /// behind the playing entry becomes the last filled and the returned
    /// operation publishes it to the codec — the refill never writes the
    /// playing entry itself.
    #[verifier::rlimit(60)]
    pub fn wind(&mut self, current_buf: u8) -> (op: HwOp)
        requires
            old(self).wf(),
            current_buf < 32,
        ensures
            final(self).wf(),
            final(self).ac97 == old(self).ac97,
            final(self).music_data == old(self).music_data,
            final(self).samples_blob.r_phys == old(self).samples_blob.r_phys,
            final(self).buffer_descriptor_list == old(self).buffer_descriptor_list,
            final(self).last_buffer_filled == (current_buf as int + 31) % 32,
            op == old(self).ac97.spec_set_filled_op(final(self).last_buffer_filled),
            final(self).music_data_read_head == (old(self).music_data_read_head + spec_fill_count(
                old(self).last_buffer_filled,
                current_buf,
            ) * (SAMPLES_PER_BUF as int)) % (old(self).music_data@.len() as int),
            forall|idx: int|
                0 <= idx < SAMPLES_IN_BLOB ==> final(self).samples_blob.rw_virt@[idx]
                    == spec_refill_value(
                    old(self).samples_blob.rw_virt@,
                    old(self).music_data@,
                    old(self).music_data_read_head as int,
                    old(self).last_buffer_filled,
                    spec_fill_count(old(self).last_buffer_filled, current_buf),
                    0,
                    idx,
                ),
    {
        let n = self.music_data.len();
        let ghost music = self.music_data@;
        let ghost h0 = self.music_data_read_head as int;
        let ghost last0 = self.last_buffer_filled;
        let ghost blob0 = self.samples_blob.rw_virt@;
        let ghost count = spec_fill_count(last0, current_buf);

        // NUM_BUFFERS is 32, so reduction modulo 32 is a ring index
        let fill_to = if current_buf == 0 {
            31
        } else {
            current_buf - 1
        };

        proof {
            vstd::arithmetic::div_mod::lemma_small_mod(h0 as nat, n as nat);
        }
        let mut i: u8 = (self.last_buffer_filled + 1) % 32;
        let ghost mut j: int = 0;

        while i != current_buf
            invariant
                old(self).wf(),
                self.ac97 == old(self).ac97,
                self.music_data == old(self).music_data,
                self.samples_blob.r_phys == old(self).samples_blob.r_phys,
                self.buffer_descriptor_list == old(self).buffer_descriptor_list,
                self.last_buffer_filled == last0,
                self.samples_blob.rw_virt@.len() == SAMPLES_IN_BLOB,
                n == music.len(),
                music == self.music_data@,
                n >= 1,
                current_buf < 32,
                last0 < 32,
                h0 == old(self).music_data_read_head,
                blob0 == old(self).samples_blob.rw_virt@,
                count == spec_fill_count(last0, current_buf),
                0 <= j <= count,
                i as int == (last0 as int + 1 + j) % 32,
                self.music_data_read_head == (h0 + j * (SAMPLES_PER_BUF as int)) % (n as int),
                forall|idx: int|
                    0 <= idx < SAMPLES_IN_BLOB ==> self.samples_blob.rw_virt@[idx]
                        == spec_refill_value(blob0, music, h0, last0, j, 0, idx),
            decreases (current_buf as int + 32 - i as int) % 32,
        {
            proof {
                assert(j < count);
                assert(spec_slot_pos(last0, i as int) == j);
            }
            let ghost head_start = self.music_data_read_head as int;
            let mut buf_write_head: u16 = 0;
            while buf_write_head < SAMPLES_PER_BUF
                invariant
                    old(self).wf(),
                    self.ac97 == old(self).ac97,
                    self.music_data == old(self).music_data,
                    self.samples_blob.r_phys == old(self).samples_blob.r_phys,
                    self.buffer_descriptor_list == old(self).buffer_descriptor_list,
                    self.last_buffer_filled == last0,
                    self.samples_blob.rw_virt@.len() == SAMPLES_IN_BLOB,
                    n == music.len(),
                    music == self.music_data@,
                    n >= 1,
                    current_buf < 32,
                    last0 < 32,
                    h0 == old(self).music_data_read_head,
                    blob0 == old(self).samples_blob.rw_virt@,
                    count == spec_fill_count(last0, current_buf),
                    0 <= j < count,
                    i < 32,
                    i as int == (last0 as int + 1 + j) % 32,
                    spec_slot_pos(last0, i as int) == j,
                    buf_write_head <= SAMPLES_PER_BUF,
                    self.music_data_read_head == (h0 + j * (SAMPLES_PER_BUF as int)
                        + buf_write_head as int) % (n as int),
                    forall|idx: int|
                        0 <= idx < SAMPLES_IN_BLOB ==> self.samples_blob.rw_virt@[idx]
                            == spec_refill_value(
                            blob0,
                            music,
                            h0,
                            last0,
                            j,
                            buf_write_head as int,
                            idx,
                        ),
                decreases SAMPLES_PER_BUF - buf_write_head,
            {
                proof {
                    assert((i as int) * (SAMPLES_PER_BUF as int) <= 31 * 0xFFFE)
                        by (nonlinear_arith)
                        requires
                            i < 32,
                            SAMPLES_PER_BUF == 0xFFFE,
                    ;
                    assert(SAMPLES_IN_BLOB == 0xFFFE * 32);
                }
                let write_pos = i as usize * (SAMPLES_PER_BUF as usize) + buf_write_head as usize;
                proof {
                    lemma_mod_bound(h0 + j * (SAMPLES_PER_BUF as int) + buf_write_head as int,
                        n as int);
                    lemma_fundamental_div_mod_converse(
                        write_pos as int,
                        SAMPLES_PER_BUF as int,
                        i as int,
                        buf_write_head as int,
                    );
                }
                self.samples_blob.rw_virt[write_pos] =
                    self.music_data[self.music_data_read_head];

                buf_write_head = buf_write_head + 1;
                self.music_data_read_head = self.music_data_read_head + 1;
                if self.music_data_read_head >= n {
                    self.music_data_read_head = 0;
                }
                proof {
                    lemma_mod_step(
                        h0 + j * (SAMPLES_PER_BUF as int) + (buf_write_head - 1) as int,
                        n as int,
                    );
                    assert forall|idx: int| 0 <= idx < SAMPLES_IN_BLOB implies
                        self.samples_blob.rw_virt@[idx] == spec_refill_value(
                        blob0,
                        music,
                        h0,
                        last0,
                        j,
                        buf_write_head as int,
                        idx,
                    ) by {
                        lemma_fundamental_div_mod(idx, SAMPLES_PER_BUF as int);
                        lemma_mod_bound(idx, SAMPLES_PER_BUF as int);
                    }
                }
            }
            i = (i + 1) % 32;
            proof {
                j = j + 1;
                assert(h0 + (j - 1) * (SAMPLES_PER_BUF as int) + (SAMPLES_PER_BUF as int) == h0 + j
                    * (SAMPLES_PER_BUF as int)) by (nonlinear_arith);
                assert((last0 as int + 1 + j) % 32 == i as int) by {
                    lemma_mod_step(last0 as int + 1 + (j - 1), 32);
                }
                assert forall|idx: int| 0 <= idx < SAMPLES_IN_BLOB implies
                    self.samples_blob.rw_virt@[idx] == spec_refill_value(
                    blob0,
                    music,
                    h0,
                    last0,
                    j,
                    0,
                    idx,
                ) by {
                    lemma_mod_bound(idx, SAMPLES_PER_BUF as int);
                }
            }
        }
        proof {
            assert(j == count);
        }

        let op = self.ac97.set_filled_up_to(fill_to);
        self.last_buffer_filled = fill_to;
        proof {
            assert forall|k: int|
                0 <= k < NUM_BUFFERS implies self.buffer_descriptor_list.rw_virt@[k]
                == self.spec_descriptor(k) by {
                assert(old(self).buffer_descriptor_list.rw_virt@[k] == old(self).spec_descriptor(
                    k,
                ));
            }
        }
        op
    }
}

} // verus!
