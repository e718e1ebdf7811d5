//! Boot-time physical memory for device buffers.
//!
//! The boot environment hands over a memory map and a fixed physical-to-
//! virtual offset. The allocator claims the single largest usable region
//! and bump-allocates 4-byte-aligned spans from it, handing back each
//! span's physical address (for the device) together with its virtual
//! counterpart (for the processor). Nothing is ever freed: the region is
//! an arena that lives until the machine halts, and a request that does
//! not fit has no recovery path.

use vstd::prelude::*;

verus! {

/// One region of the boot-provided memory map: the physical span
/// `[start, end)` and whether the boot environment marked it usable.
#[derive(Debug, Clone, Copy, PartialEq, Eq)]
pub struct MemRegion {
    pub start: u64,
    pub end: u64,
    pub usable: bool,
}

/// The length a region offers the allocator: its byte count when it is
/// usable, nothing otherwise.
pub open spec fn region_len(r: MemRegion) -> int {
    if r.usable {
        r.end - r.start
    } else {
        0
    }
}

/// An allocated span's physical address, as a device must be told it,
/// and the virtual address through which the processor reaches the same
/// bytes.
#[derive(Debug, Clone, Copy, PartialEq, Eq)]
pub struct DualAddr {
    pub phys_addr: u64,
    pub virt_addr: u64,
}

/// An allocated object: its physical address, narrowed to the 32 bits a
/// device register can hold, and the object reached through the virtual
/// mapping.
pub struct DualPtr32<T> {
    pub r_phys: u32,
    pub rw_virt: T,
}

/// A bump allocator over the largest usable region of the memory map.
pub struct PhysAllocator {
    pub prime_region: MemRegion,
    pub physical_memory_offset: u64,
    pub offset: u64,
}

/// Region index `i` is the one the allocator claims: usable, nonempty,
/// no region longer, and strictly longer than every earlier region.
pub open spec fn is_prime_index(map: Seq<MemRegion>, i: int) -> bool {
    &&& 0 <= i < map.len()
    &&& region_len(map[i]) > 0
    &&& forall|j: int| 0 <= j < map.len() ==> region_len(#[trigger] map[j]) <= region_len(map[i])
    &&& forall|j: int| 0 <= j < i ==> region_len(#[trigger] map[j]) < region_len(map[i])
}

impl PhysAllocator {
    /// The allocator's invariant: a nonempty usable region whose bounds
    /// leave room for alignment padding and for the virtual offset, and
    /// a cursor that has not run past the region.
    pub open spec fn wf(self) -> bool {
        &&& self.prime_region.usable
        &&& self.prime_region.start < self.prime_region.end
        &&& self.prime_region.end <= u64::MAX - 3
        &&& self.physical_memory_offset <= u64::MAX - self.prime_region.end
        &&& self.offset <= self.prime_region.end - self.prime_region.start
    }

    /// The 4-byte-aligned physical address at which the next allocation
    /// would be placed.
    pub open spec fn next_addr(self) -> int {
        let a = self.prime_region.start + self.offset;
        a + ((4 - a % 4) % 4)
    }

    /// Whether a span of `size` bytes still fits in the region.
    pub open spec fn spec_fits(self, size: u64) -> bool {
        self.next_addr() + size <= self.prime_region.end
    }

    /// The bytes still allocatable: from the next aligned address to the
    /// region's end, or nothing once padding has consumed the tail.
    pub open spec fn spec_remaining(self) -> int {
        if self.next_addr() <= self.prime_region.end {
            self.prime_region.end - self.next_addr()
        } else {
            0
        }
    }

    /// Claims the largest usable region of the memory map. Answers
    /// nothing exactly when no usable region has any length.
    pub fn new(memory_map: &Vec<MemRegion>, physical_memory_offset: u64) -> (r: Option<
        PhysAllocator,
    >)
        requires
            forall|i: int|
                0 <= i < memory_map@.len() ==> {
                    let m = #[trigger] memory_map@[i];
                    m.start <= m.end && m.end <= u64::MAX - 3 && physical_memory_offset <= u64::MAX
                        - m.end
                },
        ensures
            (r is None) <==> (forall|i: int|
                0 <= i < memory_map@.len() ==> region_len(#[trigger] memory_map@[i]) == 0),
            r matches Some(a) ==> {
                &&& a.wf()
                &&& a.physical_memory_offset == physical_memory_offset
                &&& a.offset == 0
                &&& exists|i: int|
                    #[trigger] is_prime_index(memory_map@, i) && a.prime_region == memory_map@[i]
            },
    {
        let mut free_region = MemRegion { start: 0, end: 0, usable: false };
        let mut free_len: u64 = 0;
        let ghost mut free_idx: int = -1;

        let mut i: usize = 0;
        while i < memory_map.len()
            invariant
                0 <= i <= memory_map@.len(),
                forall|k: int|
                    0 <= k < memory_map@.len() ==> {
                        let m = #[trigger] memory_map@[k];
                        m.start <= m.end && m.end <= u64::MAX - 3 && physical_memory_offset
                            <= u64::MAX - m.end
                    },
                -1 <= free_idx < i as int,
                free_idx == -1 ==> free_len == 0 && forall|j: int|
                    0 <= j < i ==> region_len(#[trigger] memory_map@[j]) == 0,
                free_idx >= 0 ==> {
                    &&& 0 <= free_idx < i
                    &&& free_region == memory_map@[free_idx]
                    &&& free_len == region_len(memory_map@[free_idx])
                    &&& free_len > 0
                    &&& forall|j: int|
                        0 <= j < i ==> region_len(#[trigger] memory_map@[j]) <= free_len as int
                    &&& forall|j: int|
                        0 <= j < free_idx ==> region_len(#[trigger] memory_map@[j]) < free_len as int
                },
            decreases memory_map@.len() - i,
        {
            let m = memory_map[i];
            let len = if m.usable {
                m.end - m.start
            } else {
                0
            };
            proof {
                assert(m == memory_map@[i as int]);
                assert(region_len(memory_map@[i as int]) == len as int);
            }
            if len > free_len {
                free_region = m;
                free_len = len;
                proof {
                    free_idx = i as int;
                }
            }
            i = i + 1;
        }

        if free_len == 0 {
            None
        } else {
            proof {
                assert(is_prime_index(memory_map@, free_idx));
            }
            Some(
                PhysAllocator {
                    prime_region: free_region,
                    physical_memory_offset,
                    offset: 0,
                },
            )
        }
    }

    /// Whether `size` more bytes can still be allocated.
    pub fn hunk_fits(&self, size: u64) -> (b: bool)
        requires
            self.wf(),
        ensures
            b == self.spec_fits(size),
    {
        let a = self.prime_region.start + self.offset;
        let pad = if a % 4 == 0 {
            0
        } else {
            4 - a % 4
        };
        let aligned = a + pad;
        aligned <= self.prime_region.end && size <= self.prime_region.end - aligned
    }

    /// The bytes still allocatable from the next aligned address.
    pub fn remaining(&self) -> (r: u64)
        requires
            self.wf(),
        ensures
            r == self.spec_remaining(),
    {
        let a = self.prime_region.start + self.offset;
        let pad = if a % 4 == 0 {
            0
        } else {
            4 - a % 4
        };
        let aligned = a + pad;
        if aligned <= self.prime_region.end {
            self.prime_region.end - aligned
        } else {
            0
        }
    }

    /// Reserves `size` bytes at the next 4-byte-aligned address and
    /// advances the cursor past them, irreversibly. The span must fit:
    /// at boot time there is no second allocator to fall back to, so the
    /// caller checks, and treats a span that does not fit as fatal.
    pub fn get_hunk(&mut self, size: u64) -> (r: DualAddr)
        requires
            old(self).wf(),
            old(self).spec_fits(size),
        ensures
            final(self).wf(),
            r.phys_addr == old(self).next_addr(),
            r.phys_addr % 4 == 0,
            r.virt_addr == r.phys_addr + old(self).physical_memory_offset,
            r.phys_addr + size <= old(self).prime_region.end,
            final(self).prime_region == old(self).prime_region,
            final(self).physical_memory_offset == old(self).physical_memory_offset,
            final(self).offset == r.phys_addr + size - old(self).prime_region.start,
    {
        let phys_mem_start = self.prime_region.start;
        let phys_mem_end = self.prime_region.end;

        let mut phys_start = phys_mem_start + self.offset;
        // align to a 4-byte boundary
        while phys_start % 4 != 0
            invariant
                old(self).wf(),
                phys_mem_start + old(self).offset <= phys_start <= old(self).next_addr(),
            decreases old(self).next_addr() - phys_start,
        {
            phys_start = phys_start + 1;
        }
        proof {
            let a = old(self).prime_region.start + old(self).offset;
            assert(old(self).next_addr() % 4 == 0) by {
                assert(((a + ((4 - a % 4) % 4)) % 4) == 0) by (nonlinear_arith);
            }
            assert(phys_start == old(self).next_addr()) by {
                assert(old(self).next_addr() - a < 4);
            }
        }
        // end is exclusive
        let phys_end = phys_start + size;

        self.offset = phys_end - phys_mem_start;
        DualAddr {
            phys_addr: phys_start,
            virt_addr: phys_start + self.physical_memory_offset,
        }
    }

    /// Reserves `size` bytes as [`Self::get_hunk`] does and pairs the
    /// span's 32-bit physical address with `value`, the object that the
    /// virtual mapping of the span holds.
    pub fn alloc32<T>(&mut self, size: u64, value: T) -> (p: DualPtr32<T>)
        requires
            old(self).wf(),
            old(self).spec_fits(size),
            old(self).next_addr() <= u32::MAX,
        ensures
            final(self).wf(),
            p.r_phys == old(self).next_addr(),
            p.r_phys % 4 == 0,
            p.rw_virt == value,
            p.r_phys + size <= old(self).prime_region.end,
            final(self).prime_region == old(self).prime_region,
            final(self).physical_memory_offset == old(self).physical_memory_offset,
            final(self).offset == p.r_phys + size - old(self).prime_region.start,
    {
        let DualAddr { phys_addr, .. } = self.get_hunk(size);
        DualPtr32 { r_phys: phys_addr as u32, rw_virt: value }
    }
}

/// Exhaustion law: a request for more bytes than remain never fits — the
/// caller must treat it as fatal — while a request for exactly the
/// remaining bytes, when any remain, always fits.
pub proof fn lemma_exhaustion(a: PhysAllocator, size: u64)
    requires
        a.wf(),
    ensures
        size > a.spec_remaining() ==> !a.spec_fits(size),
        size == a.spec_remaining() && size > 0 ==> a.spec_fits(size),
{
}

/// Allocating exactly the remaining bytes leaves zero bytes free.
pub proof fn lemma_exact_fit_leaves_nothing(a: PhysAllocator, b: PhysAllocator, size: u64)
    requires
        a.wf(),
        size == a.spec_remaining(),
        size > 0,
        b.prime_region == a.prime_region,
        b.physical_memory_offset == a.physical_memory_offset,
        b.offset == a.next_addr() + size - a.prime_region.start,
    ensures
        b.spec_remaining() == 0,
{
    assert(a.next_addr() <= a.prime_region.end);
    assert(b.prime_region.start + b.offset == a.prime_region.end);
    let e = b.prime_region.start + b.offset;
    assert(b.next_addr() == e + ((4 - e % 4) % 4));
    assert((4 - e % 4) % 4 >= 0) by (nonlinear_arith);
}

} // verus!
