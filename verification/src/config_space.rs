//! A snapshot of PCI configuration space as plain data.
//!
//! On the machine, configuration space is reached through the two fixed
//! I/O ports; here it is a table of per-slot register files, one sixteen-
//! dword header per populated (bus, slot) at function 0. A slot with no
//! entry reads as all ones, which is how an absent device answers on the
//! bus. The scanner and the initialisation pass run against this model;
//! the unverified shell fills one from, or replays writes to, the real
//! ports.

use vstd::prelude::*;

use crate::pci_config::{lemma_select_word_absent, select_word, spec_select_word};

verus! {

/// The sixteen configuration-header dwords of one populated
/// (bus, slot, function-0) address.
#[derive(Clone)]
pub struct SlotConfig {
    pub bus: u8,
    pub slot: u8,
    pub regs: Vec<u32>,
}

impl SlotConfig {
    /// A slot entry is well formed when its slot number is addressable
    /// (five bits) and it carries exactly the sixteen header dwords.
    pub open spec fn wf(self) -> bool {
        self.slot < 32 && self.regs@.len() == 16
    }
}

/// The register file an absent device answers with: all ones.
pub open spec fn absent_regs() -> Seq<u32> {
    Seq::new(16, |i: int| 0xFFFF_FFFFu32)
}

/// A configuration-space snapshot: at most one entry per (bus, slot).
#[derive(Clone)]
pub struct ConfigSpace {
    pub slots: Vec<SlotConfig>,
}

impl ConfigSpace {
    /// Every entry is well formed and no (bus, slot) appears twice.
    pub open spec fn wf(self) -> bool {
        (forall|i: int| 0 <= i < self.slots@.len() ==> (#[trigger] self.slots@[i]).wf())
            && (forall|i: int, j: int|
            0 <= i < j < self.slots@.len() ==> !((#[trigger] self.slots@[i]).bus == (
            #[trigger] self.slots@[j]).bus && self.slots@[i].slot == self.slots@[j].slot))
    }

    /// Whether the snapshot carries an entry for (bus, slot).
    pub open spec fn has_slot(self, bus: u8, slot: u8) -> bool {
        exists|i: int|
            0 <= i < self.slots@.len() && (#[trigger] self.slots@[i]).bus == bus
                && self.slots@[i].slot == slot
    }

    /// The sixteen header dwords that (bus, slot) answers with: its
    /// entry's register file, or all ones when absent.
    pub open spec fn spec_regs(self, bus: u8, slot: u8) -> Seq<u32> {
        if self.has_slot(bus, slot) {
            let i = choose|i: int|
                0 <= i < self.slots@.len() && (#[trigger] self.slots@[i]).bus == bus
                    && self.slots@[i].slot == slot;
            self.slots@[i].regs@
        } else {
            absent_regs()
        }
    }

    /// In a well-formed snapshot, an entry that matches (bus, slot) is
    /// the one that `spec_regs` denotes.
    pub proof fn lemma_entry_regs(self, bus: u8, slot: u8, i: int)
        requires
            self.wf(),
            0 <= i < self.slots@.len(),
            self.slots@[i].bus == bus,
            self.slots@[i].slot == slot,
        ensures
            self.has_slot(bus, slot),
            self.spec_regs(bus, slot) == self.slots@[i].regs@,
    {
        assert(self.has_slot(bus, slot));
        let k = choose|k: int|
            0 <= k < self.slots@.len() && (#[trigger] self.slots@[k]).bus == bus
                && self.slots@[k].slot == slot;
        if k < i {
            assert(!(self.slots@[k].bus == self.slots@[i].bus && self.slots@[k].slot
                == self.slots@[i].slot));
        } else if i < k {
            assert(!(self.slots@[i].bus == self.slots@[k].bus && self.slots@[i].slot
                == self.slots@[k].slot));
        }
    }

    /// The register file of any address has the sixteen header dwords.
    pub proof fn lemma_regs_len(self, bus: u8, slot: u8)
        requires
            self.wf(),
        ensures
            self.spec_regs(bus, slot).len() == 16,
    {
    }

    /// Reads one configuration dword, as latching the dword address and
    /// reading the data port would.
    pub fn read_u32(&self, bus: u8, slot: u8, register: u8) -> (r: u32)
        requires
            self.wf(),
            slot < 32,
            register < 16,
        ensures
            r == self.spec_regs(bus, slot)[register as int],
    {
        let mut i: usize = 0;
        while i < self.slots.len()
            invariant
                self.wf(),
                register < 16,
                i <= self.slots@.len(),
                forall|j: int|
                    0 <= j < i ==> !((#[trigger] self.slots@[j]).bus == bus && self.slots@[j].slot
                        == slot),
            decreases self.slots@.len() - i,
        {
            if self.slots[i].bus == bus && self.slots[i].slot == slot {
                proof {
                    assert(self.slots@[i as int].wf());
                    self.lemma_entry_regs(bus, slot, i as int);
                }
                return self.slots[i].regs[register as usize];
            }
            i = i + 1;
        }
        assert(!self.has_slot(bus, slot));
        0xFFFF_FFFF
    }

    /// Reads one configuration word at a byte offset, selecting the
    /// addressed half of the enclosing dword.
    pub fn read_word(&self, bus: u8, slot: u8, offset: u8) -> (w: u16)
        requires
            self.wf(),
            slot < 32,
            offset < 64,
        ensures
            w == spec_select_word(self.spec_regs(bus, slot)[offset as int / 4], offset),
    {
        let dword = self.read_u32(bus, slot, offset / 4);
        select_word(dword, offset)
    }

    /// Writes one configuration dword, as latching the dword address and
    /// writing the data port would: the addressed device's register
    /// changes, an absent address ignores the write, and no other
    /// address is touched.
    pub fn write_u32(&mut self, bus: u8, slot: u8, register: u8, value: u32)
        requires
            old(self).wf(),
            slot < 32,
            register < 16,
        ensures
            final(self).wf(),
            final(self).slots@.len() == old(self).slots@.len(),
            forall|i: int|
                0 <= i < old(self).slots@.len() ==> {
                    let e = old(self).slots@[i];
                    let f = #[trigger] final(self).slots@[i];
                    if e.bus == bus && e.slot == slot {
                        f.bus == e.bus && f.slot == e.slot && f.regs@ =~= e.regs@.update(
                            register as int,
                            value,
                        )
                    } else {
                        f == e
                    }
                },
            old(self).has_slot(bus, slot) ==> final(self).spec_regs(bus, slot) =~= old(
                self,
            ).spec_regs(bus, slot).update(register as int, value),
            !old(self).has_slot(bus, slot) ==> *final(self) == *old(self),
            forall|b: u8, s: u8|
                !(b == bus && s == slot) ==> #[trigger] final(self).spec_regs(b, s) == old(
                    self,
                ).spec_regs(b, s),
    {
        let ghost n = old(self).slots@.len() as int;
        let mut i: usize = 0;
        while i < self.slots.len()
            invariant
                *self == *old(self),
                self.wf(),
                slot < 32,
                register < 16,
                i <= n,
                self.slots@.len() == n,
                forall|j: int|
                    0 <= j < i ==> !((#[trigger] self.slots@[j]).bus == bus && self.slots@[j].slot
                        == slot),
            decreases n - i,
        {
            if self.slots[i].bus == bus && self.slots[i].slot == slot {
                proof {
                    assert(self.slots@[i as int].wf());
                    old(self).lemma_entry_regs(bus, slot, i as int);
                }
                self.slots[i].regs[register as usize] = value;
                proof {
                    self.lemma_entry_regs(bus, slot, i as int);
                    assert(self.spec_regs(bus, slot) =~= old(self).spec_regs(bus, slot).update(
                        register as int,
                        value,
                    ));
                    assert forall|b: u8, s: u8| !(b == bus && s == slot) implies #[trigger] self
                        .spec_regs(b, s) == old(self).spec_regs(b, s) by {
                        if old(self).has_slot(b, s) {
                            let k = choose|k: int|
                                0 <= k < old(self).slots@.len() && (#[trigger] old(
                                    self,
                                ).slots@[k]).bus == b && old(self).slots@[k].slot == s;
                            old(self).lemma_entry_regs(b, s, k);
                            self.lemma_entry_regs(b, s, k);
                            assert(k != i as int);
                        } else {
                            assert(!self.has_slot(b, s));
                        }
                    }
                }
                return ;
            }
            i = i + 1;
        }
        proof {
            assert(!self.has_slot(bus, slot));
        }
    }

    /// Copies the sixteen header dwords that (bus, slot) answers with.
    pub fn regs_of(&self, bus: u8, slot: u8) -> (regs: Vec<u32>)
        requires
            self.wf(),
            slot < 32,
        ensures
            regs@ =~= self.spec_regs(bus, slot),
            regs@.len() == 16,
    {
        let mut regs: Vec<u32> = Vec::new();
        let mut k: u8 = 0;
        while k < 16
            invariant
                self.wf(),
                k <= 16,
                regs@.len() == k as int,
                forall|j: int| 0 <= j < k ==> regs@[j] == self.spec_regs(bus, slot)[j],
                slot < 32,
            decreases 16 - k,
        {
            regs.push(self.read_u32(bus, slot, k));
            k = k + 1;
        }
        proof {
            self.lemma_regs_len(bus, slot);
        }
        regs
    }
}

/// An absent address answers every word read with all ones; in
/// particular a vendor-identifier read there gives `0xFFFF`.
pub proof fn lemma_absent_reads_all_ones(space: ConfigSpace, bus: u8, slot: u8, offset: u8)
    requires
        space.wf(),
        !space.has_slot(bus, slot),
        offset < 64,
    ensures
        space.spec_regs(bus, slot)[offset as int / 4] == 0xFFFF_FFFF,
        spec_select_word(space.spec_regs(bus, slot)[offset as int / 4], offset) == 0xFFFF,
{
    lemma_select_word_absent(offset);
}

} // verus!
