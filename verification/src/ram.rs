//! The flat 16-bit address space: a byte buffer with an ordered list of
//! registered read-only (ROM) ranges. Reads ignore the ranges; writes into a
//! range fail unless the memory was built in allow-ROM-write mode.

use vstd::prelude::*;

use crate::op_code::Instruction;

verus! {

/// Errors of the memory and of the execute step.
#[derive(Copy, Clone, Debug, Eq, PartialEq, Structural)]
pub enum MemoryError {
    /// An access outside the buffer, carrying the address.
    OutOfBoundRead(usize),
    /// A write into a registered ROM range, carrying the address.
    ReadOnlyWrite(u16),
    /// Two ROM registrations overlap: start and length of the range already
    /// registered, then start and length of the rejected one.
    OverlappingRomSections(usize, usize, usize, usize),
    /// A ROM registration runs past the buffer: start and length of the
    /// range, then the buffer size.
    TooLongRomSection(usize, usize, usize),
    /// An instruction the execute step does not handle.
    NotImplementedInstruction(Instruction),
}

/// Whether the half-open range `[s1, s1 + l1)` meets `[s2, s2 + l2)`.
pub open spec fn ranges_overlap(s1: int, l1: int, s2: int, l2: int) -> bool {
    s2 + l2 > s1 && s1 + l1 > s2
}

/// Whether an address lies inside one of the listed ranges.
pub open spec fn in_ranges(ranges: Seq<(usize, usize)>, addr: int) -> bool {
    exists|i: int|
        0 <= i < ranges.len() && (#[trigger] ranges[i]).0 <= addr < ranges[i].0 + ranges[i].1
}

/// The range overlap test is symmetric: a new range meets an old one
/// exactly when the old one meets the new.
pub proof fn lemma_overlap_symmetric(s1: int, l1: int, s2: int, l2: int)
    ensures
        ranges_overlap(s1, l1, s2, l2) == ranges_overlap(s2, l2, s1, l1),
{
}

/// A byte buffer with registered read-only ranges.
#[derive(Debug, Clone)]
pub struct Ram {
    pub ram: Vec<u8>,
    pub rom_ranges: Vec<(usize, usize)>,
    pub allow_rom_write: bool,
}

impl Ram {
    /// The buffer contents.
    pub open spec fn mem(self) -> Seq<u8> {
        self.ram@
    }

    /// The registered ROM ranges, in registration order.
    pub open spec fn roms(self) -> Seq<(usize, usize)> {
        self.rom_ranges@
    }

    /// Whether writes into ROM ranges are allowed (diagnostic mode).
    pub open spec fn rom_writable(self) -> bool {
        self.allow_rom_write
    }

    /// Whether an address lies inside a registered ROM range.
    pub open spec fn in_rom(self, addr: int) -> bool {
        in_ranges(self.roms(), addr)
    }

    /// Whether a write to an address succeeds.
    pub open spec fn writable(self, addr: int) -> bool {
        addr < self.mem().len() && (self.allow_rom_write || !self.in_rom(addr))
    }

    /// The error a failing write to an address reports: a ROM hit wins over
    /// an out-of-bounds address.
    pub open spec fn write_err(self, addr: u16) -> MemoryError {
        if !self.allow_rom_write && self.in_rom(addr as int) {
            MemoryError::ReadOnlyWrite(addr)
        } else {
            MemoryError::OutOfBoundRead(addr as int as usize)
        }
    }

    /// Every registered range lies inside the buffer, and the ranges are
    /// pairwise disjoint.
    pub open spec fn wf(self) -> bool {
        &&& forall|i: int|
            0 <= i < self.roms().len() ==> (#[trigger] self.roms()[i]).0 + self.roms()[i].1
                <= self.mem().len()
        &&& forall|i: int, j: int|
            0 <= i < j < self.roms().len() ==> !ranges_overlap(
                (#[trigger] self.roms()[i]).0 as int,
                self.roms()[i].1 as int,
                (#[trigger] self.roms()[j]).0 as int,
                self.roms()[j].1 as int,
            )
    }

    /// A fresh memory of the given size, zero-filled, with no ROM ranges.
    pub fn new(ram_size: usize, allow_rom_write: bool) -> (r: Ram)
        ensures
            r.mem().len() == ram_size,
            forall|i: int| 0 <= i < ram_size ==> r.mem()[i] == 0,
            r.roms().len() == 0,
            r.rom_writable() == allow_rom_write,
            r.wf(),
    {
        Ram { ram: vec![0; ram_size], rom_ranges: Vec::new(), allow_rom_write }
    }

    /// Copies a ROM image into the buffer at `offset` and records the range
    /// as read-only. Fails if the image runs past the buffer, or if the
    /// range meets a range registered before (the error carries the old
    /// range first, then the new one).
    pub fn register_rom(&mut self, rom: &[u8], offset: usize) -> (r: Result<(), MemoryError>)
        requires
            old(self).wf(),
            offset + rom@.len() <= usize::MAX,
        ensures
            final(self).rom_writable() == old(self).rom_writable(),
            final(self).mem().len() == old(self).mem().len(),
            final(self).wf(),
            ({
                let pre = *old(self);
                let s = offset as int;
                let e = offset + rom@.len();
                if e > pre.mem().len() {
                    r == Err::<(), MemoryError>(
                        MemoryError::TooLongRomSection(offset, rom@.len() as usize, pre.mem().len() as usize),
                    ) && *final(self) == pre
                } else if exists|i: int|
                    0 <= i < pre.roms().len() && ranges_overlap(
                        (#[trigger] pre.roms()[i]).0 as int,
                        pre.roms()[i].1 as int,
                        s,
                        rom@.len() as int,
                    ) {
                    &&& *final(self) == pre
                    &&& exists|i: int|
                        {
                            &&& 0 <= i < pre.roms().len()
                            &&& ranges_overlap(
                                (#[trigger] pre.roms()[i]).0 as int,
                                pre.roms()[i].1 as int,
                                s,
                                rom@.len() as int,
                            )
                            &&& r == Err::<(), MemoryError>(
                                MemoryError::OverlappingRomSections(
                                    pre.roms()[i].0,
                                    pre.roms()[i].1,
                                    offset,
                                    rom@.len() as usize,
                                ),
                            )
                            &&& forall|j: int|
                                0 <= j < i ==> !ranges_overlap(
                                    (#[trigger] pre.roms()[j]).0 as int,
                                    pre.roms()[j].1 as int,
                                    s,
                                    rom@.len() as int,
                                )
                        }
                } else {
                    &&& r == Ok::<(), MemoryError>(())
                    &&& final(self).roms() == pre.roms().push((offset, rom@.len() as usize))
                    &&& forall|j: int| 0 <= j < s ==> final(self).mem()[j] == pre.mem()[j]
                    &&& forall|j: int| s <= j < e ==> final(self).mem()[j] == rom@[j - s]
                    &&& forall|j: int| e <= j < pre.mem().len() ==> final(self).mem()[j] == pre.mem()[j]
                }
            }),
    {
        let s = offset;
        let len = rom.len();
        let e = s + len;
        if e > self.ram.len() {
            return Err(MemoryError::TooLongRomSection(offset, len, self.ram.len()));
        }
        let ghost pre = *self;
        let mut i: usize = 0;
        while i < self.rom_ranges.len()
            invariant
                *self == pre,
                i <= pre.roms().len(),
                s == offset,
                len == rom@.len(),
                e == offset + rom@.len() <= pre.mem().len(),
                pre.mem().len() <= usize::MAX,
                pre.wf(),
                forall|j: int|
                    0 <= j < i ==> !ranges_overlap(
                        (#[trigger] pre.roms()[j]).0 as int,
                        pre.roms()[j].1 as int,
                        offset as int,
                        rom@.len() as int,
                    ),
            decreases pre.roms().len() - i,
        {
            let (sr, length) = self.rom_ranges[i];
            proof {
                assert((sr, length) == pre.roms()[i as int]);
                assert(pre.roms()[i as int].0 + pre.roms()[i as int].1 <= pre.mem().len());
            }
            let er = sr + length;
            if e > sr && er > s {
                proof {
                    assert(ranges_overlap(
                        pre.roms()[i as int].0 as int,
                        pre.roms()[i as int].1 as int,
                        offset as int,
                        rom@.len() as int,
                    ));
                }
                return Err(MemoryError::OverlappingRomSections(sr, length, offset, len));
            }
            i += 1;
        }
        self.rom_ranges.push((s, len));
        let mut k: usize = 0;
        while k < len
            invariant
                k <= len,
                s == offset,
                e == s + len <= self.ram.len(),
                len == rom@.len(),
                self.ram@.len() == pre.mem().len(),
                self.rom_ranges@ == pre.roms().push((s, len)),
                self.allow_rom_write == pre.rom_writable(),
                forall|j: int| 0 <= j < s ==> self.ram@[j] == pre.mem()[j],
                forall|j: int| s <= j < s + k ==> self.ram@[j] == rom@[j - s],
                forall|j: int| s + k <= j < pre.mem().len() ==> self.ram@[j] == pre.mem()[j],
            decreases len - k,
        {
            self.ram[s + k] = rom[k];
            k += 1;
        }
        Ok(())
    }

    /// Reads one byte; ROM ranges do not restrict reads.
    pub fn get(&self, addr: u16) -> (r: Result<u8, MemoryError>)
        ensures
            (addr as int) < self.mem().len() ==> r == Ok::<u8, MemoryError>(self.mem()[addr as int]),
            (addr as int) >= self.mem().len() ==> r == Err::<u8, MemoryError>(
                MemoryError::OutOfBoundRead(addr as int as usize),
            ),
    {
        let a = addr as usize;
        if a < self.ram.len() {
            Ok(self.ram[a])
        } else {
            Err(MemoryError::OutOfBoundRead(a))
        }
    }

    /// Writes one byte. The write fails with `ReadOnlyWrite` if the address
    /// lies in a registered ROM range and ROM writes are not allowed, and
    /// with `OutOfBoundRead` if it lies outside the buffer; the ROM check
    /// comes first.
    pub fn write(&mut self, addr: u16, value: u8) -> (r: Result<(), MemoryError>)
        ensures
            final(self).roms() == old(self).roms(),
            final(self).rom_writable() == old(self).rom_writable(),
            ({
                let pre = *old(self);
                if pre.writable(addr as int) {
                    r == Ok::<(), MemoryError>(()) && final(self).mem() == pre.mem().update(
                        addr as int,
                        value,
                    )
                } else {
                    r == Err::<(), MemoryError>(pre.write_err(addr)) && *final(self) == pre
                }
            }),
    {
        let a = addr as usize;
        let ghost pre = *self;
        let mut i: usize = 0;
        while i < self.rom_ranges.len()
            invariant
                *self == pre,
                i <= pre.roms().len(),
                a == addr as usize,
                forall|j: int|
                    0 <= j < i ==> !((#[trigger] pre.roms()[j]).0 <= a < pre.roms()[j].0
                        + pre.roms()[j].1) || pre.rom_writable(),
            decreases pre.roms().len() - i,
        {
            let (sr, length) = self.rom_ranges[i];
            if !self.allow_rom_write && a >= sr && a - sr < length {
                proof {
                    assert((sr, length) == pre.roms()[i as int]);
                    assert(pre.roms()[i as int].0 <= (addr as int) < pre.roms()[i as int].0
                        + pre.roms()[i as int].1);
                    assert(pre.in_rom(addr as int));
                }
                return Err(MemoryError::ReadOnlyWrite(addr));
            }
            i += 1;
        }
        if a < self.ram.len() {
            self.ram[a] = value;
            Ok(())
        } else {
            Err(MemoryError::OutOfBoundRead(a))
        }
    }

    /// The buffer from `addr` to its end; fails if `addr` lies past the
    /// end. The host reads the framebuffer through this.
    pub fn get_slice(&self, addr: u16) -> (r: Result<&[u8], MemoryError>)
        ensures
            (addr as int) <= self.mem().len() ==> (r matches Ok(s) && s@ == self.mem().skip(
                addr as int,
            )),
            (addr as int) > self.mem().len() ==> r == Err::<&[u8], MemoryError>(
                MemoryError::OutOfBoundRead(addr as int as usize),
            ),
    {
        let a = addr as usize;
        if a <= self.ram.len() {
            Ok(vstd::slice::slice_subrange(self.ram.as_slice(), a, self.ram.len()))
        } else {
            Err(MemoryError::OutOfBoundRead(a))
        }
    }
}

} // verus!
