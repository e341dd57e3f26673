//! Physical frame allocator: a bump allocator over the boot memory map.
use vstd::prelude::*;

verus! {

/// Size of a physical frame.
pub const FRAME_SIZE: u64 = 4096;

/// One area of the boot memory map.
#[derive(Debug, Clone, Copy, PartialEq, Eq, Structural)]
pub struct MemoryRegion {
    /// Physical start address.
    pub start: u64,
    /// Length in bytes.
    pub size: u64,
    /// Whether the area is available RAM.
    pub available: bool,
}

/// Position `(e, off)` is usable: offset `off` (a frame multiple) inside
/// available region `e`, at or above the reserved boundary.
pub open spec fn is_candidate(regions: Seq<MemoryRegion>, reserved: u64, e: int, off: int) -> bool {
    &&& 0 <= e < regions.len()
    &&& regions[e].available
    &&& 0 <= off < regions[e].size
    &&& off % 4096 == 0
    &&& regions[e].start + off >= reserved
}

/// Position `(e1, o1)` comes no later than `(e2, o2)` in the allocator's scan order.
pub open spec fn at_or_before(e1: int, o1: int, e2: int, o2: int) -> bool {
    e1 < e2 || (e1 == e2 && o1 <= o2)
}

/// No usable position lies in `[from, to)` of the scan order.
pub open spec fn no_candidate_between(
    regions: Seq<MemoryRegion>,
    reserved: u64,
    fe: int,
    fo: int,
    te: int,
    to: int,
) -> bool {
    forall|e: int, off: int|
        at_or_before(fe, fo, e, off) && !at_or_before(te, to, e, off) ==> !#[trigger] is_candidate(
            regions,
            reserved,
            e,
            off,
        )
}

/// The map's areas do not wrap around the address space (with a frame to spare).
pub open spec fn regions_ok(regions: Seq<MemoryRegion>) -> bool {
    forall|i: int| 0 <= i < regions.len() ==> (#[trigger] regions[i]).start + regions[i].size + 4096 <= u64::MAX
}

/// The frame containing physical address `addr`.
pub open spec fn containing_frame(addr: u64) -> u64 {
    addr & !0xFFFu64
}

/// The frame handed out for position `(e, off)`.
pub open spec fn frame_at(regions: Seq<MemoryRegion>, e: int, off: int) -> u64 {
    containing_frame((regions[e].start + off) as u64)
}

/// The available areas start and end on frame boundaries and do not overlap.
pub open spec fn regions_disjoint(regions: Seq<MemoryRegion>) -> bool {
    &&& forall|i: int|
        0 <= i < regions.len() && (#[trigger] regions[i]).available ==> regions[i].start % 4096 == 0
            && regions[i].size % 4096 == 0
    &&& forall|i: int, j: int|
        0 <= i < regions.len() && 0 <= j < regions.len() && i != j && (#[trigger] regions[i]).available
            && (#[trigger] regions[j]).available ==> regions[i].start + regions[i].size
            <= regions[j].start || regions[j].start + regions[j].size <= regions[i].start
}

/// A simple bump allocator over the memory map.
pub struct BootFrameAllocator {
    regions: Vec<MemoryRegion>,
    next_entry: usize,
    next_offset: u64,
    reserved_below: u64,
}

impl BootFrameAllocator {
    /// The memory map.
    pub closed spec fn regions(&self) -> Seq<MemoryRegion> {
        self.regions@
    }

    /// Region the scan is in.
    pub closed spec fn entry(&self) -> int {
        self.next_entry as int
    }

    /// Offset the scan has reached in that region.
    pub closed spec fn offset(&self) -> int {
        self.next_offset as int
    }

    /// Frames below this physical address are never handed out.
    pub closed spec fn reserved(&self) -> u64 {
        self.reserved_below
    }

    /// The scan position is consistent with the map.
    #[verifier::type_invariant]
    pub open spec fn wf(&self) -> bool {
        &&& regions_ok(self.regions())
        &&& 0 <= self.entry() <= self.regions().len()
        &&& self.offset() % 4096 == 0
        &&& self.entry() == self.regions().len() ==> self.offset() == 0
        &&& self.entry() < self.regions().len() ==> self.offset() <= self.regions()[self.entry()].size + 4096
    }

    /// Create a new frame allocator over `regions`, never handing out
    /// frames below `reserved_below` (the end of the kernel image).
    pub fn init(regions: Vec<MemoryRegion>, reserved_below: u64) -> (a: Self)
        requires
            regions_ok(regions@),
        ensures
            a.wf(),
            a.regions() == regions@,
            a.entry() == 0,
            a.offset() == 0,
            a.reserved() == reserved_below,
    {
        Self { regions, next_entry: 0, next_offset: 0, reserved_below }
    }

    /// Finds the next usable frame: the first usable position at or after the
    /// scan position. Its frame is returned and the scan moves one frame past
    /// it; when no usable position is left the scan ends.
    pub fn find_next_frame(&mut self) -> (r: Option<u64>)
        ensures
            old(self).wf(),
            final(self).wf(),
            final(self).regions() == old(self).regions(),
            final(self).reserved() == old(self).reserved(),
            r matches Some(frame) ==> {
                let e = final(self).entry();
                let off = final(self).offset() - 4096;
                &&& is_candidate(old(self).regions(), old(self).reserved(), e, off)
                &&& at_or_before(old(self).entry(), old(self).offset(), e, off)
                &&& no_candidate_between(
                    old(self).regions(),
                    old(self).reserved(),
                    old(self).entry(),
                    old(self).offset(),
                    e,
                    off,
                )
                &&& frame == containing_frame((old(self).regions()[e].start + off) as u64)
            },
            old(self).entry() == old(self).regions().len() ==> r is None && final(self).entry()
                == old(self).entry() && final(self).offset() == old(self).offset(),
            r is None ==> {
                &&& final(self).entry() == old(self).regions().len()
                &&& no_candidate_between(
                    old(self).regions(),
                    old(self).reserved(),
                    old(self).entry(),
                    old(self).offset(),
                    old(self).regions().len() as int,
                    0,
                )
            },
    {
        proof {
            use_type_invariant(&*self);
        }
        let n = self.regions.len();
        while self.next_entry < n
            invariant
                self.wf(),
                old(self).wf(),
                n == self.regions@.len(),
                self.regions@ == old(self).regions@,
                self.reserved_below == old(self).reserved_below,
                at_or_before(old(self).entry(), old(self).offset(), self.entry(), self.offset()),
                no_candidate_between(
                    self.regions@,
                    self.reserved_below,
                    old(self).entry(),
                    old(self).offset(),
                    self.entry(),
                    self.offset(),
                ),
            decreases n - self.next_entry, self.regions@[self.next_entry as int].size + 4096 - self.next_offset,
        {
            let entry = self.regions[self.next_entry];
            if entry.available && self.next_offset < entry.size {
                let frame_addr = entry.start + self.next_offset;
                let ghost e = self.entry();
                let ghost off = self.offset();
                self.next_offset = self.next_offset + FRAME_SIZE;
                if frame_addr < self.reserved_below {
                    proof {
                        assert forall|e2: int, o2: int|
                            at_or_before(old(self).entry(), old(self).offset(), e2, o2)
                                && !at_or_before(e, off + 4096, e2, o2) implies !#[trigger] is_candidate(
                            self.regions@,
                            self.reserved_below,
                            e2,
                            o2,
                        ) by {
                            if !at_or_before(e, off, e2, o2) {
                            } else if e2 == e && o2 > off {
                            }
                        }
                    }
                    continue;
                }
                proof {
                    assert(is_candidate(self.regions@, self.reserved_below, e, off));
                }
                return Some(frame_addr & !0xFFFu64);
            }
            proof {
                let e = self.entry();
                let off = self.offset();
                assert forall|e2: int, o2: int|
                    at_or_before(old(self).entry(), old(self).offset(), e2, o2) && !at_or_before(
                        e + 1,
                        0,
                        e2,
                        o2,
                    ) implies !#[trigger] is_candidate(self.regions@, self.reserved_below, e2, o2) by {
                    if !at_or_before(e, off, e2, o2) {
                    } else if e2 == e {
                    }
                }
            }
            self.next_offset = 0;
            self.next_entry = self.next_entry + 1;
        }
        None
    }

    /// Hands out the next usable frame (see `find_next_frame`).
    pub fn allocate_frame(&mut self) -> (r: Option<u64>)
        ensures
            old(self).wf(),
            final(self).wf(),
            final(self).regions() == old(self).regions(),
            final(self).reserved() == old(self).reserved(),
            r matches Some(frame) ==> {
                let e = final(self).entry();
                let off = final(self).offset() - 4096;
                &&& is_candidate(final(self).regions(), final(self).reserved(), e, off)
                &&& at_or_before(old(self).entry(), old(self).offset(), e, off)
                &&& no_candidate_between(
                    old(self).regions(),
                    old(self).reserved(),
                    old(self).entry(),
                    old(self).offset(),
                    e,
                    off,
                )
                &&& frame == frame_at(old(self).regions(), e, off)
            },
            r is None ==> final(self).entry() == final(self).regions().len(),
            old(self).entry() == old(self).regions().len() ==> r is None && final(self).entry()
                == old(self).entry() && final(self).offset() == old(self).offset(),
    {
        self.find_next_frame()
    }
}

/// The allocator never hands out the same position twice: each frame comes
/// from a position strictly after every position handed out before it.
pub proof fn lemma_positions_strictly_increase(e1: int, o1: int, e2: int, o2: int)
    requires
        at_or_before(e1, o1 + 4096, e2, o2),
    ensures
        !at_or_before(e2, o2, e1, o1),
        e1 != e2 || o1 != o2,
{
}

/// A frame-aligned address is its own frame.
proof fn lemma_aligned_frame(x: u64)
    requires
        x % 4096 == 0,
    ensures
        containing_frame(x) == x,
{
    assert(x % 4096 == 0 ==> x & !0xFFFu64 == x) by (bit_vector);
}

/// Over a memory map whose available areas are frame aligned and disjoint,
/// every frame handed out lies wholly inside its available area, at or above
/// the reserved boundary, and a frame handed out later (from a position at
/// least one frame further on, as successive calls give) differs from it.
pub proof fn lemma_frames_distinct(
    regions: Seq<MemoryRegion>,
    reserved: u64,
    e1: int,
    o1: int,
    e2: int,
    o2: int,
)
    requires
        regions_ok(regions),
        regions_disjoint(regions),
        is_candidate(regions, reserved, e1, o1),
        is_candidate(regions, reserved, e2, o2),
        at_or_before(e1, o1 + 4096, e2, o2),
    ensures
        frame_at(regions, e1, o1) == regions[e1].start + o1,
        frame_at(regions, e1, o1) >= reserved,
        regions[e1].start <= frame_at(regions, e1, o1),
        frame_at(regions, e1, o1) + 4096 <= regions[e1].start + regions[e1].size,
        frame_at(regions, e1, o1) != frame_at(regions, e2, o2),
{
    let r1 = regions[e1];
    let r2 = regions[e2];
    assert((r1.start + o1) % 4096 == 0);
    assert((r2.start + o2) % 4096 == 0);
    lemma_aligned_frame((r1.start + o1) as u64);
    lemma_aligned_frame((r2.start + o2) as u64);
    assert(o1 + 4096 <= r1.size);
    if e1 != e2 {
        assert(r1.start + r1.size <= r2.start || r2.start + r2.size <= r1.start);
    }
}

} // verus!
