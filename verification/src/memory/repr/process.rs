//! The memory of a process: segments of bytes, each at its own address.

use std::ops::Range;

use vstd::prelude::*;

use crate::memory::repr::cursor::{ReadCursor, UnboundedCursor};
use crate::memory::repr::flat::{flat_bytes, FlatMemoryRepr};
use crate::memory::{
    patch_bytes, patch_overlaps, LayeredMemoryRepr, LayoutError, MemoryRange, MemoryRepr, Named,
    PatchyMemoryRepr,
};

verus! {

/// A run of bytes that starts at an address of its own.
pub struct Segment {
    start: u64,
    data: Vec<u8>,
    name: String,
}

/// The bytes of a run that starts at `start`, by address, as far as they lie
/// within the address space.
pub open spec fn segment_bytes(start: u64, data: Seq<u8>) -> Map<u64, u8> {
    patch_bytes(data, start)
}

impl Segment {
    /// The address of the first byte.
    pub closed spec fn first(&self) -> u64 {
        self.start
    }

    /// The bytes of the segment, in order of address.
    pub closed spec fn contents(&self) -> Seq<u8> {
        self.data@
    }

    /// The name of the segment.
    pub closed spec fn label(&self) -> Seq<char> {
        self.name@
    }

    /// The segment of the given bytes at `start`.
    pub fn new(start: u64, data: Vec<u8>, name: String) -> (segment: Segment)
        ensures
            segment.first() == start,
            segment.contents() == data@,
            segment.label() == name@,
    {
        Segment { start, data, name }
    }

    /// Whether the segment maps a byte at `addr`.
    pub fn contains(&self, addr: u64) -> (mapped: bool)
        ensures
            mapped == self.bytes().contains_key(addr),
    {
        addr >= self.start && addr - self.start < self.data.len() as u64
    }

    /// Whether the segment maps a byte of the `len` addresses from `addr` on.
    fn overlaps(&self, len: usize, addr: u64) -> (overlap: bool)
        ensures
            overlap == patch_overlaps(self.bytes(), len as nat, addr),
    {
        let own = self.data.len();
        let overlap = len > 0 && own > 0 && if addr <= self.start {
            self.start - addr < len as u64
        } else {
            addr - self.start < own as u64
        };
        proof {
            if overlap {
                let a = if addr <= self.start {
                    self.start
                } else {
                    addr
                };
                assert(addr <= a && a - addr < len && self.bytes().contains_key(a));
            }
        }
        overlap
    }
}

impl Named for Segment {
    fn name(&self) -> (name: &str)
        ensures
            name@ == self.label(),
    {
        self.name.as_str()
    }
}

impl MemoryRepr for Segment {
    open spec fn bytes(&self) -> Map<u64, u8> {
        segment_bytes(self.first(), self.contents())
    }

    open spec fn spec_size(&self) -> Option<u64> {
        if self.contents().len() <= u64::MAX {
            Some(self.contents().len() as u64)
        } else {
            None
        }
    }

    open spec fn spec_start(&self) -> Option<u64> {
        Some(self.first())
    }

    fn read(&self, addr: u64) -> (byte: Option<u8>) {
        if addr >= self.start && addr - self.start < self.data.len() as u64 {
            Some(self.data[(addr - self.start) as usize])
        } else {
            None
        }
    }

    /// A segment is one flat buffer where it starts at address zero.
    fn to_flat(self) -> (flat: Option<FlatMemoryRepr>)
        ensures
            flat is Some <==> self.first() == 0,
    {
        if self.start == 0 {
            let flat = FlatMemoryRepr::of_bytes(self.data, self.name);
            proof {
                assert(flat_bytes(flat.contents()) =~= self.bytes());
            }
            Some(flat)
        } else {
            None
        }
    }

    fn size(&self) -> (size: Option<u64>) {
        Some(self.data.len() as u64)
    }

    fn start(&self) -> (start: Option<u64>) {
        Some(self.start)
    }
}

impl MemoryRange for Segment {
    /// A cursor is handed out where the segment holds both ends of the range.
    fn range<'a>(&'a self, range: Range<u64>) -> (cursor: Option<ReadCursor<'a, Self>>)
        ensures
            cursor is Some <==> range.start <= range.end && self.bytes().contains_key(range.start)
                && self.bytes().contains_key(range.end),
    {
        if range.start <= range.end && self.contains(range.start) && self.contains(range.end) {
            Some(ReadCursor::from(self, range))
        } else {
            None
        }
    }

    /// A cursor is handed out where the segment holds the start.
    fn range_from<'a>(&'a self, start: u64) -> (cursor: Option<UnboundedCursor<'a, Self>>)
        ensures
            cursor is Some <==> self.bytes().contains_key(start),
    {
        if self.contains(start) {
            Some(UnboundedCursor::from(self, start))
        } else {
            None
        }
    }
}

/// The bytes that a list of segments maps. Where two segments map the same
/// address, the earlier one decides.
pub open spec fn overlay(segments: Seq<Segment>) -> Map<u64, u8>
    decreases segments.len(),
{
    if segments.len() == 0 {
        Map::empty()
    } else {
        segments.last().bytes().union_prefer_right(overlay(segments.drop_last()))
    }
}

/// The first segment that maps an address decides the byte there.
proof fn lemma_overlay_first(segments: Seq<Segment>, addr: u64, i: int)
    requires
        0 <= i < segments.len(),
        segments[i].bytes().contains_key(addr),
        forall|j: int| 0 <= j < i ==> !segments[j].bytes().contains_key(addr),
    ensures
        overlay(segments).contains_key(addr),
        overlay(segments)[addr] == segments[i].bytes()[addr],
    decreases segments.len(),
{
    if i < segments.len() - 1 {
        lemma_overlay_first(segments.drop_last(), addr, i);
    } else {
        lemma_overlay_none(segments.drop_last(), addr);
    }
}

/// An address that no segment maps is not mapped.
proof fn lemma_overlay_none(segments: Seq<Segment>, addr: u64)
    requires
        forall|j: int| 0 <= j < segments.len() ==> !segments[j].bytes().contains_key(addr),
    ensures
        !overlay(segments).contains_key(addr),
    decreases segments.len(),
{
    if segments.len() > 0 {
        lemma_overlay_none(segments.drop_last(), addr);
    }
}

/// A mapped address is mapped by one of the segments.
proof fn lemma_overlay_some(segments: Seq<Segment>, addr: u64)
    requires
        overlay(segments).contains_key(addr),
    ensures
        exists|j: int| 0 <= j < segments.len() && segments[j].bytes().contains_key(addr),
{
    if forall|j: int| 0 <= j < segments.len() ==> !segments[j].bytes().contains_key(addr) {
        lemma_overlay_none(segments, addr);
    }
}

/// The memory of a process: the segments that were loaded or patched in.
pub struct ProcessMemoryRepr {
    segments: Vec<Segment>,
    name: String,
}

impl ProcessMemoryRepr {
    /// The segments of the process, in the order in which they were added.
    pub closed spec fn segments(&self) -> Seq<Segment> {
        self.segments@
    }

    /// The name of the process.
    pub closed spec fn label(&self) -> Seq<char> {
        self.name@
    }

    /// A process without segments.
    pub fn new(name: String) -> (process: ProcessMemoryRepr)
        ensures
            process.segments() == Seq::<Segment>::empty(),
            process.label() == name@,
    {
        ProcessMemoryRepr { segments: Vec::new(), name }
    }

    fn find(&self, addr: u64) -> (found: Option<usize>)
        ensures
            match found {
                Some(i) => i < self.segments().len() && self.segments()[i as int].bytes().contains_key(
                    addr,
                ) && self.bytes().contains_key(addr) && self.bytes()[addr]
                    == self.segments()[i as int].bytes()[addr],
                None => !self.bytes().contains_key(addr),
            },
    {
        let mut i: usize = 0;
        while i < self.segments.len()
            invariant
                i <= self.segments.len(),
                forall|j: int| 0 <= j < i ==> !self.segments@[j].bytes().contains_key(addr),
            decreases self.segments.len() - i,
        {
            if self.segments[i].contains(addr) {
                proof {
                    lemma_overlay_first(self.segments@, addr, i as int);
                }
                return Some(i);
            }
            i += 1;
        }
        proof {
            lemma_overlay_none(self.segments@, addr);
        }
        None
    }
}

impl Named for ProcessMemoryRepr {
    fn name(&self) -> (name: &str)
        ensures
            name@ == self.label(),
    {
        self.name.as_str()
    }
}

impl MemoryRepr for ProcessMemoryRepr {
    open spec fn bytes(&self) -> Map<u64, u8> {
        overlay(self.segments())
    }

    /// Segments lie apart, so a process has no size as a whole.
    open spec fn spec_size(&self) -> Option<u64> {
        None
    }

    open spec fn spec_start(&self) -> Option<u64> {
        None
    }

    fn read(&self, addr: u64) -> (byte: Option<u8>) {
        match self.find(addr) {
            Some(i) => self.segments[i].read(addr),
            None => None,
        }
    }

    /// The memory of a process is not one flat buffer.
    fn to_flat(self) -> (flat: Option<FlatMemoryRepr>)
        ensures
            flat is None,
    {
        None
    }

    fn size(&self) -> (size: Option<u64>) {
        None
    }

    fn start(&self) -> (start: Option<u64>) {
        None
    }
}

impl LayeredMemoryRepr for ProcessMemoryRepr {
    type Module = Segment;

    /// The segment that decides the byte at `addr`.
    fn module_for(&self, addr: u64) -> (module: Option<&Segment>)
        ensures
            module is Some <==> self.bytes().contains_key(addr),
            module matches Some(m) ==> self.segments().contains(*m),
    {
        match self.find(addr) {
            Some(i) => Some(&self.segments[i]),
            None => None,
        }
    }
}

impl MemoryRange for ProcessMemoryRepr {
    /// A cursor is handed out where the process maps the start of the range.
    fn range<'a>(&'a self, range: Range<u64>) -> (cursor: Option<ReadCursor<'a, Self>>)
        ensures
            cursor is Some <==> range.start <= range.end && self.bytes().contains_key(range.start),
    {
        if range.start <= range.end && self.find(range.start).is_some() {
            Some(ReadCursor::from(self, range))
        } else {
            None
        }
    }

    /// A cursor is handed out where the process maps the start.
    fn range_from<'a>(&'a self, start: u64) -> (cursor: Option<UnboundedCursor<'a, Self>>)
        ensures
            cursor is Some <==> self.bytes().contains_key(start),
    {
        if self.find(start).is_some() {
            Some(UnboundedCursor::from(self, start))
        } else {
            None
        }
    }
}

impl PatchyMemoryRepr for ProcessMemoryRepr {
    /// A process takes a patch as a new segment, anywhere where nothing is
    /// mapped yet. A patch that covers a mapped byte conflicts; one that
    /// would reach past the end of the address space is not supported. An
    /// empty patch changes nothing.
    fn add(&mut self, data: Vec<u8>, addr: u64) -> (added: Result<(), LayoutError>)
        ensures
            added == if patch_overlaps(old(self).bytes(), data@.len(), addr) {
                Err::<(), LayoutError>(LayoutError::AddressConflict)
            } else if addr + data@.len() > u64::MAX + 1 {
                Err::<(), LayoutError>(LayoutError::Unsupported)
            } else {
                Ok::<(), LayoutError>(())
            },
            final(self).label() == old(self).label(),
    {
        let len = data.len();
        let mut i: usize = 0;
        while i < self.segments.len()
            invariant
                i <= self.segments.len(),
                len == data@.len(),
                *self == *old(self),
                forall|j: int|
                    0 <= j < i ==> !patch_overlaps(self.segments@[j].bytes(), len as nat, addr),
            decreases self.segments.len() - i,
        {
            if self.segments[i].overlaps(len, addr) {
                proof {
                    let a = choose|a: u64|
                        addr <= a && a - addr < len && #[trigger] self.segments@[i as int].bytes().contains_key(
                            a,
                        );
                    if forall|j: int| 0 <= j < i ==> !self.segments@[j].bytes().contains_key(a) {
                        lemma_overlay_first(self.segments@, a, i as int);
                    } else {
                        let j = choose|j: int|
                            0 <= j < i && self.segments@[j].bytes().contains_key(a);
                        assert(patch_overlaps(self.segments@[j].bytes(), len as nat, addr));
                    }
                    assert(self.bytes().contains_key(a));
                }
                return Err(LayoutError::AddressConflict);
            }
            i += 1;
        }
        proof {
            if patch_overlaps(self.bytes(), len as nat, addr) {
                let a = choose|a: u64|
                    addr <= a && a - addr < len && #[trigger] self.bytes().contains_key(a);
                lemma_overlay_some(self.segments@, a);
                let j = choose|j: int|
                    0 <= j < self.segments@.len() && self.segments@[j].bytes().contains_key(a);
                assert(patch_overlaps(self.segments@[j].bytes(), len as nat, addr));
            }
        }
        if len == 0 {
            proof {
                assert(self.bytes().union_prefer_right(patch_bytes(data@, addr)) =~= self.bytes());
            }
            return Ok(());
        }
        if len as u64 - 1 > u64::MAX - addr {
            return Err(LayoutError::Unsupported);
        }
        let ghost before = self.segments@;
        let ghost patch = data@;
        let segment = Segment::new(addr, data, String::new());
        self.segments.push(segment);
        proof {
            assert(self.segments@.drop_last() =~= before);
            assert(self.segments@.last().bytes() == patch_bytes(patch, addr));
            assert(self.bytes() =~= overlay(before).union_prefer_right(patch_bytes(patch, addr)));
        }
        Ok(())
    }
}

} // verus!
