//! Uniform access to the bytes under analysis, however they are stored.
//!
//! A representation answers reads of single bytes. Some representations can
//! also hand out cursors over a range of addresses, some are layered and can
//! tell which inner representation covers an address, and some accept
//! patches: bytes added at an address after the representation was made.

use std::ops::Range;

use vstd::prelude::*;

use crate::memory::repr::cursor::{ReadCursor, UnboundedCursor};
use crate::memory::repr::flat::{flat_bytes, FlatMemoryRepr};

pub mod repr;

verus! {

/// Why a representation did not take a patch.
#[derive(Debug, PartialEq, Eq, Copy, Clone, Structural)]
pub enum LayoutError {
    /// The patch overlaps bytes that are mapped already.
    AddressConflict,
    /// The representation cannot hold the patch where it was asked to.
    Unsupported,
}

/// Something with a name to show.
pub trait Named {
    fn name(&self) -> &str;
}

/// The end of a region that starts at `start` and is `size` bytes long, where
/// both are known and the end is an address.
pub open spec fn region_end(start: Option<u64>, size: Option<u64>) -> Option<u64> {
    match (start, size) {
        (Some(start), Some(size)) => if start + size <= u64::MAX {
            Some((start + size) as u64)
        } else {
            None
        },
        _ => None,
    }
}

/// The byte that a set of mapped bytes holds at an address, if any.
pub open spec fn byte_at(bytes: Map<u64, u8>, addr: u64) -> Option<u8> {
    if bytes.contains_key(addr) {
        Some(bytes[addr])
    } else {
        None
    }
}

/// The bytes mapped at `from` and the addresses after it, up to the first
/// address that maps no byte, to the end of the address space, or to `count`
/// bytes, whichever comes first.
pub open spec fn mapped_run(bytes: Map<u64, u8>, from: int, count: nat) -> Seq<u8>
    decreases count,
{
    if count == 0 || from < 0 || from > u64::MAX || !bytes.contains_key(from as u64) {
        Seq::empty()
    } else {
        seq![bytes[from as u64]] + mapped_run(bytes, from + 1, (count - 1) as nat)
    }
}

/// The bytes of a patch of `data` at `addr`, by address, as far as they lie
/// within the address space.
pub open spec fn patch_bytes(data: Seq<u8>, addr: u64) -> Map<u64, u8> {
    Map::new(
        |a: u64| addr <= a && a - addr < data.len(),
        |a: u64| data[a - addr],
    )
}

/// Whether a patch of `len` bytes at `addr` covers an address that `bytes`
/// maps already.
pub open spec fn patch_overlaps(bytes: Map<u64, u8>, len: nat, addr: u64) -> bool {
    exists|a: u64| addr <= a && a - addr < len && #[trigger] bytes.contains_key(a)
}

/// A store of bytes by address.
pub trait MemoryRepr: Named {
    /// The bytes that the representation maps, by address.
    spec fn bytes(&self) -> Map<u64, u8>;

    /// The number of bytes that the representation spans, where that is known.
    spec fn spec_size(&self) -> Option<u64>;

    /// The first address that the representation spans, where that is known.
    spec fn spec_start(&self) -> Option<u64>;

    /// The byte at `addr`, or nothing where the representation maps no byte.
    fn read(&self, addr: u64) -> (byte: Option<u8>)
        ensures
            byte == byte_at(self.bytes(), addr),
    ;

    /// The representation as one flat buffer, where it can be had as one: the
    /// buffer then maps the same bytes.
    fn to_flat(self) -> (flat: Option<FlatMemoryRepr>) where Self: Sized
        ensures
            flat matches Some(f) ==> flat_bytes(f.contents()) == self.bytes(),
    ;

    fn size(&self) -> (size: Option<u64>)
        ensures
            size == self.spec_size(),
    ;

    fn start(&self) -> (start: Option<u64>)
        ensures
            start == self.spec_start(),
    ;

    /// The address after the last one that the representation spans, where
    /// start and size are known and that address exists.
    fn end(&self) -> (end: Option<u64>)
        ensures
            end == region_end(self.spec_start(), self.spec_size()),
    {
        match self.start() {
            Some(start) => match self.size() {
                Some(size) => start.checked_add(size),
                None => None,
            },
            None => None,
        }
    }
}

/// A representation made of layers, which can say what covers an address.
pub trait LayeredMemoryRepr: MemoryRepr {
    /// The kind of representation that covers single addresses of this one.
    type Module: MemoryRepr;

    /// The most specific representation that covers `addr`. It maps a byte
    /// at `addr`, the byte that this representation reads there, and nothing
    /// is returned where this representation maps no byte.
    fn module_for(&self, addr: u64) -> (module: Option<&Self::Module>)
        ensures
            module matches Some(m) ==> m.bytes().contains_key(addr) && byte_at(m.bytes(), addr)
                == byte_at(self.bytes(), addr),
            module is None ==> !self.bytes().contains_key(addr),
    ;
}

/// A representation that hands out cursors.
pub trait MemoryRange: MemoryRepr + Sized {
    /// A cursor over the addresses from `range.start` to `range.end`, both
    /// included: a range is taken as closed at both ends, so that a block
    /// that ends with the last byte of the address space can be named.
    fn range<'a>(&'a self, range: Range<u64>) -> (cursor: Option<ReadCursor<'a, Self>>)
        ensures
            cursor matches Some(c) ==> range.start <= range.end && c@ == mapped_run(
                self.bytes(),
                range.start as int,
                (range.end - range.start + 1) as nat,
            ),
    ;

    /// A cursor over the addresses from `start` on, as far as bytes are
    /// mapped.
    fn range_from<'a>(&'a self, start: u64) -> (cursor: Option<UnboundedCursor<'a, Self>>)
        ensures
            cursor matches Some(c) ==> c@ == mapped_run(
                self.bytes(),
                start as int,
                (u64::MAX - start + 1) as nat,
            ),
    ;
}

/// A representation that takes patches.
pub trait PatchyMemoryRepr: MemoryRepr {
    /// Maps the bytes of `data` at `addr` and the addresses after it. On
    /// success the patch covered no byte that was mapped before and all of it
    /// is mapped now; on failure nothing has changed, and an address conflict
    /// is reported only where the patch covers a mapped byte.
    fn add(&mut self, data: Vec<u8>, addr: u64) -> (added: Result<(), LayoutError>)
        ensures
            added is Ok ==> {
                &&& addr + data@.len() <= u64::MAX + 1
                &&& !patch_overlaps(old(self).bytes(), data@.len(), addr)
                &&& final(self).bytes() == old(self).bytes().union_prefer_right(
                    patch_bytes(data@, addr),
                )
            },
            added is Err ==> final(self).bytes() == old(self).bytes(),
            added == Err::<(), LayoutError>(LayoutError::AddressConflict) ==> patch_overlaps(
                old(self).bytes(),
                data@.len(),
                addr,
            ),
    ;
}

/// A closed range of addresses over a representation that maps every one of
/// them yields every byte of the range, the last address of the address
/// space included: `last - first + 1` bytes.
pub proof fn lemma_mapped_run_of_mapped_range(bytes: Map<u64, u8>, first: u64, last: u64)
    requires
        first <= last,
        forall|a: u64| first <= a <= last ==> bytes.contains_key(a),
    ensures
        mapped_run(bytes, first as int, (last - first + 1) as nat).len() == last - first + 1,
        forall|i: int|
            0 <= i <= last - first ==> #[trigger] mapped_run(
                bytes,
                first as int,
                (last - first + 1) as nat,
            )[i] == bytes[(first + i) as u64],
    decreases last - first,
{
    let run = mapped_run(bytes, first as int, (last - first + 1) as nat);
    assert(bytes.contains_key(first));
    if first < last {
        let next = (first + 1) as u64;
        lemma_mapped_run_of_mapped_range(bytes, next, last);
        let rest = mapped_run(bytes, next as int, (last - next + 1) as nat);
        assert(run == seq![bytes[first]] + rest);
        assert forall|i: int| 0 <= i <= last - first implies #[trigger] run[i] == bytes[(first
            + i) as u64] by {
            if i > 0 {
                assert(run[i] == rest[i - 1]);
            }
        }
    } else {
        assert(mapped_run(bytes, first + 1, 0) == Seq::<u8>::empty());
        assert(run == seq![bytes[first]] + Seq::<u8>::empty());
    }
}

} // verus!
