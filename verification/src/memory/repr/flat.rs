//! One contiguous buffer of bytes that starts at address zero.

use std::ops::Range;

use vstd::prelude::*;

use crate::memory::repr::cursor::{ReadCursor, UnboundedCursor};
use crate::memory::{
    patch_bytes, LayeredMemoryRepr, LayoutError, MemoryRange, MemoryRepr, Named,
    PatchyMemoryRepr,
};

verus! {

/// A buffer whose byte `i` is the byte at address `i`.
pub struct FlatMemoryRepr {
    data: Vec<u8>,
    name: String,
}

/// The bytes of a buffer by address.
pub open spec fn flat_bytes(data: Seq<u8>) -> Map<u64, u8> {
    Map::new(|a: u64| a < data.len(), |a: u64| data[a as int])
}

impl FlatMemoryRepr {
    /// The bytes of the buffer, in order of address.
    pub closed spec fn contents(&self) -> Seq<u8> {
        self.data@
    }

    /// The name of the buffer.
    pub closed spec fn label(&self) -> Seq<char> {
        self.name@
    }

    /// An empty buffer of the given name.
    pub fn empty(name: String) -> (flat: FlatMemoryRepr)
        ensures
            flat.contents() == Seq::<u8>::empty(),
            flat.label() == name@,
    {
        FlatMemoryRepr { data: Vec::new(), name }
    }

    /// A buffer of the given bytes.
    pub fn of_bytes(data: Vec<u8>, name: String) -> (flat: FlatMemoryRepr)
        ensures
            flat.contents() == data@,
            flat.label() == name@,
    {
        FlatMemoryRepr { data, name }
    }

    /// The number of bytes in the buffer.
    pub fn len(&self) -> (len: usize)
        ensures
            len == self.contents().len(),
    {
        self.data.len()
    }
}

impl Named for FlatMemoryRepr {
    fn name(&self) -> (name: &str)
        ensures
            name@ == self.label(),
    {
        self.name.as_str()
    }
}

impl MemoryRepr for FlatMemoryRepr {
    open spec fn bytes(&self) -> Map<u64, u8> {
        flat_bytes(self.contents())
    }

    open spec fn spec_size(&self) -> Option<u64> {
        if self.contents().len() <= u64::MAX {
            Some(self.contents().len() as u64)
        } else {
            None
        }
    }

    open spec fn spec_start(&self) -> Option<u64> {
        Some(0)
    }

    fn read(&self, addr: u64) -> (byte: Option<u8>) {
        if addr < self.data.len() as u64 {
            Some(self.data[addr as usize])
        } else {
            None
        }
    }

    /// A flat buffer is flat already: it is handed back as it is.
    fn to_flat(self) -> (flat: Option<FlatMemoryRepr>)
        ensures
            flat == Some(self),
    {
        Some(self)
    }

    fn size(&self) -> (size: Option<u64>) {
        Some(self.data.len() as u64)
    }

    fn start(&self) -> (start: Option<u64>) {
        Some(0)
    }
}

impl LayeredMemoryRepr for FlatMemoryRepr {
    type Module = FlatMemoryRepr;

    /// A flat buffer has one layer: itself.
    fn module_for(&self, addr: u64) -> (module: Option<&FlatMemoryRepr>)
        ensures
            module matches Some(m) ==> *m == *self,
            module is Some <==> addr < self.contents().len(),
    {
        if addr < self.data.len() as u64 {
            Some(self)
        } else {
            None
        }
    }
}

impl MemoryRange for FlatMemoryRepr {
    /// A cursor is handed out where the buffer holds both ends of the range.
    fn range<'a>(&'a self, range: Range<u64>) -> (cursor: Option<ReadCursor<'a, Self>>)
        ensures
            cursor is Some <==> range.start <= range.end && range.end < self.contents().len(),
    {
        if range.start <= range.end && range.end < self.data.len() as u64 {
            Some(ReadCursor::from(self, range))
        } else {
            None
        }
    }

    /// A cursor is handed out where the buffer holds the start.
    fn range_from<'a>(&'a self, start: u64) -> (cursor: Option<UnboundedCursor<'a, Self>>)
        ensures
            cursor is Some <==> start < self.contents().len(),
    {
        if start < self.data.len() as u64 {
            Some(UnboundedCursor::from(self, start))
        } else {
            None
        }
    }
}

impl PatchyMemoryRepr for FlatMemoryRepr {
    /// A flat buffer takes a patch that continues it: one that starts at the
    /// address after its last byte. A patch that starts earlier covers mapped
    /// bytes; one that starts later would leave a hole, which a flat buffer
    /// cannot hold. An empty patch changes nothing and is taken anywhere.
    fn add(&mut self, data: Vec<u8>, addr: u64) -> (added: Result<(), LayoutError>)
        ensures
            added == if data@.len() == 0 {
                Ok::<(), LayoutError>(())
            } else if addr < old(self).contents().len() {
                Err::<(), LayoutError>(LayoutError::AddressConflict)
            } else if addr > old(self).contents().len() || addr + data@.len() > u64::MAX + 1 {
                Err::<(), LayoutError>(LayoutError::Unsupported)
            } else {
                Ok::<(), LayoutError>(())
            },
            final(self).contents() == if added is Ok {
                old(self).contents() + data@
            } else {
                old(self).contents()
            },
            final(self).label() == old(self).label(),
    {
        let len = self.data.len() as u64;
        if data.len() == 0 {
            proof {
                assert(self.contents() + data@ =~= self.contents());
                assert(self.bytes().union_prefer_right(patch_bytes(data@, addr)) =~= self.bytes());
            }
            return Ok(());
        }
        if addr < len {
            proof {
                assert(self.bytes().contains_key(addr));
            }
            return Err(LayoutError::AddressConflict);
        }
        if addr > len || data.len() as u64 - 1 > u64::MAX - addr {
            return Err(LayoutError::Unsupported);
        }
        let ghost before = self.data@;
        let ghost patch = data@;
        let mut data = data;
        self.data.append(&mut data);
        proof {
            assert(flat_bytes(before + patch) =~= flat_bytes(before).union_prefer_right(
                patch_bytes(patch, addr),
            ));
        }
        Ok(())
    }
}

} // verus!
