//! Cursors: readers that walk a representation address by address.

use std::ops::Range;

use vstd::prelude::*;

use crate::memory::{mapped_run, MemoryRepr};

verus! {

/// A cursor over a closed range of addresses of a representation.
pub struct ReadCursor<'a, T: MemoryRepr> {
    data: &'a T,
    next: u64,
    last: u64,
    exhausted: bool,
}

/// A cursor from an address to the end of what a representation maps there.
pub struct UnboundedCursor<'a, T: MemoryRepr> {
    cursor: ReadCursor<'a, T>,
}

impl<'a, T: MemoryRepr> View for ReadCursor<'a, T> {
    type V = Seq<u8>;

    /// The bytes that the cursor has yet to yield, in order.
    closed spec fn view(&self) -> Seq<u8> {
        if self.exhausted || self.next > self.last {
            Seq::empty()
        } else {
            mapped_run(self.data.bytes(), self.next as int, (self.last - self.next + 1) as nat)
        }
    }
}

impl<'a, T: MemoryRepr> ReadCursor<'a, T> {
    /// A cursor over `data` from `range.start` to `range.end`, both
    /// included. Over a range that ends before it starts the cursor yields
    /// nothing.
    pub fn from(data: &'a T, range: Range<u64>) -> (cursor: Self)
        ensures
            cursor@ == if range.start <= range.end {
                mapped_run(
                    data.bytes(),
                    range.start as int,
                    (range.end - range.start + 1) as nat,
                )
            } else {
                Seq::<u8>::empty()
            },
    {
        ReadCursor { data, next: range.start, last: range.end, exhausted: range.start > range.end }
    }

    /// The next byte, or nothing once the range is read or an address maps
    /// no byte. After that the cursor yields nothing more.
    pub fn next(&mut self) -> (byte: Option<u8>)
        ensures
            byte == if old(self)@.len() > 0 {
                Some(old(self)@[0])
            } else {
                None
            },
            final(self)@ == if old(self)@.len() > 0 {
                old(self)@.drop_first()
            } else {
                Seq::<u8>::empty()
            },
    {
        if self.exhausted || self.next > self.last {
            self.exhausted = true;
            return None;
        }
        let ghost bytes = self.data.bytes();
        let ghost run = self@;
        let byte = self.data.read(self.next);
        match byte {
            None => {
                self.exhausted = true;
            },
            Some(_) => {
                proof {
                    let rest = mapped_run(
                        bytes,
                        self.next + 1,
                        (self.last - self.next) as nat,
                    );
                    assert(run == seq![bytes[self.next]] + rest);
                    assert(run.drop_first() =~= rest);
                }
                if self.next == self.last {
                    self.exhausted = true;
                } else {
                    self.next = self.next + 1;
                }
            },
        }
        byte
    }

    /// Reads the cursor to its end and returns the bytes it yielded.
    pub fn collect(self) -> (bytes: Vec<u8>)
        ensures
            bytes@ == self@,
    {
        let mut cursor = self;
        let mut bytes: Vec<u8> = Vec::new();
        loop
            invariant
                bytes@ + cursor@ == self@,
            decreases cursor@.len(),
        {
            let ghost before = cursor@;
            match cursor.next() {
                Some(byte) => {
                    proof {
                        assert(bytes@.push(byte) + before.drop_first() =~= bytes@ + before);
                    }
                    bytes.push(byte);
                },
                None => {
                    proof {
                        assert(bytes@ + before =~= bytes@);
                    }
                    return bytes;
                },
            }
        }
    }
}

impl<'a, T: MemoryRepr> View for UnboundedCursor<'a, T> {
    type V = Seq<u8>;

    /// The bytes that the cursor has yet to yield, in order.
    closed spec fn view(&self) -> Seq<u8> {
        self.cursor@
    }
}

impl<'a, T: MemoryRepr> UnboundedCursor<'a, T> {
    /// A cursor over `data` from `start` on.
    pub fn from(data: &'a T, start: u64) -> (cursor: Self)
        ensures
            cursor@ == mapped_run(data.bytes(), start as int, (u64::MAX - start + 1) as nat),
    {
        UnboundedCursor { cursor: ReadCursor::from(data, start..u64::MAX) }
    }

    /// The next byte, or nothing once an address maps no byte or the address
    /// space ends. After that the cursor yields nothing more.
    pub fn next(&mut self) -> (byte: Option<u8>)
        ensures
            byte == if old(self)@.len() > 0 {
                Some(old(self)@[0])
            } else {
                None
            },
            final(self)@ == if old(self)@.len() > 0 {
                old(self)@.drop_first()
            } else {
                Seq::<u8>::empty()
            },
    {
        self.cursor.next()
    }

    /// Reads the cursor to its end and returns the bytes it yielded.
    pub fn collect(self) -> (bytes: Vec<u8>)
        ensures
            bytes@ == self@,
    {
        self.cursor.collect()
    }
}

} // verus!
