use vstd::prelude::*;
use vstd::slice::slice_subrange;

use crate::error::Error;

verus! {

/// The big-endian value of two bytes.
pub open spec fn be_u16(hi: u8, lo: u8) -> u16 {
    (hi as int * 256 + lo as int) as u16
}

/// The big-endian value of three bytes.
pub open spec fn be_u24(b0: u8, b1: u8, b2: u8) -> u32 {
    (b0 as int * 65536 + b1 as int * 256 + b2 as int) as u32
}

/// The big-endian value of four bytes.
pub open spec fn be_u32(b0: u8, b1: u8, b2: u8, b3: u8) -> u32 {
    (b0 as int * 16777216 + b1 as int * 65536 + b2 as int * 256 + b3 as int) as u32
}

/// A value that is decoded from a fixed number of bytes and always succeeds.
pub trait FromData: Sized {
    /// The number of bytes that one encoded value occupies.
    spec fn spec_raw_size() -> nat;

    /// The value that the given bytes (exactly `spec_raw_size()` of them) encode.
    spec fn spec_decode(bytes: Seq<u8>) -> Self;

    /// Parses a value from the bytes at the stream's cursor and moves the
    /// cursor past them.
    fn parse(s: &mut SafeStream) -> (r: Self)
        requires
            old(s).pos() + Self::spec_raw_size() <= old(s).bytes().len(),
        ensures
            final(s).bytes() == old(s).bytes(),
            final(s).pos() == old(s).pos() + Self::spec_raw_size(),
            r == Self::spec_decode(
                old(s).bytes().subrange(
                    old(s).pos(),
                    old(s).pos() + Self::spec_raw_size(),
                ),
            ),
    ;

    /// Returns the size of an encoded value in bytes, which may differ from
    /// the size of `Self` in memory.
    fn raw_size() -> (r: usize)
        ensures
            r == Self::spec_raw_size(),
            r > 0,
    ;
}

/// A value that is decoded from a fixed number of bytes and may be rejected.
pub trait TryFromData: Sized {
    /// The number of bytes that one encoded value occupies.
    spec fn spec_raw_size() -> nat;

    /// What decoding the given bytes (exactly `spec_raw_size()` of them) gives.
    spec fn spec_try_decode(bytes: Seq<u8>) -> Result<Self, Error>;

    /// Parses a value from the bytes at the stream's cursor.
    fn try_parse(s: &mut SafeStream) -> (r: Result<Self, Error>)
        requires
            old(s).pos() + Self::spec_raw_size() <= old(s).bytes().len(),
        ensures
            r == Self::spec_try_decode(
                old(s).bytes().subrange(
                    old(s).pos(),
                    old(s).pos() + Self::spec_raw_size(),
                ),
            ),
    ;

    /// Returns the size of an encoded value in bytes.
    fn raw_size() -> (r: usize)
        ensures
            r == Self::spec_raw_size(),
    ;
}

/// An integer type that serves as a count or an index.
pub trait FSize {
    /// The integer's value.
    spec fn spec_value(&self) -> nat;

    /// Returns the value as a `usize`.
    fn to_usize(&self) -> (r: usize)
        ensures
            r == self.spec_value(),
    ;
}

impl FSize for u16 {
    open spec fn spec_value(&self) -> nat {
        *self as nat
    }

    fn to_usize(&self) -> (r: usize) {
        *self as usize
    }
}

impl FSize for u32 {
    open spec fn spec_value(&self) -> nat {
        *self as nat
    }

    fn to_usize(&self) -> (r: usize) {
        *self as usize
    }
}

impl FSize for usize {
    open spec fn spec_value(&self) -> nat {
        *self as nat
    }

    fn to_usize(&self) -> (r: usize) {
        *self
    }
}

/// A cursor over a byte window that the caller has already checked: reads
/// are not bound-checked at run time, their `requires` demands the bytes.
#[derive(Clone, Copy)]
pub struct SafeStream<'a> {
    data: &'a [u8],
    offset: usize,
}

impl<'a> SafeStream<'a> {
    /// The bytes the stream reads from.
    pub closed spec fn bytes(&self) -> Seq<u8> {
        self.data@
    }

    /// The cursor: the index of the next byte to read.
    pub closed spec fn pos(&self) -> int {
        self.offset as int
    }

    /// Creates a stream over `data` with the cursor at 0.
    pub fn new(data: &'a [u8]) -> (r: Self)
        ensures
            r.bytes() == data@,
            r.pos() == 0,
    {
        SafeStream { data, offset: 0 }
    }

    /// Moves the cursor past one encoded `T` without decoding it.
    pub fn skip<T: FromData>(&mut self)
        requires
            old(self).pos() + T::spec_raw_size() <= usize::MAX,
        ensures
            final(self).bytes() == old(self).bytes(),
            final(self).pos() == old(self).pos() + T::spec_raw_size(),
    {
        self.offset = self.offset + T::raw_size();
    }

    /// Decodes a `T` from the next `T::raw_size()` bytes and moves the cursor
    /// past them.
    pub fn read<T: FromData>(&mut self) -> (r: T)
        requires
            old(self).pos() + T::spec_raw_size() <= old(self).bytes().len(),
        ensures
            final(self).bytes() == old(self).bytes(),
            final(self).pos() == old(self).pos() + T::spec_raw_size(),
            r == T::spec_decode(
                old(self).bytes().subrange(
                    old(self).pos(),
                    old(self).pos() + T::spec_raw_size(),
                ),
            ),
    {
        let start = self.offset;
        let ghost len = self.data.len();
        let end = start + T::raw_size();
        let window = slice_subrange(self.data, start, end);
        let mut s = SafeStream::new(window);
        assert(window@.subrange(0, T::spec_raw_size() as int) =~= window@);
        self.offset = end;
        T::parse(&mut s)
    }

    /// Decodes a 24-bit big-endian unsigned integer from the next three bytes
    /// and moves the cursor past them.
    pub fn read_u24(&mut self) -> (r: u32)
        requires
            old(self).pos() + 3 <= old(self).bytes().len(),
        ensures
            final(self).bytes() == old(self).bytes(),
            final(self).pos() == old(self).pos() + 3,
            r == be_u24(
                old(self).bytes()[old(self).pos()],
                old(self).bytes()[old(self).pos() + 1],
                old(self).bytes()[old(self).pos() + 2],
            ),
    {
        let i = self.offset;
        let d = self.data;
        let n = (d[i] as u32) * 65536 + (d[i + 1] as u32) * 256 + d[i + 2] as u32;
        self.offset = i + 3;
        n
    }

    /// Takes the next byte; the one primitive the decoders below build on.
    fn next_byte(&mut self) -> (r: u8)
        requires
            old(self).pos() < old(self).bytes().len(),
        ensures
            final(self).bytes() == old(self).bytes(),
            final(self).pos() == old(self).pos() + 1,
            r == old(self).bytes()[old(self).pos()],
    {
        let b = self.data[self.offset];
        self.offset = self.offset + 1;
        b
    }
}

impl FromData for u8 {
    open spec fn spec_raw_size() -> nat {
        1
    }

    open spec fn spec_decode(bytes: Seq<u8>) -> u8 {
        bytes[0]
    }

    fn parse(s: &mut SafeStream) -> (r: u8) {
        s.next_byte()
    }

    fn raw_size() -> (r: usize) {
        1
    }
}

impl FromData for i8 {
    open spec fn spec_raw_size() -> nat {
        1
    }

    open spec fn spec_decode(bytes: Seq<u8>) -> i8 {
        bytes[0] as i8
    }

    fn parse(s: &mut SafeStream) -> (r: i8) {
        s.next_byte() as i8
    }

    fn raw_size() -> (r: usize) {
        1
    }
}

impl FromData for u16 {
    open spec fn spec_raw_size() -> nat {
        2
    }

    open spec fn spec_decode(bytes: Seq<u8>) -> u16 {
        be_u16(bytes[0], bytes[1])
    }

    fn parse(s: &mut SafeStream) -> (r: u16) {
        let hi = s.next_byte();
        let lo = s.next_byte();
        (hi as u16) * 256 + lo as u16
    }

    fn raw_size() -> (r: usize) {
        2
    }
}

impl FromData for i16 {
    open spec fn spec_raw_size() -> nat {
        2
    }

    open spec fn spec_decode(bytes: Seq<u8>) -> i16 {
        be_u16(bytes[0], bytes[1]) as i16
    }

    fn parse(s: &mut SafeStream) -> (r: i16) {
        let hi = s.next_byte();
        let lo = s.next_byte();
        ((hi as u16) * 256 + lo as u16) as i16
    }

    fn raw_size() -> (r: usize) {
        2
    }
}

impl FromData for u32 {
    open spec fn spec_raw_size() -> nat {
        4
    }

    open spec fn spec_decode(bytes: Seq<u8>) -> u32 {
        be_u32(bytes[0], bytes[1], bytes[2], bytes[3])
    }

    fn parse(s: &mut SafeStream) -> (r: u32) {
        let b0 = s.next_byte();
        let b1 = s.next_byte();
        let b2 = s.next_byte();
        let b3 = s.next_byte();
        (b0 as u32) * 16777216 + (b1 as u32) * 65536 + (b2 as u32) * 256 + b3 as u32
    }

    fn raw_size() -> (r: usize) {
        4
    }
}

} // verus!
