use vstd::prelude::*;
use vstd::slice::slice_subrange;

use crate::decode::{FSize, FromData, SafeStream, TryFromData};
use crate::error::Error;
use crate::lazy_array::LazyArray;

verus! {

/// The error of a read that needs the bytes up to `end` from a buffer of
/// `len` bytes.
pub open spec fn out_of_bounds(end: int, len: int) -> Error {
    Error::ReadOutOfBounds(end as usize, len as usize)
}

/// A cursor over a byte buffer whose reads are bound-checked: a read that
/// would pass the end fails with `Error::ReadOutOfBounds` and leaves the
/// cursor where it was.
#[derive(Clone, Copy)]
pub struct Stream<'a> {
    data: &'a [u8],
    offset: usize,
}

impl<'a> Stream<'a> {
    /// The bytes the stream reads from.
    pub closed spec fn bytes(&self) -> Seq<u8> {
        self.data@
    }

    /// The cursor. Skipping may carry it past the end; reads from there fail.
    pub closed spec fn pos(&self) -> int {
        self.offset as int
    }

    /// Creates a stream over `data` with the cursor at 0.
    pub fn new(data: &'a [u8]) -> (r: Self)
        ensures
            r.bytes() == data@,
            r.pos() == 0,
    {
        Stream { data, offset: 0 }
    }

    /// The bytes from `start` up to `end`, if the buffer reaches `end`.
    fn get_data(&self, start: usize, end: usize) -> (r: Result<&'a [u8], Error>)
        requires
            start <= end,
        ensures
            end <= self.bytes().len() ==> (r matches Ok(d) && d@ == self.bytes().subrange(
                start as int,
                end as int,
            )),
            end > self.bytes().len() ==> r == Err::<&'a [u8], Error>(
                out_of_bounds(end as int, self.bytes().len() as int),
            ),
    {
        let len = self.data.len();
        if end <= len {
            Ok(slice_subrange(self.data, start, end))
        } else {
            Err(Error::ReadOutOfBounds(end, len))
        }
    }

    /// Whether the cursor stands at the end of the buffer.
    pub fn at_end(&self) -> (r: bool)
        ensures
            r == (self.pos() == self.bytes().len()),
    {
        self.offset == self.data.len()
    }

    /// Moves the cursor to the end of the buffer, leaving the rest unread.
    pub fn jump_to_end(&mut self)
        ensures
            final(self).bytes() == old(self).bytes(),
            final(self).pos() == old(self).bytes().len(),
    {
        self.offset = self.data.len();
    }

    /// The cursor's position.
    pub fn offset(&self) -> (r: usize)
        ensures
            r == self.pos(),
    {
        self.offset
    }

    /// The bytes that are left unread. Fails only when skipping has carried
    /// the cursor past the end.
    pub fn tail(&self) -> (r: Result<&'a [u8], Error>)
        ensures
            self.pos() <= self.bytes().len() ==> (r matches Ok(d) && d@ == self.bytes().subrange(
                self.pos(),
                self.bytes().len() as int,
            )),
            self.pos() > self.bytes().len() ==> r == Err::<&'a [u8], Error>(
                out_of_bounds(self.bytes().len() as int, self.bytes().len() as int),
            ),
    {
        let len = self.data.len();
        if self.offset <= len {
            self.get_data(self.offset, len)
        } else {
            Err(Error::ReadOutOfBounds(len, len))
        }
    }

    /// Moves the cursor past one encoded `T`; the bytes are checked only by
    /// a later read.
    pub fn skip<T: FromData>(&mut self)
        requires
            old(self).pos() + T::spec_raw_size() <= usize::MAX,
        ensures
            final(self).bytes() == old(self).bytes(),
            final(self).pos() == old(self).pos() + T::spec_raw_size(),
    {
        self.offset = self.offset + T::raw_size();
    }

    /// Moves the cursor forward by `len` bytes; the bytes are checked only by
    /// a later read.
    pub fn skip_len<L: FSize>(&mut self, len: L)
        requires
            old(self).pos() + len.spec_value() <= usize::MAX,
        ensures
            final(self).bytes() == old(self).bytes(),
            final(self).pos() == old(self).pos() + len.spec_value(),
    {
        self.offset = self.offset + len.to_usize();
    }

    /// Decodes a `T` from the next `T::raw_size()` bytes and moves the cursor
    /// past them; fails, with the cursor unchanged, if the buffer ends first.
    pub fn read<T: FromData>(&mut self) -> (r: Result<T, Error>)
        requires
            old(self).pos() + T::spec_raw_size() <= usize::MAX,
        ensures
            final(self).bytes() == old(self).bytes(),
            ({
                let start = old(self).pos();
                let end = start + T::spec_raw_size();
                let len = old(self).bytes().len() as int;
                if end <= len {
                    &&& r == Ok::<T, Error>(T::spec_decode(old(self).bytes().subrange(start, end)))
                    &&& final(self).pos() == end
                } else {
                    &&& r == Err::<T, Error>(out_of_bounds(end, len))
                    &&& final(self).pos() == start
                }
            }),
    {
        let start = self.offset;
        let end = start + T::raw_size();
        let data = self.get_data(start, end)?;
        let mut s = SafeStream::new(data);
        assert(data@.subrange(0, T::spec_raw_size() as int) =~= data@);
        self.offset = end;
        Ok(T::parse(&mut s))
    }

    /// Decodes a `T` that may be rejected from the next `T::raw_size()`
    /// bytes. The cursor moves past them only when a value comes back; a
    /// short buffer gives `Error::ReadOutOfBounds`, a rejected value the
    /// decoder's own error.
    pub fn try_read<T: TryFromData>(&mut self) -> (r: Result<T, Error>)
        requires
            old(self).pos() + T::spec_raw_size() <= usize::MAX,
        ensures
            final(self).bytes() == old(self).bytes(),
            ({
                let start = old(self).pos();
                let end = start + T::spec_raw_size();
                let len = old(self).bytes().len() as int;
                if end <= len {
                    &&& r == T::spec_try_decode(old(self).bytes().subrange(start, end))
                    &&& final(self).pos() == if r is Ok {
                        end
                    } else {
                        start
                    }
                } else {
                    &&& r == Err::<T, Error>(out_of_bounds(end, len))
                    &&& final(self).pos() == start
                }
            }),
    {
        let start = self.offset;
        let end = start + T::raw_size();
        let data = self.get_data(start, end)?;
        let mut s = SafeStream::new(data);
        assert(data@.subrange(0, T::spec_raw_size() as int) =~= data@);
        let r = T::try_parse(&mut s);
        if r.is_ok() {
            self.offset = end;
        }
        r
    }

    /// Decodes a `T` from `data` at `offset`, bound-checked, without a
    /// stream.
    pub fn read_at<T: FromData>(data: &[u8], offset: usize) -> (r: Result<T, Error>)
        requires
            offset + T::spec_raw_size() <= usize::MAX,
        ensures
            ({
                let end = offset + T::spec_raw_size();
                let len = data@.len() as int;
                r == if end <= len {
                    Ok::<T, Error>(T::spec_decode(data@.subrange(offset as int, end)))
                } else {
                    Err::<T, Error>(out_of_bounds(end, len))
                }
            }),
    {
        let mut s = Stream::new(data);
        s.skip_len(offset);
        s.read::<T>()
    }

    /// The next `len` bytes, with the cursor moved past them; fails, with the
    /// cursor unchanged, if the buffer ends first.
    pub fn read_bytes<L: FSize>(&mut self, len: L) -> (r: Result<&'a [u8], Error>)
        requires
            old(self).pos() + len.spec_value() <= usize::MAX,
        ensures
            final(self).bytes() == old(self).bytes(),
            ({
                let start = old(self).pos();
                let end = start + len.spec_value();
                let n = old(self).bytes().len() as int;
                if end <= n {
                    &&& r matches Ok(d) && d@ == old(self).bytes().subrange(start, end)
                    &&& final(self).pos() == end
                } else {
                    &&& r == Err::<&'a [u8], Error>(out_of_bounds(end, n))
                    &&& final(self).pos() == start
                }
            }),
    {
        let start = self.offset;
        let end = start + len.to_usize();
        let data = self.get_data(start, end)?;
        self.offset = end;
        Ok(data)
    }

    /// A lazy array of the next `count` encoded `T` values, with the cursor
    /// moved past them; fails, with the cursor unchanged, if the buffer ends
    /// first.
    pub fn read_array<T: FromData, L: FSize>(&mut self, count: L) -> (r: Result<
        LazyArray<'a, T>,
        Error,
    >)
        requires
            old(self).pos() + count.spec_value() * T::spec_raw_size() <= usize::MAX,
        ensures
            final(self).bytes() == old(self).bytes(),
            ({
                let start = old(self).pos();
                let end = start + count.spec_value() * T::spec_raw_size();
                let n = old(self).bytes().len() as int;
                if end <= n {
                    &&& r matches Ok(a) && a.bytes() == old(self).bytes().subrange(start, end)
                        && a@.len() == count.spec_value()
                    &&& final(self).pos() == end
                } else {
                    &&& r == Err::<LazyArray<'a, T>, Error>(out_of_bounds(end, n))
                    &&& final(self).pos() == start
                }
            }),
    {
        let size = T::raw_size();
        let n = count.to_usize();
        assert(n * size <= usize::MAX) by (nonlinear_arith)
            requires
                self.offset + n * size <= usize::MAX,
        {
        }
        let data = self.read_bytes(n * size)?;
        assert((n * size) as int / (size as int) == n as int) by (nonlinear_arith)
            requires
                size > 0,
        {
        }
        Ok(LazyArray::new(data))
    }
}

} // verus!
