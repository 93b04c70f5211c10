//! The input side of the codec: the bytes that have arrived so far and a
//! cursor into them.

use vstd::prelude::*;
use crate::buf::be16;
use crate::error::{Error, ErrorView, IoErrorKind};

verus! {

/// The value of two bytes in network byte order.
pub open spec fn from_be16(hi: u8, lo: u8) -> u16 {
    (hi * 256 + lo) as u16
}

/// What it means that a decoder, run on `before`, returned `r` and left
/// `after`, where `parsed` is what the unread bytes of `before` hold: the
/// value with the number of its bytes, or the error. On success the
/// decoder has consumed just those bytes; on failure it has consumed none.
pub open spec fn reads_as<T: View>(
    parsed: Result<(T::V, nat), ErrorView>,
    r: Result<T, Error>,
    before: ByteReader,
    after: ByteReader,
) -> bool {
    &&& after.buffer() == before.buffer()
    &&& match parsed {
        Ok((v, n)) => r matches Ok(x) && x@ == v && after.consumed() == before.consumed() + n,
        Err(e) => r matches Err(x) && x@ == e && after.consumed() == before.consumed(),
    }
}

/// What the inner part of a decoder promises, which reads field after
/// field and stops at the first that fails: as `reads_as`, but that a
/// failure leaves the cursor wherever it came to.
pub open spec fn reads_on<T: View>(
    parsed: Result<(T::V, nat), ErrorView>,
    r: Result<T, Error>,
    before: ByteReader,
    after: ByteReader,
) -> bool {
    &&& after.buffer() == before.buffer()
    &&& after.consumed() >= before.consumed()
    &&& match parsed {
        Ok((v, n)) => r matches Ok(x) && x@ == v && after.consumed() == before.consumed() + n,
        Err(e) => r matches Err(x) && x@ == e,
    }
}

/// Bytes received from a peer, read front to back.
///
/// A reader never waits: when a read asks for more bytes than have
/// arrived, it fails with `UnexpectedEof` and says how many were missing.
/// The caller may `feed` the reader and read again.
pub struct ByteReader {
    data: Vec<u8>,
    pos: usize,
}

impl ByteReader {
    /// Every byte that was ever given to this reader.
    pub closed spec fn buffer(&self) -> Seq<u8> {
        self.data@
    }

    /// How many bytes of the buffer have been read.
    pub closed spec fn consumed(&self) -> nat {
        if self.pos <= self.data@.len() {
            self.pos as nat
        } else {
            self.data@.len()
        }
    }

    /// The cursor never passes the end of the buffer.
    pub proof fn lemma_consumed_in_bounds(&self)
        ensures
            self.consumed() <= self.buffer().len(),
    {
    }

    /// The bytes that have arrived and have not been read.
    pub open spec fn unread(&self) -> Seq<u8> {
        self.buffer().skip(self.consumed() as int)
    }

    /// A reader over `data`, with nothing read.
    pub fn new(data: Vec<u8>) -> (reader: ByteReader)
        ensures
            reader.buffer() == data@,
            reader.consumed() == 0,
    {
        ByteReader { data, pos: 0 }
    }

    /// Appends bytes that have arrived since.
    pub fn feed(&mut self, bytes: &[u8])
        ensures
            final(self).buffer() == old(self).buffer() + bytes@,
            final(self).consumed() == old(self).consumed(),
    {
        let ghost before = self.data@;
        self.pos = self.position();
        self.data.extend_from_slice(bytes);
        assert(self.data@ =~= before + bytes@);
    }

    /// The number of bytes read so far.
    pub fn position(&self) -> (p: usize)
        ensures
            p == self.consumed(),
            p <= self.buffer().len(),
    {
        if self.pos <= self.data.len() {
            self.pos
        } else {
            self.data.len()
        }
    }

    /// The number of bytes that can be read without failing.
    pub fn remaining(&self) -> (n: usize)
        ensures
            n == self.unread().len(),
            self.consumed() + n == self.buffer().len(),
    {
        if self.pos <= self.data.len() {
            self.data.len() - self.pos
        } else {
            0
        }
    }

    /// Moves the cursor back to an earlier position. A position that lies
    /// ahead of the cursor leaves it where it is.
    pub fn rewind(&mut self, position: usize)
        ensures
            final(self).buffer() == old(self).buffer(),
            final(self).consumed() == if position <= old(self).consumed() {
                position as nat
            } else {
                old(self).consumed()
            },
    {
        if position <= self.position() {
            self.pos = position;
        }
    }

    /// Reads one byte.
    pub fn read_u8(&mut self) -> (r: Result<u8, Error>)
        ensures
            final(self).buffer() == old(self).buffer(),
            old(self).unread().len() >= 1 ==> r == Ok::<u8, Error>(old(self).unread()[0])
                && final(self).consumed() == old(self).consumed() + 1,
            old(self).unread().len() < 1 ==> r == Err::<u8, Error>(
                Error::IoError(IoErrorKind::UnexpectedEof(1)),
            ) && final(self).consumed() == old(self).consumed(),
    {
        let at = self.position();
        if at < self.data.len() {
            let b = self.data[at];
            self.pos = at + 1;
            Ok(b)
        } else {
            Err(Error::IoError(IoErrorKind::UnexpectedEof(1)))
        }
    }

    /// Reads a 16-bit number in network byte order.
    pub fn read_u16(&mut self) -> (r: Result<u16, Error>)
        ensures
            final(self).buffer() == old(self).buffer(),
            old(self).unread().len() >= 2 ==> r == Ok::<u16, Error>(
                from_be16(old(self).unread()[0], old(self).unread()[1]),
            ) && final(self).consumed() == old(self).consumed() + 2,
            old(self).unread().len() < 2 ==> r == Err::<u16, Error>(
                Error::IoError(
                    IoErrorKind::UnexpectedEof((2 - old(self).unread().len()) as usize),
                ),
            ) && final(self).consumed() == old(self).consumed(),
    {
        let available = self.remaining();
        if available >= 2 {
            let at = self.position();
            assert(at + 2 <= self.data.len());
            let hi = self.data[at];
            let lo = self.data[at + 1];
            self.pos = at + 2;
            Ok((hi as u16) * 256 + (lo as u16))
        } else {
            Err(Error::IoError(IoErrorKind::UnexpectedEof(2 - available)))
        }
    }

    /// Reads exactly `n` bytes.
    pub fn read_exact(&mut self, n: usize) -> (r: Result<Vec<u8>, Error>)
        ensures
            final(self).buffer() == old(self).buffer(),
            old(self).unread().len() >= n ==> r is Ok && r->Ok_0@ == old(self).unread().take(
                n as int,
            ) && final(self).consumed() == old(self).consumed() + n,
            old(self).unread().len() < n ==> r == Err::<Vec<u8>, Error>(
                Error::IoError(
                    IoErrorKind::UnexpectedEof((n - old(self).unread().len()) as usize),
                ),
            ) && final(self).consumed() == old(self).consumed(),
    {
        let available = self.remaining();
        if available >= n {
            let at = self.position();
            assert(at + n <= self.data.len());
            let end = at + n;
            let bytes = vstd::slice::slice_to_vec(
                vstd::slice::slice_subrange(self.data.as_slice(), at, end),
            );
            assert(bytes@ =~= old(self).unread().take(n as int));
            self.pos = end;
            Ok(bytes)
        } else {
            Err(Error::IoError(IoErrorKind::UnexpectedEof(n - available)))
        }
    }
}

/// Two bytes in network byte order hold the number they were made from.
pub proof fn be16_round_trip(n: u16)
    ensures
        be16(n).len() == 2,
        from_be16(be16(n)[0], be16(n)[1]) == n,
{
}

} // verus!
