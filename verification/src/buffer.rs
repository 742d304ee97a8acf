//! A byte sink/source that either owns its growable storage or holds storage
//! handed over by the caller, tagged with a terminal flag. Whichever way it
//! was constructed, it presents one logical byte sequence: writes append to
//! it, reads consume it from the front through a cursor.

use crate::error::Error;
use vstd::prelude::*;

verus! {

/// The ownership state of a buffer's storage: allocated by the buffer
/// itself, or supplied by the caller (and recoverable through
/// [`Buffer::into_vec`]).
enum Storage {
    Owned(Vec<u8>),
    Supplied(Vec<u8>),
}

/// An in-memory stand-in for a console stream. Writes grow the logical byte
/// sequence and never fail; reads return bytes from the front, in order,
/// each byte exactly once.
pub struct Buffer {
    storage: Storage,
    tty: bool,
    pos: usize,
}

impl View for Buffer {
    type V = Seq<u8>;

    /// The logical byte sequence, independent of the ownership state.
    closed spec fn view(&self) -> Seq<u8> {
        match self.storage {
            Storage::Owned(v) => v@,
            Storage::Supplied(v) => v@,
        }
    }
}

impl Buffer {
    /// Whether the storage was allocated by the buffer itself.
    pub closed spec fn spec_is_owned(&self) -> bool {
        self.storage is Owned
    }

    /// The terminal flag, fixed at construction.
    pub closed spec fn spec_tty(&self) -> bool {
        self.tty
    }

    /// How many bytes reads have consumed so far.
    pub closed spec fn read_pos(&self) -> nat {
        self.pos as nat
    }

    /// The read cursor never passes the end of the contents.
    pub open spec fn wf(&self) -> bool {
        self.read_pos() <= self@.len()
    }

    /// Builds a buffer over the supplied storage, keeping its current
    /// contents, or over fresh empty storage when none is supplied.
    pub fn from(buffer: Option<Vec<u8>>, tty: bool) -> (r: Self)
        ensures
            r@ == (match buffer {
                Some(v) => v@,
                None => Seq::<u8>::empty(),
            }),
            r.spec_is_owned() == (buffer is None),
            r.spec_tty() == tty,
            r.read_pos() == 0,
            r.wf(),
    {
        let storage = match buffer {
            Some(v) => Storage::Supplied(v),
            None => Storage::Owned(Vec::new()),
        };
        Self { storage, tty, pos: 0 }
    }

    /// The terminal flag.
    pub fn tty(&self) -> (r: bool)
        ensures
            r == self.spec_tty(),
    {
        self.tty
    }

    /// Whether the buffer owns its storage (rather than holding storage the
    /// caller supplied).
    pub fn is_owned(&self) -> (r: bool)
        ensures
            r == self.spec_is_owned(),
    {
        match &self.storage {
            Storage::Owned(_) => true,
            Storage::Supplied(_) => false,
        }
    }

    /// Appends `buf` to the logical contents. Buffer writes only grow
    /// in-memory storage, so they never fail; the whole of `buf` is written.
    pub fn write(&mut self, buf: &[u8]) -> (r: Result<usize, Error>)
        ensures
            final(self)@ == old(self)@ + buf@,
            final(self).spec_is_owned() == old(self).spec_is_owned(),
            final(self).spec_tty() == old(self).spec_tty(),
            final(self).read_pos() == old(self).read_pos(),
            r matches Ok(n) && n == buf@.len(),
            old(self).wf() ==> final(self).wf(),
    {
        match &mut self.storage {
            Storage::Owned(v) => v.extend_from_slice(buf),
            Storage::Supplied(v) => v.extend_from_slice(buf),
        }
        Ok(buf.len())
    }

    /// Appends every buffer of `bufs`, first to last, to the logical
    /// contents, and returns the total number of bytes written.
    pub fn write_vectored(&mut self, bufs: &Vec<Vec<u8>>) -> (r: Result<usize, Error>)
        ensures
            final(self)@ == old(self)@ + concat_bytes(bufs.deep_view()),
            final(self).spec_is_owned() == old(self).spec_is_owned(),
            final(self).spec_tty() == old(self).spec_tty(),
            final(self).read_pos() == old(self).read_pos(),
            r matches Ok(n) && n == concat_bytes(bufs.deep_view()).len(),
            old(self).wf() ==> final(self).wf(),
    {
        let start = self.len();
        let mut i: usize = 0;
        while i < bufs.len()
            invariant
                i <= bufs@.len(),
                self@ == old(self)@ + concat_bytes(bufs.deep_view().take(i as int)),
                self.spec_is_owned() == old(self).spec_is_owned(),
                self.spec_tty() == old(self).spec_tty(),
                self.read_pos() == old(self).read_pos(),
                start == old(self)@.len(),
            decreases bufs@.len() - i,
        {
            proof {
                assert(bufs.deep_view().take(i + 1).drop_last() =~= bufs.deep_view().take(i as int));
                assert(bufs.deep_view().take(i + 1).last() == bufs@[i as int]@);
            }
            let _ = self.write(bufs[i].as_slice());
            i = i + 1;
        }
        proof {
            assert(bufs.deep_view().take(bufs@.len() as int) =~= bufs.deep_view());
        }
        let end = self.len();
        Ok(end - start)
    }

    /// Writes have nothing buffered beyond the logical contents, so flushing
    /// is a no-op that always succeeds.
    pub fn flush(&mut self) -> (r: Result<(), Error>)
        ensures
            *final(self) == *old(self),
            r is Ok,
    {
        Ok(())
    }

    /// Reads up to `count` bytes from the front of the unconsumed contents,
    /// advancing the read cursor past them. Returns fewer than `count` bytes
    /// only when fewer are left.
    pub fn read(&mut self, count: usize) -> (r: Result<Vec<u8>, Error>)
        requires
            old(self).wf(),
        ensures
            final(self).wf(),
            final(self)@ == old(self)@,
            final(self).spec_is_owned() == old(self).spec_is_owned(),
            final(self).spec_tty() == old(self).spec_tty(),
            r matches Ok(v) && {
                let k = vstd::math::min(count as int, old(self)@.len() - old(self).read_pos());
                &&& v@ == old(self)@.subrange(
                    old(self).read_pos() as int,
                    old(self).read_pos() + k,
                )
                &&& final(self).read_pos() == old(self).read_pos() + k
            },
    {
        let remaining = self.len() - self.pos;
        let k = if count < remaining {
            count
        } else {
            remaining
        };
        let mut out: Vec<u8> = Vec::new();
        let mut i: usize = 0;
        while i < k
            invariant
                i <= k,
                self == old(self),
                self.pos + k <= self@.len() <= usize::MAX,
                out@ == self@.subrange(self.pos as int, self.pos + i),
            decreases k - i,
        {
            let byte = match &self.storage {
                Storage::Owned(v) => v[self.pos + i],
                Storage::Supplied(v) => v[self.pos + i],
            };
            out.push(byte);
            proof {
                assert(out@ =~= self@.subrange(self.pos as int, self.pos + i + 1));
            }
            i = i + 1;
        }
        self.pos = self.pos + k;
        Ok(out)
    }

    /// The current logical contents as a byte slice.
    pub fn as_slice(&self) -> (r: &[u8])
        ensures
            r@ == self@,
    {
        match &self.storage {
            Storage::Owned(v) => v.as_slice(),
            Storage::Supplied(v) => v.as_slice(),
        }
    }

    /// The length of the logical contents.
    pub fn len(&self) -> (r: usize)
        ensures
            r == self@.len(),
    {
        match &self.storage {
            Storage::Owned(v) => v.len(),
            Storage::Supplied(v) => v.len(),
        }
    }

    /// Whether the logical contents are empty.
    pub fn is_empty(&self) -> (r: bool)
        ensures
            r == (self@.len() == 0),
    {
        self.len() == 0
    }

    /// Consumes the buffer and hands back its storage, so a caller that
    /// supplied the storage can see every byte written through the buffer.
    pub fn into_vec(self) -> (r: Vec<u8>)
        ensures
            r@ == self@,
    {
        match self.storage {
            Storage::Owned(v) => v,
            Storage::Supplied(v) => v,
        }
    }
}

impl Default for Buffer {
    /// A default buffer is exactly `Buffer::from(None, false)`: empty owned
    /// storage and no terminal flag.
    fn default() -> (r: Self)
        ensures
            r@ == Seq::<u8>::empty(),
            r.spec_is_owned(),
            !r.spec_tty(),
            r.read_pos() == 0,
            r.wf(),
    {
        Buffer::from(None, false)
    }
}

/// The concatenation of a sequence of byte sequences, first to last.
pub open spec fn concat_bytes(bufs: Seq<Seq<u8>>) -> Seq<u8>
    decreases bufs.len(),
{
    if bufs.len() == 0 {
        Seq::empty()
    } else {
        concat_bytes(bufs.drop_last()) + bufs.last()
    }
}

} // verus!
