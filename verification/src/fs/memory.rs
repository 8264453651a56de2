//! A file kept in memory: the backend for a stage at which no disk driver
//! is up yet, and the plainest one that keeps the contract of `FileOps`.
//!
//! Its policy, where the contract leaves one open:
//! - the cursor never leaves the file: a seek to a position past the end
//!   fails with `SeekError`, as does one to before the start;
//! - a read at the end of the file reads nothing and succeeds, so this
//!   backend never reports `ReadError`;
//! - the file grows up to a limit fixed when it is made: a write stores as
//!   much as fits, and fails with `WriteError` where bytes were given and
//!   none fits;
//! - a failed operation changes nothing.

use crate::fs::file::FileOps;
use crate::fs::file::FileState;
use crate::fs::file::FsError;
use crate::fs::file::SeekFrom;
use vstd::prelude::*;

verus! {

/// A file whose bytes live in a region of memory of fixed size.
pub struct MemoryFile {
    /// The region. The file is its front.
    region: Vec<u8>,
    /// Size of the file.
    len: usize,
    /// The cursor.
    pos: usize,
}

impl MemoryFile {
    /// The cursor stays within the file, and the file within its region.
    #[verifier::type_invariant]
    spec fn wf(self) -> bool {
        self.pos <= self.len <= self.region.len()
    }

    /// The size that the file may grow to.
    pub closed spec fn limit(&self) -> nat {
        self.region.len() as nat
    }

    /// An empty file that may grow to `limit` bytes. The region is taken
    /// here, once, and no allocation can be larger than `isize::MAX` bytes.
    pub fn new(limit: usize) -> (file: MemoryFile)
        requires
            limit <= isize::MAX,
        ensures
            file.limit() == limit,
            file.state() == (FileState { contents: Seq::empty(), cursor: 0 }),
    {
        let file = MemoryFile { region: vec![0u8; limit], len: 0, pos: 0 };
        // The front of length zero of the region is the empty file.
        assert(file.region@.take(0) =~= Seq::empty());
        file
    }
}

impl FileOps for MemoryFile {
    closed spec fn state(&self) -> FileState {
        FileState { contents: self.region@.take(self.len as int), cursor: self.pos as nat }
    }

    /// Reads as many bytes as the buffer takes and the file has left. The
    /// rest of the buffer stays as it was.
    fn read(&mut self, buf: &mut [u8]) -> (r: Result<usize, FsError>)
        ensures
            final(self).limit() == old(self).limit(),
            r == Ok::<usize, FsError>(
                vstd::math::min(
                    old(buf)@.len() as int,
                    old(self).state().contents.len() - old(self).state().cursor,
                ) as usize,
            ),
            forall|i: int|
                r.unwrap() <= i < old(buf)@.len() ==> #[trigger] final(buf)@[i] == old(buf)@[i],
    {
        proof {
            use_type_invariant(&*self);
        }
        let left = self.len - self.pos;
        let n = if buf.len() < left { buf.len() } else { left };
        let mut i: usize = 0;
        while i < n
            invariant
                i <= n,
                n <= buf@.len(),
                self.pos + n <= self.len <= self.region.len(),
                buf@.len() == old(buf)@.len(),
                forall|j: int| 0 <= j < i ==> #[trigger] buf@[j] == self.region@[self.pos + j],
                forall|j: int| i <= j < buf@.len() ==> #[trigger] buf@[j] == old(buf)@[j],
                *self == *old(self),
            decreases n - i,
        {
            buf[i] = self.region[self.pos + i];
            i += 1;
        }
        self.pos = self.pos + n;
        Ok(n)
    }

    /// Stores as many bytes as were given and fit under the limit.
    fn write(&mut self, buf: &mut [u8]) -> (r: Result<usize, FsError>)
        ensures
            final(self).limit() == old(self).limit(),
            ({
                let room = old(self).limit() - old(self).state().cursor;
                if old(buf)@.len() > 0 && room == 0 {
                    r == Err::<usize, FsError>(FsError::WriteError) && final(self).state() == old(
                        self,
                    ).state()
                } else {
                    r == Ok::<usize, FsError>(vstd::math::min(old(buf)@.len() as int, room) as usize)
                }
            }),
    {
        proof {
            use_type_invariant(&*self);
        }
        let room = self.region.len() - self.pos;
        if buf.len() > 0 && room == 0 {
            return Err(FsError::WriteError);
        }
        let n = if buf.len() < room { buf.len() } else { room };
        let mut i: usize = 0;
        while i < n
            invariant
                i <= n,
                n <= buf@.len(),
                buf@ == old(buf)@,
                self.pos == old(self).pos,
                self.len == old(self).len,
                self.pos <= self.len <= self.region.len(),
                self.region.len() == old(self).region.len(),
                self.pos + n <= self.region.len(),
                forall|j: int|
                    self.pos <= j < self.pos + i ==> #[trigger] self.region@[j] == buf@[j - self.pos],
                forall|j: int|
                    0 <= j < self.region.len() && !(self.pos <= j < self.pos + i)
                        ==> #[trigger] self.region@[j] == old(self).region@[j],
            decreases n - i,
        {
            self.region[self.pos + i] = buf[i];
            i += 1;
        }
        let end = self.pos + n;
        if end > self.len {
            self.len = end;
        }
        self.pos = end;
        proof {
            // Nothing was stored: the file has the bytes it had.
            if n == 0 {
                assert(self.state().contents =~= old(self).state().contents);
            }
        }
        Ok(n)
    }

    /// Moves the cursor to any position from the start of the file to its
    /// end, and to no other.
    fn seek(&mut self, pos: SeekFrom) -> (r: Result<u64, FsError>)
        ensures
            final(self).limit() == old(self).limit(),
            ({
                let wanted = pos.target(old(self).state().cursor, old(self).state().contents.len());
                if 0 <= wanted <= old(self).state().contents.len() {
                    r == Ok::<u64, FsError>(wanted as u64)
                } else {
                    r == Err::<u64, FsError>(FsError::SeekError) && final(self).state() == old(
                        self,
                    ).state()
                }
            }),
    {
        proof {
            use_type_invariant(&*self);
        }
        match pos.resolve(self.pos as u64, self.len as u64) {
            Ok(position) => {
                if position <= self.len as u64 {
                    self.pos = position as usize;
                    Ok(position)
                } else {
                    Err(FsError::SeekError)
                }
            },
            Err(e) => Err(e),
        }
    }

    fn size(&mut self) -> (n: usize)
        ensures
            final(self).limit() == old(self).limit(),
    {
        proof {
            use_type_invariant(&*self);
        }
        self.len
    }
}

} // verus!
