//! What a filesystem backend owes the code that drives it: the four
//! operations, their errors, and the handle that keeps a backend together
//! with the arguments it was opened with.

use vstd::prelude::*;

verus! {

/// The three ways in which an operation on a file fails. A backend reports
/// nothing finer through its results.
#[derive(Copy, Clone, Debug, PartialEq, Eq, Structural)]
pub enum FsError {
    ReadError,
    WriteError,
    SeekError,
}

/// Where a seek starts counting from.
#[derive(Copy, Clone, Debug, PartialEq, Eq, Structural)]
pub enum SeekFrom {
    /// An absolute position.
    Start(u64),
    /// An offset from the end of the file.
    End(i64),
    /// An offset from the cursor.
    Current(i64),
}

impl SeekFrom {
    /// The absolute position that a seek asks for, in a file of `size`
    /// bytes whose cursor stands at `cursor`. It may come out negative: no
    /// backend accepts such a position.
    pub open spec fn target(self, cursor: nat, size: nat) -> int {
        match self {
            SeekFrom::Start(offset) => offset as int,
            SeekFrom::End(offset) => size + offset,
            SeekFrom::Current(offset) => cursor + offset,
        }
    }

    /// Computes the position that a seek asks for. Fails where the position
    /// lies before the start of the file or beyond what `u64` holds; whether
    /// a position that comes out is within its bounds is for the backend to
    /// say.
    pub fn resolve(&self, cursor: u64, size: u64) -> (r: Result<u64, FsError>)
        ensures
            match r {
                Ok(position) => position == self.target(cursor as nat, size as nat),
                Err(e) => e == FsError::SeekError && !(0 <= self.target(cursor as nat, size as nat)
                    <= u64::MAX),
            },
    {
        let wanted: i128 = match self {
            SeekFrom::Start(offset) => *offset as i128,
            SeekFrom::End(offset) => size as i128 + *offset as i128,
            SeekFrom::Current(offset) => cursor as i128 + *offset as i128,
        };
        if 0 <= wanted && wanted <= u64::MAX as i128 {
            Ok(wanted as u64)
        } else {
            Err(FsError::SeekError)
        }
    }
}

/// What a file is to this layer: its bytes, and where the cursor stands.
pub struct FileState {
    pub contents: Seq<u8>,
    pub cursor: nat,
}

/// `post` is `pre` with `data` stored from index `at` on. The file grows
/// where the data reaches past its end; every other byte that `pre` had
/// stays. Storing nothing changes nothing.
pub open spec fn stored(pre: Seq<u8>, post: Seq<u8>, at: nat, data: Seq<u8>) -> bool {
    if data.len() == 0 {
        post == pre
    } else {
        &&& post.len() == vstd::math::max(pre.len() as int, (at + data.len()) as int)
        &&& forall|i: int| at <= i < at + data.len() ==> #[trigger] post[i] == data[i - at]
        &&& forall|i: int|
            0 <= i < pre.len() && !(at <= i < at + data.len()) ==> #[trigger] post[i] == pre[i]
    }
}

/// What a read may do. `pre` and `post` are the file before and after the
/// call, `before` and `after` the caller's buffer, `r` what came back.
///
/// A read that reports `n` bytes has put the `n` bytes under the cursor at
/// the front of the buffer and moved the cursor past them; the file's bytes
/// are as they were. A failed read reports `ReadError`.
pub open spec fn read_outcome(
    pre: FileState,
    post: FileState,
    before: Seq<u8>,
    after: Seq<u8>,
    r: Result<usize, FsError>,
) -> bool {
    &&& after.len() == before.len()
    &&& match r {
        Ok(n) => {
            &&& n <= before.len()
            &&& n > 0 ==> pre.cursor + n <= pre.contents.len()
            &&& forall|i: int| 0 <= i < n ==> #[trigger] after[i] == pre.contents[pre.cursor + i]
            &&& post.contents == pre.contents
            &&& post.cursor == pre.cursor + n
        },
        Err(e) => e == FsError::ReadError,
    }
}

/// What a write may do, with the parameters of [`read_outcome`].
///
/// A write that reports `n` bytes has stored the first `n` bytes of the
/// buffer at the cursor and moved the cursor past them. The buffer itself is
/// never changed. A failed write reports `WriteError`.
pub open spec fn write_outcome(
    pre: FileState,
    post: FileState,
    before: Seq<u8>,
    after: Seq<u8>,
    r: Result<usize, FsError>,
) -> bool {
    &&& after == before
    &&& match r {
        Ok(n) => {
            &&& n <= before.len()
            &&& stored(pre.contents, post.contents, pre.cursor, before.take(n as int))
            &&& post.cursor == pre.cursor + n
        },
        Err(e) => e == FsError::WriteError,
    }
}

/// What a seek may do. A seek that succeeds reports the position asked for
/// and leaves the cursor there, the file's bytes untouched. Since a position
/// is never negative, a seek to before the start of the file can only fail.
/// A failed seek reports `SeekError`.
pub open spec fn seek_outcome(
    pre: FileState,
    post: FileState,
    pos: SeekFrom,
    r: Result<u64, FsError>,
) -> bool {
    match r {
        Ok(position) => {
            &&& position == pos.target(pre.cursor, pre.contents.len())
            &&& post.cursor == position
            &&& post.contents == pre.contents
        },
        Err(e) => e == FsError::SeekError,
    }
}

/// The operations of a filesystem backend. Code above this layer drives a
/// file through them alone and never learns which backend it talks to.
///
/// The contract says what an operation has done when it reports success and
/// which error it reports otherwise. When an operation succeeds is the
/// backend's policy, and so is the state it leaves behind a failure.
pub trait FileOps {
    /// The file as this layer sees it.
    spec fn state(&self) -> FileState;

    /// Fills the front of `buf` with the bytes under the cursor and moves
    /// the cursor past them. Reports how many bytes were read.
    fn read(&mut self, buf: &mut [u8]) -> (r: Result<usize, FsError>)
        ensures
            read_outcome(old(self).state(), final(self).state(), old(buf)@, final(buf)@, r),
    ;

    /// Stores bytes from the front of `buf` at the cursor and moves the
    /// cursor past them. Reports how many bytes were written.
    fn write(&mut self, buf: &mut [u8]) -> (r: Result<usize, FsError>)
        ensures
            write_outcome(old(self).state(), final(self).state(), old(buf)@, final(buf)@, r),
    ;

    /// Moves the cursor. Reports its new absolute position.
    fn seek(&mut self, pos: SeekFrom) -> (r: Result<u64, FsError>)
        ensures
            seek_outcome(old(self).state(), final(self).state(), pos, r),
    ;

    /// The size of the file in bytes. Cannot fail and changes nothing.
    fn size(&mut self) -> (n: usize)
        ensures
            final(self).state() == old(self).state(),
            n == old(self).state().contents.len(),
    ;
}

/// A backend together with the arguments it was opened with.
pub struct File<T> {
    pub file: T,
    pub args: Vec<usize>,
}

impl<T: FileOps> File<T> {
    /// Takes the backend and its arguments as they are. Nothing is read or
    /// written: what the file does next goes through `file`.
    pub fn new(file: T, args: Vec<usize>) -> (handle: File<T>)
        ensures
            handle.file == file,
            handle.args == args,
    {
        File { file, args }
    }
}

/// Bytes that were written are read back: after a write of all of `data` at
/// `start`, a seek back to `start` and a read of as many bytes, the front of
/// the reader's buffer holds `data`. This holds of every backend, whatever
/// its policy, whenever the three operations succeed.
pub proof fn lemma_write_seek_read_round_trip(
    start: u64,
    data: Seq<u8>,
    s0: FileState,
    s1: FileState,
    s2: FileState,
    s3: FileState,
    data_after: Seq<u8>,
    buf: Seq<u8>,
    buf_after: Seq<u8>,
)
    requires
        s0.cursor == start,
        data.len() <= usize::MAX,
        write_outcome(s0, s1, data, data_after, Ok(data.len() as usize)),
        seek_outcome(s1, s2, SeekFrom::Start(start), Ok(start)),
        read_outcome(s2, s3, buf, buf_after, Ok(data.len() as usize)),
    ensures
        buf_after.take(data.len() as int) == data,
        s3.contents == s1.contents,
        s3.cursor == start + data.len(),
{
    assert(buf_after.take(data.len() as int) =~= data);
}

/// No seek arrives before the start of a file: where the position asked for
/// is negative, the seek fails with `SeekError`.
pub proof fn lemma_seek_before_start_fails(
    pre: FileState,
    post: FileState,
    pos: SeekFrom,
    r: Result<u64, FsError>,
)
    requires
        seek_outcome(pre, post, pos, r),
        pos.target(pre.cursor, pre.contents.len()) < 0,
    ensures
        r == Err::<u64, FsError>(FsError::SeekError),
{
}

} // verus!
