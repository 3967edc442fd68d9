//! A model of the file resource a guard wraps: its byte contents and the
//! cursor position. The guards forward read, write, flush and seek to these
//! operations byte for byte, with no buffering and no transformation.

use vstd::prelude::*;

verus! {

/// Where a seek measures its offset from.
#[derive(Clone, Copy, Debug, PartialEq, Eq, Structural)]
pub enum Whence {
    /// An absolute position from the start of the file.
    Start(usize),
    /// A signed offset from the current position.
    Current(i64),
    /// A signed offset from the end of the file.
    End(i64),
}

/// Why a seek failed. The file and the position are unchanged on failure.
#[derive(Clone, Copy, Debug, PartialEq, Eq, Structural)]
pub enum SeekError {
    /// The requested offset lands before the start of the file.
    NegativePosition,
}

/// An open file as the wrapper sees it: its bytes and the read/write cursor.
/// The cursor may sit past the end of the data; a write there fills the gap
/// with zero bytes, as a sparse write does.
#[derive(Debug)]
pub struct FileResource {
    /// The byte contents of the file.
    pub data: Vec<u8>,
    /// The cursor position the next read or write starts at.
    pub pos: usize,
}

/// The contents of a file of bytes `d` after writing `bs` at position `p`:
/// bytes before `p` are kept, a gap between the old end and `p` reads as
/// zeros, `bs` lies at `p`, and bytes past the written span are kept.
pub open spec fn write_effect(d: Seq<u8>, p: int, bs: Seq<u8>) -> Seq<u8> {
    Seq::new(
        if d.len() >= p + bs.len() {
            d.len()
        } else {
            (p + bs.len()) as nat
        },
        |i: int|
            if p <= i < p + bs.len() {
                bs[i - p]
            } else if i < d.len() {
                d[i]
            } else {
                0u8
            },
    )
}

/// The bytes a read of at most `n` bytes returns from a file of bytes `d`
/// with the cursor at `p`: the bytes from `p` up to the end of the data or
/// the count, whichever comes first; none when the cursor is at or past the
/// end.
pub open spec fn read_effect(d: Seq<u8>, p: int, n: int) -> Seq<u8> {
    if p >= d.len() {
        Seq::empty()
    } else if d.len() < p + n {
        d.subrange(p, d.len() as int)
    } else {
        d.subrange(p, p + n)
    }
}

/// The absolute position a seek asks for, before any range check.
pub open spec fn seek_target(f: FileResource, w: Whence) -> int {
    match w {
        Whence::Start(n) => n as int,
        Whence::Current(d) => f.pos + d,
        Whence::End(d) => f.data@.len() + d,
    }
}

impl FileResource {
    /// An empty file with the cursor at the start.
    pub fn empty() -> (f: FileResource)
        ensures
            f.data@ == Seq::<u8>::empty(),
            f.pos == 0,
    {
        FileResource { data: Vec::new(), pos: 0 }
    }

    /// A file holding the given bytes, with the cursor at the start.
    pub fn from_contents(data: Vec<u8>) -> (f: FileResource)
        ensures
            f.data == data,
            f.pos == 0,
    {
        FileResource { data, pos: 0 }
    }

    /// The cursor position.
    pub fn position(&self) -> (p: usize)
        ensures
            p == self.pos,
    {
        self.pos
    }

    /// The size of the file in bytes.
    pub fn size(&self) -> (n: usize)
        ensures
            n == self.data@.len(),
    {
        self.data.len()
    }

    /// The byte contents of the file.
    pub fn contents(&self) -> (d: &Vec<u8>)
        ensures
            d == &self.data,
    {
        &self.data
    }

    /// Reads at most `n` bytes from the cursor, advancing it by exactly the
    /// number of bytes returned.
    pub fn read(&mut self, n: usize) -> (out: Vec<u8>)
        ensures
            final(self).data == old(self).data,
            out@ == read_effect(old(self).data@, old(self).pos as int, n as int),
            final(self).pos == old(self).pos + out@.len(),
    {
        let len = self.data.len();
        let avail: usize = if self.pos >= len {
            0
        } else if len - self.pos < n {
            len - self.pos
        } else {
            n
        };
        let mut out: Vec<u8> = Vec::new();
        let mut i: usize = 0;
        while i < avail
            invariant
                i <= avail,
                self.pos + avail <= usize::MAX,
                self.pos + avail <= self.data@.len() || avail == 0,
                avail <= n,
                out@.len() == i,
                forall|j: int| 0 <= j < i ==> out@[j] == self.data@[self.pos + j],
            decreases avail - i,
        {
            out.push(self.data[self.pos + i]);
            i = i + 1;
        }
        proof {
            assert(out@ =~= read_effect(self.data@, self.pos as int, n as int));
        }
        self.pos = self.pos + avail;
        out
    }

    /// Writes all of `buf` at the cursor, overwriting bytes in place,
    /// zero-filling any gap between the old end and the cursor, and growing
    /// the file as needed; the cursor advances past the written bytes. The
    /// whole buffer is always written; the returned count is its length.
    pub fn write(&mut self, buf: &Vec<u8>) -> (n: usize)
        requires
            old(self).pos + buf@.len() <= usize::MAX,
        ensures
            n == buf@.len(),
            final(self).data@ == write_effect(old(self).data@, old(self).pos as int, buf@),
            final(self).pos == old(self).pos + buf@.len(),
    {
        let ghost orig: Seq<u8> = self.data@;
        let ghost p: int = self.pos as int;
        while self.data.len() < self.pos
            invariant
                self.pos == p,
                self.data@.len() <= p || self.data@.len() == orig.len(),
                forall|j: int| 0 <= j < orig.len() && j < self.data@.len() ==> self.data@[j] == orig[j],
                forall|j: int| orig.len() <= j < self.data@.len() ==> self.data@[j] == 0u8,
                self.data@.len() >= orig.len(),
            decreases p - self.data@.len(),
        {
            self.data.push(0u8);
        }
        let mut i: usize = 0;
        while i < buf.len()
            invariant
                self.pos == p,
                i <= buf@.len(),
                p + buf@.len() <= usize::MAX,
                self.data@.len() >= p,
                self.data@.len() >= orig.len(),
                self.data@.len() == if orig.len() >= p + i {
                    orig.len()
                } else {
                    (p + i) as nat
                },
                forall|j: int| 0 <= j < p && j < orig.len() ==> self.data@[j] == orig[j],
                forall|j: int| orig.len() <= j < p ==> self.data@[j] == 0u8,
                forall|j: int| p <= j < p + i ==> self.data@[j] == buf@[j - p],
                forall|j: int| p + i <= j < orig.len() ==> self.data@[j] == orig[j],
            decreases buf@.len() - i,
        {
            let idx = self.pos + i;
            if idx < self.data.len() {
                self.data.set(idx, buf[i]);
            } else {
                self.data.push(buf[i]);
            }
            i = i + 1;
        }
        proof {
            assert(self.data@ =~= write_effect(orig, p, buf@));
        }
        self.pos = self.pos + buf.len();
        buf.len()
    }

    /// Flushes the file: the model is unbuffered, so nothing changes.
    pub fn flush(&mut self)
        ensures
            *final(self) == *old(self),
    {
    }

    /// Moves the cursor to the requested absolute position. A target before
    /// the start of the file is an error and moves nothing; the cursor may
    /// be placed past the end of the data.
    pub fn seek(&mut self, w: Whence) -> (r: Result<usize, SeekError>)
        requires
            seek_target(*old(self), w) <= usize::MAX,
        ensures
            final(self).data == old(self).data,
            seek_target(*old(self), w) < 0 ==> r == Err::<usize, SeekError>(
                SeekError::NegativePosition,
            ) && final(self).pos == old(self).pos,
            seek_target(*old(self), w) >= 0 ==> r == Ok::<usize, SeekError>(
                seek_target(*old(self), w) as usize,
            ) && final(self).pos == seek_target(*old(self), w),
    {
        match w {
            Whence::Start(n) => {
                self.pos = n;
                Ok(n)
            },
            Whence::Current(d) => {
                let t: i128 = self.pos as i128 + d as i128;
                if t < 0 {
                    Err(SeekError::NegativePosition)
                } else {
                    self.pos = t as usize;
                    Ok(self.pos)
                }
            },
            Whence::End(d) => {
                let t: i128 = self.data.len() as i128 + d as i128;
                if t < 0 {
                    Err(SeekError::NegativePosition)
                } else {
                    self.pos = t as usize;
                    Ok(self.pos)
                }
            },
        }
    }
}

/// Writing bytes and reading them back from the same position yields exactly
/// those bytes, whatever the file held before.
pub proof fn lemma_write_read_round_trip(d: Seq<u8>, p: int, bs: Seq<u8>)
    requires
        p >= 0,
    ensures
        read_effect(write_effect(d, p, bs), p, bs.len() as int) == bs,
{
    let w = write_effect(d, p, bs);
    assert(read_effect(w, p, bs.len() as int) =~= bs);
}

/// A write changes no byte outside the span it writes: the file outside
/// `[p, p + bs.len())` reads as it did before (zeros where the file did not
/// yet reach).
pub proof fn lemma_write_is_local(d: Seq<u8>, p: int, bs: Seq<u8>, j: int)
    requires
        p >= 0,
        0 <= j < write_effect(d, p, bs).len(),
        !(p <= j < p + bs.len()),
    ensures
        j < d.len() ==> write_effect(d, p, bs)[j] == d[j],
        j >= d.len() ==> write_effect(d, p, bs)[j] == 0u8,
{
}

} // verus!
