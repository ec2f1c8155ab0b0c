//! Storage stream: the file-like handle a track is pulled from.
//!
//! The filesystem collaborator hands the scheduler sequential reads,
//! relative seeks, a length and a current offset.  The stream is carried
//! here as explicit model state — the track bytes, the cursor and the
//! open flag — so that what each read returns and what each seek moves is
//! a value the verifier can see.  Storage faults are part of the model:
//! a stream can be marked failing, and every read then reports an error,
//! as a dying card would.

use vstd::prelude::*;

verus! {

/// Why a storage operation was refused.
#[derive(Debug)]
pub enum StorageError {
    /// The underlying device reported a read failure.
    DeviceError,
    /// The handle was already closed.
    Closed,
    /// A relative seek would leave the bounds of the stream.
    SeekOutOfBounds,
}

/// An open track: sequential reads, relative seeks, length and offset.
pub struct StorageStream {
    data: Vec<u8>,
    pos: usize,
    open: bool,
    fail_reads: bool,
}

impl StorageStream {
    /// The whole track behind the stream.
    pub closed spec fn spec_data(&self) -> Seq<u8> {
        self.data@
    }

    /// The read cursor.
    pub closed spec fn spec_pos(&self) -> int {
        self.pos as int
    }

    /// Whether the handle is still open.
    pub closed spec fn spec_open(&self) -> bool {
        self.open
    }

    /// Whether the device reports failures on read.
    pub closed spec fn spec_fail_reads(&self) -> bool {
        self.fail_reads
    }

    /// The cursor never leaves the track.
    pub open spec fn wf(&self) -> bool {
        0 <= self.spec_pos() <= self.spec_data().len()
    }

    /// Open a stream over a track, positioned at its start.
    pub fn open_track(data: Vec<u8>) -> (s: StorageStream)
        ensures
            s.wf(),
            s.spec_data() == data@,
            s.spec_pos() == 0,
            s.spec_open(),
            !s.spec_fail_reads(),
    {
        StorageStream { data, pos: 0, open: true, fail_reads: false }
    }

    /// Make every following read report a device failure (or stop
    /// doing so).  This models the storage fault path.
    pub fn set_fail_reads(&mut self, fail: bool)
        ensures
            final(self).spec_fail_reads() == fail,
            final(self).spec_data() == old(self).spec_data(),
            final(self).spec_pos() == old(self).spec_pos(),
            final(self).spec_open() == old(self).spec_open(),
    {
        self.fail_reads = fail;
    }

    /// Total length of the track in bytes.
    pub fn length(&self) -> (n: u64)
        ensures
            n == self.spec_data().len(),
    {
        self.data.len() as u64
    }

    /// Current byte offset of the cursor.
    pub fn current_offset(&self) -> (n: u64)
        ensures
            n == self.spec_pos(),
    {
        self.pos as u64
    }

    /// Read up to `buf.len()` bytes at the cursor into the front of
    /// `buf`.  Returns the number of bytes read; zero signals end of
    /// stream.  On an error nothing is consumed.
    pub fn read(&mut self, buf: &mut Vec<u8>) -> (r: Result<usize, StorageError>)
        requires
            old(self).wf(),
        ensures
            final(self).wf(),
            final(self).spec_data() == old(self).spec_data(),
            final(self).spec_open() == old(self).spec_open(),
            final(self).spec_fail_reads() == old(self).spec_fail_reads(),
            final(buf)@.len() == old(buf)@.len(),
            !old(self).spec_open() ==> r == Result::<usize, StorageError>::Err(
                StorageError::Closed,
            ),
            old(self).spec_open() && old(self).spec_fail_reads() ==> r == Result::<
                usize,
                StorageError,
            >::Err(StorageError::DeviceError),
            r is Err ==> final(self).spec_pos() == old(self).spec_pos() && final(buf)@ == old(buf)@,
            old(self).spec_open() && !old(self).spec_fail_reads() ==> {
                let n = if old(buf)@.len() <= old(self).spec_data().len() - old(self).spec_pos() {
                    old(buf)@.len() as int
                } else {
                    old(self).spec_data().len() - old(self).spec_pos()
                };
                &&& r == Result::<usize, StorageError>::Ok(n as usize)
                &&& final(self).spec_pos() == old(self).spec_pos() + n
                &&& forall|i: int|
                    0 <= i < n ==> final(buf)@[i] == old(self).spec_data()[old(self).spec_pos()
                        + i]
                &&& forall|i: int| n <= i < old(buf)@.len() ==> final(buf)@[i] == old(buf)@[i]
            },
    {
        if !self.open {
            return Err(StorageError::Closed);
        }
        if self.fail_reads {
            return Err(StorageError::DeviceError);
        }
        let remaining = self.data.len() - self.pos;
        let want = buf.len();
        let n = if want <= remaining {
            want
        } else {
            remaining
        };
        let data_len = self.data.len();
        let mut i: usize = 0;
        while i < n
            invariant
                self.wf(),
                i <= n,
                n <= buf@.len(),
                data_len == self.spec_data().len(),
                self.spec_pos() + n <= data_len,
                self == old(self),
                buf@.len() == old(buf)@.len(),
                forall|k: int|
                    0 <= k < i ==> buf@[k] == self.spec_data()[self.spec_pos() + k],
                forall|k: int| i <= k < buf@.len() ==> buf@[k] == old(buf)@[k],
            decreases n - i,
        {
            let byte = self.data[self.pos + i];
            buf[i] = byte;
            i = i + 1;
        }
        self.pos = self.pos + n;
        Ok(n)
    }

    /// Move the cursor by `offset` bytes relative to its current
    /// position.  A target outside the stream is refused and the cursor
    /// does not move.
    pub fn seek_relative(&mut self, offset: i64) -> (r: Result<(), StorageError>)
        requires
            old(self).wf(),
        ensures
            final(self).wf(),
            final(self).spec_data() == old(self).spec_data(),
            final(self).spec_open() == old(self).spec_open(),
            final(self).spec_fail_reads() == old(self).spec_fail_reads(),
            !old(self).spec_open() ==> r == Result::<(), StorageError>::Err(StorageError::Closed),
            old(self).spec_open() ==> {
                if 0 <= old(self).spec_pos() + offset <= old(self).spec_data().len() {
                    &&& r == Result::<(), StorageError>::Ok(())
                    &&& final(self).spec_pos() == old(self).spec_pos() + offset
                } else {
                    &&& r == Result::<(), StorageError>::Err(StorageError::SeekOutOfBounds)
                    &&& final(self).spec_pos() == old(self).spec_pos()
                }
            },
    {
        if !self.open {
            return Err(StorageError::Closed);
        }
        let target: i128 = self.pos as i128 + offset as i128;
        if target < 0 || target > self.data.len() as i128 {
            return Err(StorageError::SeekOutOfBounds);
        }
        self.pos = target as usize;
        Ok(())
    }

    /// Close the handle.  Closing is idempotent; every later read or
    /// seek is refused.
    pub fn close(&mut self)
        ensures
            !final(self).spec_open(),
            final(self).spec_data() == old(self).spec_data(),
            final(self).spec_pos() == old(self).spec_pos(),
            final(self).spec_fail_reads() == old(self).spec_fail_reads(),
    {
        self.open = false;
    }
}

} // verus!
