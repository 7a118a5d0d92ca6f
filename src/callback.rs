use vstd::prelude::*;

use crate::error::FileError;
use crate::file::{OsdpFile, CALLBACK_FAILURE, OFFSET_MAX};
use crate::offset_io::{read_model, write_model, OffsetIo};

verus! {

/// The callbacks that the protocol engine calls through its operation table, on
/// plain values: each runs the context's operation and collapses the outcome into
/// one integer, a count (or 0) on success and `CALLBACK_FAILURE` on any error.
impl<H: OffsetIo> OsdpFile<H> {
    /// The `open` callback: on success stores the file's length in `size_out` and
    /// returns 0; on failure leaves the context and `size_out` as they were. With the
    /// context inactive and `file_id` its identifier, it fails only where the opener
    /// gives nothing or the file is longer than `OFFSET_MAX`.
    pub fn open_callback<F: FnOnce(&String) -> Option<H>>(
        &mut self,
        file_id: i32,
        opener: F,
        size_out: &mut i32,
    ) -> (rc: i32)
        requires
            !old(self).active() && file_id == old(self).file_id() ==> opener.requires(
                (&old(self).file_path(),),
            ),
        ensures
            rc == 0 || rc == CALLBACK_FAILURE,
            old(self).active() || file_id != old(self).file_id() ==> rc == CALLBACK_FAILURE,
            rc == CALLBACK_FAILURE && !old(self).active() && file_id == old(self).file_id()
                ==> opener.ensures((&old(self).file_path(),), None) || exists|h: H|
                opener.ensures((&old(self).file_path(),), Some(h)) && h.contents().len()
                    > OFFSET_MAX,
            rc == CALLBACK_FAILURE ==> *final(self) == *old(self) && *final(size_out) == *old(
                size_out,
            ),
            rc == 0 ==> {
                &&& !old(self).active()
                &&& file_id == old(self).file_id()
                &&& opener.ensures((&old(self).file_path(),), final(self).handle())
                &&& final(self).active()
                &&& *final(size_out) >= 0
                &&& *final(size_out) as nat == final(self).data().len()
                &&& final(self).cached_size() == *final(size_out) as nat
                &&& final(self).file_id() == old(self).file_id()
                &&& final(self).file_path() == old(self).file_path()
            },
    {
        match self.open(file_id, opener) {
            Ok(n) => {
                *size_out = n;
                0
            },
            Err(_) => CALLBACK_FAILURE,
        }
    }

    /// The `read` callback: reads up to `size` bytes at `offset` into the front of
    /// `buf` and returns how many were read. Fails on a negative argument, a `size`
    /// beyond `buf`, and every error of `read`; `buf` is written only on success and
    /// only as far as the bytes read.
    pub fn read_callback(&self, buf: &mut [u8], size: i32, offset: i32) -> (rc: i32)
        ensures
            final(buf)@.len() == old(buf)@.len(),
            !self.active() || size < 0 || offset < 0 || size as int > old(buf)@.len()
                || !Self::in_range(offset as u64, size as nat) ==> rc == CALLBACK_FAILURE,
            rc == CALLBACK_FAILURE ==> final(buf)@ == old(buf)@,
            rc != CALLBACK_FAILURE ==> {
                let got = read_model(self.data(), offset as nat, size as nat);
                &&& rc >= 0
                &&& rc as nat == got.len()
                &&& final(buf)@.subrange(0, rc as int) == got
                &&& final(buf)@.subrange(rc as int, final(buf)@.len() as int) == old(buf)@.subrange(
                    rc as int,
                    old(buf)@.len() as int,
                )
            },
    {
        if size < 0 || offset < 0 || size as usize > buf.len() {
            return CALLBACK_FAILURE;
        }
        let bytes = match self.read(offset as u64, size as usize) {
            Ok(v) => v,
            Err(_) => {
                return CALLBACK_FAILURE;
            },
        };
        let n = bytes.len();
        let ghost before = buf@;
        let mut i: usize = 0;
        while i < n
            invariant
                n == bytes@.len(),
                n <= size <= before.len(),
                buf@.len() == before.len(),
                i <= n,
                forall|k: int| 0 <= k < i ==> buf@[k] == bytes@[k],
                forall|k: int| i <= k < before.len() ==> buf@[k] == before[k],
            decreases n - i,
        {
            buf[i] = bytes[i];
            i = i + 1;
        }
        assert(buf@.subrange(0, n as int) =~= bytes@);
        assert(buf@.subrange(n as int, buf@.len() as int) =~= before.subrange(
            n as int,
            before.len() as int,
        ));
        n as i32
    }

    /// The `write` callback: copies the first `size` bytes of `buf` and writes them at
    /// `offset`, returning how many were written. Fails on a negative argument, a
    /// `size` beyond `buf`, and every error of `write`.
    pub fn write_callback(&mut self, buf: &[u8], size: i32, offset: i32) -> (rc: i32)
        ensures
            !old(self).active() || size < 0 || offset < 0 || size as int > buf@.len()
                || !Self::in_range(offset as u64, size as nat) ==> rc == CALLBACK_FAILURE
                && *final(self) == *old(self),
            final(self).active() == old(self).active(),
            final(self).file_id() == old(self).file_id(),
            final(self).file_path() == old(self).file_path(),
            final(self).cached_size() == old(self).cached_size(),
            rc != CALLBACK_FAILURE ==> {
                &&& rc == size
                &&& final(self).data() == write_model(
                    old(self).data(),
                    offset as nat,
                    buf@.subrange(0, size as int),
                )
            },
    {
        if size < 0 || offset < 0 || size as usize > buf.len() {
            return CALLBACK_FAILURE;
        }
        let n = size as usize;
        let mut scratch: Vec<u8> = Vec::with_capacity(n);
        let mut i: usize = 0;
        while i < n
            invariant
                n <= buf@.len(),
                i <= n,
                scratch@ == buf@.subrange(0, i as int),
            decreases n - i,
        {
            scratch.push(buf[i]);
            i = i + 1;
            assert(scratch@ =~= buf@.subrange(0, i as int));
        }
        match self.write(offset as u64, &scratch) {
            Ok(written) => written as i32,
            Err(_) => CALLBACK_FAILURE,
        }
    }

    /// The `close` callback: 0 when a transfer was closed, else `CALLBACK_FAILURE`.
    pub fn close_callback(&mut self) -> (rc: i32)
        ensures
            old(self).active() ==> rc == 0 && !final(self).active(),
            !old(self).active() ==> rc == CALLBACK_FAILURE && *final(self) == *old(self),
            final(self).file_id() == old(self).file_id(),
            final(self).file_path() == old(self).file_path(),
            final(self).cached_size() == old(self).cached_size(),
    {
        match self.close() {
            Ok(()) => 0,
            Err(_) => CALLBACK_FAILURE,
        }
    }
}

/// The outcome of registering an operation table, from the engine's return code: a
/// negative code is a refusal.
pub fn registration_outcome(rc: i32) -> (r: Result<(), FileError>)
    ensures
        rc < 0 ==> r == Err::<(), FileError>(FileError::RegistrationFailed),
        rc >= 0 ==> r is Ok,
{
    if rc < 0 {
        Err(FileError::RegistrationFailed)
    } else {
        Ok(())
    }
}

/// The outcome of a transfer status query, from the engine's return code and the
/// total size and offset it reported: a negative code is a failure.
pub fn status_outcome(rc: i32, size: i32, offset: i32) -> (r: Result<(i32, i32), FileError>)
    ensures
        rc < 0 ==> r == Err::<(i32, i32), FileError>(FileError::StatusQueryFailed),
        rc >= 0 ==> r == Ok::<(i32, i32), FileError>((size, offset)),
{
    if rc < 0 {
        Err(FileError::StatusQueryFailed)
    } else {
        Ok((size, offset))
    }
}

/// A protocol engine role handle that files can be registered with. `pd` selects the
/// peripheral device on the control panel side and is 0 on the device side.
pub trait OsdpFileOps<H: OffsetIo> {
    /// Hands `fm`'s operation table to the engine for the role `pd`.
    fn register_file(&mut self, pd: i32, fm: &mut OsdpFile<H>) -> Result<(), FileError>;

    /// The total size and current offset of the transfer of the role `pd`.
    fn get_file_transfer_status(&self, pd: i32) -> Result<(i32, i32), FileError>;
}

} // verus!
