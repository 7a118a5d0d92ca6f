use vstd::prelude::*;

use crate::error::FileError;
use crate::offset_io::{read_model, write_model, OffsetIo};

verus! {

/// The largest offset, size or byte count that the protocol's signed 32-bit fields carry.
pub const OFFSET_MAX: u64 = 0x7fff_ffff;

/// What a callback hands back to the protocol engine on any failure.
pub const CALLBACK_FAILURE: i32 = -1;

/// The state of one file transfer: the pre-shared identifier, the path, the open
/// handle while a transfer is active, and the length seen when it was opened.
#[derive(Debug)]
pub struct OsdpFile<H> {
    id: i32,
    path: String,
    file: Option<H>,
    size: usize,
}

impl<H: OffsetIo> OsdpFile<H> {
    /// The identifier that `open` must be asked for.
    pub closed spec fn file_id(&self) -> i32 {
        self.id
    }

    /// The path the file is opened from.
    pub closed spec fn file_path(&self) -> String {
        self.path
    }

    /// The open handle, present exactly while a transfer is active.
    pub closed spec fn handle(&self) -> Option<H> {
        self.file
    }

    /// Whether a transfer is active.
    pub open spec fn active(&self) -> bool {
        self.handle() is Some
    }

    /// What the open file holds.
    pub open spec fn data(&self) -> Seq<u8> {
        self.handle()->Some_0.contents()
    }

    /// The length cached when the file was last opened.
    pub closed spec fn cached_size(&self) -> nat {
        self.size as nat
    }

    /// Whether `offset..offset + len` lies within the protocol's 31-bit range.
    pub open spec fn in_range(offset: u64, len: nat) -> bool {
        offset as nat + len <= OFFSET_MAX as nat
    }

    /// A context for the transfer `id` of the file at `path`; nothing is opened.
    pub fn new(id: i32, path: String) -> (r: Self)
        ensures
            r.file_id() == id,
            r.file_path() == path,
            !r.active(),
            r.cached_size() == 0,
    {
        OsdpFile { id, path, file: None, size: 0 }
    }

    /// The identifier that `open` must be asked for.
    pub fn id(&self) -> (r: i32)
        ensures
            r == self.file_id(),
    {
        self.id
    }

    /// The path the file is opened from.
    pub fn path(&self) -> (r: &String)
        ensures
            *r == self.file_path(),
    {
        &self.path
    }

    /// Whether a transfer is active.
    pub fn is_open(&self) -> (r: bool)
        ensures
            r == self.active(),
    {
        self.file.is_some()
    }

    /// The length cached when the file was last opened.
    pub fn size(&self) -> (r: usize)
        ensures
            r as nat == self.cached_size(),
    {
        self.size
    }

    /// Whether `open(file_id)` would go as far as opening the file: `AlreadyOpen`
    /// while a transfer is active, `IdentifierMismatch` for another identifier.
    pub fn check_open(&self, file_id: i32) -> (r: Result<(), FileError>)
        ensures
            self.active() ==> r == Err::<(), FileError>(FileError::AlreadyOpen),
            !self.active() && file_id != self.file_id() ==> r == Err::<(), FileError>(
                FileError::IdentifierMismatch,
            ),
            !self.active() && file_id == self.file_id() ==> r is Ok,
    {
        if self.file.is_some() {
            Err(FileError::AlreadyOpen)
        } else if file_id != self.id {
            Err(FileError::IdentifierMismatch)
        } else {
            Ok(())
        }
    }

    /// Starts the transfer `file_id`: `opener` opens the path, and the handle it gives
    /// is kept and its length reported. `opener` is called only when the context is
    /// inactive and `file_id` is its identifier (only then need it be callable).
    /// `OpenFailed` when `opener` gives nothing, `OffsetOverflow` when the file is
    /// longer than `OFFSET_MAX`; on every failure the context is left as it was.
    pub fn open<F: FnOnce(&String) -> Option<H>>(&mut self, file_id: i32, opener: F) -> (r:
        Result<i32, FileError>)
        requires
            !old(self).active() && file_id == old(self).file_id() ==> opener.requires(
                (&old(self).file_path(),),
            ),
        ensures
            old(self).active() ==> r == Err::<i32, FileError>(FileError::AlreadyOpen),
            !old(self).active() && file_id != old(self).file_id() ==> r == Err::<i32, FileError>(
                FileError::IdentifierMismatch,
            ),
            r is Err ==> *final(self) == *old(self),
            r == Err::<i32, FileError>(FileError::OpenFailed) ==> opener.ensures(
                (&old(self).file_path(),),
                None,
            ),
            r == Err::<i32, FileError>(FileError::OffsetOverflow) ==> exists|h: H|
                opener.ensures((&old(self).file_path(),), Some(h)) && h.contents().len()
                    > OFFSET_MAX,
            !old(self).active() && file_id == old(self).file_id() ==> match r {
                Ok(n) => {
                    &&& opener.ensures((&old(self).file_path(),), final(self).handle())
                    &&& final(self).active()
                    &&& 0 <= n
                    &&& n as nat == final(self).data().len()
                    &&& final(self).cached_size() == n as nat
                    &&& final(self).file_id() == old(self).file_id()
                    &&& final(self).file_path() == old(self).file_path()
                },
                Err(e) => e == FileError::OpenFailed || e == FileError::OffsetOverflow,
            },
    {
        if self.file.is_some() {
            return Err(FileError::AlreadyOpen);
        }
        if file_id != self.id {
            return Err(FileError::IdentifierMismatch);
        }
        let opened = opener(&self.path);
        match opened {
            None => Err(FileError::OpenFailed),
            Some(h) => {
                let len = h.len();
                if len > OFFSET_MAX {
                    Err(FileError::OffsetOverflow)
                } else {
                    self.size = len as usize;
                    self.file = Some(h);
                    Ok(len as i32)
                }
            },
        }
    }

    /// Reads up to `length` bytes at `offset` from the open file, fewer where the file
    /// ends first.
    pub fn read(&self, offset: u64, length: usize) -> (r: Result<Vec<u8>, FileError>)
        ensures
            !self.active() ==> r == Err::<Vec<u8>, FileError>(FileError::NotOpen),
            self.active() && !Self::in_range(offset, length as nat) ==> r == Err::<
                Vec<u8>,
                FileError,
            >(FileError::OffsetOverflow),
            self.active() && Self::in_range(offset, length as nat) ==> match r {
                Ok(v) => v@ == read_model(self.data(), offset as nat, length as nat),
                Err(e) => e == FileError::ReadFailed,
            },
    {
        let file = match &self.file {
            None => {
                return Err(FileError::NotOpen);
            },
            Some(f) => f,
        };
        if offset > OFFSET_MAX || length as u64 > OFFSET_MAX - offset {
            return Err(FileError::OffsetOverflow);
        }
        let mut scratch: Vec<u8> = vec![0u8; length];
        match file.pread(&mut scratch, offset) {
            None => Err(FileError::ReadFailed),
            Some(n) => {
                scratch.truncate(n);
                Ok(scratch)
            },
        }
    }

    /// Writes all of `bytes` at `offset` into the open file. A failed write leaves the
    /// file open.
    pub fn write(&mut self, offset: u64, bytes: &Vec<u8>) -> (r: Result<usize, FileError>)
        ensures
            !old(self).active() ==> r == Err::<usize, FileError>(FileError::NotOpen),
            old(self).active() && !Self::in_range(offset, bytes@.len()) ==> r == Err::<
                usize,
                FileError,
            >(FileError::OffsetOverflow),
            r == Err::<usize, FileError>(FileError::NotOpen) || r == Err::<usize, FileError>(
                FileError::OffsetOverflow,
            ) ==> *final(self) == *old(self),
            final(self).active() == old(self).active(),
            final(self).file_id() == old(self).file_id(),
            final(self).file_path() == old(self).file_path(),
            final(self).cached_size() == old(self).cached_size(),
            old(self).active() && Self::in_range(offset, bytes@.len()) ==> match r {
                Ok(n) => {
                    &&& n == bytes@.len()
                    &&& final(self).data() == write_model(old(self).data(), offset as nat, bytes@)
                },
                Err(e) => e == FileError::WriteFailed,
            },
    {
        if self.file.is_none() {
            return Err(FileError::NotOpen);
        }
        if offset > OFFSET_MAX || bytes.len() as u64 > OFFSET_MAX - offset {
            return Err(FileError::OffsetOverflow);
        }
        let mut file = self.file.take().unwrap();
        let res = file.pwrite(bytes, offset);
        self.file = Some(file);
        match res {
            None => Err(FileError::WriteFailed),
            Some(n) => Ok(n),
        }
    }

    /// Ends the active transfer and releases the handle; the cached size stays.
    pub fn close(&mut self) -> (r: Result<(), FileError>)
        ensures
            !old(self).active() ==> r == Err::<(), FileError>(FileError::NotOpen) && *final(self)
                == *old(self),
            old(self).active() ==> r is Ok && !final(self).active(),
            final(self).file_id() == old(self).file_id(),
            final(self).file_path() == old(self).file_path(),
            final(self).cached_size() == old(self).cached_size(),
    {
        match self.file.take() {
            None => Err(FileError::NotOpen),
            Some(_) => Ok(()),
        }
    }
}

} // verus!
