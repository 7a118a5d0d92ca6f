use vstd::prelude::*;

verus! {

/// Everything that can go wrong in a file transfer context or at its registration.
#[derive(Debug, Clone, Copy, PartialEq, Eq, Structural)]
pub enum FileError {
    /// `open` while a file is already open.
    AlreadyOpen,
    /// `open` with an identifier other than the one the context was made with.
    IdentifierMismatch,
    /// `read`, `write` or `close` while no file is open.
    NotOpen,
    /// The file could not be opened.
    OpenFailed,
    /// The positional read failed.
    ReadFailed,
    /// The positional write failed.
    WriteFailed,
    /// An offset or a size beyond the 31-bit range of the transfer protocol.
    OffsetOverflow,
    /// The protocol engine refused the operation table.
    RegistrationFailed,
    /// The protocol engine could not report the transfer status.
    StatusQueryFailed,
}

} // verus!
