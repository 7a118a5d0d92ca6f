//! File transfer bridge between a protocol engine and a positional file handle.
//!
//! A transfer context (`OsdpFile`) owns the handle of the file being sent or
//! received while a transfer is active. The engine drives it through four
//! callbacks (open, read, write, close) that answer with one integer each.

pub mod callback;
pub mod error;
pub mod file;
pub mod offset_io;

pub use callback::{registration_outcome, status_outcome, OsdpFileOps};
pub use error::FileError;
pub use file::{OsdpFile, CALLBACK_FAILURE, OFFSET_MAX};
pub use offset_io::{MemFile, OffsetIo};
