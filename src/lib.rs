//! Duplex byte streams over named pipes: the decisions that acquire, classify,
//! reuse, reconnect and release the OS handles of a pipe, for POSIX FIFOs and
//! for Windows named pipes. The OS calls themselves are made by the caller,
//! which hands each outcome back as a plain value.
use vstd::prelude::*;

pub mod handle;
pub mod names;
pub mod node;
pub mod fifo;
pub mod posix;
pub mod windows;

verus! {

/// What happens to the named resource when the owning pipe goes away.
#[derive(Clone, Copy, Debug, PartialEq, Eq, Structural)]
pub enum OnCleanup {
    Delete,
    NoDelete,
}

/// Why an operation on a pipe failed.
#[derive(Clone, Copy, Debug, PartialEq, Eq, Structural)]
pub enum Error {
    /// The path has no parent, or names something that is not a named pipe.
    InvalidPath,
    /// Bytes read from a pipe were not valid UTF-8.
    InvalidUtf8,
    /// An OS call failed with this error code.
    Os(i32),
    /// A pipe looked up by name was never registered.
    NotInitialized,
}

pub type Result<T> = core::result::Result<T, Error>;

} // verus!
