//! A single-descriptor FIFO: one descriptor opened read-write at a path,
//! closed explicitly or when the master goes away.
use vstd::prelude::*;

use vstd::utf8::{decode_utf8, valid_utf8};

use crate::{Error, OnCleanup};

verus! {

/// A named pipe over one descriptor.
#[derive(Debug)]
pub struct Fifo {
    pub handle: i64,
    pub path: String,
    pub is_closed: bool,
    pub delete: OnCleanup,
}

/// What the teardown of a FIFO does.
#[derive(Clone, Copy, Debug, PartialEq, Eq, Structural)]
pub struct FifoRelease {
    /// The descriptor to close, if it is still open.
    pub close: Option<i64>,
    /// Whether the FIFO is removed from the filesystem.
    pub delete: bool,
}

impl Fifo {
    /// The FIFO over the descriptor `handle`, just opened at `path`.
    pub fn from_descriptor(path: &str, handle: i64, delete: OnCleanup) -> (r: Fifo)
        ensures
            r.handle == handle,
            r.path@ == path@,
            !r.is_closed,
            r.delete == delete,
    {
        Fifo { handle, path: path.to_owned(), is_closed: false, delete }
    }

    /// Marks the FIFO closed and gives the descriptor to close.
    pub fn close(&mut self) -> (r: i64)
        ensures
            r == old(self).handle,
            *final(self) == (Fifo { is_closed: true, ..*old(self) }),
    {
        self.is_closed = true;
        self.handle
    }

    pub open spec fn release_spec(&self) -> FifoRelease {
        FifoRelease {
            close: if self.is_closed { None } else { Some(self.handle) },
            delete: self.delete == OnCleanup::Delete,
        }
    }

    /// What the FIFO's teardown does: close the descriptor unless it was
    /// closed already, and delete the FIFO if asked to.
    pub fn release(&self) -> (r: FifoRelease)
        ensures
            r == self.release_spec(),
    {
        let close = if self.is_closed { None } else { Some(self.handle) };
        let delete = match self.delete {
            OnCleanup::Delete => true,
            OnCleanup::NoDelete => false,
        };
        FifoRelease { close, delete }
    }

    /// A slave of `self`: the same descriptor and path, counted as closed and
    /// never deleting the FIFO, so that its teardown does nothing.
    pub fn share(&self) -> (r: Fifo)
        ensures
            r.handle == self.handle,
            r.path@ == self.path@,
            r.is_closed,
            r.delete == OnCleanup::NoDelete,
            r.release_spec() == (FifoRelease { close: None, delete: false }),
    {
        Fifo { handle: self.handle, path: self.path.clone(), is_closed: true, delete: OnCleanup::NoDelete }
    }
}

/// Relies on `String::from_utf8`: it succeeds exactly on valid UTF-8, and
/// then holds the characters that the bytes encode.
#[verifier::external_body]
fn utf8_string(bytes: Vec<u8>) -> (r: Option<String>)
    ensures
        r is Some <==> valid_utf8(bytes@),
        r matches Some(s) ==> s@ == decode_utf8(bytes@),
{
    String::from_utf8(bytes).ok()
}

/// The text that bytes read from a FIFO encode; bytes that are not valid
/// UTF-8 fail with `InvalidUtf8`.
pub fn decode_string(bytes: Vec<u8>) -> (r: crate::Result<String>)
    ensures
        valid_utf8(bytes@) <==> r is Ok,
        r matches Ok(s) ==> s@ == decode_utf8(bytes@),
        r matches Err(e) ==> e == Error::InvalidUtf8,
{
    match utf8_string(bytes) {
        Some(s) => Ok(s),
        None => Err(Error::InvalidUtf8),
    }
}

} // verus!
