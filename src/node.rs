//! Validation of the filesystem node at a FIFO path, before it is created or
//! opened.
use vstd::prelude::*;

use crate::Error;

verus! {

/// The error code for "no such file or directory" on POSIX systems.
pub const ENOENT: i32 = 2;

/// The error code for "bad file descriptor" on POSIX systems.
pub const EBADF: i32 = 9;

/// What `stat` reported for a path.
#[derive(Clone, Copy, Debug, PartialEq, Eq, Structural)]
pub enum Stat {
    /// The node exists and is a named pipe.
    Fifo,
    /// The node exists and is something else.
    Other,
    /// Nothing exists at the path.
    Missing,
    /// `stat` failed for another reason, with this error code.
    Failed(i32),
}

/// Whether `std::path::Path::parent` finds a parent in the path `s`.
pub uninterp spec fn path_has_parent(s: Seq<char>) -> bool;

/// Relies on `std::path::Path::parent`, which returns `None` for the empty
/// path and for a path that ends in a root.
#[verifier::external_body]
pub(crate) fn has_parent(path: &str) -> (r: bool)
    ensures
        r == path_has_parent(path@),
        path@.len() == 0 ==> !r,
        path@ == seq!['/'] ==> !r,
{
    std::path::Path::new(path).parent().is_some()
}

/// What to do before opening a path as a named pipe.
#[derive(Clone, Copy, Debug, PartialEq, Eq, Structural)]
pub enum Prepare {
    /// The named pipe exists: open it.
    Open,
    /// Nothing is there: create the named pipe, then open it.
    CreateThenOpen,
}

/// The outcome of validating a path that is to be created if absent.
pub open spec fn prepare_spec(has_parent: bool, stat: Stat) -> core::result::Result<Prepare, Error> {
    if !has_parent {
        Err(Error::InvalidPath)
    } else {
        match stat {
            Stat::Fifo => Ok(Prepare::Open),
            Stat::Other => Err(Error::InvalidPath),
            Stat::Missing => Ok(Prepare::CreateThenOpen),
            Stat::Failed(code) => Err(Error::Os(code)),
        }
    }
}

/// Decides, from whether the path has a parent and what `stat` reported,
/// whether a named pipe may be opened there and whether it must be created
/// first.
pub fn prepare(has_parent: bool, stat: Stat) -> (r: core::result::Result<Prepare, Error>)
    ensures
        r == prepare_spec(has_parent, stat),
{
    if !has_parent {
        return Err(Error::InvalidPath);
    }
    match stat {
        Stat::Fifo => Ok(Prepare::Open),
        Stat::Other => Err(Error::InvalidPath),
        Stat::Missing => Ok(Prepare::CreateThenOpen),
        Stat::Failed(code) => Err(Error::Os(code)),
    }
}

/// `prepare` on a path, asking the path itself whether it has a parent.
pub fn prepare_path(path: &str, stat: Stat) -> (r: core::result::Result<Prepare, Error>)
    ensures
        r == prepare_spec(path_has_parent(path@), stat),
        path@.len() == 0 ==> r == Err::<Prepare, Error>(Error::InvalidPath),
{
    let p = has_parent(path);
    prepare(p, stat)
}

/// The outcome of validating a path that must already hold a named pipe,
/// where anything else there counts as `missing`.
pub open spec fn existing_spec(has_parent: bool, stat: Stat, missing: Error) -> core::result::Result<(), Error> {
    if !has_parent {
        Err(Error::InvalidPath)
    } else {
        match stat {
            Stat::Fifo => Ok(()),
            Stat::Other => Err(missing),
            Stat::Missing => Err(Error::Os(ENOENT)),
            Stat::Failed(code) => Err(Error::Os(code)),
        }
    }
}

/// Decides whether an existing named pipe may be opened: a node of another
/// kind fails with `missing`, an absent node with `ENOENT`.
pub fn existing(has_parent: bool, stat: Stat, missing: Error) -> (r: core::result::Result<(), Error>)
    ensures
        r == existing_spec(has_parent, stat, missing),
{
    if !has_parent {
        return Err(Error::InvalidPath);
    }
    match stat {
        Stat::Fifo => Ok(()),
        Stat::Other => Err(missing),
        Stat::Missing => Err(Error::Os(ENOENT)),
        Stat::Failed(code) => Err(Error::Os(code)),
    }
}

/// `existing` on a path, asking the path itself whether it has a parent.
pub fn existing_path(path: &str, stat: Stat, missing: Error) -> (r: core::result::Result<(), Error>)
    ensures
        r == existing_spec(path_has_parent(path@), stat, missing),
        path@.len() == 0 ==> r == Err::<(), Error>(Error::InvalidPath),
{
    let p = has_parent(path);
    existing(p, stat, missing)
}

/// A node that exists and is not a named pipe is never opened: validation
/// fails with `InvalidPath`, whether the path may be created or must exist.
pub proof fn lemma_non_fifo_rejected(has_parent: bool)
    ensures
        prepare_spec(has_parent, Stat::Other) == Err::<Prepare, Error>(Error::InvalidPath),
        existing_spec(has_parent, Stat::Other, Error::InvalidPath) == Err::<(), Error>(Error::InvalidPath),
{
}

} // verus!
