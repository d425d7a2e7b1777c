//! The POSIX FIFO state machine.
//!
//! A pipe holds up to two handles to one FIFO path. The first starts
//! unclassified and takes the direction of the first read or write; a request
//! for the other direction opens a second handle, classified for it. Clones
//! are slaves: they share the handles but never release them nor delete the
//! FIFO.
use vstd::prelude::*;

use crate::handle::Handle;
use crate::node::EBADF;
use crate::{Error, OnCleanup};

verus! {

/// The direction a handle serves.
#[derive(Clone, Copy, Debug, PartialEq, Eq, Structural)]
pub enum Direction {
    Read,
    Write,
    Unknown,
}

/// A named pipe at a FIFO path.
#[derive(Debug)]
pub struct Pipe {
    pub handle1: Handle<Direction>,
    pub handle2: Option<Handle<Direction>>,
    pub path: String,
    pub is_slave: bool,
    pub delete: Option<OnCleanup>,
}

/// Which descriptor serves a direction.
#[derive(Clone, Copy, Debug, PartialEq, Eq, Structural)]
pub enum Choice {
    /// Use this descriptor.
    Ready(i64),
    /// The direction has no handle yet: open the path again and hand the
    /// descriptor over with `attach_second`.
    OpenSecond,
    /// The handle no longer reaches a descriptor.
    Failed(Error),
}

/// The choice for a handle slot that serves the direction.
pub open spec fn choice_of(h: Handle<Direction>) -> Choice {
    match h.raw {
        Some(raw) => Choice::Ready(raw),
        None => Choice::Failed(Error::Os(EBADF)),
    }
}

fn slot_choice(h: &Handle<Direction>) -> (r: Choice)
    ensures
        r == choice_of(*h),
{
    match h.raw {
        Some(raw) => Choice::Ready(raw),
        None => Choice::Failed(Error::Os(EBADF)),
    }
}

impl Pipe {
    /// Each handle is well formed; once a second handle exists, the first is
    /// classified and the second serves the other direction.
    pub open spec fn wf(&self) -> bool {
        &&& self.handle1.wf()
        &&& self.handle2 matches Some(h2) ==> {
            &&& h2.wf()
            &&& h2.role != Direction::Unknown
            &&& self.handle1.role != Direction::Unknown
            &&& h2.role != self.handle1.role
        }
    }

    /// The master pipe over the descriptor `raw`, just opened at `path`,
    /// with its direction not yet known.
    pub fn from_descriptor(path: &str, raw: i64, on_cleanup: OnCleanup) -> (r: Pipe)
        ensures
            r.handle1 == (Handle { raw: Some(raw), owning: true, role: Direction::Unknown }),
            r.handle2 is None,
            r.path@ == path@,
            !r.is_slave,
            r.delete == Some(on_cleanup),
            r.wf(),
    {
        Pipe {
            handle1: Handle::owning(raw, Direction::Unknown),
            handle2: None,
            path: path.to_owned(),
            is_slave: false,
            delete: Some(on_cleanup),
        }
    }

    /// The first handle after a request for `dir`: classified by it if it
    /// was not yet.
    pub open spec fn classified(&self, dir: Direction) -> Handle<Direction> {
        if self.handle1.role == Direction::Unknown {
            Handle { role: dir, ..self.handle1 }
        } else {
            self.handle1
        }
    }

    pub open spec fn select_spec(&self, dir: Direction) -> Choice {
        if self.classified(dir).role == dir {
            choice_of(self.handle1)
        } else {
            match self.handle2 {
                Some(h2) => choice_of(h2),
                None => Choice::OpenSecond,
            }
        }
    }

    /// Chooses the descriptor for a read or a write. The first handle takes
    /// the direction if it has none; the first handle serves the direction it
    /// was classified with, the second handle the other one.
    pub fn select(&mut self, dir: Direction) -> (r: Choice)
        requires
            dir != Direction::Unknown,
        ensures
            final(self).handle1 == old(self).classified(dir),
            final(self).handle2 == old(self).handle2,
            final(self).path == old(self).path,
            final(self).is_slave == old(self).is_slave,
            final(self).delete == old(self).delete,
            r == old(self).select_spec(dir),
            old(self).wf() ==> final(self).wf(),
    {
        if self.handle1.handle_type() == Direction::Unknown {
            self.handle1.set_type(dir);
        }
        if self.handle1.handle_type() == dir {
            slot_choice(&self.handle1)
        } else {
            match &self.handle2 {
                Some(h2) => slot_choice(h2),
                None => Choice::OpenSecond,
            }
        }
    }

    /// Caches `raw`, a descriptor just opened at the path, as the handle for
    /// `dir`, after `select` asked for it.
    pub fn attach_second(&mut self, raw: i64, dir: Direction) -> (r: Choice)
        requires
            old(self).wf(),
            old(self).handle2 is None,
            old(self).handle1.role != Direction::Unknown,
            old(self).handle1.role != dir,
            dir != Direction::Unknown,
        ensures
            final(self).handle2 == Some(Handle { raw: Some(raw), owning: true, role: dir }),
            final(self).handle1 == old(self).handle1,
            final(self).path == old(self).path,
            final(self).is_slave == old(self).is_slave,
            final(self).delete == old(self).delete,
            r == Choice::Ready(raw),
            final(self).select_spec(dir) == r,
            final(self).wf(),
    {
        self.handle2 = Some(Handle::owning(raw, dir));
        Choice::Ready(raw)
    }

    /// The descriptor that an explicit close releases: the first handle's.
    pub fn close_target(&self) -> (r: Option<i64>)
        ensures
            r == self.handle1.raw,
    {
        self.handle1.raw()
    }

    /// A clone of `self`: it shares the handles and the path, and is a slave
    /// that leaves the FIFO in place.
    pub open spec fn shared(&self) -> Pipe {
        Pipe {
            handle1: self.handle1,
            handle2: self.handle2,
            path: self.path,
            is_slave: true,
            delete: Some(OnCleanup::NoDelete),
        }
    }

    /// Clones the pipe as a slave.
    pub fn share(&self) -> (r: Pipe)
        ensures
            r.handle1 == self.shared().handle1,
            r.handle2 == self.shared().handle2,
            r.path@ == self.path@,
            r.is_slave,
            r.delete == Some(OnCleanup::NoDelete),
            self.wf() ==> r.wf(),
    {
        let handle2 = match &self.handle2 {
            Some(h) => Some(h.share()),
            None => None,
        };
        Pipe {
            handle1: self.handle1.share(),
            handle2,
            path: self.path.clone(),
            is_slave: true,
            delete: Some(OnCleanup::NoDelete),
        }
    }

    /// The pipe after its teardown, and whether the FIFO is deleted.
    pub open spec fn teardown_spec(&self) -> (Pipe, bool) {
        if self.is_slave {
            (*self, false)
        } else {
            (
                Pipe { handle1: Handle { raw: None, owning: false, role: Direction::Unknown }, handle2: None, ..*self },
                self.delete == Some(OnCleanup::Delete),
            )
        }
    }

    /// Tears the pipe down as it goes away. A slave changes nothing. The
    /// master neutralizes its handles, letting go of them without releasing
    /// them itself, and tells whether the FIFO is to be deleted.
    pub fn teardown(&mut self) -> (r: bool)
        ensures
            (*final(self), r) == old(self).teardown_spec(),
            old(self).wf() ==> final(self).wf(),
    {
        if self.is_slave {
            false
        } else {
            self.handle1 = Handle::neutral(Direction::Unknown);
            self.handle2 = None;
            match self.delete {
                Some(OnCleanup::Delete) => true,
                _ => false,
            }
        }
    }
}

/// A slave's teardown neither releases the shared handles nor deletes the
/// FIFO; the master's teardown lets go of its handles, and deletes the FIFO
/// exactly when it was opened with `Delete`.
pub proof fn lemma_only_master_cleans_up(p: Pipe)
    requires
        p.wf(),
        !p.is_slave,
    ensures
        p.shared().teardown_spec() == (p.shared(), false),
        p.shared().handle1 == p.handle1,
        p.shared().handle2 == p.handle2,
        p.teardown_spec().1 == (p.delete == Some(OnCleanup::Delete)),
        !p.teardown_spec().0.handle1.owning,
        p.teardown_spec().0.handle2 is None,
{
}

} // verus!
