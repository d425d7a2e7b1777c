//! The Windows named-pipe state machine.
//!
//! A pipe holds no handle, or one: a client handle, obtained by connecting to
//! a listening instance, for writing; or a listener instance that completed
//! its connect handshake, for reading. The caller makes the OS calls that
//! each step asks for and hands their outcome back.
use vstd::prelude::*;

use crate::handle::Handle;
use crate::Error;

verus! {

/// Windows error code: the pipe is being closed (the reader went away).
pub const ERROR_NO_DATA: i32 = 232;

/// Windows error code: no process is on the other end of the pipe.
pub const ERROR_PIPE_NOT_CONNECTED: i32 = 233;

/// Which side of a connection a handle serves.
#[derive(Clone, Copy, Debug, PartialEq, Eq, Structural)]
pub enum Side {
    /// A listener instance; disconnected before it is closed.
    Server,
    /// A connection to a listener; only closed.
    Client,
}

/// A Windows named pipe, by its `\\.\pipe\<name>` path.
#[derive(Clone, Debug)]
pub struct Pipe {
    pub handle: Option<Handle<Side>>,
    pub path: String,
}

/// What the caller does next to read.
#[derive(Clone, Copy, Debug, PartialEq, Eq, Structural)]
pub enum ReadStep {
    /// Create a listener instance (the primary one if `first`), connect it,
    /// and hand it over with `attach_listener`.
    Listen { first: bool },
    /// Read from this descriptor.
    Read(i64),
}

/// What the caller does next to write.
#[derive(Debug, PartialEq, Eq)]
pub enum WriteStep {
    /// Wait for a listener, connect a client to it, and hand it over with
    /// `attach_client`.
    Connect,
    /// Write the bytes to this descriptor.
    Write(i64),
    /// The write is over, with this result.
    Finished(crate::Result<usize>),
}

/// What the caller does next to flush.
#[derive(Debug, PartialEq, Eq)]
pub enum FlushStep {
    /// No handle yet: connect a client and hand it over with `attach_client`.
    Connect,
    /// Flush this descriptor and report with `flush_outcome`.
    Flush(i64),
    /// The flush is over, with this result.
    Finished(crate::Result<()>),
}

/// The teardown steps for a released handle, each attempted whether or not
/// an earlier one failed.
#[derive(Clone, Copy, Debug, PartialEq, Eq, Structural)]
pub struct Release {
    pub flush: bool,
    pub disconnect: bool,
    pub close: bool,
}

/// The teardown that the last owning reference to a handle performs.
pub open spec fn release_spec(h: Handle<Side>) -> Release {
    Release {
        flush: h.owning && h.raw is Some,
        disconnect: h.owning && h.raw is Some && h.role == Side::Server,
        close: h.owning && h.raw is Some,
    }
}

/// Decides the teardown of a handle whose last owning reference goes away:
/// flush, then disconnect if it is a listener, then close. A non-owning
/// reference releases nothing.
pub fn release(h: &Handle<Side>) -> (r: Release)
    ensures
        r == release_spec(*h),
{
    let live = h.owning && h.raw.is_some();
    let server = match h.role {
        Side::Server => true,
        Side::Client => false,
    };
    Release { flush: live, disconnect: live && server, close: live }
}

/// The result of a read, from what the OS reported: the count read, or the
/// failure code.
pub open spec fn read_result_spec(outcome: core::result::Result<usize, i32>) -> crate::Result<usize> {
    match outcome {
        Ok(n) => Ok(n),
        Err(code) => if code == ERROR_PIPE_NOT_CONNECTED {
            Ok(0)
        } else {
            Err(Error::Os(code))
        },
    }
}

/// Interprets the outcome of a read: a peer that is not connected is the end
/// of the data (zero bytes), any other failure is an error.
pub fn read_result(outcome: core::result::Result<usize, i32>) -> (r: crate::Result<usize>)
    ensures
        r == read_result_spec(outcome),
{
    match outcome {
        Ok(n) => Ok(n),
        Err(code) => if code == ERROR_PIPE_NOT_CONNECTED {
            Ok(0)
        } else {
            Err(Error::Os(code))
        },
    }
}

/// The result of a connect handshake on a listener, from what the OS
/// reported: success, or the failure code.
pub open spec fn connect_result_spec(outcome: core::result::Result<(), i32>) -> crate::Result<()> {
    match outcome {
        Ok(()) => Ok(()),
        Err(code) => if code == ERROR_PIPE_NOT_CONNECTED {
            Ok(())
        } else {
            Err(Error::Os(code))
        },
    }
}

/// Interprets the outcome of a connect handshake: a peer that is not
/// connected yet is no failure.
pub fn connect_result(outcome: core::result::Result<(), i32>) -> (r: crate::Result<()>)
    ensures
        r == connect_result_spec(outcome),
{
    match outcome {
        Ok(()) => Ok(()),
        Err(code) => if code == ERROR_PIPE_NOT_CONNECTED {
            Ok(())
        } else {
            Err(Error::Os(code))
        },
    }
}

impl Pipe {
    pub open spec fn wf(&self) -> bool {
        self.handle matches Some(h) ==> h.wf()
    }

    /// The pipe at `path`, with no handle yet: handles are acquired on the
    /// first read or write.
    pub fn open(path: &str) -> (r: Pipe)
        ensures
            r.handle is None,
            r.path@ == path@,
            r.wf(),
    {
        Pipe { handle: None, path: path.to_owned() }
    }

    pub open spec fn read_step_spec(&self) -> ReadStep {
        match self.handle {
            None => ReadStep::Listen { first: true },
            Some(h) => match h.raw {
                None => ReadStep::Listen { first: false },
                Some(raw) => ReadStep::Read(raw),
            },
        }
    }

    /// The next step of a read: a cached handle that reaches its descriptor
    /// is reused; otherwise a listener is created, the primary instance when
    /// the pipe never had a handle.
    pub fn read_step(&self) -> (r: ReadStep)
        ensures
            r == self.read_step_spec(),
    {
        match &self.handle {
            None => ReadStep::Listen { first: true },
            Some(h) => match h.raw {
                None => ReadStep::Listen { first: false },
                Some(raw) => ReadStep::Read(raw),
            },
        }
    }

    /// Caches a listener `raw` whose connect handshake succeeded.
    pub fn attach_listener(&mut self, raw: i64)
        ensures
            final(self).handle == Some(
                Handle { raw: Some(raw), owning: true, role: Side::Server },
            ),
            final(self).path == old(self).path,
            final(self).wf(),
    {
        self.handle = Some(Handle::owning(raw, Side::Server));
    }

    /// Caches a connected client `raw`.
    pub fn attach_client(&mut self, raw: i64)
        ensures
            final(self).handle == Some(
                Handle { raw: Some(raw), owning: true, role: Side::Client },
            ),
            final(self).path == old(self).path,
            final(self).wf(),
    {
        self.handle = Some(Handle::owning(raw, Side::Client));
    }

    pub open spec fn write_step_spec(&self) -> WriteStep {
        match self.handle {
            None => WriteStep::Connect,
            Some(h) => match h.raw {
                None => WriteStep::Finished(Err(Error::Os(ERROR_PIPE_NOT_CONNECTED))),
                Some(raw) => WriteStep::Write(raw),
            },
        }
    }

    /// The first step of a write: connect when there is no handle, else write
    /// through the cached one.
    pub fn write_step(&self) -> (r: WriteStep)
        ensures
            r == self.write_step_spec(),
    {
        match &self.handle {
            None => WriteStep::Connect,
            Some(h) => match h.raw {
                None => WriteStep::Finished(Err(Error::Os(ERROR_PIPE_NOT_CONNECTED))),
                Some(raw) => WriteStep::Write(raw),
            },
        }
    }

    /// The step after a write attempt, and whether the handle is dropped.
    pub open spec fn write_outcome_spec(
        &self,
        retried: bool,
        outcome: core::result::Result<usize, i32>,
    ) -> (Pipe, WriteStep) {
        match outcome {
            Ok(n) => (*self, WriteStep::Finished(Ok(n))),
            Err(code) => if code == ERROR_NO_DATA && !retried {
                (Pipe { handle: None, ..*self }, WriteStep::Connect)
            } else {
                (*self, WriteStep::Finished(Err(Error::Os(code))))
            },
        }
    }

    /// Handles the outcome of a write attempt; `retried` tells whether this
    /// attempt already followed a reconnect. A reader that went away on the
    /// first attempt drops the handle and asks for one reconnect; any other
    /// failure, and every failure after the reconnect, ends the write.
    pub fn write_outcome(&mut self, retried: bool, outcome: core::result::Result<usize, i32>) -> (r: WriteStep)
        ensures
            (*final(self), r) == old(self).write_outcome_spec(retried, outcome),
            old(self).wf() ==> final(self).wf(),
    {
        match outcome {
            Ok(n) => WriteStep::Finished(Ok(n)),
            Err(code) => if code == ERROR_NO_DATA && !retried {
                self.handle = None;
                WriteStep::Connect
            } else {
                WriteStep::Finished(Err(Error::Os(code)))
            },
        }
    }

    pub open spec fn flush_step_spec(&self) -> FlushStep {
        match self.handle {
            None => FlushStep::Connect,
            Some(h) => match h.raw {
                None => FlushStep::Finished(Err(Error::Os(ERROR_PIPE_NOT_CONNECTED))),
                Some(raw) => FlushStep::Flush(raw),
            },
        }
    }

    /// The first step of a flush: with no handle, a client is connected and
    /// nothing is flushed.
    pub fn flush_step(&self) -> (r: FlushStep)
        ensures
            r == self.flush_step_spec(),
    {
        match &self.handle {
            None => FlushStep::Connect,
            Some(h) => match h.raw {
                None => FlushStep::Finished(Err(Error::Os(ERROR_PIPE_NOT_CONNECTED))),
                Some(raw) => FlushStep::Flush(raw),
            },
        }
    }

    /// Handles the outcome of flushing the cached handle: after a success the
    /// handle is dropped, so that the next write connects afresh.
    pub fn flush_outcome(&mut self, outcome: core::result::Result<(), i32>) -> (r: crate::Result<()>)
        ensures
            match outcome {
                Ok(()) => r == Ok::<(), Error>(()) && final(self).handle is None,
                Err(code) => r == Err::<(), Error>(Error::Os(code)) && *final(self) == *old(self),
            },
            final(self).path == old(self).path,
            old(self).wf() ==> final(self).wf(),
    {
        match outcome {
            Ok(()) => {
                self.handle = None;
                Ok(())
            },
            Err(code) => Err(Error::Os(code)),
        }
    }

    pub open spec fn close_target_spec(&self) -> Option<i64> {
        match self.handle {
            Some(h) => if h.role == Side::Server {
                h.raw
            } else {
                None
            },
            None => None,
        }
    }

    /// The descriptor that an explicit close disconnects: that of a listener
    /// handle, if it reaches one.
    pub fn close_target(&self) -> (r: Option<i64>)
        ensures
            r == self.close_target_spec(),
    {
        match &self.handle {
            Some(h) => match h.role {
                Side::Server => h.raw,
                Side::Client => None,
            },
            None => None,
        }
    }

    pub open spec fn close_outcome_spec(&self, outcome: core::result::Result<(), i32>) -> (Pipe, crate::Result<()>) {
        match outcome {
            Ok(()) => match self.handle {
                Some(h) => (Pipe { handle: Some(Handle { role: Side::Client, ..h }), ..*self }, Ok(())),
                None => (*self, Ok(())),
            },
            Err(code) => (*self, Err(Error::Os(code))),
        }
    }

    /// Finishes an explicit close, from the outcome of the disconnect (`Ok`
    /// when there was nothing to disconnect). Once disconnected, a listener
    /// handle is retagged as a client so that its release does not
    /// disconnect it a second time.
    pub fn close_outcome(&mut self, outcome: core::result::Result<(), i32>) -> (r: crate::Result<()>)
        ensures
            (*final(self), r) == old(self).close_outcome_spec(outcome),
            old(self).wf() ==> final(self).wf(),
    {
        match outcome {
            Ok(()) => {
                match &mut self.handle {
                    Some(h) => h.set_type(Side::Client),
                    None => {},
                }
                Ok(())
            },
            Err(code) => Err(Error::Os(code)),
        }
    }
}

/// A read that finds no connected peer ends the data: it yields zero bytes
/// and no error. Every other failure of the OS read is an error.
pub proof fn lemma_disconnected_read_is_end(code: i32)
    ensures
        read_result_spec(Err(ERROR_PIPE_NOT_CONNECTED)) == Ok::<usize, Error>(0),
        code != ERROR_PIPE_NOT_CONNECTED ==> read_result_spec(Err(code)) == Err::<usize, Error>(
            Error::Os(code),
        ),
{
}

/// A write that finds the reader gone reconnects exactly once: the first
/// such failure drops the handle and asks for a new connection; once the new
/// client is attached, its write is retried, and any failure of that retry
/// ends the write with the error.
pub proof fn lemma_single_reconnect(p: Pipe, client: i64, code: i32)
    ensures
        p.write_outcome_spec(false, Err(ERROR_NO_DATA)).0.handle is None,
        p.write_outcome_spec(false, Err(ERROR_NO_DATA)).1 == WriteStep::Connect,
        ({
            let q = Pipe {
                handle: Some(Handle { raw: Some(client), owning: true, role: Side::Client }),
                ..p.write_outcome_spec(false, Err(ERROR_NO_DATA)).0
            };
            &&& q.write_step_spec() == WriteStep::Write(client)
            &&& q.write_outcome_spec(true, Err(code)) == (q, WriteStep::Finished(Err(Error::Os(code))))
        }),
{
}

/// After an explicit close has disconnected a listener, a second close
/// disconnects nothing, and the release of the handle closes it without
/// disconnecting it again.
pub proof fn lemma_close_once(p: Pipe)
    requires
        p.wf(),
    ensures
        ({
            let q = p.close_outcome_spec(Ok(())).0;
            &&& q.close_target_spec() is None
            &&& (q.handle matches Some(h) ==> !release_spec(h).disconnect)
            &&& q.close_outcome_spec(Ok(())) == (q, Ok::<(), Error>(()))
        }),
{
}

} // verus!
