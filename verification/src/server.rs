//! The connection dispatcher's decisions and per-connection write
//! bookkeeping.
//!
//! The dispatcher owns the listening socket and accepts connections in an
//! endless loop; each accepted connection is served by an independent
//! concurrent handler.  The loop has no terminal condition: a failed
//! accept is reported and the loop continues.

use vstd::prelude::*;

verus! {

/// What one round of the accept loop observed.
#[derive(Debug, PartialEq, Eq)]
pub enum AcceptEvent {
    /// A connection was accepted.
    Accepted,
    /// The accept call failed.
    AcceptFailed,
}

/// What the dispatcher does next.  Every action continues the loop:
/// there is no variant that stops the server.
#[derive(Debug, PartialEq, Eq)]
pub enum DispatcherAction {
    /// Start an independent handler for the new connection, without
    /// waiting for it to finish, then accept again.
    SpawnHandler,
    /// Report the transient accept error, then accept again.
    ReportAndContinue,
}

/// The dispatcher's decision for one accept event.  It is total over the
/// events, so no accept outcome can stop the loop.
pub fn dispatch(ev: &AcceptEvent) -> (a: DispatcherAction)
    ensures
        a is SpawnHandler <==> *ev is Accepted,
        a is ReportAndContinue <==> *ev is AcceptFailed,
{
    match ev {
        AcceptEvent::Accepted => DispatcherAction::SpawnHandler,
        AcceptEvent::AcceptFailed => DispatcherAction::ReportAndContinue,
    }
}

/// Progress of writing one response to its connection.  Partial writes
/// are retried until every byte has been handed to the connection or a
/// write error abandons it; this records how far the handler has come.
pub struct WriteProgress {
    sent: usize,
    total: usize,
}

impl WriteProgress {
    /// How many bytes of the response have been handed to the connection.
    pub closed spec fn spec_sent(self) -> int {
        self.sent as int
    }

    /// The length of the response being written.
    pub closed spec fn spec_total(self) -> int {
        self.total as int
    }

    /// Every byte of the response has been handed to the connection.
    pub open spec fn spec_complete(self) -> bool {
        self.spec_sent() == self.spec_total()
    }

    /// Never more bytes sent than the response holds.
    pub open spec fn wf(self) -> bool {
        self.spec_sent() <= self.spec_total()
    }

    /// Start writing a response of `total` bytes.
    pub fn new(total: usize) -> (w: Self)
        ensures
            w.wf(),
            w.spec_total() == total,
            w.spec_sent() == 0,
    {
        WriteProgress { sent: 0, total }
    }

    /// The offset of the next byte to hand to the connection.
    pub fn offset(&self) -> (r: usize)
        ensures
            r == self.spec_sent(),
    {
        self.sent
    }

    /// The number of bytes still owed to the client.
    pub fn remaining(&self) -> (r: usize)
        requires
            self.wf(),
        ensures
            r == self.spec_total() - self.spec_sent(),
    {
        self.total - self.sent
    }

    /// Whether the whole response has been written.
    pub fn is_complete(&self) -> (r: bool)
        ensures
            r == self.spec_complete(),
    {
        self.sent == self.total
    }

    /// Record that the connection took `n` more bytes.  Writing exactly
    /// what remained completes the response.
    pub fn record(&mut self, n: usize)
        requires
            old(self).wf(),
            n <= old(self).spec_total() - old(self).spec_sent(),
        ensures
            final(self).wf(),
            final(self).spec_total() == old(self).spec_total(),
            final(self).spec_sent() == old(self).spec_sent() + n,
            (n == old(self).spec_total() - old(self).spec_sent()) == final(self).spec_complete(),
    {
        self.sent = self.sent + n;
    }
}

} // verus!
