//! Bookkeeping of a CONNECT relay: one pipe per direction, which keeps the
//! bytes read from one socket until they are written to the other, and the
//! half-close policy that decides what each end of a direction does.
use vstd::prelude::*;

verus! {

/// The size of the transfer buffer of each direction.
pub const RELAY_BUFFER_SIZE: usize = 16384;

/// Model of a pipe: everything read so far, everything written on so far,
/// the bytes in between, and whether the reading side has ended.
pub struct PipeView {
    pub received: Seq<u8>,
    pub delivered: Seq<u8>,
    pub pending: Seq<u8>,
    pub eof: bool,
}

impl PipeView {
    /// Bytes leave in the order they came, none lost or added.
    pub open spec fn wf(self) -> bool {
        self.delivered + self.pending == self.received
    }
}

/// One direction of a relay.
pub struct Pipe {
    pending: Vec<u8>,
    received: Ghost<Seq<u8>>,
    delivered: Ghost<Seq<u8>>,
    eof: bool,
}

impl View for Pipe {
    type V = PipeView;

    closed spec fn view(&self) -> PipeView {
        PipeView {
            received: self.received@,
            delivered: self.delivered@,
            pending: self.pending@,
            eof: self.eof,
        }
    }
}

impl Pipe {
    /// A pipe through which nothing has passed yet.
    pub fn new() -> (r: Pipe)
        ensures
            r@.wf(),
            r@.received == Seq::<u8>::empty(),
            r@.delivered == Seq::<u8>::empty(),
            r@.pending == Seq::<u8>::empty(),
            !r@.eof,
    {
        Pipe {
            pending: Vec::new(),
            received: Ghost(Seq::empty()),
            delivered: Ghost(Seq::empty()),
            eof: false,
        }
    }

    /// Takes in bytes read from the source socket.
    pub fn push_received(&mut self, data: &[u8])
        requires
            old(self)@.wf(),
            !old(self)@.eof,
        ensures
            final(self)@.wf(),
            final(self)@.received == old(self)@.received + data@,
            final(self)@.delivered == old(self)@.delivered,
            final(self)@.pending == old(self)@.pending + data@,
            final(self)@.eof == old(self)@.eof,
    {
        self.pending.extend_from_slice(data);
        self.received = Ghost(self.received@ + data@);
        assert(self.delivered@ + self.pending@ =~= self.received@);
    }

    /// The bytes waiting to be written to the destination socket.
    pub fn pending(&self) -> (r: &[u8])
        ensures
            r@ == self@.pending,
    {
        self.pending.as_slice()
    }

    /// Records that the first `n` waiting bytes were written.
    pub fn mark_written(&mut self, n: usize)
        requires
            old(self)@.wf(),
            n <= old(self)@.pending.len(),
        ensures
            final(self)@.wf(),
            final(self)@.received == old(self)@.received,
            final(self)@.delivered == old(self)@.delivered + old(self)@.pending.subrange(0, n as int),
            final(self)@.pending == old(self)@.pending.subrange(n as int, old(self)@.pending.len() as int),
            final(self)@.eof == old(self)@.eof,
    {
        let ghost old_pending = self.pending@;
        let mut rest: Vec<u8> = Vec::new();
        let mut i: usize = n;
        while i < self.pending.len()
            invariant
                n <= i <= self.pending.len(),
                self.pending@ == old_pending,
                rest@ =~= old_pending.subrange(n as int, i as int),
            decreases self.pending.len() - i,
        {
            rest.push(self.pending[i]);
            i = i + 1;
        }
        self.delivered = Ghost(self.delivered@ + old_pending.subrange(0, n as int));
        self.pending = rest;
        assert(old_pending =~= old_pending.subrange(0, n as int) + old_pending.subrange(
            n as int,
            old_pending.len() as int,
        ));
        assert(self.delivered@ + self.pending@ =~= self.received@);
    }

    /// Records that the source socket reached end of file.
    pub fn mark_eof(&mut self)
        requires
            old(self)@.wf(),
        ensures
            final(self)@ == (PipeView { eof: true, ..old(self)@ }),
    {
        self.eof = true;
    }

    /// Whether every byte read has been written on.
    pub fn is_drained(&self) -> (r: bool)
        ensures
            r == (self@.pending.len() == 0),
    {
        self.pending.len() == 0
    }

    /// Whether the destination's writing side is to be shut down now: the
    /// source ended and every byte it sent has been written on.
    pub fn should_shutdown(&self) -> (r: bool)
        ensures
            r == (self@.eof && self@.pending.len() == 0),
    {
        self.eof && self.pending.len() == 0
    }
}

/// Once a pipe holds nothing back, the destination got exactly the bytes the
/// source sent, in order.
pub proof fn lemma_drained_pipe_delivered_all(p: PipeView)
    requires
        p.wf(),
        p.pending.len() == 0,
    ensures
        p.delivered == p.received,
{
    assert(p.delivered + p.pending =~= p.delivered);
}

/// One of the two sockets of a relay.
#[derive(Clone, Copy, Debug, PartialEq, Eq)]
pub enum Side {
    Client,
    Target,
}

/// A direction of a relay, named by the socket it reads from.
#[derive(Clone, Copy, Debug, PartialEq, Eq)]
pub enum Direction {
    ClientToTarget,
    TargetToClient,
}

/// How a direction ended.
#[derive(Clone, Copy, Debug, PartialEq, Eq)]
pub enum DirectionEnd {
    /// The source reached end of file and all its bytes were written on.
    Eof,
    /// A read or a write failed.
    Failed,
}

/// What the relay does when a direction ends.
#[derive(Clone, Copy, Debug, PartialEq, Eq)]
pub enum RelayAction {
    /// Shut down the writing side of this socket; the other direction goes on.
    ShutdownWrite(Side),
    /// Close both sockets.
    CloseBoth,
}

/// The socket a direction writes to.
pub open spec fn destination(d: Direction) -> Side {
    match d {
        Direction::ClientToTarget => Side::Target,
        Direction::TargetToClient => Side::Client,
    }
}

/// Which directions of a relay have ended, and whether one failed.
#[derive(Clone, Copy, Debug, PartialEq, Eq)]
pub struct RelayState {
    pub client_to_target_done: bool,
    pub target_to_client_done: bool,
    pub failed: bool,
}

impl RelayState {
    /// A relay with both directions running.
    pub fn new() -> (r: RelayState)
        ensures
            !r.client_to_target_done,
            !r.target_to_client_done,
            !r.failed,
    {
        RelayState { client_to_target_done: false, target_to_client_done: false, failed: false }
    }

    pub open spec fn spec_finished(self) -> bool {
        self.failed || (self.client_to_target_done && self.target_to_client_done)
    }

    /// Whether the relay is over: both directions ended, or one failed.
    pub fn finished(&self) -> (r: bool)
        ensures
            r == self.spec_finished(),
    {
        self.failed || (self.client_to_target_done && self.target_to_client_done)
    }

    /// Records that direction `d` ended as `end` says; a clean end shuts
    /// down the writing side of the socket it wrote to, a failure closes
    /// both sockets.
    pub fn on_end(&mut self, d: Direction, end: DirectionEnd) -> (r: RelayAction)
        ensures
            end == DirectionEnd::Failed ==> r == RelayAction::CloseBoth && final(self).failed,
            end == DirectionEnd::Eof ==> r == RelayAction::ShutdownWrite(destination(d))
                && final(self).failed == old(self).failed,
            d == Direction::ClientToTarget ==> final(self).client_to_target_done
                && final(self).target_to_client_done == old(self).target_to_client_done,
            d == Direction::TargetToClient ==> final(self).target_to_client_done
                && final(self).client_to_target_done == old(self).client_to_target_done,
    {
        match d {
            Direction::ClientToTarget => self.client_to_target_done = true,
            Direction::TargetToClient => self.target_to_client_done = true,
        }
        match end {
            DirectionEnd::Failed => {
                self.failed = true;
                RelayAction::CloseBoth
            },
            DirectionEnd::Eof => match d {
                Direction::ClientToTarget => RelayAction::ShutdownWrite(Side::Target),
                Direction::TargetToClient => RelayAction::ShutdownWrite(Side::Client),
            },
        }
    }
}

} // verus!
