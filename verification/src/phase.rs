//! The life of one direction of a tunnel.

use vstd::prelude::*;

verus! {

/// Where one pump of a session stands. A pump starts in `Dialing`, streams
/// once the connection is there, and ends in one of the two closed phases.
#[derive(Clone, Copy, Debug, PartialEq, Eq, Structural)]
pub enum Phase {
    Dialing,
    Streaming,
    ClosedNormally,
    ClosedOnError,
}

impl Phase {
    /// How far along its life a phase is: the two closed phases are equally far.
    pub open spec fn rank(self) -> nat {
        match self {
            Phase::Dialing => 0,
            Phase::Streaming => 1,
            Phase::ClosedNormally => 2,
            Phase::ClosedOnError => 2,
        }
    }

    /// The pump has ended, one way or the other.
    pub open spec fn closed(self) -> bool {
        self is ClosedNormally || self is ClosedOnError
    }

    /// The moves a pump may make in one step from `self`: it may stay, open
    /// or fail while dialing, and close while streaming. Nothing leads back.
    pub open spec fn leads_to(self, later: Phase) -> bool {
        ||| later == self
        ||| self is Dialing && (later is Streaming || later is ClosedOnError)
        ||| self is Streaming && later.closed()
    }

    pub fn is_closed(&self) -> (b: bool)
        ensures
            b == self.closed(),
    {
        match self {
            Phase::ClosedNormally => true,
            Phase::ClosedOnError => true,
            _ => false,
        }
    }

    pub fn is_streaming(&self) -> (b: bool)
        ensures
            b == (*self is Streaming),
    {
        match self {
            Phase::Streaming => true,
            _ => false,
        }
    }
}

/// A step never moves a pump backwards, never back to dialing, and never
/// out of a closed phase.
pub proof fn lemma_leads_to_is_monotone(earlier: Phase, later: Phase)
    requires
        earlier.leads_to(later),
    ensures
        earlier.rank() <= later.rank(),
        !(later is Dialing) || earlier is Dialing,
        earlier.closed() ==> later == earlier,
{
}

} // verus!
