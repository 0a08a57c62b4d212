//! One tunnelled connection: the inbound and the outbound pump of one
//! streaming request.
//!
//! A session starts when a request asks for a tunnel and the dial begins.
//! The dial's end moves both pumps at once: to streaming, or to closed if it
//! failed. From then on each pump goes its own way, and the driver may hand
//! the two to separate tasks.

use crate::inbound::{lemma_closed_inbound_is_inert, InboundCommand, InboundEvent, InboundPump};
use crate::outbound::{
    lemma_closed_outbound_is_inert, OutboundCommand, OutboundEvent, OutboundPump,
};
use vstd::prelude::*;

verus! {

/// The two pumps of one tunnelled connection.
#[derive(Clone, Copy, Debug, PartialEq, Eq, Structural)]
pub struct Session {
    pub inbound: InboundPump,
    pub outbound: OutboundPump,
}

impl Session {
    /// The session of a request whose dial is under way.
    pub open spec fn fresh(verbose: bool) -> Session {
        Session { inbound: InboundPump::fresh(verbose), outbound: OutboundPump::fresh(verbose) }
    }

    /// The session after its dial has ended: both pumps learn of it.
    pub open spec fn dialed(self, connected: bool) -> Session {
        if connected {
            Session {
                inbound: self.inbound.after(InboundEvent::Connected),
                outbound: self.outbound.after(OutboundEvent::Connected),
            }
        } else {
            Session {
                inbound: self.inbound.after(InboundEvent::DialFailed),
                outbound: self.outbound.after(OutboundEvent::DialFailed),
            }
        }
    }

    /// Both pumps stream.
    pub open spec fn streaming(self) -> bool {
        self.inbound.phase is Streaming && self.outbound.state.phase() is Streaming
    }

    /// Both pumps are closed: the session is over.
    pub open spec fn over(self) -> bool {
        self.inbound.phase.closed() && self.outbound.state.phase().closed()
    }

    /// A session for a request whose dial is under way. It depends on the
    /// flag alone: nothing of an earlier session enters a new one.
    pub fn dialing(verbose: bool) -> (session: Session)
        ensures
            session == Session::fresh(verbose),
    {
        Session { inbound: InboundPump::new(verbose), outbound: OutboundPump::new(verbose) }
    }

    /// Tells both pumps how the dial ended.
    pub fn dial_ended(&mut self, connected: bool)
        ensures
            *final(self) == old(self).dialed(connected),
    {
        if connected {
            let _ = self.inbound.step(InboundEvent::Connected);
            let _ = self.outbound.step(OutboundEvent::Connected);
        } else {
            let _ = self.inbound.step(InboundEvent::DialFailed);
            let _ = self.outbound.step(OutboundEvent::DialFailed);
        }
    }

    pub fn is_streaming(&self) -> (b: bool)
        ensures
            b == self.streaming(),
    {
        self.inbound.phase().is_streaming() && self.outbound.phase().is_streaming()
    }

    pub fn is_over(&self) -> (b: bool)
        ensures
            b == self.over(),
    {
        self.inbound.phase().is_closed() && self.outbound.phase().is_closed()
    }

    /// Hands an event to the inbound pump. The outbound pump is not touched:
    /// the end or the failure of one direction leaves the other as it was.
    pub fn on_inbound(&mut self, event: InboundEvent) -> (command: InboundCommand)
        ensures
            final(self).inbound == old(self).inbound.after(event),
            final(self).outbound == old(self).outbound,
            command == old(self).inbound.command_for(event),
    {
        self.inbound.step(event)
    }

    /// Hands an event to the outbound pump. The inbound pump is not touched:
    /// a caller who goes away ends the response, and the request body is
    /// still relayed until it ends by itself.
    pub fn on_outbound(&mut self, event: OutboundEvent) -> (command: OutboundCommand)
        ensures
            final(self).outbound == old(self).outbound.after(event),
            final(self).inbound == old(self).inbound,
            command == old(self).outbound.command_for(event),
    {
        self.outbound.step(event)
    }

    /// Parts the session into its pumps, each to be owned by one task.
    pub fn split(self) -> (pumps: (InboundPump, OutboundPump))
        ensures
            pumps.0 == self.inbound,
            pumps.1 == self.outbound,
    {
        (self.inbound, self.outbound)
    }
}

/// The dial decides for both pumps at once: after a dial that succeeded
/// both stream, after one that failed both are closed on error.
pub proof fn lemma_dial_decides(verbose: bool, connected: bool)
    ensures
        connected ==> Session::fresh(verbose).dialed(true).streaming(),
        !connected ==> Session::fresh(verbose).dialed(false).over(),
        !connected ==> Session::fresh(verbose).dialed(false).inbound.phase is ClosedOnError,
        !connected ==> Session::fresh(verbose).dialed(false).outbound.state is ClosedOnError,
{
}

/// A session is dialed once. When its dial has ended, the news of a dial
/// changes nothing: no session goes back to dialing or is opened again.
pub proof fn lemma_session_is_dialed_once(session: Session, connected: bool)
    requires
        !(session.inbound.phase is Dialing),
        !(session.outbound.state is Dialing),
    ensures
        session.dialed(connected) == session,
{
}

/// A session that is over stays over. No event of either direction changes
/// it or makes it ask for a write or an offer, so nothing of it is left
/// that a later session could meet.
pub proof fn lemma_finished_session_stays_finished(
    session: Session,
    body: Seq<InboundEvent>,
    socket: Seq<OutboundEvent>,
)
    requires
        session.over(),
    ensures
        session.inbound.after_all(body) == session.inbound,
        session.outbound.after_all(socket) == session.outbound,
        session.inbound.commands(body) == Seq::new(body.len(), |i: int| InboundCommand::Ignore),
        session.outbound.commands(socket) == Seq::new(
            socket.len(),
            |i: int| OutboundCommand::Ignore,
        ),
{
    lemma_closed_inbound_is_inert(session.inbound, body);
    lemma_closed_outbound_is_inert(session.outbound, socket);
}

} // verus!
