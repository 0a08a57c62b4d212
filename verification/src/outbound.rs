//! The outbound pump: from the TCP connection to the response body.
//!
//! Each chunk read from the connection becomes one frame of the response
//! body. Between the pump and the response stands a handoff queue of
//! `HANDOFF_SLOTS` slots. The pump holds a frame until the queue has taken
//! it and reads no further meanwhile, so the caller's pace bounds the pace
//! at which the connection is read. The pump ends when the connection ends
//! or fails, or when nobody is left to receive. It knows nothing of the
//! inbound pump.

use crate::phase::Phase;
use vstd::prelude::*;

verus! {

/// The number of frames that the handoff queue buffers.
pub const HANDOFF_SLOTS: usize = 1;

/// Where the outbound pump stands. While streaming it either reads the
/// connection or holds one frame for the handoff queue.
#[derive(Clone, Copy, Debug, PartialEq, Eq, Structural)]
pub enum OutboundState {
    Dialing,
    Reading,
    Handing,
    ClosedNormally,
    ClosedOnError,
}

impl OutboundState {
    /// The phase of the pump's life that the state belongs to.
    pub open spec fn phase(self) -> Phase {
        match self {
            OutboundState::Dialing => Phase::Dialing,
            OutboundState::Reading => Phase::Streaming,
            OutboundState::Handing => Phase::Streaming,
            OutboundState::ClosedNormally => Phase::ClosedNormally,
            OutboundState::ClosedOnError => Phase::ClosedOnError,
        }
    }
}

/// What the driver of an outbound pump observes.
#[derive(Debug, PartialEq, Eq)]
pub enum OutboundEvent {
    /// The dial succeeded.
    Connected,
    /// The dial failed.
    DialFailed,
    /// The connection gave its next chunk.
    Chunk(Vec<u8>),
    /// The connection is at its end.
    SocketEnded,
    /// The connection could not be read.
    SocketFailed,
    /// The handoff queue took the frame that the pump held.
    Taken,
    /// The receiving side of the handoff queue is gone.
    ReceiverGone,
}

/// What the driver of an outbound pump does next.
#[derive(Debug, PartialEq, Eq)]
pub enum OutboundCommand {
    /// Read the next chunk from the connection.
    Read,
    /// Put `frame` into the handoff queue, waiting until it has room. With
    /// `announce`, first log it.
    Offer { frame: Vec<u8>, announce: bool },
    /// End the response body. With `complain`, first report that the
    /// connection could not be read.
    Stop { complain: bool },
    /// The event does not concern the pump as it stands: do nothing.
    Ignore,
}

/// The outbound pump of one session.
#[derive(Clone, Copy, Debug, PartialEq, Eq, Structural)]
pub struct OutboundPump {
    pub state: OutboundState,
    pub verbose: bool,
}

impl OutboundPump {
    /// The pump of a session whose dial is under way.
    pub open spec fn fresh(verbose: bool) -> OutboundPump {
        OutboundPump { state: OutboundState::Dialing, verbose }
    }

    /// The state that `event` leaves the pump in.
    pub open spec fn state_after(self, event: OutboundEvent) -> OutboundState {
        match (self.state, event) {
            (OutboundState::Dialing, OutboundEvent::Connected) => OutboundState::Reading,
            (OutboundState::Dialing, OutboundEvent::DialFailed) => OutboundState::ClosedOnError,
            (OutboundState::Reading, OutboundEvent::Chunk(_)) => OutboundState::Handing,
            (OutboundState::Reading, OutboundEvent::SocketEnded) => OutboundState::ClosedNormally,
            (OutboundState::Reading, OutboundEvent::SocketFailed) => OutboundState::ClosedOnError,
            (OutboundState::Handing, OutboundEvent::Taken) => OutboundState::Reading,
            (OutboundState::Handing, OutboundEvent::ReceiverGone) => OutboundState::ClosedOnError,
            _ => self.state,
        }
    }

    /// The pump after `event`: only its state can change.
    pub open spec fn after(self, event: OutboundEvent) -> OutboundPump {
        OutboundPump { state: self.state_after(event), verbose: self.verbose }
    }

    /// What the pump asks of its driver on `event`.
    pub open spec fn command_for(self, event: OutboundEvent) -> OutboundCommand {
        match (self.state, event) {
            (OutboundState::Dialing, OutboundEvent::Connected) => OutboundCommand::Read,
            (OutboundState::Dialing, OutboundEvent::DialFailed) => OutboundCommand::Stop {
                complain: false,
            },
            (OutboundState::Reading, OutboundEvent::Chunk(frame)) => OutboundCommand::Offer {
                frame,
                announce: self.verbose,
            },
            (OutboundState::Reading, OutboundEvent::SocketEnded) => OutboundCommand::Stop {
                complain: false,
            },
            (OutboundState::Reading, OutboundEvent::SocketFailed) => OutboundCommand::Stop {
                complain: true,
            },
            (OutboundState::Handing, OutboundEvent::Taken) => OutboundCommand::Read,
            (OutboundState::Handing, OutboundEvent::ReceiverGone) => OutboundCommand::Stop {
                complain: false,
            },
            _ => OutboundCommand::Ignore,
        }
    }

    /// A pump for a session whose dial is under way.
    pub fn new(verbose: bool) -> (pump: OutboundPump)
        ensures
            pump == OutboundPump::fresh(verbose),
    {
        OutboundPump { state: OutboundState::Dialing, verbose }
    }

    /// Where the pump stands in its life, reading or holding a frame alike.
    pub fn phase(&self) -> (phase: Phase)
        ensures
            phase == self.state.phase(),
    {
        match self.state {
            OutboundState::Dialing => Phase::Dialing,
            OutboundState::Reading => Phase::Streaming,
            OutboundState::Handing => Phase::Streaming,
            OutboundState::ClosedNormally => Phase::ClosedNormally,
            OutboundState::ClosedOnError => Phase::ClosedOnError,
        }
    }

    /// Takes one event and says what to do next. A chunk goes out as it came
    /// in, and the pump asks for the next one only when the queue has taken
    /// this one; the end of the connection, a failed read or a receiver that
    /// is gone closes the pump for good.
    pub fn step(&mut self, event: OutboundEvent) -> (command: OutboundCommand)
        ensures
            *final(self) == old(self).after(event),
            command == old(self).command_for(event),
            old(self).state.phase().leads_to(final(self).state.phase()),
    {
        let verbose = self.verbose;
        match self.state {
            OutboundState::Dialing => match event {
                OutboundEvent::Connected => {
                    self.state = OutboundState::Reading;
                    OutboundCommand::Read
                },
                OutboundEvent::DialFailed => {
                    self.state = OutboundState::ClosedOnError;
                    OutboundCommand::Stop { complain: false }
                },
                _ => OutboundCommand::Ignore,
            },
            OutboundState::Reading => match event {
                OutboundEvent::Chunk(frame) => {
                    self.state = OutboundState::Handing;
                    OutboundCommand::Offer { frame, announce: verbose }
                },
                OutboundEvent::SocketEnded => {
                    self.state = OutboundState::ClosedNormally;
                    OutboundCommand::Stop { complain: false }
                },
                OutboundEvent::SocketFailed => {
                    self.state = OutboundState::ClosedOnError;
                    OutboundCommand::Stop { complain: true }
                },
                _ => OutboundCommand::Ignore,
            },
            OutboundState::Handing => match event {
                OutboundEvent::Taken => {
                    self.state = OutboundState::Reading;
                    OutboundCommand::Read
                },
                OutboundEvent::ReceiverGone => {
                    self.state = OutboundState::ClosedOnError;
                    OutboundCommand::Stop { complain: false }
                },
                _ => OutboundCommand::Ignore,
            },
            _ => OutboundCommand::Ignore,
        }
    }
}

impl OutboundPump {
    /// The pump after all of `events`, taken in order.
    pub open spec fn after_all(self, events: Seq<OutboundEvent>) -> OutboundPump
        decreases events.len(),
    {
        if events.len() == 0 {
            self
        } else {
            self.after_all(events.drop_last()).after(events.last())
        }
    }

    /// What the pump asks of its driver on each of `events`, in order.
    pub open spec fn commands(self, events: Seq<OutboundEvent>) -> Seq<OutboundCommand>
        decreases events.len(),
    {
        if events.len() == 0 {
            Seq::empty()
        } else {
            self.commands(events.drop_last()).push(
                self.after_all(events.drop_last()).command_for(events.last()),
            )
        }
    }
}

/// The frames that `commands` offer to the handoff queue, in order.
pub open spec fn offers_of(commands: Seq<OutboundCommand>) -> Seq<Vec<u8>>
    decreases commands.len(),
{
    if commands.len() == 0 {
        Seq::empty()
    } else {
        match commands.last() {
            OutboundCommand::Offer { frame, .. } => offers_of(commands.drop_last()).push(frame),
            _ => offers_of(commands.drop_last()),
        }
    }
}

/// How often the handoff queue took a frame in `events`.
pub open spec fn taken_in(events: Seq<OutboundEvent>) -> nat
    decreases events.len(),
{
    if events.len() == 0 {
        0
    } else if events.last() is Taken {
        taken_in(events.drop_last()) + 1
    } else {
        taken_in(events.drop_last())
    }
}

/// What a driver observes of a connection that gives `chunks` and then goes
/// on, while the handoff queue takes each frame in turn.
pub open spec fn socket_script(chunks: Seq<Vec<u8>>) -> Seq<OutboundEvent>
    decreases chunks.len(),
{
    if chunks.len() == 0 {
        Seq::empty()
    } else {
        socket_script(chunks.drop_last()).push(OutboundEvent::Chunk(chunks.last())).push(
            OutboundEvent::Taken,
        )
    }
}

/// One more event is one more step.
pub proof fn lemma_outbound_run_extends(
    pump: OutboundPump,
    events: Seq<OutboundEvent>,
    event: OutboundEvent,
)
    ensures
        pump.after_all(events.push(event)) == pump.after_all(events).after(event),
        pump.commands(events.push(event)) == pump.commands(events).push(
            pump.after_all(events).command_for(event),
        ),
{
    assert(events.push(event).drop_last() =~= events);
}

/// A pump only moves forward: over any events its phase never falls back
/// and its flag never changes, and it answers each event with one command.
pub proof fn lemma_outbound_run_is_monotone(pump: OutboundPump, events: Seq<OutboundEvent>)
    ensures
        pump.state.phase().rank() <= pump.after_all(events).state.phase().rank(),
        pump.after_all(events).verbose == pump.verbose,
        pump.commands(events).len() == events.len(),
    decreases events.len(),
{
    if events.len() > 0 {
        lemma_outbound_run_is_monotone(pump, events.drop_last());
    }
}

/// A closed pump is closed for good: no event changes it, and it asks for
/// nothing.
pub proof fn lemma_closed_outbound_is_inert(pump: OutboundPump, events: Seq<OutboundEvent>)
    requires
        pump.state.phase().closed(),
    ensures
        pump.after_all(events) == pump,
        pump.commands(events) == Seq::new(events.len(), |i: int| OutboundCommand::Ignore),
        offers_of(pump.commands(events)) == Seq::<Vec<u8>>::empty(),
    decreases events.len(),
{
    if events.len() > 0 {
        lemma_closed_outbound_is_inert(pump, events.drop_last());
        assert(pump.commands(events).drop_last() =~= pump.commands(events.drop_last()));
        assert(pump.commands(events) =~= Seq::new(events.len(), |i: int| OutboundCommand::Ignore));
    }
}

/// The pump never runs ahead of the caller. Whatever the events, it has
/// offered at most one frame more than the handoff queue has taken, and
/// none more while it reads: it asks for the next chunk only once the queue
/// has taken the last frame.
pub proof fn lemma_one_frame_at_a_time(pump: OutboundPump, events: Seq<OutboundEvent>)
    ensures
        offers_of(pump.commands(events)).len() <= taken_in(events) + 1,
        pump.after_all(events).state is Reading || pump.after_all(events).state is Dialing
            ==> offers_of(pump.commands(events)).len() <= taken_in(events),
    decreases events.len(),
{
    if events.len() > 0 {
        lemma_one_frame_at_a_time(pump, events.drop_last());
        assert(pump.commands(events).drop_last() =~= pump.commands(events.drop_last()));
    }
}

/// With a connection that gives `chunks` and a handoff queue that takes
/// each frame, the pump offers exactly `chunks`, in the order and as they
/// came, and reads on.
pub proof fn lemma_every_chunk_is_offered(pump: OutboundPump, chunks: Seq<Vec<u8>>)
    requires
        pump.state is Reading,
    ensures
        pump.after_all(socket_script(chunks)) == pump,
        offers_of(pump.commands(socket_script(chunks))) == chunks,
    decreases chunks.len(),
{
    if chunks.len() > 0 {
        let earlier = socket_script(chunks.drop_last());
        let chunk = OutboundEvent::Chunk(chunks.last());
        lemma_every_chunk_is_offered(pump, chunks.drop_last());
        lemma_outbound_run_extends(pump, earlier, chunk);
        lemma_outbound_run_extends(pump, earlier.push(chunk), OutboundEvent::Taken);
        let asked = pump.commands(earlier).push(pump.command_for(chunk));
        assert(asked.drop_last() =~= pump.commands(earlier));
        assert(offers_of(asked) == chunks.drop_last().push(chunks.last()));
        assert(pump.commands(socket_script(chunks)) == asked.push(OutboundCommand::Read));
        assert(asked.push(OutboundCommand::Read).drop_last() =~= asked);
        assert(chunks.drop_last().push(chunks.last()) =~= chunks);
    }
}

/// When such a connection then ends, the pump closes normally; when it
/// fails, the pump reports it and closes on error. Either way the response
/// body holds the chunks read so far and simply ends.
pub proof fn lemma_socket_end_closes(pump: OutboundPump, chunks: Seq<Vec<u8>>, failed: bool)
    requires
        pump.state is Reading,
    ensures
        ({
            let last = if failed {
                OutboundEvent::SocketFailed
            } else {
                OutboundEvent::SocketEnded
            };
            let events = socket_script(chunks).push(last);
            &&& pump.after_all(events).state == if failed {
                OutboundState::ClosedOnError
            } else {
                OutboundState::ClosedNormally
            }
            &&& pump.commands(events).last() == OutboundCommand::Stop { complain: failed }
            &&& offers_of(pump.commands(events)) == chunks
        }),
{
    let last = if failed {
        OutboundEvent::SocketFailed
    } else {
        OutboundEvent::SocketEnded
    };
    let script = socket_script(chunks);
    lemma_every_chunk_is_offered(pump, chunks);
    lemma_outbound_run_extends(pump, script, last);
    assert(pump.commands(script.push(last)).drop_last() =~= pump.commands(script));
}

/// When the caller goes away while the pump holds a frame, the pump closes
/// on error and stays closed: whatever happens after, it offers nothing
/// more.
pub proof fn lemma_receiver_gone_closes(
    pump: OutboundPump,
    chunks: Seq<Vec<u8>>,
    held: Vec<u8>,
    later: Seq<OutboundEvent>,
)
    requires
        pump.state is Reading,
    ensures
        ({
            let events = socket_script(chunks).push(OutboundEvent::Chunk(held)).push(
                OutboundEvent::ReceiverGone,
            );
            &&& pump.after_all(events).state == OutboundState::ClosedOnError
            &&& pump.commands(events).last() == OutboundCommand::Stop { complain: false }
            &&& offers_of(pump.commands(events)) == chunks.push(held)
            &&& pump.after_all(events).after_all(later) == pump.after_all(events)
            &&& offers_of(pump.after_all(events).commands(later)) == Seq::<Vec<u8>>::empty()
        }),
{
    let script = socket_script(chunks);
    let chunk = OutboundEvent::Chunk(held);
    lemma_every_chunk_is_offered(pump, chunks);
    lemma_outbound_run_extends(pump, script, chunk);
    lemma_outbound_run_extends(pump, script.push(chunk), OutboundEvent::ReceiverGone);
    let asked = pump.commands(script).push(pump.command_for(chunk));
    assert(asked.drop_last() =~= pump.commands(script));
    assert(offers_of(asked) == chunks.push(held));
    let stop = OutboundCommand::Stop { complain: false };
    assert(pump.commands(script.push(chunk).push(OutboundEvent::ReceiverGone)) == asked.push(stop));
    assert(asked.push(stop).drop_last() =~= asked);
    lemma_closed_outbound_is_inert(
        pump.after_all(script.push(chunk).push(OutboundEvent::ReceiverGone)),
        later,
    );
}


} // verus!
