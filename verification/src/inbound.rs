//! The inbound pump: from the request body to the TCP connection.
//!
//! Each data frame of the request body is handed to the connection in one
//! write that does not wait. A write that fails is reported and the frame is
//! lost: the pump goes on with the next frame and sends nothing twice. The
//! pump ends when the body ends or cannot be read. It knows nothing of the
//! outbound pump.

use crate::phase::Phase;
use vstd::prelude::*;

verus! {

/// How the connection answered one write.
#[derive(Clone, Copy, Debug, PartialEq, Eq, Structural)]
pub enum WriteOutcome {
    /// The connection took this many bytes, counted from the start of the frame.
    Accepted(usize),
    /// The connection took nothing.
    Refused,
}

/// What the driver of an inbound pump observes.
#[derive(Debug, PartialEq, Eq)]
pub enum InboundEvent {
    /// The dial succeeded.
    Connected,
    /// The dial failed.
    DialFailed,
    /// The request body gave its next data frame.
    Frame(Vec<u8>),
    /// The request body is at its end.
    BodyEnded,
    /// The request body could not be read.
    BodyFailed,
    /// The connection answered the write that the pump asked for.
    WriteDone(WriteOutcome),
}

/// What the driver of an inbound pump does next.
#[derive(Debug, PartialEq, Eq)]
pub enum InboundCommand {
    /// Wait for the next frame of the request body. With `complain`, first
    /// report that the last write failed.
    Read { complain: bool },
    /// Try once, without waiting, to write `bytes` to the connection. With
    /// `announce`, first log them.
    Write { bytes: Vec<u8>, announce: bool },
    /// Leave the request body alone from now on. With `announce`, log that
    /// the pump ends.
    Stop { announce: bool },
    /// The event does not concern the pump as it stands: do nothing.
    Ignore,
}

/// The inbound pump of one session.
#[derive(Clone, Copy, Debug, PartialEq, Eq, Structural)]
pub struct InboundPump {
    pub phase: Phase,
    pub verbose: bool,
}

impl InboundPump {
    /// The pump of a session whose dial is under way.
    pub open spec fn fresh(verbose: bool) -> InboundPump {
        InboundPump { phase: Phase::Dialing, verbose }
    }

    /// The phase that `event` leaves the pump in.
    pub open spec fn phase_after(self, event: InboundEvent) -> Phase {
        match (self.phase, event) {
            (Phase::Dialing, InboundEvent::Connected) => Phase::Streaming,
            (Phase::Dialing, InboundEvent::DialFailed) => Phase::ClosedOnError,
            (Phase::Streaming, InboundEvent::BodyEnded) => Phase::ClosedNormally,
            (Phase::Streaming, InboundEvent::BodyFailed) => Phase::ClosedOnError,
            _ => self.phase,
        }
    }

    /// The pump after `event`: only its phase can change.
    pub open spec fn after(self, event: InboundEvent) -> InboundPump {
        InboundPump { phase: self.phase_after(event), verbose: self.verbose }
    }

    /// What the pump asks of its driver on `event`.
    pub open spec fn command_for(self, event: InboundEvent) -> InboundCommand {
        match (self.phase, event) {
            (Phase::Dialing, InboundEvent::Connected) => InboundCommand::Read { complain: false },
            (Phase::Dialing, InboundEvent::DialFailed) => InboundCommand::Stop { announce: false },
            (Phase::Streaming, InboundEvent::Frame(bytes)) => InboundCommand::Write {
                bytes,
                announce: self.verbose,
            },
            (Phase::Streaming, InboundEvent::BodyEnded) => InboundCommand::Stop {
                announce: self.verbose,
            },
            (Phase::Streaming, InboundEvent::BodyFailed) => InboundCommand::Stop {
                announce: self.verbose,
            },
            (Phase::Streaming, InboundEvent::WriteDone(outcome)) => InboundCommand::Read {
                complain: outcome is Refused,
            },
            _ => InboundCommand::Ignore,
        }
    }

    /// A pump for a session whose dial is under way.
    pub fn new(verbose: bool) -> (pump: InboundPump)
        ensures
            pump == InboundPump::fresh(verbose),
    {
        InboundPump { phase: Phase::Dialing, verbose }
    }

    /// Where the pump stands.
    pub fn phase(&self) -> (phase: Phase)
        ensures
            phase == self.phase,
    {
        self.phase
    }

    /// Takes one event and says what to do next. A frame goes out as it came
    /// in; a failed write costs a report and nothing else; the end of the
    /// body, however it comes, closes the pump for good.
    pub fn step(&mut self, event: InboundEvent) -> (command: InboundCommand)
        ensures
            *final(self) == old(self).after(event),
            command == old(self).command_for(event),
            old(self).phase.leads_to(final(self).phase),
    {
        let verbose = self.verbose;
        match self.phase {
            Phase::Dialing => match event {
                InboundEvent::Connected => {
                    self.phase = Phase::Streaming;
                    InboundCommand::Read { complain: false }
                },
                InboundEvent::DialFailed => {
                    self.phase = Phase::ClosedOnError;
                    InboundCommand::Stop { announce: false }
                },
                _ => InboundCommand::Ignore,
            },
            Phase::Streaming => match event {
                InboundEvent::Frame(bytes) => InboundCommand::Write { bytes, announce: verbose },
                InboundEvent::BodyEnded => {
                    self.phase = Phase::ClosedNormally;
                    InboundCommand::Stop { announce: verbose }
                },
                InboundEvent::BodyFailed => {
                    self.phase = Phase::ClosedOnError;
                    InboundCommand::Stop { announce: verbose }
                },
                InboundEvent::WriteDone(outcome) => match outcome {
                    WriteOutcome::Accepted(_) => InboundCommand::Read { complain: false },
                    WriteOutcome::Refused => InboundCommand::Read { complain: true },
                },
                _ => InboundCommand::Ignore,
            },
            _ => InboundCommand::Ignore,
        }
    }
}

impl InboundPump {
    /// The pump after all of `events`, taken in order.
    pub open spec fn after_all(self, events: Seq<InboundEvent>) -> InboundPump
        decreases events.len(),
    {
        if events.len() == 0 {
            self
        } else {
            self.after_all(events.drop_last()).after(events.last())
        }
    }

    /// What the pump asks of its driver on each of `events`, in order.
    pub open spec fn commands(self, events: Seq<InboundEvent>) -> Seq<InboundCommand>
        decreases events.len(),
    {
        if events.len() == 0 {
            Seq::empty()
        } else {
            self.commands(events.drop_last()).push(
                self.after_all(events.drop_last()).command_for(events.last()),
            )
        }
    }
}

/// The frames that `commands` ask to write, in order.
pub open spec fn writes_of(commands: Seq<InboundCommand>) -> Seq<Vec<u8>>
    decreases commands.len(),
{
    if commands.len() == 0 {
        Seq::empty()
    } else {
        match commands.last() {
            InboundCommand::Write { bytes, .. } => writes_of(commands.drop_last()).push(bytes),
            _ => writes_of(commands.drop_last()),
        }
    }
}

/// The frames that the request body gives in `events`, in order.
pub open spec fn frames_in(events: Seq<InboundEvent>) -> Seq<Vec<u8>>
    decreases events.len(),
{
    if events.len() == 0 {
        Seq::empty()
    } else {
        match events.last() {
            InboundEvent::Frame(bytes) => frames_in(events.drop_last()).push(bytes),
            _ => frames_in(events.drop_last()),
        }
    }
}

/// What a driver observes of a body that gives `frames` and then goes on,
/// while the connection answers the write of each frame with the outcome
/// at the same place in `outcomes`.
pub open spec fn body_script(frames: Seq<Vec<u8>>, outcomes: Seq<WriteOutcome>) -> Seq<
    InboundEvent,
>
    decreases frames.len(),
{
    if frames.len() == 0 {
        Seq::empty()
    } else {
        body_script(frames.drop_last(), outcomes.drop_last()).push(
            InboundEvent::Frame(frames.last()),
        ).push(InboundEvent::WriteDone(outcomes.last()))
    }
}

/// One more event is one more step.
pub proof fn lemma_inbound_run_extends(pump: InboundPump, events: Seq<InboundEvent>, event: InboundEvent)
    ensures
        pump.after_all(events.push(event)) == pump.after_all(events).after(event),
        pump.commands(events.push(event)) == pump.commands(events).push(
            pump.after_all(events).command_for(event),
        ),
{
    assert(events.push(event).drop_last() =~= events);
}

/// A pump only moves forward: over any events its phase never falls back
/// and its flag never changes, and it answers each event with one command.
pub proof fn lemma_inbound_run_is_monotone(pump: InboundPump, events: Seq<InboundEvent>)
    ensures
        pump.phase.rank() <= pump.after_all(events).phase.rank(),
        pump.after_all(events).verbose == pump.verbose,
        pump.commands(events).len() == events.len(),
    decreases events.len(),
{
    if events.len() > 0 {
        lemma_inbound_run_is_monotone(pump, events.drop_last());
    }
}

/// A closed pump is closed for good: no event changes it, and it asks for
/// nothing.
pub proof fn lemma_closed_inbound_is_inert(pump: InboundPump, events: Seq<InboundEvent>)
    requires
        pump.phase.closed(),
    ensures
        pump.after_all(events) == pump,
        pump.commands(events) == Seq::new(events.len(), |i: int| InboundCommand::Ignore),
        writes_of(pump.commands(events)) == Seq::<Vec<u8>>::empty(),
    decreases events.len(),
{
    if events.len() > 0 {
        lemma_closed_inbound_is_inert(pump, events.drop_last());
        assert(pump.commands(events).drop_last() =~= pump.commands(events.drop_last()));
        assert(pump.commands(events) =~= Seq::new(events.len(), |i: int| InboundCommand::Ignore));
    }
}

/// Frames go out in the order they came in, each as it was. Whatever the
/// events, a pump that streams asks to write frames of the body and nothing
/// else, from the first one on and with none left out; while it still
/// streams, it has asked to write every frame that the body gave.
pub proof fn lemma_writes_follow_the_body(pump: InboundPump, events: Seq<InboundEvent>)
    requires
        pump.phase is Streaming,
    ensures
        writes_of(pump.commands(events)).is_prefix_of(frames_in(events)),
        pump.after_all(events).phase is Streaming ==> writes_of(pump.commands(events))
            == frames_in(events),
    decreases events.len(),
{
    if events.len() > 0 {
        let earlier = events.drop_last();
        lemma_writes_follow_the_body(pump, earlier);
        lemma_inbound_run_is_monotone(pump, earlier);
        assert(pump.commands(events).drop_last() =~= pump.commands(earlier));
        let before = pump.after_all(earlier);
        if before.phase is Streaming {
            assert(writes_of(pump.commands(earlier)) == frames_in(earlier));
        } else {
            assert(before.phase.closed());
            assert(pump.commands(events).last() == InboundCommand::Ignore);
            assert(writes_of(pump.commands(events)) == writes_of(pump.commands(earlier)));
        }
    }
}

/// With a body that gives `frames` and a connection that answers each
/// write, the pump asks to write exactly `frames` and still streams,
/// whatever the answers were: a refused write stops nothing.
pub proof fn lemma_every_frame_is_written(
    pump: InboundPump,
    frames: Seq<Vec<u8>>,
    outcomes: Seq<WriteOutcome>,
)
    requires
        pump.phase is Streaming,
        outcomes.len() == frames.len(),
    ensures
        pump.after_all(body_script(frames, outcomes)) == pump,
        writes_of(pump.commands(body_script(frames, outcomes))) == frames,
    decreases frames.len(),
{
    if frames.len() > 0 {
        let earlier = body_script(frames.drop_last(), outcomes.drop_last());
        let frame = InboundEvent::Frame(frames.last());
        let answer = InboundEvent::WriteDone(outcomes.last());
        lemma_every_frame_is_written(pump, frames.drop_last(), outcomes.drop_last());
        lemma_inbound_run_extends(pump, earlier, frame);
        lemma_inbound_run_extends(pump, earlier.push(frame), answer);
        let asked = pump.commands(earlier).push(pump.command_for(frame));
        assert(asked.drop_last() =~= pump.commands(earlier));
        assert(writes_of(asked) == frames.drop_last().push(frames.last()));
        assert(pump.commands(body_script(frames, outcomes)) == asked.push(
            pump.command_for(answer),
        ));
        assert(asked.push(pump.command_for(answer)).drop_last() =~= asked);
        assert(frames.drop_last().push(frames.last()) =~= frames);
    }
}

/// When such a body then ends, the pump closes normally; when it fails, the
/// pump closes on error. Either way it asks for no further write.
pub proof fn lemma_body_end_closes(
    pump: InboundPump,
    frames: Seq<Vec<u8>>,
    outcomes: Seq<WriteOutcome>,
    failed: bool,
)
    requires
        pump.phase is Streaming,
        outcomes.len() == frames.len(),
    ensures
        ({
            let last = if failed {
                InboundEvent::BodyFailed
            } else {
                InboundEvent::BodyEnded
            };
            let events = body_script(frames, outcomes).push(last);
            &&& pump.after_all(events).phase == if failed {
                Phase::ClosedOnError
            } else {
                Phase::ClosedNormally
            }
            &&& pump.commands(events).last() == InboundCommand::Stop { announce: pump.verbose }
            &&& writes_of(pump.commands(events)) == frames
        }),
{
    let last = if failed {
        InboundEvent::BodyFailed
    } else {
        InboundEvent::BodyEnded
    };
    let script = body_script(frames, outcomes);
    lemma_every_frame_is_written(pump, frames, outcomes);
    lemma_inbound_run_extends(pump, script, last);
    assert(pump.commands(script.push(last)).drop_last() =~= pump.commands(script));
}


} // verus!
