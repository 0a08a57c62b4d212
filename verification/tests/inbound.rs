use http_tcp_bridge::inbound::{InboundCommand, InboundEvent, InboundPump, WriteOutcome};
use http_tcp_bridge::phase::Phase;

fn streaming_inbound(verbose: bool) -> InboundPump {
    let mut pump = InboundPump::new(verbose);
    assert_eq!(pump.step(InboundEvent::Connected), InboundCommand::Read { complain: false });
    pump
}

#[test]
fn a_new_inbound_pump_is_dialing() {
    let pump = InboundPump::new(true);
    assert_eq!(pump.phase(), Phase::Dialing);
    assert!(pump.verbose);
    assert_eq!(InboundPump::new(false), InboundPump { phase: Phase::Dialing, verbose: false });
}

#[test]
fn connecting_starts_the_inbound_pump() {
    let pump = streaming_inbound(false);
    assert_eq!(pump.phase(), Phase::Streaming);
}

#[test]
fn a_failed_dial_closes_the_inbound_pump() {
    let mut pump = InboundPump::new(true);
    assert_eq!(pump.step(InboundEvent::DialFailed), InboundCommand::Stop { announce: false });
    assert_eq!(pump.phase(), Phase::ClosedOnError);
}

#[test]
fn a_frame_is_written_as_it_came() {
    let mut pump = streaming_inbound(false);
    let command = pump.step(InboundEvent::Frame(vec![1, 2, 3, 0, 255]));
    assert_eq!(command, InboundCommand::Write { bytes: vec![1, 2, 3, 0, 255], announce: false });
    assert_eq!(pump.phase(), Phase::Streaming);
}

#[test]
fn an_empty_frame_is_written_too() {
    let mut pump = streaming_inbound(false);
    let command = pump.step(InboundEvent::Frame(Vec::new()));
    assert_eq!(command, InboundCommand::Write { bytes: Vec::new(), announce: false });
}

#[test]
fn a_verbose_inbound_pump_announces_frames_and_its_end() {
    let mut pump = streaming_inbound(true);
    assert_eq!(
        pump.step(InboundEvent::Frame(vec![7])),
        InboundCommand::Write { bytes: vec![7], announce: true }
    );
    assert_eq!(pump.step(InboundEvent::BodyEnded), InboundCommand::Stop { announce: true });
}

#[test]
fn a_quiet_inbound_pump_ends_in_silence() {
    let mut ended = streaming_inbound(false);
    assert_eq!(ended.step(InboundEvent::BodyEnded), InboundCommand::Stop { announce: false });
    let mut failed = streaming_inbound(false);
    assert_eq!(failed.step(InboundEvent::BodyFailed), InboundCommand::Stop { announce: false });
}

#[test]
fn the_end_of_the_body_closes_normally() {
    let mut pump = streaming_inbound(false);
    pump.step(InboundEvent::BodyEnded);
    assert_eq!(pump.phase(), Phase::ClosedNormally);
}

#[test]
fn a_body_that_fails_closes_on_error() {
    let mut pump = streaming_inbound(true);
    assert_eq!(pump.step(InboundEvent::BodyFailed), InboundCommand::Stop { announce: true });
    assert_eq!(pump.phase(), Phase::ClosedOnError);
}

#[test]
fn a_refused_write_is_reported_and_the_pump_goes_on() {
    let mut pump = streaming_inbound(false);
    pump.step(InboundEvent::Frame(vec![1]));
    assert_eq!(
        pump.step(InboundEvent::WriteDone(WriteOutcome::Refused)),
        InboundCommand::Read { complain: true }
    );
    assert_eq!(pump.phase(), Phase::Streaming);
    assert_eq!(
        pump.step(InboundEvent::Frame(vec![2])),
        InboundCommand::Write { bytes: vec![2], announce: false }
    );
}

#[test]
fn an_accepted_write_is_not_reported() {
    let mut pump = streaming_inbound(true);
    pump.step(InboundEvent::Frame(vec![1, 2]));
    assert_eq!(
        pump.step(InboundEvent::WriteDone(WriteOutcome::Accepted(2))),
        InboundCommand::Read { complain: false }
    );
    assert_eq!(
        pump.step(InboundEvent::WriteDone(WriteOutcome::Accepted(0))),
        InboundCommand::Read { complain: false }
    );
    assert_eq!(pump.phase(), Phase::Streaming);
}

#[test]
fn a_dialing_inbound_pump_ignores_the_body() {
    let mut pump = InboundPump::new(true);
    assert_eq!(pump.step(InboundEvent::Frame(vec![1])), InboundCommand::Ignore);
    assert_eq!(pump.step(InboundEvent::BodyEnded), InboundCommand::Ignore);
    assert_eq!(pump.step(InboundEvent::BodyFailed), InboundCommand::Ignore);
    assert_eq!(pump.step(InboundEvent::WriteDone(WriteOutcome::Refused)), InboundCommand::Ignore);
    assert_eq!(pump.phase(), Phase::Dialing);
}

#[test]
fn a_streaming_inbound_pump_ignores_news_of_the_dial() {
    let mut pump = streaming_inbound(false);
    assert_eq!(pump.step(InboundEvent::Connected), InboundCommand::Ignore);
    assert_eq!(pump.step(InboundEvent::DialFailed), InboundCommand::Ignore);
    assert_eq!(pump.phase(), Phase::Streaming);
}

#[test]
fn a_closed_inbound_pump_ignores_everything() {
    for last in [InboundEvent::BodyEnded, InboundEvent::BodyFailed] {
        let mut pump = streaming_inbound(true);
        pump.step(last);
        let closed = pump;
        assert_eq!(pump.step(InboundEvent::Connected), InboundCommand::Ignore);
        assert_eq!(pump.step(InboundEvent::DialFailed), InboundCommand::Ignore);
        assert_eq!(pump.step(InboundEvent::Frame(vec![9])), InboundCommand::Ignore);
        assert_eq!(pump.step(InboundEvent::BodyEnded), InboundCommand::Ignore);
        assert_eq!(pump.step(InboundEvent::BodyFailed), InboundCommand::Ignore);
        assert_eq!(
            pump.step(InboundEvent::WriteDone(WriteOutcome::Accepted(1))),
            InboundCommand::Ignore
        );
        assert_eq!(pump.step(InboundEvent::WriteDone(WriteOutcome::Refused)), InboundCommand::Ignore);
        assert_eq!(pump, closed);
    }
}

#[test]
fn frames_go_out_in_the_order_they_came() {
    let mut pump = streaming_inbound(false);
    let frames: Vec<Vec<u8>> = vec![vec![1], vec![2, 3], vec![], vec![4, 5, 6]];
    let mut written: Vec<Vec<u8>> = Vec::new();
    for frame in frames.iter() {
        match pump.step(InboundEvent::Frame(frame.clone())) {
            InboundCommand::Write { bytes, .. } => written.push(bytes),
            other => panic!("{:?}", other),
        }
        pump.step(InboundEvent::WriteDone(WriteOutcome::Accepted(frame.len())));
    }
    assert_eq!(written, frames);
    assert_eq!(pump.phase(), Phase::Streaming);
}

#[test]
fn the_inbound_phase_never_falls_back() {
    let mut pump = InboundPump::new(false);
    let events = vec![
        InboundEvent::Frame(vec![1]),
        InboundEvent::Connected,
        InboundEvent::Connected,
        InboundEvent::Frame(vec![2]),
        InboundEvent::WriteDone(WriteOutcome::Refused),
        InboundEvent::DialFailed,
        InboundEvent::BodyFailed,
        InboundEvent::Connected,
        InboundEvent::BodyEnded,
    ];
    let mut seen = vec![pump.phase()];
    for event in events {
        pump.step(event);
        seen.push(pump.phase());
    }
    assert_eq!(
        seen,
        vec![
            Phase::Dialing,
            Phase::Dialing,
            Phase::Streaming,
            Phase::Streaming,
            Phase::Streaming,
            Phase::Streaming,
            Phase::Streaming,
            Phase::ClosedOnError,
            Phase::ClosedOnError,
            Phase::ClosedOnError,
        ]
    );
}

#[test]
fn phases_know_whether_they_are_closed() {
    assert!(!Phase::Dialing.is_closed());
    assert!(!Phase::Streaming.is_closed());
    assert!(Phase::ClosedNormally.is_closed());
    assert!(Phase::ClosedOnError.is_closed());
    assert!(!Phase::Dialing.is_streaming());
    assert!(Phase::Streaming.is_streaming());
    assert!(!Phase::ClosedNormally.is_streaming());
    assert!(!Phase::ClosedOnError.is_streaming());
}
