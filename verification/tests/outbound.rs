use http_tcp_bridge::outbound::{
    OutboundCommand, OutboundEvent, OutboundPump, OutboundState, HANDOFF_SLOTS,
};
use http_tcp_bridge::phase::Phase;

fn reading_outbound(verbose: bool) -> OutboundPump {
    let mut pump = OutboundPump::new(verbose);
    assert_eq!(pump.step(OutboundEvent::Connected), OutboundCommand::Read);
    pump
}

#[test]
fn the_handoff_queue_has_one_slot() {
    assert_eq!(HANDOFF_SLOTS, 1);
}

#[test]
fn a_new_outbound_pump_is_dialing() {
    let pump = OutboundPump::new(false);
    assert_eq!(pump.state, OutboundState::Dialing);
    assert_eq!(pump.phase(), Phase::Dialing);
    assert_eq!(OutboundPump::new(true), OutboundPump { state: OutboundState::Dialing, verbose: true });
}

#[test]
fn connecting_starts_the_outbound_pump() {
    let pump = reading_outbound(true);
    assert_eq!(pump.state, OutboundState::Reading);
    assert_eq!(pump.phase(), Phase::Streaming);
}

#[test]
fn a_failed_dial_closes_the_outbound_pump() {
    let mut pump = OutboundPump::new(true);
    assert_eq!(pump.step(OutboundEvent::DialFailed), OutboundCommand::Stop { complain: false });
    assert_eq!(pump.state, OutboundState::ClosedOnError);
    assert_eq!(pump.phase(), Phase::ClosedOnError);
}

#[test]
fn a_chunk_is_offered_as_it_came() {
    let mut pump = reading_outbound(false);
    let command = pump.step(OutboundEvent::Chunk(vec![0, 1, 254, 255]));
    assert_eq!(command, OutboundCommand::Offer { frame: vec![0, 1, 254, 255], announce: false });
    assert_eq!(pump.state, OutboundState::Handing);
    assert_eq!(pump.phase(), Phase::Streaming);
}

#[test]
fn a_verbose_outbound_pump_announces_chunks() {
    let mut pump = reading_outbound(true);
    assert_eq!(
        pump.step(OutboundEvent::Chunk(vec![5])),
        OutboundCommand::Offer { frame: vec![5], announce: true }
    );
}

#[test]
fn the_pump_reads_on_once_the_frame_is_taken() {
    let mut pump = reading_outbound(false);
    pump.step(OutboundEvent::Chunk(vec![1]));
    assert_eq!(pump.step(OutboundEvent::Taken), OutboundCommand::Read);
    assert_eq!(pump.state, OutboundState::Reading);
    assert_eq!(
        pump.step(OutboundEvent::Chunk(vec![2])),
        OutboundCommand::Offer { frame: vec![2], announce: false }
    );
}

#[test]
fn the_pump_does_not_read_while_it_holds_a_frame() {
    let mut pump = reading_outbound(false);
    pump.step(OutboundEvent::Chunk(vec![1]));
    assert_eq!(pump.step(OutboundEvent::Chunk(vec![2])), OutboundCommand::Ignore);
    assert_eq!(pump.step(OutboundEvent::SocketEnded), OutboundCommand::Ignore);
    assert_eq!(pump.step(OutboundEvent::SocketFailed), OutboundCommand::Ignore);
    assert_eq!(pump.state, OutboundState::Handing);
}

#[test]
fn the_end_of_the_connection_ends_the_response() {
    let mut pump = reading_outbound(true);
    assert_eq!(pump.step(OutboundEvent::SocketEnded), OutboundCommand::Stop { complain: false });
    assert_eq!(pump.state, OutboundState::ClosedNormally);
    assert_eq!(pump.phase(), Phase::ClosedNormally);
}

#[test]
fn a_failed_read_is_reported_and_ends_the_response() {
    let mut quiet = reading_outbound(false);
    assert_eq!(quiet.step(OutboundEvent::SocketFailed), OutboundCommand::Stop { complain: true });
    assert_eq!(quiet.state, OutboundState::ClosedOnError);
    let mut verbose = reading_outbound(true);
    assert_eq!(verbose.step(OutboundEvent::SocketFailed), OutboundCommand::Stop { complain: true });
    assert_eq!(verbose.phase(), Phase::ClosedOnError);
}

#[test]
fn a_caller_who_goes_away_ends_the_outbound_pump() {
    let mut pump = reading_outbound(false);
    pump.step(OutboundEvent::Chunk(vec![1, 2, 3]));
    assert_eq!(pump.step(OutboundEvent::ReceiverGone), OutboundCommand::Stop { complain: false });
    assert_eq!(pump.state, OutboundState::ClosedOnError);
    assert_eq!(pump.step(OutboundEvent::Chunk(vec![4])), OutboundCommand::Ignore);
    assert_eq!(pump.step(OutboundEvent::Taken), OutboundCommand::Ignore);
    assert_eq!(pump.state, OutboundState::ClosedOnError);
}

#[test]
fn news_of_the_queue_is_ignored_while_reading() {
    let mut pump = reading_outbound(false);
    assert_eq!(pump.step(OutboundEvent::Taken), OutboundCommand::Ignore);
    assert_eq!(pump.step(OutboundEvent::ReceiverGone), OutboundCommand::Ignore);
    assert_eq!(pump.state, OutboundState::Reading);
}

#[test]
fn a_dialing_outbound_pump_ignores_the_connection() {
    let mut pump = OutboundPump::new(true);
    assert_eq!(pump.step(OutboundEvent::Chunk(vec![1])), OutboundCommand::Ignore);
    assert_eq!(pump.step(OutboundEvent::SocketEnded), OutboundCommand::Ignore);
    assert_eq!(pump.step(OutboundEvent::SocketFailed), OutboundCommand::Ignore);
    assert_eq!(pump.step(OutboundEvent::Taken), OutboundCommand::Ignore);
    assert_eq!(pump.step(OutboundEvent::ReceiverGone), OutboundCommand::Ignore);
    assert_eq!(pump.state, OutboundState::Dialing);
}

#[test]
fn a_closed_outbound_pump_ignores_everything() {
    for last in [OutboundEvent::SocketEnded, OutboundEvent::SocketFailed] {
        let mut pump = reading_outbound(true);
        pump.step(last);
        let closed = pump;
        assert_eq!(pump.step(OutboundEvent::Connected), OutboundCommand::Ignore);
        assert_eq!(pump.step(OutboundEvent::DialFailed), OutboundCommand::Ignore);
        assert_eq!(pump.step(OutboundEvent::Chunk(vec![9])), OutboundCommand::Ignore);
        assert_eq!(pump.step(OutboundEvent::SocketEnded), OutboundCommand::Ignore);
        assert_eq!(pump.step(OutboundEvent::SocketFailed), OutboundCommand::Ignore);
        assert_eq!(pump.step(OutboundEvent::Taken), OutboundCommand::Ignore);
        assert_eq!(pump.step(OutboundEvent::ReceiverGone), OutboundCommand::Ignore);
        assert_eq!(pump, closed);
    }
}

#[test]
fn chunks_come_out_in_the_order_they_came() {
    let mut pump = reading_outbound(false);
    let chunks: Vec<Vec<u8>> = vec![vec![10, 11], vec![12], vec![13, 14, 15]];
    let mut offered: Vec<Vec<u8>> = Vec::new();
    for chunk in chunks.iter() {
        match pump.step(OutboundEvent::Chunk(chunk.clone())) {
            OutboundCommand::Offer { frame, .. } => offered.push(frame),
            other => panic!("{:?}", other),
        }
        assert_eq!(pump.step(OutboundEvent::Taken), OutboundCommand::Read);
    }
    assert_eq!(pump.step(OutboundEvent::SocketEnded), OutboundCommand::Stop { complain: false });
    assert_eq!(offered, chunks);
}

#[test]
fn offers_never_run_ahead_of_the_queue() {
    let mut pump = OutboundPump::new(false);
    let events = vec![
        OutboundEvent::Connected,
        OutboundEvent::Chunk(vec![1]),
        OutboundEvent::Chunk(vec![2]),
        OutboundEvent::Chunk(vec![3]),
        OutboundEvent::Taken,
        OutboundEvent::Chunk(vec![4]),
        OutboundEvent::Chunk(vec![5]),
        OutboundEvent::Taken,
        OutboundEvent::Taken,
        OutboundEvent::Chunk(vec![6]),
    ];
    let mut offers = 0usize;
    let mut taken = 0usize;
    let mut frames: Vec<Vec<u8>> = Vec::new();
    for event in events {
        if event == OutboundEvent::Taken {
            taken += 1;
        }
        if let OutboundCommand::Offer { frame, .. } = pump.step(event) {
            offers += 1;
            frames.push(frame);
        }
        assert!(offers <= taken + 1);
    }
    assert_eq!(frames, vec![vec![1], vec![4], vec![6]]);
}
