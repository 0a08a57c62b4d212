//! What a whole session relays, byte for byte.
//!
//! The pumps speak of frames. Here the frames of each direction are laid
//! end to end, and the bytes that arrive are set against the bytes that
//! were sent: towards the target, where a write that the connection does
//! not take in full loses bytes, and towards the caller, where nothing is
//! lost.

use crate::inbound::{body_script, lemma_every_frame_is_written, writes_of, WriteOutcome};
use crate::outbound::{lemma_every_chunk_is_offered, offers_of, socket_script};
use crate::session::Session;
use vstd::prelude::*;

verus! {

/// The bytes of `frames`, laid end to end.
pub open spec fn bytes_of(frames: Seq<Vec<u8>>) -> Seq<u8> {
    frames.map_values(|frame: Vec<u8>| frame@).flatten()
}

/// The connection took all of `frame`.
pub open spec fn took_all(frame: Seq<u8>, outcome: WriteOutcome) -> bool {
    outcome matches WriteOutcome::Accepted(count) && count >= frame.len()
}

/// What the target receives of `frame` when the connection answers its
/// write with `outcome`: the bytes that were taken, from the start of the
/// frame. The rest is lost, for no write is tried again.
pub open spec fn accepted_part(frame: Seq<u8>, outcome: WriteOutcome) -> Seq<u8> {
    match outcome {
        WriteOutcome::Accepted(count) => if count < frame.len() {
            frame.take(count as int)
        } else {
            frame
        },
        WriteOutcome::Refused => Seq::empty(),
    }
}

/// What the target receives when `writes` are tried in order and the
/// connection answers each with the outcome at the same place.
pub open spec fn target_receives(writes: Seq<Vec<u8>>, outcomes: Seq<WriteOutcome>) -> Seq<u8>
    decreases writes.len(),
{
    if writes.len() == 0 {
        Seq::empty()
    } else {
        target_receives(writes.drop_last(), outcomes.drop_last()) + accepted_part(
            writes.last()@,
            outcomes.last(),
        )
    }
}

/// What the target receives in a session whose request body gives `frames`
/// while the connection answers the writes with `outcomes`.
pub open spec fn sent_to_target(
    session: Session,
    frames: Seq<Vec<u8>>,
    outcomes: Seq<WriteOutcome>,
) -> Seq<u8> {
    target_receives(writes_of(session.inbound.commands(body_script(frames, outcomes))), outcomes)
}

/// The frames of the response body in a session whose connection gives
/// `chunks` while the caller takes every frame.
pub open spec fn response_frames(session: Session, chunks: Seq<Vec<u8>>) -> Seq<Vec<u8>> {
    offers_of(session.outbound.commands(socket_script(chunks)))
}

/// Laying frames end to end, one more frame adds its bytes at the end.
pub proof fn lemma_bytes_of_push(frames: Seq<Vec<u8>>, frame: Vec<u8>)
    ensures
        bytes_of(frames.push(frame)) == bytes_of(frames) + frame@,
{
    let view = |f: Vec<u8>| f@;
    assert(frames.push(frame).map_values(view) =~= frames.map_values(view).push(frame@));
    frames.map_values(view).lemma_flatten_push(frame@);
}

/// The target never receives more than was sent. It receives all of it
/// when the connection took every write in full, and less as soon as one
/// write lost a byte: what is lost is not sent again.
pub proof fn lemma_target_receives_what_was_taken(
    writes: Seq<Vec<u8>>,
    outcomes: Seq<WriteOutcome>,
)
    requires
        outcomes.len() == writes.len(),
    ensures
        target_receives(writes, outcomes).len() <= bytes_of(writes).len(),
        (forall|i: int| 0 <= i < writes.len() ==> took_all(writes[i]@, outcomes[i]))
            ==> target_receives(writes, outcomes) == bytes_of(writes),
        (exists|i: int|
            0 <= i < writes.len() && accepted_part(writes[i]@, outcomes[i]).len() < writes[i]@.len())
            ==> target_receives(writes, outcomes).len() < bytes_of(writes).len(),
    decreases writes.len(),
{
    if writes.len() == 0 {
        assert(writes.map_values(|f: Vec<u8>| f@) =~= Seq::<Seq<u8>>::empty());
    } else {
        let earlier = writes.drop_last();
        let answers = outcomes.drop_last();
        lemma_target_receives_what_was_taken(earlier, answers);
        lemma_bytes_of_push(earlier, writes.last());
        assert(earlier.push(writes.last()) =~= writes);
        if forall|i: int| 0 <= i < writes.len() ==> took_all(writes[i]@, outcomes[i]) {
            assert(took_all(writes.last()@, outcomes.last()));
            assert forall|i: int| 0 <= i < earlier.len() implies took_all(
                earlier[i]@,
                answers[i],
            ) by {
                assert(took_all(writes[i]@, outcomes[i]));
            }
        }
        if exists|i: int|
            0 <= i < writes.len() && accepted_part(writes[i]@, outcomes[i]).len() < writes[i]@.len() {
            let i = choose|i: int|
                0 <= i < writes.len() && accepted_part(writes[i]@, outcomes[i]).len()
                    < writes[i]@.len();
            if i < earlier.len() {
                assert(accepted_part(earlier[i]@, answers[i]).len() < earlier[i]@.len());
            }
        }
    }
}

/// With a target that drains, nothing is dropped: when the connection
/// takes every write in full, the target receives the request body, byte
/// for byte and in order.
pub proof fn lemma_draining_target_receives_the_body(
    session: Session,
    frames: Seq<Vec<u8>>,
    outcomes: Seq<WriteOutcome>,
)
    requires
        session.inbound.phase is Streaming,
        outcomes.len() == frames.len(),
        forall|i: int| 0 <= i < frames.len() ==> took_all(frames[i]@, outcomes[i]),
    ensures
        sent_to_target(session, frames, outcomes) == bytes_of(frames),
{
    lemma_every_frame_is_written(session.inbound, frames, outcomes);
    lemma_target_receives_what_was_taken(frames, outcomes);
}

/// Under any answers of the connection the target receives, of each frame
/// in turn, what the connection took of it, and so never more than the
/// request body holds.
pub proof fn lemma_target_receives_at_most_the_body(
    session: Session,
    frames: Seq<Vec<u8>>,
    outcomes: Seq<WriteOutcome>,
)
    requires
        session.inbound.phase is Streaming,
        outcomes.len() == frames.len(),
    ensures
        sent_to_target(session, frames, outcomes) == target_receives(frames, outcomes),
        sent_to_target(session, frames, outcomes).len() <= bytes_of(frames).len(),
{
    lemma_every_frame_is_written(session.inbound, frames, outcomes);
    lemma_target_receives_what_was_taken(frames, outcomes);
}

/// What the connection sends comes out as the response body: the same
/// chunks, in the order received, and so the same bytes.
pub proof fn lemma_response_carries_the_chunks(session: Session, chunks: Seq<Vec<u8>>)
    requires
        session.outbound.state is Reading,
    ensures
        response_frames(session, chunks) == chunks,
        bytes_of(response_frames(session, chunks)) == bytes_of(chunks),
{
    lemma_every_chunk_is_offered(session.outbound, chunks);
}

/// The round trip through a target that echoes. When the connection takes
/// every write in full and the target sends back what it received, cut
/// into chunks as it likes, the response body is the request body, byte
/// for byte.
pub proof fn lemma_echo_round_trip(
    verbose: bool,
    frames: Seq<Vec<u8>>,
    outcomes: Seq<WriteOutcome>,
    chunks: Seq<Vec<u8>>,
)
    requires
        outcomes.len() == frames.len(),
        forall|i: int| 0 <= i < frames.len() ==> took_all(frames[i]@, outcomes[i]),
        bytes_of(chunks) == sent_to_target(
            Session::fresh(verbose).dialed(true),
            frames,
            outcomes,
        ),
    ensures
        bytes_of(response_frames(Session::fresh(verbose).dialed(true), chunks)) == bytes_of(
            frames,
        ),
{
    let session = Session::fresh(verbose).dialed(true);
    lemma_draining_target_receives_the_body(session, frames, outcomes);
    lemma_response_carries_the_chunks(session, chunks);
}

} // verus!
