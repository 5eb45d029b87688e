//! Whole runs of the sender loop, and what holds of them.
//!
//! A run is a sequence of events, taken one after the other from some phase.
//! What frames a run sends depends on the rules of the loop alone, not on the
//! codec, so the statements here speak of the roles of the frames.

use crate::sender::{Duty, FrameRole, SenderEvent, SenderPhase};
use vstd::prelude::*;

verus! {

/// The phase in which a run of events leaves the loop.
pub open spec fn phase_after(phase: SenderPhase, events: Seq<SenderEvent>) -> SenderPhase
    decreases events.len(),
{
    if events.len() == 0 {
        phase
    } else {
        phase_after(phase.react(events[0]).next, events.drop_first())
    }
}

/// What the loop asks for during a run, one duty per event.
pub open spec fn duties(phase: SenderPhase, events: Seq<SenderEvent>) -> Seq<Duty>
    decreases events.len(),
{
    if events.len() == 0 {
        Seq::empty()
    } else {
        seq![phase.react(events[0]).duty] + duties(
            phase.react(events[0]).next,
            events.drop_first(),
        )
    }
}

/// The roles of the frames that a sequence of duties sends, in order.
pub open spec fn frames(duties: Seq<Duty>) -> Seq<FrameRole>
    decreases duties.len(),
{
    if duties.len() == 0 {
        Seq::empty()
    } else {
        match duties[0] {
            Duty::Transmit(role) => seq![role] + frames(duties.drop_first()),
            _ => frames(duties.drop_first()),
        }
    }
}

/// How many frames of one role a sequence of roles holds.
pub open spec fn count(roles: Seq<FrameRole>, role: FrameRole) -> nat
    decreases roles.len(),
{
    if roles.len() == 0 {
        0
    } else if roles[0] == role {
        1 + count(roles.drop_first(), role)
    } else {
        count(roles.drop_first(), role)
    }
}

/// Whether an event is one that a draining loop waits for and that does not
/// end the outbound sequence: a chunk or a keepalive tick.
pub open spec fn is_beat(event: SenderEvent) -> bool {
    event is Chunk || event is Tick
}

/// The role of the frame that goes out for a chunk or a tick.
pub open spec fn role_of(beat: SenderEvent) -> FrameRole {
    if beat is Chunk {
        FrameRole::Data
    } else {
        FrameRole::Ping
    }
}

/// The roles of the frames that go out for a sequence of chunks and ticks.
pub open spec fn roles_of(beats: Seq<SenderEvent>) -> Seq<FrameRole> {
    Seq::new(beats.len(), |i: int| role_of(beats[i]))
}

/// The run in which every chunk and tick of `beats` is sent with success, the
/// outbound sequence then ends, the end marker is sent with the result
/// `marker_result` and the write half is closed with the result
/// `close_result`.
pub open spec fn clean_run(
    beats: Seq<SenderEvent>,
    marker_result: SenderEvent,
    close_result: SenderEvent,
) -> Seq<SenderEvent>
    decreases beats.len(),
{
    if beats.len() == 0 {
        seq![SenderEvent::Exhausted, marker_result, close_result]
    } else {
        seq![beats[0], SenderEvent::Sent] + clean_run(
            beats.drop_first(),
            marker_result,
            close_result,
        )
    }
}

/// What the loop asks for while the chunks and ticks of `beats` are sent with
/// success: for each of them the frame, then the next wait.
pub open spec fn clean_duties(beats: Seq<SenderEvent>) -> Seq<Duty>
    decreases beats.len(),
{
    if beats.len() == 0 {
        Seq::empty()
    } else {
        seq![Duty::Transmit(role_of(beats[0])), Duty::Poll] + clean_duties(beats.drop_first())
    }
}

/// A run in two parts is the first part, then the second part from where the
/// first one ended.
pub proof fn lemma_run_in_parts(
    phase: SenderPhase,
    first: Seq<SenderEvent>,
    second: Seq<SenderEvent>,
)
    ensures
        phase_after(phase, first + second) == phase_after(phase_after(phase, first), second),
        duties(phase, first + second) == duties(phase, first) + duties(
            phase_after(phase, first),
            second,
        ),
    decreases first.len(),
{
    if first.len() > 0 {
        assert((first + second).drop_first() =~= first.drop_first() + second);
        lemma_run_in_parts(phase.react(first[0]).next, first.drop_first(), second);
    }
}

/// The frames of two sequences of duties, one after the other, are the frames
/// of the first followed by the frames of the second.
pub proof fn lemma_frames_in_parts(first: Seq<Duty>, second: Seq<Duty>)
    ensures
        frames(first + second) == frames(first) + frames(second),
    decreases first.len(),
{
    if first.len() > 0 {
        assert((first + second).drop_first() =~= first.drop_first() + second);
        lemma_frames_in_parts(first.drop_first(), second);
    }
}

/// Counting in two sequences of roles, one after the other, adds up.
pub proof fn lemma_count_in_parts(first: Seq<FrameRole>, second: Seq<FrameRole>, role: FrameRole)
    ensures
        count(first + second, role) == count(first, role) + count(second, role),
    decreases first.len(),
{
    if first.len() > 0 {
        assert((first + second).drop_first() =~= first.drop_first() + second);
        lemma_count_in_parts(first.drop_first(), second, role);
    }
}

/// A single duty sends its frame if it is a `Transmit`, and nothing otherwise.
pub proof fn lemma_frames_of_one(duty: Duty)
    ensures
        frames(seq![duty]) == match duty {
            Duty::Transmit(role) => seq![role],
            _ => Seq::<FrameRole>::empty(),
        },
{
    assert(frames(seq![duty].drop_first()) =~= Seq::<FrameRole>::empty());
}

/// The frames that go out while chunks and ticks are sent with success are,
/// in order, a data frame for each chunk and a ping for each tick.
pub proof fn lemma_clean_frames(beats: Seq<SenderEvent>)
    ensures
        frames(clean_duties(beats)) == roles_of(beats),
    decreases beats.len(),
{
    if beats.len() > 0 {
        let rest = beats.drop_first();
        lemma_clean_frames(rest);
        let head = seq![Duty::Transmit(role_of(beats[0])), Duty::Poll];
        lemma_frames_in_parts(head, clean_duties(rest));
        assert(head.drop_first() =~= seq![Duty::Poll]);
        lemma_frames_of_one(Duty::Poll);
        assert forall|i: int| 0 <= i < rest.len() implies #[trigger] roles_of(rest)[i] == roles_of(
            beats,
        )[i + 1] by {}
    }
}

/// A clean run sends one frame for each chunk and tick, in their order, then
/// the end marker once, then closes the write half, and is finished.
///
/// This holds whether or not the end marker went out and whether or not the
/// close succeeded.
pub proof fn lemma_clean_run(
    beats: Seq<SenderEvent>,
    marker_result: SenderEvent,
    close_result: SenderEvent,
)
    requires
        forall|i: int| 0 <= i < beats.len() ==> is_beat(#[trigger] beats[i]),
        marker_result is Sent || marker_result is SendFailed,
        close_result is Closed || close_result is CloseFailed,
    ensures
        duties(SenderPhase::Draining, clean_run(beats, marker_result, close_result))
            == clean_duties(beats) + seq![
            Duty::Transmit(FrameRole::EndMarker),
            Duty::HalfClose,
            Duty::Stop,
        ],
        frames(duties(SenderPhase::Draining, clean_run(beats, marker_result, close_result)))
            == roles_of(beats).push(FrameRole::EndMarker),
        phase_after(SenderPhase::Draining, clean_run(beats, marker_result, close_result))
            == SenderPhase::Finished,
    decreases beats.len(),
{
    let run = clean_run(beats, marker_result, close_result);
    let tail = seq![Duty::Transmit(FrameRole::EndMarker), Duty::HalfClose, Duty::Stop];
    if beats.len() == 0 {
        let marking = SenderPhase::Transmitting(FrameRole::EndMarker);
        let after_exhausted = run.drop_first();
        let after_marker = after_exhausted.drop_first();
        assert(duties(SenderPhase::Finished, after_marker.drop_first()) =~= Seq::<Duty>::empty());
        assert(duties(SenderPhase::Closing, after_marker) =~= seq![Duty::Stop]);
        assert(duties(marking, after_exhausted) =~= seq![Duty::HalfClose, Duty::Stop]);
        assert(phase_after(SenderPhase::Finished, after_marker.drop_first())
            == SenderPhase::Finished);
        assert(phase_after(SenderPhase::Closing, after_marker) == SenderPhase::Finished);
        assert(phase_after(marking, after_exhausted) == SenderPhase::Finished);
    } else {
        let rest = beats.drop_first();
        let rest_run = clean_run(rest, marker_result, close_result);
        lemma_clean_run(rest, marker_result, close_result);
        let role = role_of(beats[0]);
        assert(run.drop_first().drop_first() =~= rest_run);
        assert(duties(SenderPhase::Transmitting(role), run.drop_first()) =~= seq![Duty::Poll]
            + duties(SenderPhase::Draining, rest_run));
        assert(duties(SenderPhase::Draining, run) =~= clean_duties(beats) + tail);
        assert(phase_after(SenderPhase::Transmitting(role), run.drop_first()) == phase_after(
            SenderPhase::Draining,
            rest_run,
        ));
    }
    lemma_frames_in_parts(clean_duties(beats), tail);
    lemma_clean_frames(beats);
    assert(frames(tail) =~= seq![FrameRole::EndMarker]) by {
        assert(tail.drop_first() =~= seq![Duty::HalfClose, Duty::Stop]);
        assert(tail.drop_first().drop_first() =~= seq![Duty::Stop]);
        lemma_frames_of_one(Duty::Stop);
        assert(frames(seq![Duty::HalfClose, Duty::Stop]) =~= Seq::<FrameRole>::empty());
    }
}

/// A sequence of roles that are all `role` holds as many of it as it is long,
/// and one that holds no `role` counts none.
pub proof fn lemma_count_uniform(roles: Seq<FrameRole>, role: FrameRole)
    ensures
        count(roles, role) <= roles.len(),
        (forall|i: int| 0 <= i < roles.len() ==> roles[i] == role) ==> count(roles, role)
            == roles.len(),
        (forall|i: int| 0 <= i < roles.len() ==> roles[i] != role) ==> count(roles, role) == 0,
    decreases roles.len(),
{
    if roles.len() > 0 {
        let rest = roles.drop_first();
        lemma_count_uniform(rest, role);
        assert forall|i: int| 0 <= i < rest.len() implies rest[i] == roles[i + 1] by {}
    }
}

/// A clean run of N chunks, with no keepalive tick in between, sends exactly N
/// data frames and exactly one end marker, the end marker last, and no ping.
pub proof fn lemma_clean_run_of_chunks(
    chunks: Seq<SenderEvent>,
    marker_result: SenderEvent,
    close_result: SenderEvent,
)
    requires
        forall|i: int| 0 <= i < chunks.len() ==> #[trigger] chunks[i] is Chunk,
        marker_result is Sent || marker_result is SendFailed,
        close_result is Closed || close_result is CloseFailed,
    ensures
        ({
            let sent = frames(
                duties(SenderPhase::Draining, clean_run(chunks, marker_result, close_result)),
            );
            &&& sent.len() == chunks.len() + 1
            &&& forall|i: int| 0 <= i < chunks.len() ==> sent[i] == FrameRole::Data
            &&& sent.last() == FrameRole::EndMarker
            &&& count(sent, FrameRole::Data) == chunks.len()
            &&& count(sent, FrameRole::EndMarker) == 1
            &&& count(sent, FrameRole::Ping) == 0
        }),
{
    assert forall|i: int| 0 <= i < chunks.len() implies is_beat(#[trigger] chunks[i]) by {}
    lemma_clean_run(chunks, marker_result, close_result);
    let roles = roles_of(chunks);
    let marker = seq![FrameRole::EndMarker];
    assert(roles.push(FrameRole::EndMarker) =~= roles + marker);
    assert forall|i: int| 0 <= i < roles.len() implies roles[i] == FrameRole::Data by {}
    lemma_count_uniform(roles, FrameRole::Data);
    lemma_count_uniform(roles, FrameRole::EndMarker);
    lemma_count_uniform(roles, FrameRole::Ping);
    lemma_count_uniform(marker, FrameRole::Data);
    lemma_count_uniform(marker, FrameRole::EndMarker);
    lemma_count_uniform(marker, FrameRole::Ping);
    lemma_count_in_parts(roles, marker, FrameRole::Data);
    lemma_count_in_parts(roles, marker, FrameRole::EndMarker);
    lemma_count_in_parts(roles, marker, FrameRole::Ping);
}

/// Once the loop has left for the half-close, or is over, no run sends a
/// frame any more, and none leads back.
pub proof fn lemma_silent_after_wind_down(phase: SenderPhase, events: Seq<SenderEvent>)
    requires
        phase == SenderPhase::Closing || phase.over(),
    ensures
        frames(duties(phase, events)) == Seq::<FrameRole>::empty(),
        phase_after(phase, events) == SenderPhase::Closing || phase_after(phase, events).over(),
        phase.over() ==> phase_after(phase, events) == phase,
    decreases events.len(),
{
    if events.len() > 0 {
        let reaction = phase.react(events[0]);
        lemma_silent_after_wind_down(reaction.next, events.drop_first());
        let rest = duties(reaction.next, events.drop_first());
        lemma_frames_in_parts(seq![reaction.duty], rest);
        lemma_frames_of_one(reaction.duty);
    }
}

/// After the end marker was handed out, no run sends a frame any more.
pub proof fn lemma_silent_after_end_marker(events: Seq<SenderEvent>)
    ensures
        frames(duties(SenderPhase::Transmitting(FrameRole::EndMarker), events)) == Seq::<
            FrameRole,
        >::empty(),
    decreases events.len(),
{
    let phase = SenderPhase::Transmitting(FrameRole::EndMarker);
    if events.len() > 0 {
        let reaction = phase.react(events[0]);
        let rest = duties(reaction.next, events.drop_first());
        if reaction.next == phase {
            lemma_silent_after_end_marker(events.drop_first());
        } else {
            lemma_silent_after_wind_down(reaction.next, events.drop_first());
        }
        lemma_frames_in_parts(seq![reaction.duty], rest);
        lemma_frames_of_one(reaction.duty);
    }
}

/// Whether a phase is one in which the outbound sequence is still being
/// drained: waiting for a chunk or tick, or sending a data frame or a ping.
pub open spec fn draining(phase: SenderPhase) -> bool {
    phase == SenderPhase::Draining || phase == SenderPhase::Transmitting(FrameRole::Data) || phase
        == SenderPhase::Transmitting(FrameRole::Ping)
}

/// In every run, whatever the events and their order, the end marker goes out
/// at most once, and no frame goes out after it.
pub proof fn lemma_end_marker_is_last(phase: SenderPhase, events: Seq<SenderEvent>)
    requires
        draining(phase),
    ensures
        ({
            let sent = frames(duties(phase, events));
            forall|i: int|
                0 <= i < sent.len() && sent[i] == FrameRole::EndMarker ==> i == sent.len() - 1
        }),
    decreases events.len(),
{
    if events.len() > 0 {
        let reaction = phase.react(events[0]);
        let rest = duties(reaction.next, events.drop_first());
        lemma_frames_in_parts(seq![reaction.duty], rest);
        lemma_frames_of_one(reaction.duty);
        if reaction.duty == Duty::Transmit(FrameRole::EndMarker) {
            lemma_silent_after_end_marker(events.drop_first());
        } else if draining(reaction.next) {
            lemma_end_marker_is_last(reaction.next, events.drop_first());
        } else {
            lemma_silent_after_wind_down(reaction.next, events.drop_first());
        }
    }
}

/// A run of one event is one step of the loop.
pub proof fn lemma_run_of_one(phase: SenderPhase, event: SenderEvent)
    ensures
        duties(phase, seq![event]) == seq![phase.react(event).duty],
        phase_after(phase, seq![event]) == phase.react(event).next,
{
    let rest = seq![event].drop_first();
    assert(duties(phase.react(event).next, rest) =~= Seq::<Duty>::empty());
    assert(phase_after(phase.react(event).next, rest) == phase.react(event).next);
}

/// A send that fails ends the sending for good: whatever events follow, the
/// loop asks for the half-close and hands out no further frame, and so no end
/// marker.
pub proof fn lemma_failed_send_ends_sending(
    before: Seq<SenderEvent>,
    error: crate::error::TransportError,
    after: Seq<SenderEvent>,
)
    requires
        phase_after(SenderPhase::Draining, before) is Transmitting,
    ensures
        duties(SenderPhase::Draining, before + seq![SenderEvent::SendFailed(error)] + after)
            == duties(SenderPhase::Draining, before) + seq![Duty::HalfClose] + duties(
            SenderPhase::Closing,
            after,
        ),
        frames(
            duties(SenderPhase::Draining, before + seq![SenderEvent::SendFailed(error)] + after),
        ) == frames(duties(SenderPhase::Draining, before)),
{
    let start = SenderPhase::Draining;
    let failure = seq![SenderEvent::SendFailed(error)];
    let sending = phase_after(start, before);
    lemma_run_in_parts(start, before, failure);
    lemma_run_in_parts(start, before + failure, after);
    lemma_run_of_one(sending, SenderEvent::SendFailed(error));
    lemma_silent_after_wind_down(SenderPhase::Closing, after);
    let head = duties(start, before) + seq![Duty::HalfClose];
    lemma_frames_in_parts(head, duties(SenderPhase::Closing, after));
    lemma_frames_in_parts(duties(start, before), seq![Duty::HalfClose]);
    lemma_frames_of_one(Duty::HalfClose);
}

/// Once the consumer is gone and the loop is cancelled, no frame goes out any
/// more, whatever is still reported to the loop, and every answer is `Stop`.
pub proof fn lemma_abort_silences(phase: SenderPhase, events: Seq<SenderEvent>)
    ensures
        frames(duties(phase.cancelled(), events)) == Seq::<FrameRole>::empty(),
        forall|i: int|
            0 <= i < events.len() ==> #[trigger] duties(phase.cancelled(), events)[i] == Duty::Stop,
        duties(phase.cancelled(), events).len() == events.len(),
        phase_after(phase.cancelled(), events) == phase.cancelled(),
    decreases events.len(),
{
    let halted = phase.cancelled();
    lemma_silent_after_wind_down(halted, events);
    if events.len() > 0 {
        lemma_abort_silences(phase, events.drop_first());
    }
}

/// How often a sequence of duties asks for the half-close of the write half.
pub open spec fn half_closes(duties: Seq<Duty>) -> nat
    decreases duties.len(),
{
    if duties.len() == 0 {
        0
    } else if duties[0] == Duty::HalfClose {
        1 + half_closes(duties.drop_first())
    } else {
        half_closes(duties.drop_first())
    }
}

/// Once the half-close was asked for, it is not asked for again.
pub proof fn lemma_no_second_half_close(phase: SenderPhase, events: Seq<SenderEvent>)
    requires
        phase == SenderPhase::Closing || phase.over(),
    ensures
        half_closes(duties(phase, events)) == 0,
    decreases events.len(),
{
    if events.len() > 0 {
        let reaction = phase.react(events[0]);
        lemma_no_second_half_close(reaction.next, events.drop_first());
        let all = duties(phase, events);
        assert(all.drop_first() =~= duties(reaction.next, events.drop_first()));
    }
}

/// Whatever ends the sending, the write half is closed, and closed once: a
/// run that takes the loop from its start to the half-close or to its
/// finish asks for the half-close exactly once, and no run asks for it twice.
pub proof fn lemma_half_close_exactly_once(phase: SenderPhase, events: Seq<SenderEvent>)
    requires
        draining(phase) || phase == SenderPhase::Transmitting(FrameRole::EndMarker),
    ensures
        half_closes(duties(phase, events)) <= 1,
        phase_after(phase, events) == SenderPhase::Closing || phase_after(phase, events)
            == SenderPhase::Finished ==> half_closes(duties(phase, events)) == 1,
        phase_after(phase, events) != SenderPhase::Aborted,
    decreases events.len(),
{
    if events.len() > 0 {
        let reaction = phase.react(events[0]);
        let rest = events.drop_first();
        let all = duties(phase, events);
        assert(all.drop_first() =~= duties(reaction.next, rest));
        if reaction.next == SenderPhase::Closing {
            lemma_no_second_half_close(reaction.next, rest);
            lemma_closing_is_not_aborted(rest);
        } else {
            lemma_half_close_exactly_once(reaction.next, rest);
        }
    }
}

/// A loop that closes its write half finishes or goes on closing; nothing
/// that is reported to it aborts it.
pub proof fn lemma_closing_is_not_aborted(events: Seq<SenderEvent>)
    ensures
        phase_after(SenderPhase::Closing, events) == SenderPhase::Closing || phase_after(
            SenderPhase::Closing,
            events,
        ) == SenderPhase::Finished,
    decreases events.len(),
{
    if events.len() > 0 {
        let reaction = SenderPhase::Closing.react(events[0]);
        if reaction.next == SenderPhase::Closing {
            lemma_closing_is_not_aborted(events.drop_first());
        } else {
            lemma_silent_after_wind_down(SenderPhase::Finished, events.drop_first());
        }
    }
}

/// How many sends fail during a run: the failures that are reported while
/// a frame is on its way.
pub open spec fn failed_sends(phase: SenderPhase, events: Seq<SenderEvent>) -> nat
    decreases events.len(),
{
    if events.len() == 0 {
        0
    } else {
        let later = failed_sends(phase.react(events[0]).next, events.drop_first());
        if phase is Transmitting && events[0] is SendFailed {
            1 + later
        } else {
            later
        }
    }
}

/// A loop that is still draining has had no trouble: no send has failed, no
/// end marker has gone out, and the write half is still open.
pub proof fn lemma_still_draining_means_untroubled(phase: SenderPhase, events: Seq<SenderEvent>)
    requires
        draining(phase),
        draining(phase_after(phase, events)),
    ensures
        failed_sends(phase, events) == 0,
        count(frames(duties(phase, events)), FrameRole::EndMarker) == 0,
        half_closes(duties(phase, events)) == 0,
    decreases events.len(),
{
    if events.len() > 0 {
        let reaction = phase.react(events[0]);
        let rest = events.drop_first();
        let later = duties(reaction.next, rest);
        assert(duties(phase, events).drop_first() =~= later);
        if draining(reaction.next) {
            lemma_still_draining_means_untroubled(reaction.next, rest);
            lemma_frames_of_one(reaction.duty);
            lemma_count_in_parts(
                frames(seq![reaction.duty]),
                frames(later),
                FrameRole::EndMarker,
            );
            lemma_count_uniform(frames(seq![reaction.duty]), FrameRole::EndMarker);
        } else {
            lemma_never_draining_again(reaction.next, rest);
        }
    }
}

/// A loop that has handed out the end marker or has left for the half-close
/// does not drain again.
pub proof fn lemma_never_draining_again(phase: SenderPhase, events: Seq<SenderEvent>)
    requires
        !draining(phase),
    ensures
        !draining(phase_after(phase, events)),
    decreases events.len(),
{
    if events.len() > 0 {
        lemma_never_draining_again(phase.react(events[0]).next, events.drop_first());
    }
}

/// The end marker goes out only when the outbound sequence ends while the
/// loop is waiting for it, and only if no send has failed before.
pub proof fn lemma_end_marker_needs_clean_end(before: Seq<SenderEvent>, event: SenderEvent)
    requires
        phase_after(SenderPhase::Draining, before).react(event).duty == Duty::Transmit(
            FrameRole::EndMarker,
        ),
    ensures
        event is Exhausted,
        phase_after(SenderPhase::Draining, before) == SenderPhase::Draining,
        failed_sends(SenderPhase::Draining, before) == 0,
        count(frames(duties(SenderPhase::Draining, before)), FrameRole::EndMarker) == 0,
        half_closes(duties(SenderPhase::Draining, before)) == 0,
{
    lemma_still_draining_means_untroubled(SenderPhase::Draining, before);
}

/// When the keepalive timer fires before the outbound sequence has yielded
/// anything, the first frame on the wire is a ping, whatever follows.
pub proof fn lemma_idle_start_pings_first(events: Seq<SenderEvent>)
    requires
        events.len() > 0,
        events[0] is Tick,
    ensures
        frames(duties(SenderPhase::Draining, events)).len() > 0,
        frames(duties(SenderPhase::Draining, events))[0] == FrameRole::Ping,
{
    let rest = duties(SenderPhase::Transmitting(FrameRole::Ping), events.drop_first());
    assert(duties(SenderPhase::Draining, events).drop_first() =~= rest);
}

} // verus!
