//! What holds of every playback call, whatever its driver reports.

use crate::device::lemma_first_match_is_least;
use crate::error::PlaybackError;
use crate::request::{PlaybackRequest, RpcAudioPlayAsync};
use crate::session::{
    accepts, next_state, outcome_of, pending_action, state_after, Action, EventView, SessionState,
};
use vstd::prelude::*;

verus! {

/// Whether audio was queued for playing at some point of the call.
pub open spec fn played(request: PlaybackRequest, events: Seq<EventView>) -> bool {
    exists|k: int| 0 <= k <= events.len() && #[trigger] state_after(request, events.take(k)) is Playing
}

/// How far along the path a state is: the number of steps that lie behind
/// it, both ends of a call counting as the last step.
pub open spec fn stage(state: SessionState) -> nat {
    match state {
        SessionState::Idle => 0,
        SessionState::DeviceResolved { .. } => 1,
        SessionState::StreamOpen => 2,
        SessionState::Decoding => 3,
        SessionState::Playing => 4,
        SessionState::Completed => 5,
        SessionState::Failed(_) => 5,
    }
}

/// A call that has ended stays as it ended, whatever is reported later:
/// nothing is retried.
pub proof fn lemma_ended_calls_stay(request: PlaybackRequest, events: Seq<EventView>, k: int)
    requires
        0 <= k <= events.len(),
        outcome_of(state_after(request, events.take(k))) is Some,
    ensures
        state_after(request, events) == state_after(request, events.take(k)),
    decreases events.len() - k,
{
    if k == events.len() {
        assert(events.take(k) =~= events);
    } else {
        assert(events.drop_last().take(k) =~= events.take(k));
        lemma_ended_calls_stay(request, events.drop_last(), k);
    }
}

/// An event that answers what the call waits for takes it exactly one step
/// along the path or fails it; any other event leaves it where it is.
pub proof fn lemma_one_step_at_a_time(
    request: PlaybackRequest,
    state: SessionState,
    event: EventView,
)
    ensures
        accepts(state, event) ==> {
            let next = next_state(request, state, event);
            next is Failed || stage(next) == stage(state) + 1
        },
        !accepts(state, event) ==> next_state(request, state, event) == state,
{
}

/// A call never goes back: at no earlier point was it further along the
/// path than it is in the end.
pub proof fn lemma_calls_only_move_forward(
    request: PlaybackRequest,
    events: Seq<EventView>,
    k: int,
)
    requires
        0 <= k <= events.len(),
    ensures
        stage(state_after(request, events.take(k))) <= stage(state_after(request, events)),
    decreases events.len() - k,
{
    if k == events.len() {
        assert(events.take(k) =~= events);
    } else {
        assert(events.drop_last().take(k) =~= events.take(k));
        lemma_calls_only_move_forward(request, events.drop_last(), k);
        lemma_one_step_at_a_time(
            request,
            state_after(request, events.drop_last()),
            events.last(),
        );
    }
}

/// A call that has not failed has been in every step of the path that lies
/// before the one it is in. In particular, audio is playing only after the
/// sink was prepared with the requested gain and speed and the bytes were
/// decoded.
pub proof fn lemma_no_step_is_skipped(request: PlaybackRequest, events: Seq<EventView>, n: nat)
    requires
        !(state_after(request, events) is Failed),
        n < stage(state_after(request, events)),
    ensures
        exists|k: int|
            0 <= k < events.len() && {
                let earlier = #[trigger] state_after(request, events.take(k));
                stage(earlier) == n && outcome_of(earlier) is None
            },
    decreases events.len(),
{
    if events.len() > 0 {
        let before = events.drop_last();
        let earlier = state_after(request, before);
        lemma_one_step_at_a_time(request, earlier, events.last());
        assert(events.take(events.len() - 1) =~= before);
        if stage(earlier) > n {
            lemma_no_step_is_skipped(request, before, n);
            let k = choose|k: int|
                0 <= k < before.len() && {
                    let at_k = #[trigger] state_after(request, before.take(k));
                    stage(at_k) == n && outcome_of(at_k) is None
                };
            assert(before.take(k) =~= events.take(k));
        }
    }
}

/// Every step of the path can fail: from each state in which a call still
/// goes on, some report of the driver ends it in failure.
pub proof fn lemma_every_step_can_fail(request: PlaybackRequest, state: SessionState)
    requires
        outcome_of(state) is None,
    ensures
        exists|event: EventView|
            accepts(state, event) && #[trigger] next_state(request, state, event) is Failed,
{
    let event = match state {
        SessionState::Idle => EventView::DevicesUnavailable,
        SessionState::DeviceResolved { .. } => EventView::StreamRefused,
        SessionState::StreamOpen => EventView::SinkRefused,
        SessionState::Decoding => EventView::Undecodable,
        _ => EventView::StreamLost,
    };
    assert(accepts(state, event) && next_state(request, state, event) is Failed);
}

/// One more report takes the call one transition further.
pub proof fn lemma_one_more_report(
    request: PlaybackRequest,
    events: Seq<EventView>,
    event: EventView,
)
    ensures
        state_after(request, events.push(event)) == next_state(
            request,
            state_after(request, events),
            event,
        ),
{
    assert(events.push(event).drop_last() =~= events);
}

/// Success is owed where nothing goes wrong: a call whose device is among
/// those enumerated, whose stream opens, whose sink is made ready, whose
/// bytes are decoded and whose sink is drained has completed.
pub proof fn lemma_answered_call_completes(request: PlaybackRequest, names: Seq<Seq<char>>)
    requires
        names.contains(request.device_name),
    ensures
        state_after(
            request,
            seq![
                EventView::DevicesListed(names),
                EventView::StreamOpened,
                EventView::SinkReady,
                EventView::Decoded,
                EventView::Drained,
            ],
        ) == SessionState::Completed,
{
    let listed = Seq::<EventView>::empty().push(EventView::DevicesListed(names));
    let opened = listed.push(EventView::StreamOpened);
    let ready = opened.push(EventView::SinkReady);
    let decoded = ready.push(EventView::Decoded);
    let drained = decoded.push(EventView::Drained);
    lemma_first_match_is_least(names, request.device_name);
    lemma_one_more_report(request, Seq::empty(), EventView::DevicesListed(names));
    lemma_one_more_report(request, listed, EventView::StreamOpened);
    lemma_one_more_report(request, opened, EventView::SinkReady);
    lemma_one_more_report(request, ready, EventView::Decoded);
    lemma_one_more_report(request, decoded, EventView::Drained);
    assert(drained =~= seq![
        EventView::DevicesListed(names),
        EventView::StreamOpened,
        EventView::SinkReady,
        EventView::Decoded,
        EventView::Drained,
    ]);
}

/// A request for a name that none of the enumerated devices carries fails
/// with `InvalidDevice` when the devices are listed and stays so whatever
/// follows; at no point of such a call is anything played.
pub proof fn lemma_unknown_device_is_refused(
    request: PlaybackRequest,
    names: Seq<Seq<char>>,
    before: Seq<EventView>,
    after: Seq<EventView>,
)
    requires
        state_after(request, before) is Idle,
        !names.contains(request.device_name),
    ensures
        ({
            let events = before.push(EventView::DevicesListed(names)) + after;
            &&& state_after(request, events) == SessionState::Failed(PlaybackError::InvalidDevice)
            &&& pending_action(request, state_after(request, events)) == Action::ReportFailure(
                PlaybackError::InvalidDevice,
            )
            &&& !played(request, events)
        }),
{
    let listed = before.push(EventView::DevicesListed(names));
    let events = listed + after;
    let cut: int = before.len() as int + 1;
    lemma_first_match_is_least(names, request.device_name);
    lemma_one_more_report(request, before, EventView::DevicesListed(names));
    assert(events.take(cut) =~= listed);
    lemma_ended_calls_stay(request, events, cut);
    assert forall|k: int| 0 <= k <= events.len() implies !(#[trigger] state_after(
        request,
        events.take(k),
    ) is Playing) by {
        if k < cut {
            assert(events.take(k) =~= before.take(k));
            lemma_calls_only_move_forward(request, before, k);
        } else {
            assert(events.take(k).take(cut) =~= events.take(cut));
            lemma_ended_calls_stay(request, events.take(k), cut);
        }
    }
}

/// Bytes that the decoder does not recognise fail the call with
/// `DecodeFailed`, whatever is reported afterwards, and no part of them is
/// ever played.
pub proof fn lemma_undecodable_audio_is_never_played(
    request: PlaybackRequest,
    before: Seq<EventView>,
    after: Seq<EventView>,
)
    requires
        state_after(request, before) is Decoding,
    ensures
        ({
            let events = before.push(EventView::Undecodable) + after;
            &&& state_after(request, events) == SessionState::Failed(PlaybackError::DecodeFailed)
            &&& !played(request, events)
        }),
{
    let events = before.push(EventView::Undecodable) + after;
    let cut: int = before.len() as int + 1;
    lemma_one_more_report(request, before, EventView::Undecodable);
    assert(events.take(cut) =~= before.push(EventView::Undecodable));
    lemma_ended_calls_stay(request, events, cut);
    assert forall|k: int| 0 <= k <= events.len() implies !(#[trigger] state_after(
        request,
        events.take(k),
    ) is Playing) by {
        if k < cut {
            assert(events.take(k) =~= before.take(k));
            lemma_calls_only_move_forward(request, before, k);
        } else {
            assert(events.take(k).take(cut) =~= events.take(cut));
            lemma_ended_calls_stay(request, events.take(k), cut);
        }
    }
}

/// Playing starts only on audio that was decoded: as long as no report says
/// that the bytes were recognised, nothing is played and the call does not
/// complete.
pub proof fn lemma_playing_needs_decoded_audio(request: PlaybackRequest, events: Seq<EventView>)
    requires
        forall|i: int| 0 <= i < events.len() ==> !(#[trigger] events[i] is Decoded),
    ensures
        !played(request, events),
        !(state_after(request, events) is Completed),
{
    assert forall|k: int| 0 <= k <= events.len() implies stage(
        #[trigger] state_after(request, events.take(k)),
    ) <= 3 || state_after(request, events.take(k)) is Failed by {
        lemma_stays_before_playing(request, events.take(k));
    }
    assert(events.take(events.len() as int) =~= events);
}

/// Without a report of decoded audio a call does not get past decoding.
proof fn lemma_stays_before_playing(request: PlaybackRequest, events: Seq<EventView>)
    requires
        forall|i: int| 0 <= i < events.len() ==> !(#[trigger] events[i] is Decoded),
    ensures
        stage(state_after(request, events)) <= 3 || state_after(request, events) is Failed,
    decreases events.len(),
{
    if events.len() > 0 {
        lemma_stays_before_playing(request, events.drop_last());
    }
}

/// A call owes nothing to the calls before it: two requests that ask for the
/// same thing go the same way under the same reports and end alike.
pub proof fn lemma_equal_requests_equal_calls(
    first: RpcAudioPlayAsync,
    second: RpcAudioPlayAsync,
    events: Seq<EventView>,
)
    requires
        first@ == second@,
    ensures
        state_after(first@, events) == state_after(second@, events),
        outcome_of(state_after(first@, events)) == outcome_of(state_after(second@, events)),
        pending_action(first@, state_after(first@, events)) == pending_action(
            second@,
            state_after(second@, events),
        ),
{
}

} // verus!
