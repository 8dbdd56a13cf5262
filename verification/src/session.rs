//! One playback call, from its beginning to its end.
//!
//! A call is driven from outside: the driver does what the call waits for
//! (see [`Action`]), reports how that went (see [`Event`]) and is told by
//! [`step`] where the call stands now and what it waits for next. Nothing is
//! ever tried a second time, and the first failure ends the call.
//!
//! A stream that breaks while the audio plays fails the call in flight,
//! with [`PlaybackError::Interrupted`], as soon as the driver reports it.

use crate::device::{first_match, select_device};
use crate::error::PlaybackError;
use crate::request::{PlaybackRequest, RpcAudioPlayAsync};
use vstd::prelude::*;

verus! {

/// Where one playback call stands.
///
/// A call passes through the first five states in order and ends in
/// `Completed`, or leaves that path for `Failed` at the first thing that
/// goes wrong. Both ends are final.
#[derive(Clone, Copy, Debug, PartialEq, Eq, Structural)]
pub enum SessionState {
    /// Nothing has been done yet.
    Idle,
    /// The requested name resolved to the device at this place in the
    /// enumeration.
    DeviceResolved { device: usize },
    /// An output stream is open on the device.
    StreamOpen,
    /// A sink with the requested gain and speed is ready; the audio is being
    /// decoded.
    Decoding,
    /// The decoded audio is queued and playing.
    Playing,
    /// The audio was played to its end.
    Completed,
    /// The call was given up.
    Failed(PlaybackError),
}

/// What the driver of a call reports back after it has done what the call
/// was waiting for.
#[derive(Debug, PartialEq, Eq)]
pub enum Event {
    /// The output devices were enumerated; their names, in enumeration order.
    DevicesListed(Vec<String>),
    /// The host audio subsystem could not enumerate its devices.
    DevicesUnavailable,
    /// The output stream was opened.
    StreamOpened,
    /// The device could not be opened.
    StreamRefused,
    /// The sink was created and carries the requested gain and speed.
    SinkReady,
    /// No sink could be created on the stream.
    SinkRefused,
    /// The bytes were recognised as audio.
    Decoded,
    /// The bytes are not audio in any recognised format.
    Undecodable,
    /// The sink has played all that was queued.
    Drained,
    /// The stream broke before the sink was drained.
    StreamLost,
}

/// An event as the contracts speak of it.
pub enum EventView {
    DevicesListed(Seq<Seq<char>>),
    DevicesUnavailable,
    StreamOpened,
    StreamRefused,
    SinkReady,
    SinkRefused,
    Decoded,
    Undecodable,
    Drained,
    StreamLost,
}

impl View for Event {
    type V = EventView;

    open spec fn view(&self) -> EventView {
        match self {
            Event::DevicesListed(names) => EventView::DevicesListed(names.deep_view()),
            Event::DevicesUnavailable => EventView::DevicesUnavailable,
            Event::StreamOpened => EventView::StreamOpened,
            Event::StreamRefused => EventView::StreamRefused,
            Event::SinkReady => EventView::SinkReady,
            Event::SinkRefused => EventView::SinkRefused,
            Event::Decoded => EventView::Decoded,
            Event::Undecodable => EventView::Undecodable,
            Event::Drained => EventView::Drained,
            Event::StreamLost => EventView::StreamLost,
        }
    }
}

/// What a call waits for its driver to do.
#[derive(Clone, Copy, Debug, PartialEq, Eq, Structural)]
pub enum Action {
    /// Enumerate the output devices of the host.
    ListDevices,
    /// Open an output stream on the device at this place in the enumeration.
    OpenStream { device: usize },
    /// Create one sink on the stream and set its gain and speed, before
    /// anything is queued on it.
    PrepareSink { volume_bits: u32, rate_bits: u32 },
    /// Decode the request's bytes.
    Decode,
    /// Queue the decoded audio on the sink and wait until it is drained.
    Play,
    /// Tell the caller that the audio was played.
    ReportSuccess,
    /// Tell the caller that the call failed, and why.
    ReportFailure(PlaybackError),
}

/// Whether `event` answers what a call in `state` is waiting for.
pub open spec fn accepts(state: SessionState, event: EventView) -> bool {
    match state {
        SessionState::Idle => event is DevicesListed || event is DevicesUnavailable,
        SessionState::DeviceResolved { .. } => event is StreamOpened || event is StreamRefused,
        SessionState::StreamOpen => event is SinkReady || event is SinkRefused,
        SessionState::Decoding => event is Decoded || event is Undecodable,
        SessionState::Playing => event is Drained || event is StreamLost,
        SessionState::Completed => false,
        SessionState::Failed(_) => false,
    }
}

/// The state that follows `state` once `event` is reported.
///
/// An event that does not answer what the call is waiting for changes
/// nothing.
pub open spec fn next_state(
    request: PlaybackRequest,
    state: SessionState,
    event: EventView,
) -> SessionState {
    match (state, event) {
        (SessionState::Idle, EventView::DevicesListed(names)) => match first_match(
            names,
            request.device_name,
        ) {
            Some(i) => SessionState::DeviceResolved { device: i as usize },
            None => SessionState::Failed(PlaybackError::InvalidDevice),
        },
        (SessionState::Idle, EventView::DevicesUnavailable) => SessionState::Failed(
            PlaybackError::EnumerationFailed,
        ),
        (SessionState::DeviceResolved { .. }, EventView::StreamOpened) => SessionState::StreamOpen,
        (SessionState::DeviceResolved { .. }, EventView::StreamRefused) => SessionState::Failed(
            PlaybackError::StreamUnavailable,
        ),
        (SessionState::StreamOpen, EventView::SinkReady) => SessionState::Decoding,
        (SessionState::StreamOpen, EventView::SinkRefused) => SessionState::Failed(
            PlaybackError::StreamUnavailable,
        ),
        (SessionState::Decoding, EventView::Decoded) => SessionState::Playing,
        (SessionState::Decoding, EventView::Undecodable) => SessionState::Failed(
            PlaybackError::DecodeFailed,
        ),
        (SessionState::Playing, EventView::Drained) => SessionState::Completed,
        (SessionState::Playing, EventView::StreamLost) => SessionState::Failed(
            PlaybackError::Interrupted,
        ),
        _ => state,
    }
}

/// What a call in `state` waits for its driver to do.
pub open spec fn pending_action(request: PlaybackRequest, state: SessionState) -> Action {
    match state {
        SessionState::Idle => Action::ListDevices,
        SessionState::DeviceResolved { device } => Action::OpenStream { device },
        SessionState::StreamOpen => Action::PrepareSink {
            volume_bits: request.volume_bits,
            rate_bits: request.rate_bits,
        },
        SessionState::Decoding => Action::Decode,
        SessionState::Playing => Action::Play,
        SessionState::Completed => Action::ReportSuccess,
        SessionState::Failed(error) => Action::ReportFailure(error),
    }
}

/// Names what the driver has to do for a call in `state`.
pub fn pending(request: &RpcAudioPlayAsync, state: SessionState) -> (action: Action)
    ensures
        action == pending_action(request@, state),
{
    match state {
        SessionState::Idle => Action::ListDevices,
        SessionState::DeviceResolved { device } => Action::OpenStream { device },
        SessionState::StreamOpen => Action::PrepareSink {
            volume_bits: request.volume_bits,
            rate_bits: request.rate_bits,
        },
        SessionState::Decoding => Action::Decode,
        SessionState::Playing => Action::Play,
        SessionState::Completed => Action::ReportSuccess,
        SessionState::Failed(error) => Action::ReportFailure(error),
    }
}

/// Takes one report of the driver and decides how the call goes on.
///
/// Returns the state that follows and what the call waits for in it. An
/// event that does not answer what the call was waiting for is passed over:
/// the state stays, and with it what is waited for.
pub fn step(request: &RpcAudioPlayAsync, state: SessionState, event: &Event) -> (next: (
    SessionState,
    Action,
))
    ensures
        next.0 == next_state(request@, state, event@),
        next.1 == pending_action(request@, next.0),
{
    let following = match state {
        SessionState::Idle => match event {
            Event::DevicesListed(names) => match select_device(
                names,
                request.device_name.as_str(),
            ) {
                Some(device) => SessionState::DeviceResolved { device },
                None => SessionState::Failed(PlaybackError::InvalidDevice),
            },
            Event::DevicesUnavailable => SessionState::Failed(PlaybackError::EnumerationFailed),
            _ => state,
        },
        SessionState::DeviceResolved { .. } => match event {
            Event::StreamOpened => SessionState::StreamOpen,
            Event::StreamRefused => SessionState::Failed(PlaybackError::StreamUnavailable),
            _ => state,
        },
        SessionState::StreamOpen => match event {
            Event::SinkReady => SessionState::Decoding,
            Event::SinkRefused => SessionState::Failed(PlaybackError::StreamUnavailable),
            _ => state,
        },
        SessionState::Decoding => match event {
            Event::Decoded => SessionState::Playing,
            Event::Undecodable => SessionState::Failed(PlaybackError::DecodeFailed),
            _ => state,
        },
        SessionState::Playing => match event {
            Event::Drained => SessionState::Completed,
            Event::StreamLost => SessionState::Failed(PlaybackError::Interrupted),
            _ => state,
        },
        SessionState::Completed => state,
        SessionState::Failed(_) => state,
    };
    (following, pending(request, following))
}

/// The state of a call for `request` after its driver has reported `events`,
/// in this order, since the call began.
pub open spec fn state_after(request: PlaybackRequest, events: Seq<EventView>) -> SessionState
    decreases events.len(),
{
    if events.len() == 0 {
        SessionState::Idle
    } else {
        next_state(request, state_after(request, events.drop_last()), events.last())
    }
}

/// The events of a recorded call as the contracts speak of them.
pub open spec fn views_of(events: Seq<Event>) -> Seq<EventView> {
    events.map_values(|event: Event| event@)
}

/// Replays a call from its beginning: takes the reports of its driver in
/// order and tells where the call stands after the last of them.
pub fn replay(request: &RpcAudioPlayAsync, events: &Vec<Event>) -> (state: SessionState)
    ensures
        state == state_after(request@, views_of(events@)),
{
    let ghost reports = views_of(events@);
    let mut state = SessionState::Idle;
    let mut i: usize = 0;
    while i < events.len()
        invariant
            i <= events.len(),
            reports == views_of(events@),
            state == state_after(request@, reports.take(i as int)),
        decreases events.len() - i,
    {
        proof {
            assert(reports.take(i + 1).drop_last() =~= reports.take(i as int));
            assert(reports.take(i + 1).last() == events@[i as int]@);
        }
        let next = step(request, state, &events[i]);
        state = next.0;
        i += 1;
    }
    proof {
        assert(reports.take(events.len() as int) =~= reports);
    }
    state
}

/// How a call in `state` has ended: `None` while it still goes on.
pub open spec fn outcome_of(state: SessionState) -> Option<Result<(), PlaybackError>> {
    match state {
        SessionState::Completed => Some(Ok(())),
        SessionState::Failed(error) => Some(Err(error)),
        _ => None,
    }
}

/// Tells how a call has ended, or that it still goes on.
pub fn outcome(state: SessionState) -> (ended: Option<Result<(), PlaybackError>>)
    ensures
        ended == outcome_of(state),
{
    match state {
        SessionState::Completed => Some(Ok(())),
        SessionState::Failed(error) => Some(Err(error)),
        _ => None,
    }
}

/// Turns the end of a call into the reply that its caller receives: nothing
/// on success, the failure's message otherwise.
pub fn reply(ended: Result<(), PlaybackError>) -> (answer: Result<(), String>)
    ensures
        match ended {
            Ok(_) => answer is Ok,
            Err(error) => answer matches Err(text) && text@ == error.message_text(),
        },
{
    match ended {
        Ok(_) => Ok(()),
        Err(error) => Err(error.message()),
    }
}

} // verus!
