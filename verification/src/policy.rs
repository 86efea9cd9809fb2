//! How a run arrives at its brightness.
//!
//! The camera is tried first. If it is unavailable the run falls back to the
//! weather, which needs a credential, a location and a report, in that
//! order. The run ends with a brightness to apply or with the failure that
//! stopped it; nothing is applied after a failure.
//!
//! The policy is a state machine. Its caller performs each action it asks
//! for and hands back what happened as the next event.

use vstd::prelude::*;
use crate::config::Configuration;
use crate::error::ErrorKind;
use crate::frame::{estimate_from_frame, frame_brightness, RasterFrame};
use crate::units::{Level, UNIT};
use crate::weather::{estimate_from_weather, weather_brightness, WeatherSnapshot};

verus! {

/// Where a run stands.
#[derive(Clone, Copy, Debug, PartialEq, Eq)]
pub enum Phase {
    /// Nothing has been asked for yet.
    Idle,
    /// A camera frame has been asked for.
    AwaitingFrame,
    /// The location has been asked for.
    AwaitingLocation,
    /// The weather report has been asked for.
    AwaitingWeather,
    /// The run has ended, with a brightness or with a failure.
    Finished,
}

/// Why a request to the location or weather service gave nothing.
#[derive(Clone, Copy, Debug, PartialEq, Eq)]
pub enum FetchFailure {
    /// The request itself failed.
    Network,
    /// The answer could not be read.
    Parse,
}

/// What happened outside since the last action.
#[derive(Debug, PartialEq, Eq)]
pub enum Event {
    /// The run begins.
    Begin,
    /// The camera delivered a frame.
    FrameCaptured(RasterFrame),
    /// The camera is absent or could not be read.
    CameraUnavailable,
    /// The location is known.
    LocationFound,
    /// The weather report arrived at the instant `now`, in seconds since the
    /// Unix epoch.
    WeatherReceived { snapshot: WeatherSnapshot, now: i64 },
    /// The location or the weather report could not be had.
    FetchFailed(FetchFailure),
}

/// What the caller is to do next.
#[derive(Clone, Copy, Debug, PartialEq, Eq)]
pub enum Action {
    /// Capture a frame from the camera.
    CaptureFrame,
    /// Look up the location.
    FetchLocation,
    /// Fetch the weather report for the location.
    FetchWeather,
    /// Apply this brightness to the monitors. The run has ended.
    Apply(Level),
    /// Report this failure and apply nothing. The run has ended.
    Abort(ErrorKind),
    /// The event was not expected in this phase; nothing is to be done.
    Ignore,
}

/// An action as plain values: the brightness in millionths.
pub enum ActionView {
    CaptureFrame,
    FetchLocation,
    FetchWeather,
    Apply(int),
    Abort(ErrorKind),
    Ignore,
}

impl Action {
    pub open spec fn view(self) -> ActionView {
        match self {
            Action::CaptureFrame => ActionView::CaptureFrame,
            Action::FetchLocation => ActionView::FetchLocation,
            Action::FetchWeather => ActionView::FetchWeather,
            Action::Apply(brightness) => ActionView::Apply(brightness@),
            Action::Abort(kind) => ActionView::Abort(kind),
            Action::Ignore => ActionView::Ignore,
        }
    }
}

/// The failure kind under which a failed fetch ends the run.
pub open spec fn fetch_error(failure: FetchFailure) -> ErrorKind {
    match failure {
        FetchFailure::Network => ErrorKind::NetworkFailure,
        FetchFailure::Parse => ErrorKind::ParseFailure,
    }
}

/// The phase that follows `phase` on `event`, and the action to take, for a
/// brightness floor of `floor` millionths and a configuration that has a
/// weather credential or not.
pub open spec fn next(phase: Phase, event: Event, floor: int, has_credential: bool) -> (
    Phase,
    ActionView,
) {
    match (phase, event) {
        (Phase::Idle, Event::Begin) => (Phase::AwaitingFrame, ActionView::CaptureFrame),
        (Phase::AwaitingFrame, Event::FrameCaptured(frame)) => (
            Phase::Finished,
            ActionView::Apply(frame_brightness(frame@, floor)),
        ),
        (Phase::AwaitingFrame, Event::CameraUnavailable) => if has_credential {
            (Phase::AwaitingLocation, ActionView::FetchLocation)
        } else {
            (Phase::Finished, ActionView::Abort(ErrorKind::MissingCredential))
        },
        (Phase::AwaitingLocation, Event::LocationFound) => (
            Phase::AwaitingWeather,
            ActionView::FetchWeather,
        ),
        (Phase::AwaitingLocation, Event::FetchFailed(failure)) => (
            Phase::Finished,
            ActionView::Abort(fetch_error(failure)),
        ),
        (Phase::AwaitingWeather, Event::WeatherReceived { snapshot, now }) => (
            Phase::Finished,
            ActionView::Apply(
                weather_brightness(
                    snapshot.sunrise as int,
                    snapshot.sunset as int,
                    snapshot.cloud_cover@,
                    now as int,
                    floor,
                ),
            ),
        ),
        (Phase::AwaitingWeather, Event::FetchFailed(failure)) => (
            Phase::Finished,
            ActionView::Abort(fetch_error(failure)),
        ),
        _ => (phase, ActionView::Ignore),
    }
}

/// The actions that a run takes, one per event, when it is in `phase` and
/// meets `events` in turn.
pub open spec fn actions_of(phase: Phase, events: Seq<Event>, floor: int, has_credential: bool) -> Seq<
    ActionView,
>
    decreases events.len(),
{
    if events.len() == 0 {
        Seq::empty()
    } else {
        let (after, action) = next(phase, events[0], floor, has_credential);
        seq![action] + actions_of(after, events.drop_first(), floor, has_credential)
    }
}

/// A brightness or a failure ends the run, and only a failure that is fatal
/// is ever reported.
pub proof fn ending_actions_finish(phase: Phase, event: Event, floor: int, has_credential: bool)
    ensures
        ({
            let (after, action) = next(phase, event, floor, has_credential);
            &&& action is Apply || action is Abort ==> after == Phase::Finished
            &&& action matches ActionView::Abort(kind) ==> kind.fatal()
        }),
{
}

/// Once a run has ended, no event makes it do anything more.
pub proof fn finished_stays_finished(events: Seq<Event>, floor: int, has_credential: bool)
    ensures
        actions_of(Phase::Finished, events, floor, has_credential).len() == events.len(),
        forall|i: int|
            0 <= i < events.len() ==> #[trigger] actions_of(
                Phase::Finished,
                events,
                floor,
                has_credential,
            )[i] == ActionView::Ignore,
    decreases events.len(),
{
    if events.len() > 0 {
        finished_stays_finished(events.drop_first(), floor, has_credential);
    }
}

/// When the camera is unavailable and no credential is configured, the run
/// ends at once with `MissingCredential`, and whatever happens afterwards no
/// brightness is ever handed out to be applied.
pub proof fn missing_credential_ends_run(later: Seq<Event>, floor: int)
    ensures
        ({
            let events = seq![Event::Begin, Event::CameraUnavailable] + later;
            let actions = actions_of(Phase::Idle, events, floor, false);
            &&& actions.len() == events.len()
            &&& actions[0] == ActionView::CaptureFrame
            &&& actions[1] == ActionView::Abort(ErrorKind::MissingCredential)
            &&& forall|i: int| 0 <= i < actions.len() ==> !(#[trigger] actions[i] is Apply)
        }),
{
    let events = seq![Event::Begin, Event::CameraUnavailable] + later;
    let second = events.drop_first();
    let third = second.drop_first();
    assert(third =~= later);
    finished_stays_finished(later, floor, false);
    let tail = actions_of(Phase::Finished, later, floor, false);
    assert(actions_of(Phase::AwaitingFrame, second, floor, false) == seq![
        ActionView::Abort(ErrorKind::MissingCredential),
    ] + tail);
    let actions = actions_of(Phase::Idle, events, floor, false);
    assert(actions == seq![ActionView::CaptureFrame] + (seq![
        ActionView::Abort(ErrorKind::MissingCredential),
    ] + tail));
    assert forall|i: int| 0 <= i < actions.len() implies !(#[trigger] actions[i] is Apply) by {
        if i >= 2 {
            assert(actions[i] == tail[i - 2]);
        }
    }
}

/// Two outcomes that both meet the contract of a step from the same phase on
/// the same event are the same outcome.
pub proof fn step_is_deterministic(
    first: (Phase, Action),
    second: (Phase, Action),
    phase: Phase,
    event: Event,
    floor: int,
    has_credential: bool,
)
    requires
        (first.0, first.1@) == next(phase, event, floor, has_credential),
        (second.0, second.1@) == next(phase, event, floor, has_credential),
    ensures
        first == second,
{
    match (first.1, second.1) {
        (Action::Apply(a), Action::Apply(b)) => {
            Level::equal_by_view(a, b);
        },
        _ => {},
    }
}

/// Takes one step of the policy: the phase after `event` and the action that
/// the caller is to perform.
pub fn step(phase: Phase, event: Event, cfg: &Configuration) -> (outcome: (Phase, Action))
    ensures
        (outcome.0, outcome.1@) == next(phase, event, cfg.min_brightness@, cfg.api_key is Some),
        outcome.1 matches Action::Apply(brightness) ==> cfg.min_brightness@ <= brightness@ <= UNIT,
{
    match phase {
        Phase::Idle => match event {
            Event::Begin => (Phase::AwaitingFrame, Action::CaptureFrame),
            _ => (phase, Action::Ignore),
        },
        Phase::AwaitingFrame => match event {
            Event::FrameCaptured(frame) => (
                Phase::Finished,
                Action::Apply(estimate_from_frame(&frame, cfg.min_brightness)),
            ),
            Event::CameraUnavailable => if cfg.api_key.is_some() {
                (Phase::AwaitingLocation, Action::FetchLocation)
            } else {
                (Phase::Finished, Action::Abort(ErrorKind::MissingCredential))
            },
            _ => (phase, Action::Ignore),
        },
        Phase::AwaitingLocation => match event {
            Event::LocationFound => (Phase::AwaitingWeather, Action::FetchWeather),
            Event::FetchFailed(failure) => (Phase::Finished, Action::Abort(fetch_error_kind(failure))),
            _ => (phase, Action::Ignore),
        },
        Phase::AwaitingWeather => match event {
            Event::WeatherReceived { snapshot, now } => (
                Phase::Finished,
                Action::Apply(estimate_from_weather(&snapshot, now, cfg.min_brightness)),
            ),
            Event::FetchFailed(failure) => (Phase::Finished, Action::Abort(fetch_error_kind(failure))),
            _ => (phase, Action::Ignore),
        },
        Phase::Finished => (phase, Action::Ignore),
    }
}

/// The failure kind under which a failed fetch ends the run.
pub fn fetch_error_kind(failure: FetchFailure) -> (kind: ErrorKind)
    ensures
        kind == fetch_error(failure),
        kind.fatal(),
{
    match failure {
        FetchFailure::Network => ErrorKind::NetworkFailure,
        FetchFailure::Parse => ErrorKind::ParseFailure,
    }
}

} // verus!
