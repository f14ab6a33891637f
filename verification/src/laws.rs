//! What holds of every session, proved from the step function.

use vstd::prelude::*;
use crate::geometry::Rect;
use crate::session::{
    accepts, initial, poll, step, ActionView, Cause, EventView, ExitView, Phase, StageError, State,
    Tenure,
};
use crate::settings::{Settings, KEY_CODE_ESCAPE, KEY_POLL_WAIT_MS};

verus! {

/// The resources that a session holds fit the phase it is in: none while
/// the detector is loaded and the capture device opened, the capture
/// device alone until the window exists, both throughout the loop, and
/// none once the session is over.
pub open spec fn coherent(state: State) -> bool {
    match state.phase {
        Phase::LoadingDetector | Phase::ReadingOverrides | Phase::OpeningCapture => {
            state.capture is Absent && state.window is Absent
        },
        Phase::QueryingOpened | Phase::CreatingWindow => {
            state.capture is Held && state.window is Absent
        },
        Phase::DestroyingWindow(_) => state.capture is Held && state.window is Released,
        Phase::ReleasingCapture(_) => state.capture is Released && !(state.window is Held),
        Phase::Finished => !(state.capture is Held) && !(state.window is Held),
        _ => state.capture is Held && state.window is Held,
    }
}

/// How far a resource has come: not acquired, held, given back.
pub open spec fn progress(tenure: Tenure) -> int {
    match tenure {
        Tenure::Absent => 0,
        Tenure::Held => 1,
        Tenure::Released => 2,
    }
}

/// A session starts coherent.
pub proof fn lemma_initial_is_coherent(settings: Settings)
    ensures
        coherent(initial(settings)),
        initial(settings).phase.starting(),
{
}

/// A step keeps a session coherent, keeps its settings, and moves each
/// resource forward by at most one stage: what was given back is never
/// held again, and nothing is given back that was not held.
pub proof fn lemma_step_keeps_coherence(state: State, event: EventView)
    requires
        coherent(state),
        accepts(state, event),
    ensures
        coherent(step(state, event).0),
        step(state, event).0.settings == state.settings,
        progress(state.capture) <= progress(step(state, event).0.capture) <= progress(
            state.capture,
        ) + 1,
        progress(state.window) <= progress(step(state, event).0.window) <= progress(state.window)
            + 1,
{
}

/// The loop is entered only from the creation of the window, which is
/// asked for only once the capture device has said that it is usable.
pub proof fn lemma_loop_entered_through_window(state: State, event: EventView)
    requires
        accepts(state, event),
        !state.phase.polling(),
        step(state, event).0.phase.polling(),
    ensures
        state.phase is CreatingWindow,
        event == EventView::WindowCreated(true),
        step(state, event) == poll(State { window: Tenure::Held, ..state }),
{
}

/// A capture device that is not usable, or cannot say whether it is, ends
/// the session before the loop: the device is released, no window is
/// created and no frame is asked for.
pub proof fn lemma_unusable_device_ends_session(state: State, opened: Option<bool>)
    requires
        coherent(state),
        state.phase is QueryingOpened,
        opened != Some(true),
    ensures
        ({
            let error = if opened is Some {
                StageError::DeviceNotOpened
            } else {
                StageError::DeviceOpen
            };
            let (next, action) = step(state, EventView::OpenedQueried(opened));
            &&& action == ActionView::ReleaseCapture
            &&& next.phase == Phase::ReleasingCapture(Cause::Failed(error))
            &&& next.capture is Released
            &&& next.window is Absent
            &&& step(next, EventView::CaptureReleased).1 == ActionView::Finish(
                ExitView::Failed(error),
            )
            &&& step(next, EventView::CaptureReleased).0.phase is Finished
        }),
{
}

/// The cancellation key ends the loop at once: the answer to it is the
/// destruction of the window, and no frame is asked for.
pub proof fn lemma_cancellation_winds_down(state: State)
    requires
        coherent(state),
        state.phase is PollingKey,
    ensures
        ({
            let (next, action) = step(state, EventView::KeyPolled(Some(KEY_CODE_ESCAPE)));
            &&& action == ActionView::DestroyWindow
            &&& next.phase == Phase::DestroyingWindow(Cause::Cancelled)
            &&& step(next, EventView::WindowDestroyed).1 == ActionView::ReleaseCapture
            &&& step(step(next, EventView::WindowDestroyed).0, EventView::CaptureReleased).1
                == ActionView::Finish(ExitView::Cancelled)
        }),
{
}

/// Any other key, no key, and a poll that failed let the iteration go on:
/// a frame is asked for.
pub proof fn lemma_other_keys_go_on(state: State, key: Option<i32>)
    requires
        state.phase is PollingKey,
        key != Some(KEY_CODE_ESCAPE),
    ensures
        step(state, EventView::KeyPolled(key)) == (
            State { phase: Phase::Grabbing, ..state },
            ActionView::Grab,
        ),
{
}

/// When no frame is available the session neither fails nor treats
/// anything as a frame: it goes back to the top of the loop with nothing
/// else changed.
pub proof fn lemma_no_frame_is_skipped(state: State)
    requires
        state.phase is Grabbing,
    ensures
        accepts(state, EventView::Grabbed(Some(false))),
        step(state, EventView::Grabbed(Some(false))) == (
            State { phase: Phase::PollingKey, ..state },
            ActionView::PollKey { wait_ms: KEY_POLL_WAIT_MS },
        ),
{
}

/// A frame on which preprocessing or the detector fails is dropped, and
/// the loop goes on with the next poll.
pub proof fn lemma_frame_failure_is_survived(state: State, event: EventView)
    requires
        (state.phase is Converting && event == EventView::Converted(false)) || (state.phase
            is Reducing && event == EventView::Reduced(false)) || (state.phase is Equalizing
            && event == EventView::Equalized(false)) || (state.phase is Detecting && event
            == EventView::Detected(None)),
    ensures
        accepts(state, event),
        step(state, event) == poll(state),
{
}

/// A frame that was fetched is converted to gray, then reduced, then
/// equalized, and only then searched.
pub proof fn lemma_preprocessing_order(state: State)
    requires
        state.phase is Retrieving,
    ensures
        ({
            let (gray, first) = step(state, EventView::Retrieved(true));
            let (reduced, second) = step(gray, EventView::Converted(true));
            let (equalized, third) = step(reduced, EventView::Reduced(true));
            let (searched, fourth) = step(equalized, EventView::Equalized(true));
            &&& first == ActionView::ConvertToGray(state.settings.channel_order)
            &&& second == ActionView::Reduce {
                factor: state.settings.scale,
                interpolation: state.settings.interpolation,
            }
            &&& third == ActionView::Equalize
            &&& fourth == ActionView::Detect(state.settings.detection)
            &&& searched.phase is Detecting
        }),
{
}

/// What is asked of the image operations and of the detector for a frame
/// depends on the settings alone: two sessions that run with the same
/// settings ask the same, whatever else has happened to them.
pub proof fn lemma_preprocessing_depends_on_settings_only(one: State, other: State)
    requires
        one.phase is Retrieving,
        other.phase is Retrieving,
        one.settings == other.settings,
    ensures
        ({
            let (one_gray, one_first) = step(one, EventView::Retrieved(true));
            let (other_gray, other_first) = step(other, EventView::Retrieved(true));
            let (one_reduced, one_second) = step(one_gray, EventView::Converted(true));
            let (other_reduced, other_second) = step(other_gray, EventView::Converted(true));
            let (one_equalized, one_third) = step(one_reduced, EventView::Reduced(true));
            let (other_equalized, other_third) = step(other_reduced, EventView::Reduced(true));
            let one_fourth = step(one_equalized, EventView::Equalized(true)).1;
            let other_fourth = step(other_equalized, EventView::Equalized(true)).1;
            &&& one_first == other_first
            &&& one_second == other_second
            &&& one_third == other_third
            &&& one_fourth == other_fourth
        }),
{
}

/// A frame without detections is shown as it is: nothing is drawn.
pub proof fn lemma_no_detections_nothing_drawn(state: State)
    requires
        state.phase is Detecting,
    ensures
        accepts(state, EventView::Detected(Some(Seq::<Rect>::empty()))),
        step(state, EventView::Detected(Some(Seq::<Rect>::empty()))) == (
            State { phase: Phase::Presenting, ..state },
            ActionView::Present,
        ),
{
}

/// Detections are drawn in the coordinates of the original frame: each
/// box is its detection multiplied by the truncated inverse of the scale
/// factor, and there is one box for each detection, in the same order.
pub proof fn lemma_boxes_are_in_original_space(state: State, faces: Seq<Rect>)
    requires
        state.phase is Detecting,
        faces.len() > 0,
        accepts(state, EventView::Detected(Some(faces))),
    ensures
        step(state, EventView::Detected(Some(faces))).1 matches ActionView::Annotate {
            boxes,
            style,
        } && style == state.settings.style && boxes.len() == faces.len() && (forall|i: int|
            0 <= i < faces.len() ==> #[trigger] boxes[i] == faces[i].scaled(
                state.settings.scale.inverse(),
            )),
{
}

/// Once a session winds down it never does anything else: what it hands
/// out is the release of the capture device or the end of the session.
pub proof fn lemma_terminating_is_final(state: State, event: EventView)
    requires
        coherent(state),
        state.phase.terminating(),
        accepts(state, event),
    ensures
        step(state, event).0.phase.terminating(),
        step(state, event).1 is ReleaseCapture || step(state, event).1 is Finish,
{
}

/// A session that is over accepts nothing more.
pub proof fn lemma_finished_accepts_nothing(state: State, event: EventView)
    requires
        state.phase is Finished,
    ensures
        !accepts(state, event),
{
}

/// The state that a session reaches from `state` when the driver reports
/// `events` in turn, and the actions it hands out on the way. An event
/// that is not accepted is passed over.
pub open spec fn replay(state: State, events: Seq<EventView>) -> (State, Seq<ActionView>)
    decreases events.len(),
{
    if events.len() == 0 {
        (state, Seq::empty())
    } else {
        let (before, issued) = replay(state, events.drop_last());
        if accepts(before, events.last()) {
            (step(before, events.last()).0, issued.push(step(before, events.last()).1))
        } else {
            (before, issued)
        }
    }
}

/// How often `action` occurs in `issued`.
pub open spec fn occurrences(issued: Seq<ActionView>, action: ActionView) -> nat
    decreases issued.len(),
{
    if issued.len() == 0 {
        0
    } else {
        occurrences(issued.drop_last(), action) + if issued.last() == action {
            1nat
        } else {
            0nat
        }
    }
}

/// Whatever the driver reports, a session asks at most once for each
/// resource to be given back, and exactly once where it has given the
/// resource back. A session that is over holds nothing: what it acquired
/// it has given back, once.
pub proof fn lemma_teardown_exactly_once(settings: Settings, events: Seq<EventView>)
    ensures
        ({
            let (end, issued) = replay(initial(settings), events);
            &&& coherent(end)
            &&& end.settings == settings
            &&& occurrences(issued, ActionView::ReleaseCapture) == if end.capture is Released {
                1nat
            } else {
                0nat
            }
            &&& occurrences(issued, ActionView::DestroyWindow) == if end.window is Released {
                1nat
            } else {
                0nat
            }
            &&& end.phase is Finished ==> !(end.capture is Held) && !(end.window is Held)
        }),
    decreases events.len(),
{
    if events.len() > 0 {
        lemma_teardown_exactly_once(settings, events.drop_last());
        let (before, issued) = replay(initial(settings), events.drop_last());
        if accepts(before, events.last()) {
            lemma_step_keeps_coherence(before, events.last());
            let (after, action) = step(before, events.last());
            assert(issued.push(action).drop_last() =~= issued);
            assert(issued.push(action).last() == action);
            assert(action is ReleaseCapture <==> (before.capture is Held && after.capture
                is Released));
            assert(action is DestroyWindow <==> (before.window is Held && after.window
                is Released));
        }
    }
}

/// Whatever the driver reports, a session that has no window has never
/// asked for a frame. The window is created only once the capture device
/// has said that it is usable, so a device that is not usable is never
/// asked for a frame.
pub proof fn lemma_no_frame_without_window(settings: Settings, events: Seq<EventView>)
    ensures
        ({
            let (end, issued) = replay(initial(settings), events);
            end.window is Absent ==> occurrences(issued, ActionView::Grab) == 0 && occurrences(
                issued,
                ActionView::Retrieve,
            ) == 0
        }),
    decreases events.len(),
{
    if events.len() > 0 {
        lemma_no_frame_without_window(settings, events.drop_last());
        lemma_teardown_exactly_once(settings, events.drop_last());
        let (before, issued) = replay(initial(settings), events.drop_last());
        if accepts(before, events.last()) {
            lemma_step_keeps_coherence(before, events.last());
            let action = step(before, events.last()).1;
            assert(issued.push(action).drop_last() =~= issued);
            assert(issued.push(action).last() == action);
        }
    }
}

/// A frame is only ever asked for in answer to a poll for the cancellation
/// key that did not bring that key: never during start-up, and never once
/// the session winds down.
pub proof fn lemma_frames_asked_for_in_loop_only(state: State, event: EventView)
    requires
        accepts(state, event),
        step(state, event).1 is Grab,
    ensures
        state.phase is PollingKey,
        event is KeyPolled,
        event != EventView::KeyPolled(Some(KEY_CODE_ESCAPE)),
{
}

} // verus!
