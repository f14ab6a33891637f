//! The session: one run of the tool from loading the detector to the
//! release of the last resource.
//!
//! A session never touches the camera, the detector or the screen. It
//! decides. Each step hands out one [`Action`], the driver carries it out
//! and reports what happened as an [`Event`], and the session answers with
//! the next action. What the session does is the function [`step`]; what
//! follows from it is proved in [`crate::laws`].

use vstd::prelude::*;
use vstd::string::*;
use crate::config::{
    capture_settings, CaptureConfig, ConfigError, ConfigErrorView, Overrides, OverridesView,
    DEFAULT_CAPTURE_DEVICE, DEFAULT_CAPTURE_HEIGHT, DEFAULT_CAPTURE_WIDTH,
};
use crate::detection::{all_scale_within_i32, all_scaled, remap_all, DetectionParams, MarkerStyle};
use crate::geometry::Rect;
use crate::scale::ScaleFactor;
use crate::settings::{ChannelOrder, Interpolation, Settings, KEY_CODE_ESCAPE, KEY_POLL_WAIT_MS};

verus! {

/// The stage at which something went wrong.
#[derive(Clone, Copy, Debug, PartialEq, Eq, Structural)]
pub enum StageError {
    /// The detector's model could not be loaded.
    DetectorLoad,
    /// The capture device could not be opened or asked about its state.
    DeviceOpen,
    /// The capture device was opened but is not usable.
    DeviceNotOpened,
    /// The capture device failed while a frame was fetched.
    Capture,
    /// A preprocessing step failed on the current frame.
    Transform,
    /// The detector failed on the current frame.
    Detection,
    /// A box could not be drawn onto the current frame.
    Annotation,
    /// The display window could not be created or shown a frame.
    Presentation,
}

impl StageError {
    /// A failure of preprocessing or of the detector costs the frame it
    /// happened on and nothing else. Every other failure ends the session.
    pub open spec fn recoverable(self) -> bool {
        self == StageError::Transform || self == StageError::Detection
    }

    /// What is said of the failure to the user.
    pub open spec fn description(self) -> &'static str {
        match self {
            StageError::DetectorLoad => "Unable to load the face detector!",
            StageError::DeviceOpen => "Unable to open the capture device!",
            StageError::DeviceNotOpened => "Unable to open default camera!",
            StageError::Capture => "Unable to fetch a frame from the camera!",
            StageError::Transform => "Unable to prepare the frame for detection!",
            StageError::Detection => "Unable to run the face detector!",
            StageError::Annotation => "Unable to draw onto the frame!",
            StageError::Presentation => "Unable to show the frame!",
        }
    }

    /// What is said of the failure to the user.
    pub fn describe(&self) -> (text: &'static str)
        ensures
            text@ == self.description()@,
    {
        match self {
            StageError::DetectorLoad => "Unable to load the face detector!",
            StageError::DeviceOpen => "Unable to open the capture device!",
            StageError::DeviceNotOpened => "Unable to open default camera!",
            StageError::Capture => "Unable to fetch a frame from the camera!",
            StageError::Transform => "Unable to prepare the frame for detection!",
            StageError::Detection => "Unable to run the face detector!",
            StageError::Annotation => "Unable to draw onto the frame!",
            StageError::Presentation => "Unable to show the frame!",
        }
    }

    /// Whether the session goes on after the failure, with the next frame.
    pub fn is_recoverable(&self) -> (r: bool)
        ensures
            r == self.recoverable(),
    {
        match self {
            StageError::Transform => true,
            StageError::Detection => true,
            _ => false,
        }
    }
}

/// Why a session ends, as far as the session has to remember it while it
/// gives its resources back.
#[derive(Clone, Copy, Debug, PartialEq, Eq, Structural)]
pub enum Cause {
    /// The cancellation key was pressed.
    Cancelled,
    /// A stage failed beyond recovery.
    Failed(StageError),
}

/// How a session ended.
#[derive(Clone, Debug, PartialEq, Eq)]
pub enum Exit {
    /// The cancellation key was pressed.
    Cancelled,
    /// An override did not read as a number.
    Misconfigured(ConfigError),
    /// A stage failed beyond recovery.
    Failed(StageError),
}

/// How a session ended, over sequences of characters.
pub enum ExitView {
    Cancelled,
    Misconfigured(ConfigErrorView),
    Failed(StageError),
}

impl View for Exit {
    type V = ExitView;

    open spec fn view(&self) -> ExitView {
        match self {
            Exit::Cancelled => ExitView::Cancelled,
            Exit::Misconfigured(error) => ExitView::Misconfigured(error@),
            Exit::Failed(error) => ExitView::Failed(*error),
        }
    }
}

impl ExitView {
    /// The line that tells the user why the session ended, if it did not
    /// end well: the stage that failed, or the variable that was refused
    /// with the text it held.
    pub open spec fn diagnostic(self) -> Option<Seq<char>> {
        match self {
            ExitView::Cancelled => None,
            ExitView::Misconfigured(error) => Some(error.setting.complaint_text()@ + error.raw),
            ExitView::Failed(error) => Some(error.description()@),
        }
    }
}

impl Exit {
    /// The line that tells the user why the session ended, if it did not
    /// end well.
    pub fn diagnostic(&self) -> (line: Option<String>)
        ensures
            self@.diagnostic() is Some <==> line is Some,
            line matches Some(text) ==> self@.diagnostic() == Some(text@),
    {
        match self {
            Exit::Cancelled => None,
            Exit::Misconfigured(error) => Some(error.message()),
            Exit::Failed(error) => Some(String::from_str(error.describe())),
        }
    }

    /// Only a cancelled session ended well.
    pub fn is_success(&self) -> (r: bool)
        ensures
            r == (self@ is Cancelled),
    {
        match self {
            Exit::Cancelled => true,
            _ => false,
        }
    }
}

impl Cause {
    /// The exit that the cause leads to.
    pub open spec fn exit_view(self) -> ExitView {
        match self {
            Cause::Cancelled => ExitView::Cancelled,
            Cause::Failed(error) => ExitView::Failed(error),
        }
    }

    /// The exit that the cause leads to.
    pub fn exit(&self) -> (r: Exit)
        ensures
            r@ == self.exit_view(),
    {
        match self {
            Cause::Cancelled => Exit::Cancelled,
            Cause::Failed(error) => Exit::Failed(*error),
        }
    }
}

/// What the driver is asked to do next.
#[derive(Clone, Debug, PartialEq, Eq)]
pub enum Action {
    /// Load the detector's model from its file.
    LoadDetector,
    /// Look up the overrides of the three start-up settings.
    ReadOverrides,
    /// Open the capture device and ask it for the frame size.
    OpenCapture(CaptureConfig),
    /// Ask the capture device whether it is usable.
    QueryOpened,
    /// Create the resizable display window at the given size.
    CreateWindow { width: i32, height: i32 },
    /// Wait for a key, for at most so many milliseconds.
    PollKey { wait_ms: i32 },
    /// Ask the capture device for the next frame.
    Grab,
    /// Fetch the frame that was grabbed: the original frame.
    Retrieve,
    /// Convert the original frame, stored in the given channel order, to a
    /// single-channel gray frame.
    ConvertToGray(ChannelOrder),
    /// Shrink the gray frame by the factor along both axes; the size of
    /// the result is left to the factor.
    Reduce { factor: ScaleFactor, interpolation: Interpolation },
    /// Equalize the histogram of the reduced frame.
    Equalize,
    /// Run the detector on the equalized frame.
    Detect(DetectionParams),
    /// Report each box, then draw it onto the original frame, in order.
    /// The boxes are in the coordinates of the original frame.
    Annotate { boxes: Vec<Rect>, style: MarkerStyle },
    /// Show the original frame, with whatever was drawn onto it.
    Present,
    /// Destroy the display window.
    DestroyWindow,
    /// Release the capture device.
    ReleaseCapture,
    /// Stop: the session is over.
    Finish(Exit),
}

/// An action, over sequences.
pub enum ActionView {
    LoadDetector,
    ReadOverrides,
    OpenCapture(CaptureConfig),
    QueryOpened,
    CreateWindow { width: i32, height: i32 },
    PollKey { wait_ms: i32 },
    Grab,
    Retrieve,
    ConvertToGray(ChannelOrder),
    Reduce { factor: ScaleFactor, interpolation: Interpolation },
    Equalize,
    Detect(DetectionParams),
    Annotate { boxes: Seq<Rect>, style: MarkerStyle },
    Present,
    DestroyWindow,
    ReleaseCapture,
    Finish(ExitView),
}

impl View for Action {
    type V = ActionView;

    open spec fn view(&self) -> ActionView {
        match self {
            Action::LoadDetector => ActionView::LoadDetector,
            Action::ReadOverrides => ActionView::ReadOverrides,
            Action::OpenCapture(config) => ActionView::OpenCapture(*config),
            Action::QueryOpened => ActionView::QueryOpened,
            Action::CreateWindow { width, height } => ActionView::CreateWindow {
                width: *width,
                height: *height,
            },
            Action::PollKey { wait_ms } => ActionView::PollKey { wait_ms: *wait_ms },
            Action::Grab => ActionView::Grab,
            Action::Retrieve => ActionView::Retrieve,
            Action::ConvertToGray(order) => ActionView::ConvertToGray(*order),
            Action::Reduce { factor, interpolation } => ActionView::Reduce {
                factor: *factor,
                interpolation: *interpolation,
            },
            Action::Equalize => ActionView::Equalize,
            Action::Detect(params) => ActionView::Detect(*params),
            Action::Annotate { boxes, style } => ActionView::Annotate {
                boxes: boxes@,
                style: *style,
            },
            Action::Present => ActionView::Present,
            Action::DestroyWindow => ActionView::DestroyWindow,
            Action::ReleaseCapture => ActionView::ReleaseCapture,
            Action::Finish(exit) => ActionView::Finish(exit@),
        }
    }
}

/// What the driver reports back, one kind of event for each action but
/// the last. A flag tells whether the action succeeded; where the action
/// yields a value, the value is absent when the action failed.
#[derive(Clone, Debug, PartialEq, Eq)]
pub enum Event {
    DetectorLoaded(bool),
    OverridesRead(Overrides),
    CaptureOpened(bool),
    /// Whether the device is usable.
    OpenedQueried(Option<bool>),
    WindowCreated(bool),
    /// The code of the key that was pressed, or whatever the poll gives
    /// when none was.
    KeyPolled(Option<i32>),
    /// Whether a frame was available.
    Grabbed(Option<bool>),
    Retrieved(bool),
    Converted(bool),
    Reduced(bool),
    Equalized(bool),
    /// The detections, in the coordinates of the reduced frame.
    Detected(Option<Vec<Rect>>),
    Annotated(bool),
    Presented(bool),
    WindowDestroyed,
    CaptureReleased,
}

/// An event, over sequences.
pub enum EventView {
    DetectorLoaded(bool),
    OverridesRead(OverridesView),
    CaptureOpened(bool),
    OpenedQueried(Option<bool>),
    WindowCreated(bool),
    KeyPolled(Option<i32>),
    Grabbed(Option<bool>),
    Retrieved(bool),
    Converted(bool),
    Reduced(bool),
    Equalized(bool),
    Detected(Option<Seq<Rect>>),
    Annotated(bool),
    Presented(bool),
    WindowDestroyed,
    CaptureReleased,
}

impl View for Event {
    type V = EventView;

    open spec fn view(&self) -> EventView {
        match self {
            Event::DetectorLoaded(ok) => EventView::DetectorLoaded(*ok),
            Event::OverridesRead(overrides) => EventView::OverridesRead(overrides@),
            Event::CaptureOpened(ok) => EventView::CaptureOpened(*ok),
            Event::OpenedQueried(opened) => EventView::OpenedQueried(*opened),
            Event::WindowCreated(ok) => EventView::WindowCreated(*ok),
            Event::KeyPolled(key) => EventView::KeyPolled(*key),
            Event::Grabbed(available) => EventView::Grabbed(*available),
            Event::Retrieved(ok) => EventView::Retrieved(*ok),
            Event::Converted(ok) => EventView::Converted(*ok),
            Event::Reduced(ok) => EventView::Reduced(*ok),
            Event::Equalized(ok) => EventView::Equalized(*ok),
            Event::Detected(faces) => EventView::Detected(
                match faces {
                    Some(found) => Some(found@),
                    None => None,
                },
            ),
            Event::Annotated(ok) => EventView::Annotated(*ok),
            Event::Presented(ok) => EventView::Presented(*ok),
            Event::WindowDestroyed => EventView::WindowDestroyed,
            Event::CaptureReleased => EventView::CaptureReleased,
        }
    }
}

/// Where a session stands: the action whose outcome it waits for.
#[derive(Clone, Copy, Debug, PartialEq, Eq, Structural)]
pub enum Phase {
    LoadingDetector,
    ReadingOverrides,
    OpeningCapture,
    QueryingOpened,
    CreatingWindow,
    PollingKey,
    Grabbing,
    Retrieving,
    Converting,
    Reducing,
    Equalizing,
    Detecting,
    Annotating,
    Presenting,
    DestroyingWindow(Cause),
    ReleasingCapture(Cause),
    Finished,
}

impl Phase {
    /// The session has not entered the loop yet.
    pub open spec fn starting(self) -> bool {
        self is LoadingDetector || self is ReadingOverrides || self is OpeningCapture
            || self is QueryingOpened || self is CreatingWindow
    }

    /// The session is in the loop: it polls for the cancellation key, or
    /// works on the frame of the current iteration.
    pub open spec fn polling(self) -> bool {
        self is PollingKey || self is Grabbing || self is Retrieving || self is Converting
            || self is Reducing || self is Equalizing || self is Detecting || self is Annotating
            || self is Presenting
    }

    /// The session gives its resources back, or is over.
    pub open spec fn terminating(self) -> bool {
        self is DestroyingWindow || self is ReleasingCapture || self is Finished
    }
}

/// What a session has to do with one of its two resources.
#[derive(Clone, Copy, Debug, PartialEq, Eq, Structural)]
pub enum Tenure {
    /// The resource was not acquired.
    Absent,
    /// The resource was acquired and is the session's to give back.
    Held,
    /// The session has asked for the resource to be given back.
    Released,
}

/// The state of a session.
#[derive(Clone, Copy, Debug, PartialEq, Eq)]
pub struct State {
    /// What the session runs with.
    pub settings: Settings,
    /// The capture settings in force: the defaults until the overrides
    /// have been read.
    pub config: CaptureConfig,
    /// The action whose outcome the session waits for.
    pub phase: Phase,
    /// The capture device.
    pub capture: Tenure,
    /// The display window.
    pub window: Tenure,
}

/// The state a session starts in. Its first action is to load the
/// detector.
pub open spec fn initial(settings: Settings) -> State {
    State {
        settings,
        config: CaptureConfig {
            device: DEFAULT_CAPTURE_DEVICE,
            width: DEFAULT_CAPTURE_WIDTH,
            height: DEFAULT_CAPTURE_HEIGHT,
        },
        phase: Phase::LoadingDetector,
        capture: Tenure::Absent,
        window: Tenure::Absent,
    }
}

/// The next step of winding a session down: the window goes first, then
/// the capture device, and when neither is held the session is over.
pub open spec fn close(state: State, cause: Cause) -> (State, ActionView) {
    if state.window is Held {
        (
            State { phase: Phase::DestroyingWindow(cause), window: Tenure::Released, ..state },
            ActionView::DestroyWindow,
        )
    } else if state.capture is Held {
        (
            State { phase: Phase::ReleasingCapture(cause), capture: Tenure::Released, ..state },
            ActionView::ReleaseCapture,
        )
    } else {
        (State { phase: Phase::Finished, ..state }, ActionView::Finish(cause.exit_view()))
    }
}

/// The top of the loop: poll for the cancellation key.
pub open spec fn poll(state: State) -> (State, ActionView) {
    (State { phase: Phase::PollingKey, ..state }, ActionView::PollKey { wait_ms: KEY_POLL_WAIT_MS })
}

/// What a failure leads to: the frame is dropped and the loop goes on
/// where the failure is recoverable, and the session winds down where it
/// is not.
pub open spec fn fail(state: State, error: StageError) -> (State, ActionView) {
    if error.recoverable() {
        poll(state)
    } else {
        close(state, Cause::Failed(error))
    }
}

/// Goes on to `phase` with `action` if `ok`, and fails with `error` if not.
pub open spec fn proceed(
    state: State,
    ok: bool,
    phase: Phase,
    action: ActionView,
    error: StageError,
) -> (State, ActionView) {
    if ok {
        (State { phase, ..state }, action)
    } else {
        fail(state, error)
    }
}

/// The session accepts `event` in `state`: the event reports on the
/// action that the session waits for, and where it brings detections,
/// each can be mapped to the original frame within `i32`.
pub open spec fn accepts(state: State, event: EventView) -> bool {
    match (state.phase, event) {
        (Phase::LoadingDetector, EventView::DetectorLoaded(_)) => true,
        (Phase::ReadingOverrides, EventView::OverridesRead(_)) => true,
        (Phase::OpeningCapture, EventView::CaptureOpened(_)) => true,
        (Phase::QueryingOpened, EventView::OpenedQueried(_)) => true,
        (Phase::CreatingWindow, EventView::WindowCreated(_)) => true,
        (Phase::PollingKey, EventView::KeyPolled(_)) => true,
        (Phase::Grabbing, EventView::Grabbed(_)) => true,
        (Phase::Retrieving, EventView::Retrieved(_)) => true,
        (Phase::Converting, EventView::Converted(_)) => true,
        (Phase::Reducing, EventView::Reduced(_)) => true,
        (Phase::Equalizing, EventView::Equalized(_)) => true,
        (Phase::Detecting, EventView::Detected(None)) => true,
        (Phase::Detecting, EventView::Detected(Some(faces))) => all_scale_within_i32(
            faces,
            state.settings.scale.inverse(),
        ),
        (Phase::Annotating, EventView::Annotated(_)) => true,
        (Phase::Presenting, EventView::Presented(_)) => true,
        (Phase::DestroyingWindow(_), EventView::WindowDestroyed) => true,
        (Phase::ReleasingCapture(_), EventView::CaptureReleased) => true,
        _ => false,
    }
}

/// The state that follows `state` on an accepted `event`, and the action
/// that the session hands out.
pub open spec fn step(state: State, event: EventView) -> (State, ActionView)
    recommends
        accepts(state, event),
{
    match event {
        EventView::DetectorLoaded(ok) => proceed(
            state,
            ok,
            Phase::ReadingOverrides,
            ActionView::ReadOverrides,
            StageError::DetectorLoad,
        ),
        EventView::OverridesRead(overrides) => match capture_settings(overrides) {
            Ok(config) => (
                State { phase: Phase::OpeningCapture, config, ..state },
                ActionView::OpenCapture(config),
            ),
            Err(error) => (
                State { phase: Phase::Finished, ..state },
                ActionView::Finish(ExitView::Misconfigured(error)),
            ),
        },
        EventView::CaptureOpened(ok) => proceed(
            State { capture: if ok { Tenure::Held } else { state.capture }, ..state },
            ok,
            Phase::QueryingOpened,
            ActionView::QueryOpened,
            StageError::DeviceOpen,
        ),
        EventView::OpenedQueried(opened) => match opened {
            Some(true) => (
                State { phase: Phase::CreatingWindow, ..state },
                ActionView::CreateWindow { width: state.config.width, height: state.config.height },
            ),
            Some(false) => fail(state, StageError::DeviceNotOpened),
            None => fail(state, StageError::DeviceOpen),
        },
        EventView::WindowCreated(ok) => if ok {
            poll(State { window: Tenure::Held, ..state })
        } else {
            fail(state, StageError::Presentation)
        },
        EventView::KeyPolled(key) => if key == Some(KEY_CODE_ESCAPE) {
            close(state, Cause::Cancelled)
        } else {
            (State { phase: Phase::Grabbing, ..state }, ActionView::Grab)
        },
        EventView::Grabbed(available) => match available {
            Some(true) => (State { phase: Phase::Retrieving, ..state }, ActionView::Retrieve),
            Some(false) => poll(state),
            None => fail(state, StageError::Capture),
        },
        EventView::Retrieved(ok) => proceed(
            state,
            ok,
            Phase::Converting,
            ActionView::ConvertToGray(state.settings.channel_order),
            StageError::Capture,
        ),
        EventView::Converted(ok) => proceed(
            state,
            ok,
            Phase::Reducing,
            ActionView::Reduce {
                factor: state.settings.scale,
                interpolation: state.settings.interpolation,
            },
            StageError::Transform,
        ),
        EventView::Reduced(ok) => proceed(
            state,
            ok,
            Phase::Equalizing,
            ActionView::Equalize,
            StageError::Transform,
        ),
        EventView::Equalized(ok) => proceed(
            state,
            ok,
            Phase::Detecting,
            ActionView::Detect(state.settings.detection),
            StageError::Transform,
        ),
        EventView::Detected(found) => match found {
            None => fail(state, StageError::Detection),
            Some(faces) => if faces.len() == 0 {
                (State { phase: Phase::Presenting, ..state }, ActionView::Present)
            } else {
                (
                    State { phase: Phase::Annotating, ..state },
                    ActionView::Annotate {
                        boxes: all_scaled(faces, state.settings.scale.inverse()),
                        style: state.settings.style,
                    },
                )
            },
        },
        EventView::Annotated(ok) => proceed(
            state,
            ok,
            Phase::Presenting,
            ActionView::Present,
            StageError::Annotation,
        ),
        EventView::Presented(ok) => if ok {
            poll(state)
        } else {
            fail(state, StageError::Presentation)
        },
        EventView::WindowDestroyed => match state.phase {
            Phase::DestroyingWindow(cause) => close(state, cause),
            _ => close(state, Cause::Cancelled),
        },
        EventView::CaptureReleased => match state.phase {
            Phase::ReleasingCapture(cause) => close(state, cause),
            _ => close(state, Cause::Cancelled),
        },
    }
}

fn close_now(state: State, cause: Cause) -> (r: (State, Action))
    ensures
        (r.0, r.1@) == close(state, cause),
{
    match (state.window, state.capture) {
        (Tenure::Held, _) => (
            State { phase: Phase::DestroyingWindow(cause), window: Tenure::Released, ..state },
            Action::DestroyWindow,
        ),
        (_, Tenure::Held) => (
            State { phase: Phase::ReleasingCapture(cause), capture: Tenure::Released, ..state },
            Action::ReleaseCapture,
        ),
        _ => (State { phase: Phase::Finished, ..state }, Action::Finish(cause.exit())),
    }
}

fn poll_now(state: State) -> (r: (State, Action))
    ensures
        (r.0, r.1@) == poll(state),
{
    (State { phase: Phase::PollingKey, ..state }, Action::PollKey { wait_ms: KEY_POLL_WAIT_MS })
}

fn fail_now(state: State, error: StageError) -> (r: (State, Action))
    ensures
        (r.0, r.1@) == fail(state, error),
{
    if error.is_recoverable() {
        poll_now(state)
    } else {
        close_now(state, Cause::Failed(error))
    }
}

fn proceed_now(state: State, ok: bool, phase: Phase, action: Action, error: StageError) -> (r: (
    State,
    Action,
))
    ensures
        (r.0, r.1@) == proceed(state, ok, phase, action@, error),
{
    if ok {
        (State { phase, ..state }, action)
    } else {
        fail_now(state, error)
    }
}

/// One run of the tool, from loading the detector to the release of the
/// last resource.
#[derive(Debug)]
pub struct Session {
    state: State,
}

impl View for Session {
    type V = State;

    closed spec fn view(&self) -> State {
        self.state
    }
}

impl Session {
    /// A new session, and its first action: to load the detector.
    pub fn start(settings: Settings) -> (r: (Session, Action))
        ensures
            r.0@ == initial(settings),
            r.1@ == ActionView::LoadDetector,
    {
        let state = State {
            settings,
            config: CaptureConfig {
                device: DEFAULT_CAPTURE_DEVICE,
                width: DEFAULT_CAPTURE_WIDTH,
                height: DEFAULT_CAPTURE_HEIGHT,
            },
            phase: Phase::LoadingDetector,
            capture: Tenure::Absent,
            window: Tenure::Absent,
        };
        (Session { state }, Action::LoadDetector)
    }

    /// The state of the session.
    pub fn state(&self) -> (state: State)
        ensures
            state == self@,
    {
        self.state
    }

    /// Whether the session is over.
    pub fn is_finished(&self) -> (r: bool)
        ensures
            r == (self@.phase is Finished),
    {
        match self.state.phase {
            Phase::Finished => true,
            _ => false,
        }
    }

    /// Takes in what the driver reports and hands out the next action.
    ///
    /// An event that the session does not accept changes nothing and is
    /// answered with `None`: one that does not report on the action the
    /// session waits for, and detections that cannot be mapped to the
    /// original frame within `i32`.
    pub fn advance(&mut self, event: Event) -> (r: Option<Action>)
        ensures
            accepts(old(self)@, event@) ==> (r matches Some(action) && (final(self)@, action@)
                == step(old(self)@, event@)),
            !accepts(old(self)@, event@) ==> r is None && final(self)@ == old(self)@,
    {
        let state = self.state;
        let (next, action): (State, Action) = match (state.phase, event) {
            (Phase::LoadingDetector, Event::DetectorLoaded(ok)) => proceed_now(
                state,
                ok,
                Phase::ReadingOverrides,
                Action::ReadOverrides,
                StageError::DetectorLoad,
            ),
            (Phase::ReadingOverrides, Event::OverridesRead(overrides)) => {
                match CaptureConfig::resolve(overrides) {
                    Ok(config) => (
                        State { phase: Phase::OpeningCapture, config, ..state },
                        Action::OpenCapture(config),
                    ),
                    Err(error) => (
                        State { phase: Phase::Finished, ..state },
                        Action::Finish(Exit::Misconfigured(error)),
                    ),
                }
            },
            (Phase::OpeningCapture, Event::CaptureOpened(ok)) => proceed_now(
                State { capture: if ok { Tenure::Held } else { state.capture }, ..state },
                ok,
                Phase::QueryingOpened,
                Action::QueryOpened,
                StageError::DeviceOpen,
            ),
            (Phase::QueryingOpened, Event::OpenedQueried(opened)) => match opened {
                Some(true) => (
                    State { phase: Phase::CreatingWindow, ..state },
                    Action::CreateWindow { width: state.config.width, height: state.config.height },
                ),
                Some(false) => fail_now(state, StageError::DeviceNotOpened),
                None => fail_now(state, StageError::DeviceOpen),
            },
            (Phase::CreatingWindow, Event::WindowCreated(ok)) => if ok {
                poll_now(State { window: Tenure::Held, ..state })
            } else {
                fail_now(state, StageError::Presentation)
            },
            (Phase::PollingKey, Event::KeyPolled(key)) => {
                let cancelled: bool = match key {
                    Some(code) => code == KEY_CODE_ESCAPE,
                    None => false,
                };
                if cancelled {
                    close_now(state, Cause::Cancelled)
                } else {
                    (State { phase: Phase::Grabbing, ..state }, Action::Grab)
                }
            },
            (Phase::Grabbing, Event::Grabbed(available)) => match available {
                Some(true) => (State { phase: Phase::Retrieving, ..state }, Action::Retrieve),
                Some(false) => poll_now(state),
                None => fail_now(state, StageError::Capture),
            },
            (Phase::Retrieving, Event::Retrieved(ok)) => proceed_now(
                state,
                ok,
                Phase::Converting,
                Action::ConvertToGray(state.settings.channel_order),
                StageError::Capture,
            ),
            (Phase::Converting, Event::Converted(ok)) => proceed_now(
                state,
                ok,
                Phase::Reducing,
                Action::Reduce {
                    factor: state.settings.scale,
                    interpolation: state.settings.interpolation,
                },
                StageError::Transform,
            ),
            (Phase::Reducing, Event::Reduced(ok)) => proceed_now(
                state,
                ok,
                Phase::Equalizing,
                Action::Equalize,
                StageError::Transform,
            ),
            (Phase::Equalizing, Event::Equalized(ok)) => proceed_now(
                state,
                ok,
                Phase::Detecting,
                Action::Detect(state.settings.detection),
                StageError::Transform,
            ),
            (Phase::Detecting, Event::Detected(found)) => match found {
                None => fail_now(state, StageError::Detection),
                Some(faces) => match remap_all(&faces, &state.settings.scale) {
                    None => {
                        return None;
                    },
                    Some(boxes) => if boxes.len() == 0 {
                        (State { phase: Phase::Presenting, ..state }, Action::Present)
                    } else {
                        (
                            State { phase: Phase::Annotating, ..state },
                            Action::Annotate { boxes, style: state.settings.style },
                        )
                    },
                },
            },
            (Phase::Annotating, Event::Annotated(ok)) => proceed_now(
                state,
                ok,
                Phase::Presenting,
                Action::Present,
                StageError::Annotation,
            ),
            (Phase::Presenting, Event::Presented(ok)) => if ok {
                poll_now(state)
            } else {
                fail_now(state, StageError::Presentation)
            },
            (Phase::DestroyingWindow(cause), Event::WindowDestroyed) => close_now(state, cause),
            (Phase::ReleasingCapture(cause), Event::CaptureReleased) => close_now(state, cause),
            _ => {
                return None;
            },
        };
        self.state = next;
        Some(action)
    }
}

} // verus!
