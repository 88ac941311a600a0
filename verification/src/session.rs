//! One invocation, from an accepted request to image bytes or a failure.
//!
//! The invocation is a state machine. At every moment it has exactly one
//! pending [`Action`] for the program around it to perform; the program
//! reports what happened as an [`Event`], and the machine moves on. The
//! rendering engine is launched at most a bounded number of times, and once a
//! launch has succeeded the machine cannot finish before the engine's release
//! has been acknowledged. The machine keeps no clock: a program that bounds
//! the time a page may take reports the passing of its deadline as an event.

use vstd::prelude::*;
use vstd::string::StringExecFns;
use crate::error::{ErrorKind, ErrorView, ScreenshotError};
use crate::launch::{
    attempt_record,
    attempt_report,
    exhausted,
    exhausted_detail,
    refused,
    refused_detail,
    MAX_LAUNCH_ATTEMPTS,
    RETRY_DELAY_MS,
};
use crate::locator::{candidates, Locator, LocatorStep, LocatorView, StepView};
use crate::request::{mime, OutputFormat, RenderRequest, RequestView};

verus! {

/// Where an invocation stands.
#[derive(Clone, Copy, Debug, PartialEq, Eq, Structural)]
pub enum Phase {
    /// The engine's environment is being set.
    Preparing,
    /// A place is being probed for the engine's binary.
    Locating,
    /// A launch attempt is under way.
    Launching,
    /// The pause after a failed attempt.
    Backoff,
    /// The engine runs; a tab is being opened.
    OpeningTab,
    /// The viewport is being set.
    SettingViewport,
    /// Navigation has been asked for.
    Navigating,
    /// The page's load event is awaited.
    AwaitingLoad,
    /// The page is given time to settle.
    Settling,
    /// The image is being taken.
    Capturing,
    /// The result is decided; the engine is being terminated.
    Releasing,
    /// Nothing is left to do and no engine runs.
    Finished,
}

/// Whether an engine process exists in this phase.
pub open spec fn holds_session(phase: Phase) -> bool {
    match phase {
        Phase::OpeningTab
        | Phase::SettingViewport
        | Phase::Navigating
        | Phase::AwaitingLoad
        | Phase::Settling
        | Phase::Capturing
        | Phase::Releasing => true,
        _ => false,
    }
}

/// An image and the MIME type of the encoding it was taken in.
///
/// The encoding a request names is honoured: the engine is asked for the image
/// in that encoding, and the result is labelled with the same one.
#[derive(Debug, PartialEq, Eq)]
pub struct CaptureResult {
    pub data: Vec<u8>,
    pub content_type: String,
}

/// A [`CaptureResult`] as plain values.
pub struct CaptureView {
    pub data: Seq<u8>,
    pub content_type: Seq<char>,
}

impl View for CaptureResult {
    type V = CaptureView;

    open spec fn view(&self) -> CaptureView {
        CaptureView { data: self.data@, content_type: self.content_type@ }
    }
}

/// How an invocation ended, as plain values.
pub open spec fn verdict_view(verdict: Option<Result<CaptureResult, ScreenshotError>>) -> Option<
    Result<CaptureView, ErrorView>,
> {
    match verdict {
        Some(Ok(image)) => Some(Ok(image@)),
        Some(Err(e)) => Some(Err(e@)),
        None => None,
    }
}

/// What the program reports back after performing an action.
#[derive(Debug, PartialEq, Eq)]
pub enum Event {
    /// The action was performed.
    Done,
    /// The probed place exists, or does not.
    Exists(bool),
    /// The action failed, for this reason.
    Failed(String),
    /// The launch configuration was turned down before any process was started.
    Refused(String),
    /// The engine handed back these image bytes.
    Image(Vec<u8>),
    /// The deadline that the program set for the page passed.
    TimedOut,
}

/// An [`Event`] as plain values.
pub enum EventView {
    Done,
    Exists(bool),
    Failed(Seq<char>),
    Refused(Seq<char>),
    Image(Seq<u8>),
    TimedOut,
}

impl View for Event {
    type V = EventView;

    open spec fn view(&self) -> EventView {
        match self {
            Event::Done => EventView::Done,
            Event::Exists(b) => EventView::Exists(*b),
            Event::Failed(c) => EventView::Failed(c@),
            Event::Refused(c) => EventView::Refused(c@),
            Event::Image(bytes) => EventView::Image(bytes@),
            Event::TimedOut => EventView::TimedOut,
        }
    }
}

/// What the program is to do next.
#[derive(Debug, PartialEq, Eq)]
pub enum Action {
    /// Set the engine's environment.
    PrepareEnvironment,
    /// Report whether this place exists.
    Probe(&'static str),
    /// Start the engine found at `path`, with a launch configuration built anew.
    Launch { path: &'static str, attempt: u32 },
    /// Wait this many milliseconds.
    Sleep(u64),
    /// Open one tab.
    OpenTab,
    /// Override the device metrics: this size, scale one, not mobile.
    SetViewport { width: u32, height: u32 },
    /// Navigate the tab to this address.
    Navigate(String),
    /// Block until the engine reports that navigation completed.
    WaitForLoad,
    /// Take the image of the full page, in this encoding: the one the request names.
    Capture { format: OutputFormat, full_page: bool },
    /// Terminate the engine.
    Release,
    /// Nothing: the invocation is over and its result can be taken.
    Finish,
}

/// An [`Action`] as plain values.
pub enum ActionView {
    PrepareEnvironment,
    Probe(Seq<char>),
    Launch { path: Seq<char>, attempt: u32 },
    Sleep(u64),
    OpenTab,
    SetViewport { width: u32, height: u32 },
    Navigate(Seq<char>),
    WaitForLoad,
    Capture { format: OutputFormat, full_page: bool },
    Release,
    Finish,
}

impl View for Action {
    type V = ActionView;

    open spec fn view(&self) -> ActionView {
        match self {
            Action::PrepareEnvironment => ActionView::PrepareEnvironment,
            Action::Probe(p) => ActionView::Probe(p@),
            Action::Launch { path, attempt } => ActionView::Launch {
                path: path@,
                attempt: *attempt,
            },
            Action::Sleep(ms) => ActionView::Sleep(*ms),
            Action::OpenTab => ActionView::OpenTab,
            Action::SetViewport { width, height } => ActionView::SetViewport {
                width: *width,
                height: *height,
            },
            Action::Navigate(url) => ActionView::Navigate(url@),
            Action::WaitForLoad => ActionView::WaitForLoad,
            Action::Capture { format, full_page } => ActionView::Capture {
                format: *format,
                full_page: *full_page,
            },
            Action::Release => ActionView::Release,
            Action::Finish => ActionView::Finish,
        }
    }
}

/// The detail of the failure when no place holds the binary.
pub open spec fn not_found() -> Seq<char> {
    "Chrome executable not found"@
}

/// Whether the bytes open with the signature of a PNG file.
pub open spec fn png_signature(bytes: Seq<u8>) -> bool {
    bytes.len() >= 4 && bytes[0] == 0x89 && bytes[1] == 0x50 && bytes[2] == 0x4E && bytes[3] == 0x47
}

/// Whether the phase is one that a deadline bounds: from navigation to the
/// taking of the image.
pub open spec fn under_deadline(phase: Phase) -> bool {
    match phase {
        Phase::Navigating | Phase::AwaitingLoad | Phase::Settling | Phase::Capturing => true,
        _ => false,
    }
}

/// The failure when the deadline passed.
pub open spec fn overdue(url: Seq<char>) -> ErrorView {
    ErrorView { kind: ErrorKind::Timeout, detail: "Deadline passed while rendering "@ + url }
}

/// The failure of a step of the capture, by the phase it happened in.
pub open spec fn step_failure(phase: Phase, url: Seq<char>, cause: Seq<char>) -> ErrorView {
    match phase {
        Phase::OpeningTab => ErrorView {
            kind: ErrorKind::NavigationFailure,
            detail: "Failed to create new tab: "@ + cause,
        },
        Phase::SettingViewport => ErrorView {
            kind: ErrorKind::NavigationFailure,
            detail: "Failed to set viewport: "@ + cause,
        },
        Phase::Navigating => ErrorView {
            kind: ErrorKind::NavigationFailure,
            detail: "Failed to navigate to "@ + url + ": "@ + cause,
        },
        Phase::AwaitingLoad => ErrorView {
            kind: ErrorKind::NavigationFailure,
            detail: "Navigation timeout: "@ + cause,
        },
        _ => ErrorView {
            kind: ErrorKind::CaptureFailure,
            detail: "Screenshot capture failed: "@ + cause,
        },
    }
}

/// An invocation as plain values.
pub struct InvocationView {
    pub request: RequestView,
    pub phase: Phase,
    pub locator: LocatorView,
    /// The number of the launch attempt under way, or of the last one made.
    pub attempt: u32,
    /// The bound on launch attempts.
    pub max_attempts: u32,
    /// The result, once it is decided.
    pub verdict: Option<Result<CaptureView, ErrorView>>,
}

impl InvocationView {
    /// The state in which every invocation starts.
    pub open spec fn initial(request: RequestView, max_attempts: u32) -> InvocationView {
        InvocationView {
            request,
            phase: Phase::Preparing,
            locator: LocatorView { next: 0, found: false },
            attempt: 0,
            max_attempts,
            verdict: None,
        }
    }

    /// The states an invocation can be in.
    pub open spec fn wf(self) -> bool {
        &&& self.locator.wf()
        &&& self.phase == Phase::Preparing ==> self.locator == (LocatorView {
            next: 0,
            found: false,
        })
        &&& self.phase == Phase::Locating ==> self.locator.searching()
        &&& self.phase == Phase::Launching || self.phase == Phase::Backoff || holds_session(
            self.phase,
        ) ==> self.locator.found && 1 <= self.attempt <= self.max_attempts
        &&& self.phase == Phase::Backoff ==> self.attempt < self.max_attempts
        &&& self.verdict is Some <==> self.phase == Phase::Releasing || self.phase
            == Phase::Finished
    }

    /// This state with another phase.
    pub open spec fn at(self, phase: Phase) -> InvocationView {
        InvocationView { phase, ..self }
    }

    /// This state with the result decided, and the phase that follows from it.
    pub open spec fn decided(self, phase: Phase, verdict: Result<CaptureView, ErrorView>)
        -> InvocationView {
        InvocationView { phase, verdict: Some(verdict), ..self }
    }

    /// This state with another attempt number.
    pub open spec fn with_attempt(self, attempt: u32) -> InvocationView {
        InvocationView { attempt, ..self }
    }

    /// The state after `event`. An event that does not answer the pending
    /// action changes nothing.
    pub open spec fn next(self, event: EventView) -> InvocationView {
        match (self.phase, event) {
            (Phase::Preparing, EventView::Done) => self.at(Phase::Locating),
            (Phase::Locating, EventView::Exists(present)) => {
                let locator = self.locator.answer(present);
                let moved = InvocationView { locator, ..self };
                match locator.pending() {
                    StepView::Probe(_) => moved,
                    StepView::NotFound => moved.decided(
                        Phase::Finished,
                        Err(ErrorView { kind: ErrorKind::ChromeNotFound, detail: not_found() }),
                    ),
                    StepView::Found(_) => if self.max_attempts == 0 {
                        moved.decided(
                            Phase::Finished,
                            Err(
                                ErrorView {
                                    kind: ErrorKind::BrowserLaunchFailure,
                                    detail: exhausted(0, Seq::empty()),
                                },
                            ),
                        )
                    } else {
                        InvocationView { phase: Phase::Launching, attempt: 1, ..moved }
                    },
                }
            },
            (Phase::Launching, EventView::Done) => self.at(Phase::OpeningTab),
            (Phase::Launching, EventView::Failed(cause)) => if self.attempt < self.max_attempts {
                self.at(Phase::Backoff)
            } else {
                self.decided(
                    Phase::Finished,
                    Err(
                        ErrorView {
                            kind: ErrorKind::BrowserLaunchFailure,
                            detail: exhausted(
                                self.max_attempts as nat,
                                attempt_report(self.attempt as nat, cause),
                            ),
                        },
                    ),
                )
            },
            (Phase::Launching, EventView::Refused(cause)) => self.decided(
                Phase::Finished,
                Err(ErrorView { kind: ErrorKind::BrowserLaunchFailure, detail: refused(cause) }),
            ),
            (Phase::Backoff, EventView::Done) => InvocationView {
                phase: Phase::Launching,
                attempt: (self.attempt + 1) as u32,
                ..self
            },
            (Phase::OpeningTab, EventView::Done) => self.at(Phase::SettingViewport),
            (Phase::SettingViewport, EventView::Done) => self.at(Phase::Navigating),
            (Phase::Navigating, EventView::Done) => self.at(Phase::AwaitingLoad),
            (Phase::AwaitingLoad, EventView::Done) => if self.request.settle_ms > 0 {
                self.at(Phase::Settling)
            } else {
                self.at(Phase::Capturing)
            },
            (Phase::Settling, EventView::Done) => self.at(Phase::Capturing),
            (Phase::Capturing, EventView::Image(bytes)) => self.decided(
                Phase::Releasing,
                Ok(CaptureView { data: bytes, content_type: mime(self.request.format) }),
            ),
            (Phase::OpeningTab, EventView::Failed(cause))
            | (Phase::SettingViewport, EventView::Failed(cause))
            | (Phase::Navigating, EventView::Failed(cause))
            | (Phase::AwaitingLoad, EventView::Failed(cause))
            | (Phase::Capturing, EventView::Failed(cause)) => self.decided(
                Phase::Releasing,
                Err(step_failure(self.phase, self.request.url, cause)),
            ),
            (Phase::Navigating, EventView::TimedOut)
            | (Phase::AwaitingLoad, EventView::TimedOut)
            | (Phase::Settling, EventView::TimedOut)
            | (Phase::Capturing, EventView::TimedOut) => self.decided(
                Phase::Releasing,
                Err(overdue(self.request.url)),
            ),
            (Phase::Releasing, EventView::Done) => self.at(Phase::Finished),
            _ => self,
        }
    }

    /// The one thing the program is to do in this state.
    pub open spec fn action(self) -> ActionView {
        match self.phase {
            Phase::Preparing => ActionView::PrepareEnvironment,
            Phase::Locating => ActionView::Probe(candidates()[self.locator.next as int]),
            Phase::Launching => ActionView::Launch {
                path: candidates()[self.locator.next as int],
                attempt: self.attempt,
            },
            Phase::Backoff => ActionView::Sleep(RETRY_DELAY_MS),
            Phase::OpeningTab => ActionView::OpenTab,
            Phase::SettingViewport => ActionView::SetViewport {
                width: self.request.width,
                height: self.request.height,
            },
            Phase::Navigating => ActionView::Navigate(self.request.url),
            Phase::AwaitingLoad => ActionView::WaitForLoad,
            Phase::Settling => ActionView::Sleep(self.request.settle_ms),
            Phase::Capturing => ActionView::Capture {
                format: self.request.format,
                full_page: true,
            },
            Phase::Releasing => ActionView::Release,
            Phase::Finished => ActionView::Finish,
        }
    }

    /// The state after a run of events, in order.
    pub open spec fn run(self, events: Seq<EventView>) -> InvocationView
        decreases events.len(),
    {
        if events.len() == 0 {
            self
        } else {
            self.run(events.drop_last()).next(events.last())
        }
    }
}

/// One invocation of the service.
#[derive(Debug)]
pub struct Invocation {
    request: RenderRequest,
    cursor: Cursor,
    max_attempts: u32,
    verdict: Option<Result<CaptureResult, ScreenshotError>>,
}

/// The part of an invocation that moves as one.
#[derive(Clone, Copy, Debug)]
struct Cursor {
    phase: Phase,
    locator: Locator,
    attempt: u32,
}

impl View for Invocation {
    type V = InvocationView;

    closed spec fn view(&self) -> InvocationView {
        InvocationView {
            request: self.request@,
            phase: self.cursor.phase,
            locator: self.cursor.locator@,
            attempt: self.cursor.attempt,
            max_attempts: self.max_attempts,
            verdict: if self.cursor.phase == Phase::Releasing || self.cursor.phase
                == Phase::Finished {
                verdict_view(self.verdict)
            } else {
                None
            },
        }
    }
}

fn joined(head: &str, tail: &str) -> (s: String)
    ensures
        s@ == head@ + tail@,
{
    let mut s = String::from_str(head);
    s.append(tail);
    s
}

impl Invocation {
    /// Every invocation that exists is in a state an invocation can be in, and
    /// holds its result from the moment it is decided.
    #[verifier::type_invariant]
    closed spec fn reachable(self) -> bool {
        &&& self@.wf()
        &&& self.cursor.phase == Phase::Releasing || self.cursor.phase == Phase::Finished
            ==> self.verdict is Some
    }

    /// Starts an invocation for `request` with the usual bound on launch attempts.
    pub fn begin(request: RenderRequest) -> (inv: Invocation)
        ensures
            inv@ == InvocationView::initial(request@, MAX_LAUNCH_ATTEMPTS),
            inv@.wf(),
    {
        Invocation::with_attempts(request, MAX_LAUNCH_ATTEMPTS)
    }

    /// Starts an invocation that gives up launching after `max_attempts` attempts.
    pub fn with_attempts(request: RenderRequest, max_attempts: u32) -> (inv: Invocation)
        ensures
            inv@ == InvocationView::initial(request@, max_attempts),
            inv@.wf(),
    {
        Invocation {
            request,
            cursor: Cursor { phase: Phase::Preparing, locator: Locator::new(), attempt: 0 },
            max_attempts,
            verdict: None,
        }
    }

    /// Where the invocation stands.
    pub fn phase(&self) -> (p: Phase)
        ensures
            p == self@.phase,
    {
        self.cursor.phase
    }

    /// The request this invocation serves.
    pub fn request(&self) -> (r: &RenderRequest)
        ensures
            r@ == self@.request,
    {
        &self.request
    }

    /// The number of the launch attempt under way, or of the last one made.
    pub fn attempt(&self) -> (n: u32)
        ensures
            n == self@.attempt,
    {
        self.cursor.attempt
    }

    /// The one thing the program is to do now.
    pub fn pending(&self) -> (action: Action)
        ensures
            self@.wf(),
            action@ == self@.action(),
    {
        proof {
            use_type_invariant(self);
        }
        match self.cursor.phase {
            Phase::Preparing => Action::PrepareEnvironment,
            // While locating, the search is never over; while launching, it always is.
            Phase::Locating => match self.cursor.locator.pending() {
                LocatorStep::Probe(path) => Action::Probe(path),
                _ => Action::Finish,
            },
            Phase::Launching => match self.cursor.locator.pending() {
                LocatorStep::Found(path) => Action::Launch { path, attempt: self.cursor.attempt },
                _ => Action::Finish,
            },
            Phase::Backoff => Action::Sleep(RETRY_DELAY_MS),
            Phase::OpeningTab => Action::OpenTab,
            Phase::SettingViewport => Action::SetViewport {
                width: self.request.width(),
                height: self.request.height(),
            },
            Phase::Navigating => Action::Navigate(String::from_str(self.request.url())),
            Phase::AwaitingLoad => Action::WaitForLoad,
            Phase::Settling => Action::Sleep(self.request.settle_ms()),
            Phase::Capturing => Action::Capture {
                format: self.request.format(),
                full_page: true,
            },
            Phase::Releasing => Action::Release,
            Phase::Finished => Action::Finish,
        }
    }

    fn fail(&mut self, cause: &str)
        requires
            holds_session(old(self)@.phase),
            old(self)@.phase != Phase::Releasing,
        ensures
            final(self)@ == old(self)@.decided(
                Phase::Releasing,
                Err(step_failure(old(self)@.phase, old(self)@.request.url, cause@)),
            ),
    {
        proof {
            use_type_invariant(&*self);
        }
        let e = match self.cursor.phase {
            Phase::OpeningTab => ScreenshotError::Navigation(
                joined("Failed to create new tab: ", cause),
            ),
            Phase::SettingViewport => ScreenshotError::Navigation(
                joined("Failed to set viewport: ", cause),
            ),
            Phase::Navigating => {
                let mut detail = joined("Failed to navigate to ", self.request.url());
                detail.append(": ");
                detail.append(cause);
                ScreenshotError::Navigation(detail)
            },
            Phase::AwaitingLoad => ScreenshotError::Navigation(
                joined("Navigation timeout: ", cause),
            ),
            _ => ScreenshotError::Screenshot(joined("Screenshot capture failed: ", cause)),
        };
        self.verdict = Some(Err(e));
        self.cursor = Cursor { phase: Phase::Releasing, ..self.cursor };
    }

    fn expire(&mut self)
        requires
            under_deadline(old(self)@.phase),
        ensures
            final(self)@ == old(self)@.decided(
                Phase::Releasing,
                Err(overdue(old(self)@.request.url)),
            ),
    {
        proof {
            use_type_invariant(&*self);
        }
        let detail = joined("Deadline passed while rendering ", self.request.url());
        self.verdict = Some(Err(ScreenshotError::Timeout(detail)));
        self.cursor = Cursor { phase: Phase::Releasing, ..self.cursor };
    }

    /// Takes what happened to the pending action, moves on, and names the next
    /// action.
    ///
    /// An event that does not answer the pending action is ignored: the state
    /// stays and the same action is named again.
    pub fn step(&mut self, event: Event) -> (action: Action)
        ensures
            old(self)@.wf(),
            final(self)@ == old(self)@.next(event@),
            final(self)@.wf(),
            action@ == final(self)@.action(),
    {
        proof {
            use_type_invariant(&*self);
            lemma_next_keeps_wf(self@, event@);
        }
        match self.cursor.phase {
            Phase::Preparing => match event {
                Event::Done => {
                    self.cursor = Cursor { phase: Phase::Locating, ..self.cursor };
                },
                _ => {},
            },
            Phase::Locating => match event {
                Event::Exists(present) => {
                    let mut locator = self.cursor.locator;
                    locator.answer(present);
                    match locator.pending() {
                        LocatorStep::Probe(_) => {
                            self.cursor = Cursor { locator, ..self.cursor };
                        },
                        LocatorStep::NotFound => {
                            self.verdict = Some(
                                Err(
                                    ScreenshotError::ChromeNotFound(
                                        String::from_str("Chrome executable not found"),
                                    ),
                                ),
                            );
                            self.cursor = Cursor { phase: Phase::Finished, locator, ..self.cursor };
                        },
                        LocatorStep::Found(_) => {
                            if self.max_attempts == 0 {
                                proof {
                                    reveal_strlit("");
                                    assert(""@ =~= Seq::<char>::empty());
                                }
                                self.verdict = Some(
                                    Err(ScreenshotError::BrowserLaunch(exhausted_detail(0, ""))),
                                );
                                self.cursor = Cursor {
                                    phase: Phase::Finished,
                                    locator,
                                    ..self.cursor
                                };
                            } else {
                                self.cursor = Cursor { phase: Phase::Launching, locator, attempt: 1 };
                            }
                        },
                    }
                },
                _ => {},
            },
            Phase::Launching => match event {
                Event::Done => {
                    self.cursor = Cursor { phase: Phase::OpeningTab, ..self.cursor };
                },
                Event::Failed(cause) => {
                    if self.cursor.attempt < self.max_attempts {
                        self.cursor = Cursor { phase: Phase::Backoff, ..self.cursor };
                    } else {
                        let last = attempt_record(self.cursor.attempt, cause.as_str());
                        self.verdict = Some(
                            Err(
                                ScreenshotError::BrowserLaunch(
                                    exhausted_detail(self.max_attempts, last.as_str()),
                                ),
                            ),
                        );
                        self.cursor = Cursor { phase: Phase::Finished, ..self.cursor };
                    }
                },
                Event::Refused(cause) => {
                    self.verdict = Some(
                        Err(ScreenshotError::BrowserLaunch(refused_detail(cause.as_str()))),
                    );
                    self.cursor = Cursor { phase: Phase::Finished, ..self.cursor };
                },
                _ => {},
            },
            Phase::Backoff => match event {
                Event::Done => {
                    self.cursor = Cursor {
                        phase: Phase::Launching,
                        attempt: self.cursor.attempt + 1,
                        ..self.cursor
                    };
                },
                _ => {},
            },
            Phase::OpeningTab => match event {
                Event::Done => {
                    self.cursor = Cursor { phase: Phase::SettingViewport, ..self.cursor };
                },
                Event::Failed(cause) => {
                    self.fail(cause.as_str());
                },
                _ => {},
            },
            Phase::SettingViewport => match event {
                Event::Done => {
                    self.cursor = Cursor { phase: Phase::Navigating, ..self.cursor };
                },
                Event::Failed(cause) => {
                    self.fail(cause.as_str());
                },
                _ => {},
            },
            Phase::Navigating => match event {
                Event::Done => {
                    self.cursor = Cursor { phase: Phase::AwaitingLoad, ..self.cursor };
                },
                Event::Failed(cause) => {
                    self.fail(cause.as_str());
                },
                Event::TimedOut => {
                    self.expire();
                },
                _ => {},
            },
            Phase::AwaitingLoad => match event {
                Event::Done => {
                    if self.request.settle_ms() > 0 {
                        self.cursor = Cursor { phase: Phase::Settling, ..self.cursor };
                    } else {
                        self.cursor = Cursor { phase: Phase::Capturing, ..self.cursor };
                    }
                },
                Event::Failed(cause) => {
                    self.fail(cause.as_str());
                },
                Event::TimedOut => {
                    self.expire();
                },
                _ => {},
            },
            Phase::Settling => match event {
                Event::Done => {
                    self.cursor = Cursor { phase: Phase::Capturing, ..self.cursor };
                },
                Event::TimedOut => {
                    self.expire();
                },
                _ => {},
            },
            Phase::Capturing => match event {
                Event::Image(data) => {
                    let content_type = String::from_str(self.request.format().content_type());
                    self.verdict = Some(Ok(CaptureResult { data, content_type }));
                    self.cursor = Cursor { phase: Phase::Releasing, ..self.cursor };
                },
                Event::Failed(cause) => {
                    self.fail(cause.as_str());
                },
                Event::TimedOut => {
                    self.expire();
                },
                _ => {},
            },
            Phase::Releasing => match event {
                Event::Done => {
                    self.cursor = Cursor { phase: Phase::Finished, ..self.cursor };
                },
                _ => {},
            },
            Phase::Finished => {},
        }
        self.pending()
    }

    /// Hands out the result of an invocation that is over, and `None` while
    /// anything is still pending: in particular while an engine still runs.
    pub fn finish(self) -> (r: Option<Result<CaptureResult, ScreenshotError>>)
        ensures
            self@.phase == Phase::Finished ==> verdict_view(r) == self@.verdict && r is Some,
            self@.phase != Phase::Finished ==> r is None,
    {
        proof {
            use_type_invariant(&self);
        }
        match self.cursor.phase {
            Phase::Finished => self.verdict,
            _ => None,
        }
    }
}

/// Every event leaves an invocation in a state it can be in.
pub proof fn lemma_next_keeps_wf(s: InvocationView, event: EventView)
    requires
        s.wf(),
    ensures
        s.next(event).wf(),
{
}

} // verus!
