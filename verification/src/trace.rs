//! What holds of whole runs of an invocation: which actions it asks for, in
//! which order, whatever the program reports.

use vstd::prelude::*;
use crate::error::{ErrorKind, ErrorView};
use crate::launch::{attempt_report, exhausted, RETRY_DELAY_MS};
use crate::locator::{candidates, LocatorView};
use crate::request::{mime, RequestView};
use crate::session::{
    holds_session,
    overdue,
    png_signature,
    under_deadline,
    ActionView,
    CaptureView,
    EventView,
    InvocationView,
    Phase,
};

verus! {

/// A run of one event more is the shorter run, then that event.
pub proof fn lemma_run_step(s: InvocationView, events: Seq<EventView>, i: int)
    requires
        0 <= i < events.len(),
    ensures
        s.run(events.take(i + 1)) == s.run(events.take(i)).next(events[i]),
        s.run(events.take(0)) == s,
        s.run(events.take(events.len() as int)) == s.run(events),
{
    assert(events.take(i + 1).drop_last() =~= events.take(i));
    assert(events.take(events.len() as int) =~= events);
}

/// A run ends in a state an invocation can be in.
pub proof fn lemma_run_keeps_wf(s: InvocationView, events: Seq<EventView>)
    requires
        s.wf(),
    ensures
        s.run(events).wf(),
    decreases events.len(),
{
    if events.len() > 0 {
        lemma_run_keeps_wf(s, events.drop_last());
        crate::session::lemma_next_keeps_wf(s.run(events.drop_last()), events.last());
    }
}

/// An invocation that is over stays over: it asks for nothing more, whatever
/// it is told.
pub proof fn lemma_finished_stays(s: InvocationView, events: Seq<EventView>)
    requires
        s.phase == Phase::Finished,
    ensures
        s.run(events) == s,
        s.action() == ActionView::Finish,
    decreases events.len(),
{
    if events.len() > 0 {
        lemma_finished_stays(s, events.drop_last());
    }
}

/// A result, once decided, stays as it is.
pub proof fn lemma_verdict_is_final(s: InvocationView, event: EventView)
    requires
        s.wf(),
        s.verdict is Some,
    ensures
        s.next(event).verdict == s.verdict,
{
}

/// An image is the result in one way only: the engine hands it back when asked
/// for it. The result then holds those bytes, all of them, under the type of
/// the encoding that the engine was asked for.
pub proof fn lemma_image_comes_from_capture(s: InvocationView, event: EventView)
    requires
        s.wf(),
        s.verdict is None,
        s.next(event).verdict matches Some(Ok(_)),
    ensures
        s.phase == Phase::Capturing,
        s.action() == (ActionView::Capture { format: s.request.format, full_page: true }),
        event matches EventView::Image(bytes) && s.next(event).verdict == Some(
            Ok::<CaptureView, ErrorView>(
                CaptureView { data: bytes, content_type: mime(s.request.format) },
            ),
        ),
{
}

/// With an engine running and nothing going wrong, the invocation asks in turn
/// for a tab, the viewport, the navigation, the wait for the load, the settle
/// time where there is one, the image and the engine's release, and ends with
/// the image.
pub proof fn lemma_capture_succeeds(s: InvocationView, bytes: Seq<u8>)
    requires
        s.wf(),
        s.phase == Phase::OpeningTab,
    ensures
        ({
            let done = EventView::Done;
            let loaded = s.next(done).next(done).next(done).next(done);
            let ready = if s.request.settle_ms > 0 {
                loaded.next(done)
            } else {
                loaded
            };
            &&& s.action() == ActionView::OpenTab
            &&& s.next(done).action() == (ActionView::SetViewport {
                width: s.request.width,
                height: s.request.height,
            })
            &&& s.next(done).next(done).action() == ActionView::Navigate(s.request.url)
            &&& s.next(done).next(done).next(done).action() == ActionView::WaitForLoad
            &&& s.request.settle_ms > 0 ==> loaded.action() == ActionView::Sleep(
                s.request.settle_ms,
            )
            &&& ready.action() == (ActionView::Capture {
                format: s.request.format,
                full_page: true,
            })
            &&& ready.next(EventView::Image(bytes)).action() == ActionView::Release
            &&& ready.next(EventView::Image(bytes)).next(done) == s.decided(
                Phase::Finished,
                Ok(CaptureView { data: bytes, content_type: mime(s.request.format) }),
            )
        }),
{
}

/// A run of one event more, seen from its end.
pub proof fn lemma_run_push(s: InvocationView, events: Seq<EventView>, event: EventView)
    ensures
        s.run(events.push(event)) == s.run(events).next(event),
        s.run(Seq::empty()) == s,
{
    assert(events.push(event).drop_last() =~= events);
}

/// What the program reports up to a first launch that succeeds: the
/// environment is set, the first place holds the binary, the engine starts.
pub open spec fn smooth_start() -> Seq<EventView> {
    Seq::<EventView>::empty().push(EventView::Done).push(EventView::Exists(true)).push(
        EventView::Done,
    )
}

/// What the program reports from a running engine on when nothing goes wrong:
/// the tab opens, the viewport is set, the navigation is taken, the page
/// loads, the settle time passes where there is one, the engine hands back
/// `bytes`, and its release is acknowledged.
pub open spec fn smooth_capture(settles: bool, bytes: Seq<u8>) -> Seq<EventView> {
    let loaded = Seq::<EventView>::empty().push(EventView::Done).push(EventView::Done).push(
        EventView::Done,
    ).push(EventView::Done);
    let ready = if settles {
        loaded.push(EventView::Done)
    } else {
        loaded
    };
    ready.push(EventView::Image(bytes)).push(EventView::Done)
}

/// What the program reports in an invocation in which nothing goes wrong.
pub open spec fn smooth_run(settles: bool, bytes: Seq<u8>) -> Seq<EventView> {
    smooth_start() + smooth_capture(settles, bytes)
}

/// A first launch that succeeds leaves the engine running and a tab to open.
pub proof fn lemma_smooth_start(request: RequestView, max_attempts: u32)
    requires
        max_attempts >= 1,
    ensures
        ({
            let start = InvocationView::initial(request, max_attempts);
            let s = start.run(smooth_start());
            &&& s.wf()
            &&& s.phase == Phase::OpeningTab
            &&& s.request == request
            &&& s.verdict is None
        }),
{
    let start = InvocationView::initial(request, max_attempts);
    let done = EventView::Done;
    let e0 = Seq::<EventView>::empty();
    let e1 = e0.push(done);
    let e2 = e1.push(EventView::Exists(true));
    lemma_run_push(start, e0, done);
    lemma_run_push(start, e1, EventView::Exists(true));
    lemma_run_push(start, e2, done);
    lemma_run_keeps_wf(start, smooth_start());
}

/// From a running engine on, with nothing going wrong, the invocation ends
/// with the bytes the engine handed back.
pub proof fn lemma_smooth_capture(s: InvocationView, bytes: Seq<u8>)
    requires
        s.wf(),
        s.phase == Phase::OpeningTab,
    ensures
        s.run(smooth_capture(s.request.settle_ms > 0, bytes)) == s.decided(
            Phase::Finished,
            Ok(CaptureView { data: bytes, content_type: mime(s.request.format) }),
        ),
{
    let done = EventView::Done;
    let e0 = Seq::<EventView>::empty();
    let e1 = e0.push(done);
    let e2 = e1.push(done);
    let e3 = e2.push(done);
    let e4 = e3.push(done);
    lemma_capture_succeeds(s, bytes);
    lemma_run_push(s, e0, done);
    lemma_run_push(s, e1, done);
    lemma_run_push(s, e2, done);
    lemma_run_push(s, e3, done);
    if s.request.settle_ms > 0 {
        let e5 = e4.push(done);
        lemma_run_push(s, e4, done);
        lemma_run_push(s, e5, EventView::Image(bytes));
        lemma_run_push(s, e5.push(EventView::Image(bytes)), done);
    } else {
        lemma_run_push(s, e4, EventView::Image(bytes));
        lemma_run_push(s, e4.push(EventView::Image(bytes)), done);
    }
}

/// From start to end: an invocation in which nothing goes wrong is over after
/// the engine's release, and its result is the very bytes the engine handed
/// back, under the type of the encoding the request names. So where the
/// engine's bytes open with the PNG signature, the result's bytes do.
pub proof fn lemma_end_to_end(request: RequestView, max_attempts: u32, bytes: Seq<u8>)
    requires
        max_attempts >= 1,
    ensures
        ({
            let start = InvocationView::initial(request, max_attempts);
            let end = start.run(smooth_run(request.settle_ms > 0, bytes));
            &&& end.phase == Phase::Finished
            &&& end.action() == ActionView::Finish
            &&& end.verdict == Some(
                Ok::<CaptureView, ErrorView>(
                    CaptureView { data: bytes, content_type: mime(request.format) },
                ),
            )
            &&& png_signature(bytes) ==> (end.verdict matches Some(Ok(image)) && png_signature(
                image.data,
            ))
        }),
{
    let start = InvocationView::initial(request, max_attempts);
    lemma_smooth_start(request, max_attempts);
    lemma_smooth_capture(start.run(smooth_start()), bytes);
    lemma_run_append(start, smooth_start(), smooth_capture(request.settle_ms > 0, bytes));
}

/// An engine comes into being in one way only: a launch attempt is reported done.
pub proof fn lemma_session_opens_on_launch(s: InvocationView, event: EventView)
    requires
        s.wf(),
        !holds_session(s.phase),
        holds_session(s.next(event).phase),
    ensures
        s.phase == Phase::Launching,
        s.action() == (ActionView::Launch {
            path: candidates()[s.locator.next as int],
            attempt: s.attempt,
        }),
        event == EventView::Done,
        s.next(event).phase == Phase::OpeningTab,
{
}

/// While an engine exists the invocation cannot end: every event leaves it in
/// a phase that still holds the engine, but for one, the acknowledgement of the
/// engine's release.
pub proof fn lemma_session_ends_on_release(s: InvocationView, event: EventView)
    requires
        s.wf(),
        holds_session(s.phase),
    ensures
        holds_session(s.next(event).phase) || (s.phase == Phase::Releasing && s.action()
            == ActionView::Release && event == EventView::Done && s.next(event).phase
            == Phase::Finished),
{
}

/// A passed deadline, from navigation to the taking of the image, ends the
/// work on the page: the engine's release is asked for next, and once that is
/// acknowledged the invocation is over with a timeout.
pub proof fn lemma_deadline_releases(s: InvocationView)
    requires
        s.wf(),
        under_deadline(s.phase),
    ensures
        s.next(EventView::TimedOut).action() == ActionView::Release,
        s.next(EventView::TimedOut).next(EventView::Done).phase == Phase::Finished,
        s.next(EventView::TimedOut).next(EventView::Done).verdict == Some(
            Err::<CaptureView, ErrorView>(overdue(s.request.url)),
        ),
{
}

/// Nothing but a passed deadline decides on a timeout.
pub proof fn lemma_no_timeout(s: InvocationView, event: EventView)
    requires
        !(s.verdict matches Some(Err(e)) && e.kind == ErrorKind::Timeout),
        event != EventView::TimedOut,
    ensures
        !(s.next(event).verdict matches Some(Err(e)) && e.kind == ErrorKind::Timeout),
{
}

/// Event `j` of the run acknowledges a release that the invocation had asked for.
pub open spec fn released_at(s: InvocationView, events: Seq<EventView>, j: int) -> bool {
    &&& 0 <= j < events.len()
    &&& s.run(events.take(j)).action() == ActionView::Release
    &&& events[j] == EventView::Done
}

/// No engine is left behind. Where an engine exists at some point of a run
/// that ends with the invocation over, then from that point on the invocation
/// asked for the engine's release and had it acknowledged. This covers every
/// way to fail after a launch, and success too.
pub proof fn lemma_release_precedes_finish(s: InvocationView, events: Seq<EventView>, i: int)
    requires
        s.wf(),
        0 <= i <= events.len(),
        holds_session(s.run(events.take(i)).phase),
        s.run(events).phase == Phase::Finished,
    ensures
        exists|j: int| i <= j && #[trigger] released_at(s, events, j),
    decreases events.len() - i,
{
    let here = s.run(events.take(i));
    lemma_run_keeps_wf(s, events.take(i));
    if i == events.len() {
        assert(events.take(i) =~= events);
    } else {
        lemma_run_step(s, events, i);
        lemma_session_ends_on_release(here, events[i]);
        if holds_session(here.next(events[i]).phase) {
            lemma_release_precedes_finish(s, events, i + 1);
        } else {
            assert(released_at(s, events, i));
        }
    }
}

/// An invocation that never launched an engine asks for no release: before the
/// first launch is reported done, no state of the run holds an engine.
pub proof fn lemma_nothing_to_release_before_launch(s: InvocationView, events: Seq<EventView>)
    requires
        s.wf(),
        !holds_session(s.phase),
        forall|j: int|
            0 <= j < events.len() ==> !(#[trigger] s.run(events.take(j)).phase == Phase::Launching
                && events[j] == EventView::Done),
    ensures
        !holds_session(s.run(events).phase),
        s.run(events).action() != ActionView::Release,
    decreases events.len(),
{
    if events.len() > 0 {
        let shorter = events.drop_last();
        let n = events.len() - 1;
        assert(shorter =~= events.take(n));
        assert forall|j: int| 0 <= j < shorter.len() implies !(#[trigger] s.run(
            shorter.take(j),
        ).phase == Phase::Launching && shorter[j] == EventView::Done) by {
            assert(shorter.take(j) =~= events.take(j));
        }
        lemma_nothing_to_release_before_launch(s, shorter);
        lemma_run_keeps_wf(s, shorter);
        if holds_session(s.run(events).phase) {
            lemma_session_opens_on_launch(s.run(shorter), events.last());
            assert(s.run(events.take(n)).phase == Phase::Launching && events[n] == EventView::Done);
        }
    }
}

/// From its start an invocation asks for the environment, then for the first
/// place; where that place holds the binary and at least one attempt is
/// allowed, the first launch attempt follows.
pub proof fn lemma_first_attempt(request: RequestView, max_attempts: u32)
    requires
        max_attempts >= 1,
    ensures
        ({
            let start = InvocationView::initial(request, max_attempts);
            let s = start.run(seq![EventView::Done, EventView::Exists(true)]);
            &&& start.wf()
            &&& start.action() == ActionView::PrepareEnvironment
            &&& start.next(EventView::Done).action() == ActionView::Probe(candidates()[0])
            &&& s == (InvocationView {
                phase: Phase::Launching,
                attempt: 1,
                locator: LocatorView { next: 0, found: true },
                ..start
            })
            &&& s.wf()
            &&& s.action() == (ActionView::Launch { path: candidates()[0], attempt: 1 })
        }),
{
    let start = InvocationView::initial(request, max_attempts);
    let events = seq![EventView::Done, EventView::Exists(true)];
    lemma_run_step(start, events, 0);
    lemma_run_step(start, events, 1);
    assert(events.take(2) =~= events);
}

/// The reports of launches that fail one after another for `causes`, each
/// followed by the end of the pause after it.
pub open spec fn failing(causes: Seq<Seq<char>>) -> Seq<EventView> {
    Seq::new(
        2 * causes.len(),
        |i: int|
            if i % 2 == 0 {
                EventView::Failed(causes[i / 2])
            } else {
                EventView::Done
            },
    )
}

/// Where the reports of failing launches stand in their run.
pub proof fn lemma_failing_at(causes: Seq<Seq<char>>, k: int)
    requires
        0 <= k < causes.len(),
    ensures
        failing(causes).len() == 2 * causes.len(),
        failing(causes)[2 * k] == EventView::Failed(causes[k]),
        failing(causes)[2 * k + 1] == EventView::Done,
{
    assert((2 * k) % 2 == 0 && (2 * k) / 2 == k);
    assert((2 * k + 1) % 2 == 1);
}

/// One failed attempt that is not the last allowed: a pause of the fixed
/// length is asked for, and when it is over, the next attempt.
pub proof fn lemma_retry(s: InvocationView, cause: Seq<char>)
    requires
        s.phase == Phase::Launching,
        s.attempt < s.max_attempts,
    ensures
        s.next(EventView::Failed(cause)) == s.at(Phase::Backoff),
        s.at(Phase::Backoff).action() == ActionView::Sleep(RETRY_DELAY_MS),
        s.at(Phase::Backoff).next(EventView::Done) == s.with_attempt((s.attempt + 1) as u32),
{
}

/// Two events of a run, a failed attempt that is not the last allowed and the
/// end of the pause after it, lead from one attempt to the next.
pub proof fn lemma_retry_in_run(
    s: InvocationView,
    events: Seq<EventView>,
    i: int,
    before: InvocationView,
    cause: Seq<char>,
)
    requires
        0 <= i,
        i + 1 < events.len(),
        s.run(events.take(i)) == before,
        before.phase == Phase::Launching,
        before.attempt < before.max_attempts,
        events[i] == EventView::Failed(cause),
        events[i + 1] == EventView::Done,
    ensures
        s.run(events.take(i + 1)) == before.at(Phase::Backoff),
        s.run(events.take(i + 2)) == before.with_attempt((before.attempt + 1) as u32),
{
    lemma_run_step(s, events, i);
    lemma_run_step(s, events, i + 1);
    lemma_retry(before, cause);
}

/// Each failed attempt but the last allowed is followed by one pause of the
/// fixed length and then by the next attempt, numbered one higher; nothing else
/// changes.
pub proof fn lemma_after_failures(s: InvocationView, causes: Seq<Seq<char>>, k: int)
    requires
        s.phase == Phase::Launching,
        s.attempt == 1,
        0 <= k <= causes.len(),
        k < s.max_attempts,
    ensures
        s.run(failing(causes).take(2 * k)) == s.with_attempt((k + 1) as u32),
        k > 0 ==> s.run(failing(causes).take(2 * k - 1)) == s.with_attempt(k as u32).at(
            Phase::Backoff,
        ),
    decreases k,
{
    let events = failing(causes);
    if k == 0 {
        assert(events.take(0) =~= Seq::<EventView>::empty());
        assert(s.with_attempt(1) == s);
    } else {
        lemma_after_failures(s, causes, k - 1);
        lemma_failing_at(causes, k - 1);
        let before = s.with_attempt(k as u32);
        let i = 2 * (k - 1);
        lemma_retry_in_run(s, events, i, before, causes[k - 1]);
        assert(i + 1 == 2 * k - 1 && i + 2 == 2 * k);
        assert(before.with_attempt((k + 1) as u32) == s.with_attempt((k + 1) as u32));
    }
}

/// A launch that fails fewer times than the bound and then succeeds: the engine
/// runs, the attempt that succeeded is the one after the failures, and there
/// was one pause per failure.
pub proof fn lemma_launch_succeeds_after(s: InvocationView, causes: Seq<Seq<char>>)
    requires
        s.wf(),
        s.phase == Phase::Launching,
        s.attempt == 1,
        causes.len() < s.max_attempts,
    ensures
        s.run(failing(causes).push(EventView::Done)) == (InvocationView {
            phase: Phase::OpeningTab,
            attempt: (causes.len() + 1) as u32,
            ..s
        }),
{
    let events = failing(causes);
    lemma_after_failures(s, causes, causes.len() as int);
    assert(events.take(2 * (causes.len() as int)) =~= events);
    let whole = events.push(EventView::Done);
    assert(whole.drop_last() =~= events);
    assert(s.run(whole) == s.run(events).next(EventView::Done));
}

/// The failure of the last attempt allowed ends the invocation, with a
/// failure that carries the bound and the attempt's cause.
pub proof fn lemma_last_failure(s: InvocationView, cause: Seq<char>)
    requires
        s.phase == Phase::Launching,
        s.attempt == s.max_attempts,
    ensures
        s.next(EventView::Failed(cause)) == s.decided(
            Phase::Finished,
            Err(
                ErrorView {
                    kind: ErrorKind::BrowserLaunchFailure,
                    detail: exhausted(
                        s.max_attempts as nat,
                        attempt_report(s.max_attempts as nat, cause),
                    ),
                },
            ),
        ),
{
}

/// A launch that always fails is given up after exactly as many attempts as
/// the bound allows: the attempts are numbered from one to the bound, a pause
/// follows each but the last, the failure carries the bound and the last
/// attempt's cause, and nothing is attempted after it.
pub proof fn lemma_launch_exhaustion(
    s: InvocationView,
    causes: Seq<Seq<char>>,
    last: Seq<char>,
    more: Seq<EventView>,
)
    requires
        s.wf(),
        s.phase == Phase::Launching,
        s.attempt == 1,
        causes.len() + 1 == s.max_attempts,
    ensures
        forall|k: int|
            0 <= k <= causes.len() ==> (#[trigger] s.run(failing(causes).take(2 * k))).action() == (
            ActionView::Launch {
                path: candidates()[s.locator.next as int],
                attempt: (k + 1) as u32,
            }),
        forall|k: int|
            1 <= k <= causes.len() ==> (#[trigger] s.run(
                failing(causes).take(2 * k - 1),
            )).action() == ActionView::Sleep(RETRY_DELAY_MS),
        s.run(failing(causes).push(EventView::Failed(last))) == s.decided(
            Phase::Finished,
            Err(
                ErrorView {
                    kind: ErrorKind::BrowserLaunchFailure,
                    detail: exhausted(
                        s.max_attempts as nat,
                        attempt_report(s.max_attempts as nat, last),
                    ),
                },
            ),
        ).with_attempt(s.max_attempts),
        s.run(failing(causes).push(EventView::Failed(last)) + more) == s.run(
            failing(causes).push(EventView::Failed(last)),
        ),
{
    let events = failing(causes);
    assert forall|k: int| 0 <= k <= causes.len() implies (#[trigger] s.run(
        events.take(2 * k),
    )).action() == (ActionView::Launch {
        path: candidates()[s.locator.next as int],
        attempt: (k + 1) as u32,
    }) by {
        lemma_after_failures(s, causes, k);
    }
    assert forall|k: int| 1 <= k <= causes.len() implies (#[trigger] s.run(
        events.take(2 * k - 1),
    )).action() == ActionView::Sleep(RETRY_DELAY_MS) by {
        lemma_after_failures(s, causes, k);
        assert(s.with_attempt(k as u32).at(Phase::Backoff).phase == Phase::Backoff);
    }
    lemma_after_failures(s, causes, causes.len() as int);
    assert(events.take(2 * (causes.len() as int)) =~= events);
    let whole = events.push(EventView::Failed(last));
    assert(whole.drop_last() =~= events);
    lemma_last_failure(s.with_attempt(s.max_attempts), last);
    assert(s.run(whole) == s.run(events).next(EventView::Failed(last)));
    lemma_run_append(s, whole, more);
    lemma_finished_stays(s.run(whole), more);
}

/// A run of two parts is the run of the second from where the first ended.
pub proof fn lemma_run_append(s: InvocationView, first: Seq<EventView>, second: Seq<EventView>)
    ensures
        s.run(first + second) == s.run(first).run(second),
    decreases second.len(),
{
    if second.len() == 0 {
        assert(first + second =~= first);
    } else {
        assert((first + second).drop_last() =~= first + second.drop_last());
        lemma_run_append(s, first, second.drop_last());
    }
}

} // verus!
