use screenshot_service::error::{ErrorKind, ScreenshotError};
use screenshot_service::request::{OutputFormat, RenderRequest};
use screenshot_service::service::ScreenshotService;
use screenshot_service::session::{Action, CaptureResult, Event, Invocation, Phase};

const PNG: [u8; 12] = [0x89, 0x50, 0x4E, 0x47, 0x0D, 0x0A, 0x1A, 0x0A, 0, 0, 0, 13];

/// An engine that does what it is scripted to do, and counts.
struct Engine {
    present: Vec<&'static str>,
    launch_failures: u32,
    fail_at: Option<Phase>,
    probes: Vec<String>,
    launches: Vec<u32>,
    sleeps: Vec<u64>,
    releases: u32,
    prepared: u32,
    running: bool,
    log: Vec<Action>,
}

fn engine(present: Vec<&'static str>, launch_failures: u32, fail_at: Option<Phase>) -> Engine {
    Engine {
        present,
        launch_failures,
        fail_at,
        probes: Vec::new(),
        launches: Vec::new(),
        sleeps: Vec::new(),
        releases: 0,
        prepared: 0,
        running: false,
        log: Vec::new(),
    }
}

fn answer(e: &mut Engine, phase: Phase, ok: Event) -> Event {
    if e.fail_at == Some(phase) {
        Event::Failed("engine said no".to_string())
    } else {
        ok
    }
}

fn drive(mut inv: Invocation, e: &mut Engine) -> Result<CaptureResult, ScreenshotError> {
    let mut action = inv.pending();
    for _ in 0..100 {
        e.log.push(match &action {
            Action::Navigate(u) => Action::Navigate(u.clone()),
            Action::Probe(p) => Action::Probe(p),
            Action::Launch { path, attempt } => Action::Launch { path, attempt: *attempt },
            Action::Sleep(ms) => Action::Sleep(*ms),
            Action::SetViewport { width, height } => {
                Action::SetViewport { width: *width, height: *height }
            }
            Action::Capture { format, full_page } => {
                Action::Capture { format: *format, full_page: *full_page }
            }
            Action::PrepareEnvironment => Action::PrepareEnvironment,
            Action::OpenTab => Action::OpenTab,
            Action::WaitForLoad => Action::WaitForLoad,
            Action::Release => Action::Release,
            Action::Finish => Action::Finish,
        });
        let phase = inv.phase();
        let event = match action {
            Action::PrepareEnvironment => {
                e.prepared += 1;
                Event::Done
            }
            Action::Probe(path) => {
                e.probes.push(path.to_string());
                Event::Exists(e.present.contains(&path))
            }
            Action::Launch { attempt, .. } => {
                e.launches.push(attempt);
                if e.launches.len() as u32 <= e.launch_failures {
                    Event::Failed(format!("spawn failed {}", e.launches.len()))
                } else {
                    e.running = true;
                    Event::Done
                }
            }
            Action::Sleep(ms) => {
                e.sleeps.push(ms);
                Event::Done
            }
            Action::OpenTab
            | Action::SetViewport { .. }
            | Action::Navigate(_)
            | Action::WaitForLoad => answer(e, phase, Event::Done),
            Action::Capture { .. } => answer(e, phase, Event::Image(PNG.to_vec())),
            Action::Release => {
                e.releases += 1;
                e.running = false;
                Event::Done
            }
            Action::Finish => {
                assert!(!e.running);
                return inv.finish().unwrap();
            }
        };
        action = inv.step(event);
    }
    panic!("the invocation did not end");
}

fn start(url: &str, width: u32, height: u32, wait: u64) -> Invocation {
    let service = ScreenshotService::new(Some("/opt/chrome")).unwrap();
    service.take_screenshot(url, Some(width), Some(height), Some(wait)).unwrap()
}

#[test]
fn capture_of_example_page_returns_png_bytes() {
    let mut e = engine(vec!["/opt/chromium/chrome"], 0, None);
    let image = drive(start("https://example.com", 1920, 1080, 0), &mut e).unwrap();
    assert_eq!(&image.data[..4], &[0x89, 0x50, 0x4E, 0x47]);
    assert_eq!(image.data, PNG.to_vec());
    assert_eq!(image.content_type, "image/png");
    assert_eq!(
        e.log,
        vec![
            Action::PrepareEnvironment,
            Action::Probe("/opt/chromium/chrome"),
            Action::Launch { path: "/opt/chromium/chrome", attempt: 1 },
            Action::OpenTab,
            Action::SetViewport { width: 1920, height: 1080 },
            Action::Navigate("https://example.com".to_string()),
            Action::WaitForLoad,
            Action::Capture { format: OutputFormat::Png, full_page: true },
            Action::Release,
            Action::Finish,
        ]
    );
    assert_eq!(e.releases, 1);
    assert!(e.sleeps.is_empty());
}

#[test]
fn settle_time_is_slept_before_capture() {
    let mut e = engine(vec!["/opt/chrome"], 0, None);
    let image = drive(start("https://example.com", 800, 600, 250), &mut e).unwrap();
    assert_eq!(image.data, PNG.to_vec());
    assert_eq!(e.sleeps, vec![250]);
    assert_eq!(e.probes, vec!["/opt/chromium/chrome", "/opt/chrome"]);
    assert_eq!(e.log[3], Action::Launch { path: "/opt/chrome", attempt: 1 });
    let n = e.log.len();
    assert_eq!(e.log[n - 4], Action::Sleep(250));
    assert_eq!(e.log[n - 3], Action::Capture { format: OutputFormat::Png, full_page: true });
}

#[test]
fn requested_encoding_is_asked_of_the_engine_and_labels_the_result() {
    let request =
        RenderRequest::new("https://example.com", 1920, 1080, 0, OutputFormat::Jpeg).unwrap();
    let mut e = engine(vec!["/opt/chrome"], 0, None);
    let image = drive(Invocation::begin(request), &mut e).unwrap();
    assert_eq!(image.content_type, "image/jpeg");
    assert!(e.log.contains(&Action::Capture { format: OutputFormat::Jpeg, full_page: true }));
    assert!(!e.log.contains(&Action::Capture { format: OutputFormat::Png, full_page: true }));

    let request =
        RenderRequest::new("https://example.com", 1920, 1080, 0, OutputFormat::Png).unwrap();
    let mut e = engine(vec!["/opt/chrome"], 0, None);
    let image = drive(Invocation::begin(request), &mut e).unwrap();
    assert_eq!(image.content_type, "image/png");
    assert!(e.log.contains(&Action::Capture { format: OutputFormat::Png, full_page: true }));
    assert!(!e.log.contains(&Action::Capture { format: OutputFormat::Jpeg, full_page: true }));
}

#[test]
fn width_below_minimum_is_rejected_before_anything_is_located() {
    let service = ScreenshotService::new(Some("/opt/chrome")).unwrap();
    let r = service.take_screenshot("https://example.com", Some(100), Some(1080), Some(0));
    let e = r.unwrap_err();
    assert_eq!(e.kind(), ErrorKind::InvalidInput);
    assert_eq!(e.detail(), "width must be at least 320 pixels (got 100)");
}

#[test]
fn launch_succeeds_on_third_attempt_after_two_pauses() {
    let mut e = engine(vec!["/opt/chrome"], 2, None);
    let r = drive(start("https://example.com", 1920, 1080, 0), &mut e);
    assert!(r.is_ok());
    assert_eq!(e.launches, vec![1, 2, 3]);
    assert_eq!(e.sleeps, vec![1000, 1000]);
    assert_eq!(e.releases, 1);
}

#[test]
fn launch_is_given_up_after_three_failures() {
    let mut e = engine(vec!["/opt/chrome"], u32::MAX, None);
    let r = drive(start("https://example.com", 1920, 1080, 0), &mut e);
    assert_eq!(
        r,
        Err(ScreenshotError::BrowserLaunch(
            "Browser launch failed after retries: All 3 launch attempts failed. Last error: Attempt 3: spawn failed 3"
                .to_string()
        ))
    );
    assert_eq!(e.launches, vec![1, 2, 3]);
    assert_eq!(e.sleeps, vec![1000, 1000]);
    assert_eq!(e.releases, 0);
    assert_eq!(e.log.last(), Some(&Action::Finish));
}

#[test]
fn launch_bound_is_configurable() {
    for bound in [1u32, 2, 5] {
        let request =
            RenderRequest::new("https://example.com", 1920, 1080, 0, OutputFormat::Png).unwrap();
        let mut e = engine(vec!["/opt/chrome"], u32::MAX, None);
        let r = drive(Invocation::with_attempts(request, bound), &mut e);
        assert_eq!(r.unwrap_err().kind(), ErrorKind::BrowserLaunchFailure);
        assert_eq!(e.launches.len() as u32, bound);
        assert_eq!(e.sleeps.len() as u32, bound - 1);
    }
    let request =
        RenderRequest::new("https://example.com", 1920, 1080, 0, OutputFormat::Png).unwrap();
    let mut e = engine(vec!["/opt/chrome"], 0, None);
    let r = drive(Invocation::with_attempts(request, 0), &mut e);
    assert_eq!(
        r,
        Err(ScreenshotError::BrowserLaunch(
            "Browser launch failed after retries: All 0 launch attempts failed. Last error: "
                .to_string()
        ))
    );
    assert!(e.launches.is_empty());
}

#[test]
fn refused_configuration_is_not_retried() {
    let mut inv = start("https://example.com", 1920, 1080, 0);
    inv.step(Event::Done);
    let action = inv.step(Event::Exists(true));
    assert_eq!(action, Action::Launch { path: "/opt/chromium/chrome", attempt: 1 });
    let action = inv.step(Event::Refused("no path".to_string()));
    assert_eq!(action, Action::Finish);
    assert_eq!(
        inv.finish(),
        Some(Err(ScreenshotError::BrowserLaunch(
            "Browser launch failed after retries: Browser launch failed: no path".to_string()
        )))
    );
}

#[test]
fn missing_binary_is_fatal_and_launches_nothing() {
    let mut e = engine(vec![], 0, None);
    let r = drive(start("https://example.com", 1920, 1080, 0), &mut e);
    assert_eq!(
        r,
        Err(ScreenshotError::ChromeNotFound("Chrome executable not found".to_string()))
    );
    assert_eq!(e.probes, vec!["/opt/chromium/chrome", "/opt/chrome"]);
    assert!(e.launches.is_empty());
    assert_eq!(e.releases, 0);
}

#[test]
fn every_failure_after_launch_releases_the_engine() {
    let cases = [
        (Phase::OpeningTab, ErrorKind::NavigationFailure, "Failed to create new tab: engine said no"),
        (Phase::SettingViewport, ErrorKind::NavigationFailure, "Failed to set viewport: engine said no"),
        (
            Phase::Navigating,
            ErrorKind::NavigationFailure,
            "Failed to navigate to https://example.com: engine said no",
        ),
        (Phase::AwaitingLoad, ErrorKind::NavigationFailure, "Navigation timeout: engine said no"),
        (Phase::Capturing, ErrorKind::CaptureFailure, "Screenshot capture failed: engine said no"),
    ];
    for (phase, kind, detail) in cases {
        let mut e = engine(vec!["/opt/chrome"], 1, Some(phase));
        let err = drive(start("https://example.com", 1920, 1080, 5), &mut e).unwrap_err();
        assert_eq!(err.kind(), kind);
        assert_eq!(err.detail(), detail);
        assert_eq!(e.releases, 1);
        assert!(!e.running);
        let n = e.log.len();
        assert_eq!(e.log[n - 2], Action::Release);
        assert_eq!(e.log[n - 1], Action::Finish);
    }
}

#[test]
fn result_is_withheld_until_the_engine_is_released() {
    let mut inv = start("https://example.com", 1920, 1080, 0);
    inv.step(Event::Done);
    inv.step(Event::Exists(true));
    assert_eq!(inv.step(Event::Done), Action::OpenTab);
    assert_eq!(inv.step(Event::Failed("boom".to_string())), Action::Release);
    assert_eq!(inv.phase(), Phase::Releasing);
    assert_eq!(inv.step(Event::Failed("cannot".to_string())), Action::Release);
    assert_eq!(inv.step(Event::Exists(true)), Action::Release);
    assert_eq!(inv.phase(), Phase::Releasing);
    assert_eq!(inv.step(Event::Done), Action::Finish);
    assert_eq!(inv.phase(), Phase::Finished);
    assert_eq!(inv.step(Event::Done), Action::Finish);
    assert_eq!(
        inv.finish(),
        Some(Err(ScreenshotError::Navigation("Failed to create new tab: boom".to_string())))
    );
}

#[test]
fn unfinished_invocation_hands_out_nothing() {
    let inv = start("https://example.com", 1920, 1080, 0);
    assert_eq!(inv.finish(), None);
    let mut inv = start("https://example.com", 1920, 1080, 0);
    inv.step(Event::Done);
    inv.step(Event::Exists(true));
    inv.step(Event::Done);
    assert_eq!(inv.phase(), Phase::OpeningTab);
    assert_eq!(inv.finish(), None);
}

#[test]
fn events_that_answer_nothing_are_ignored() {
    let mut inv = start("https://example.com", 1920, 1080, 0);
    assert_eq!(inv.pending(), Action::PrepareEnvironment);
    assert_eq!(inv.step(Event::Exists(true)), Action::PrepareEnvironment);
    assert_eq!(inv.step(Event::Image(vec![1, 2, 3])), Action::PrepareEnvironment);
    assert_eq!(inv.step(Event::Done), Action::Probe("/opt/chromium/chrome"));
    assert_eq!(inv.step(Event::Done), Action::Probe("/opt/chromium/chrome"));
    assert_eq!(inv.attempt(), 0);
}

fn at_phase(target: Phase) -> Invocation {
    let mut inv = start("https://example.com/slow", 1920, 1080, 50);
    for _ in 0..20 {
        if inv.phase() == target {
            return inv;
        }
        let event = match inv.pending() {
            Action::Probe(_) => Event::Exists(true),
            Action::Capture { .. } => Event::Image(PNG.to_vec()),
            _ => Event::Done,
        };
        inv.step(event);
    }
    panic!("phase not reached");
}

#[test]
fn passed_deadline_releases_the_engine_and_reports_a_timeout() {
    for phase in [Phase::Navigating, Phase::AwaitingLoad, Phase::Settling, Phase::Capturing] {
        let mut inv = at_phase(phase);
        assert_eq!(inv.step(Event::TimedOut), Action::Release);
        assert_eq!(inv.phase(), Phase::Releasing);
        assert_eq!(inv.step(Event::TimedOut), Action::Release);
        assert_eq!(inv.step(Event::Done), Action::Finish);
        let e = inv.finish().unwrap().unwrap_err();
        assert_eq!(e.kind(), ErrorKind::Timeout);
        assert_eq!(
            e,
            ScreenshotError::Timeout(
                "Deadline passed while rendering https://example.com/slow".to_string()
            )
        );
        assert_eq!(
            e.message(),
            "Timed out: Deadline passed while rendering https://example.com/slow"
        );
    }
}

#[test]
fn deadline_is_not_heeded_outside_the_work_on_the_page() {
    for phase in [
        Phase::Preparing,
        Phase::Locating,
        Phase::Launching,
        Phase::OpeningTab,
        Phase::SettingViewport,
        Phase::Releasing,
        Phase::Finished,
    ] {
        let mut inv = at_phase(phase);
        let before = inv.pending();
        assert_eq!(inv.step(Event::TimedOut), before);
        assert_eq!(inv.phase(), phase);
    }
}

#[test]
fn query_for_jpeg_is_captured_and_answered_as_jpeg() {
    let wishes = screenshot_service::gateway::read_query(
        "GET",
        Some("https://example.com"),
        None,
        None,
        Some("0"),
        Some("jpeg"),
    )
    .unwrap();
    let request = RenderRequest::new(
        &wishes.url,
        wishes.width,
        wishes.height,
        wishes.wait_ms,
        wishes.format,
    )
    .unwrap();
    let mut e = engine(vec!["/opt/chrome"], 0, None);
    let image = drive(Invocation::begin(request), &mut e).unwrap();
    assert!(e.log.contains(&Action::Capture { format: OutputFormat::Jpeg, full_page: true }));
    let body = screenshot_service::gateway::success_body(&image);
    assert_eq!(body.content_type, "image/jpeg");
    assert_eq!(body.content_type, image.content_type);
}

#[test]
fn service_entry_point_asks_for_png_and_labels_png() {
    let mut e = engine(vec!["/opt/chrome"], 0, None);
    let image = drive(start("https://example.com", 1920, 1080, 0), &mut e).unwrap();
    assert!(e.log.contains(&Action::Capture { format: OutputFormat::Png, full_page: true }));
    assert_eq!(image.content_type, "image/png");
    let body = screenshot_service::gateway::success_body(&image);
    assert_eq!(body.content_type, "image/png");
    assert_eq!(&image.data[..4], &[0x89, 0x50, 0x4E, 0x47]);
}
