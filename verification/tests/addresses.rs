use screenshot_service::error::{ErrorKind, ScreenshotError};
use screenshot_service::request::{judge_url, validate_url, OutputFormat, RenderRequest};
use screenshot_service::service::ScreenshotService;
use screenshot_service::session::Phase;

#[test]
fn absolute_addresses_are_accepted() {
    assert!(validate_url("https://example.com").is_ok());
    assert!(validate_url("http://example.com/path?q=1#frag").is_ok());
    assert!(validate_url("file:///tmp/page.html").is_ok());
}

#[test]
fn empty_address_is_invalid_input() {
    let e = validate_url("").unwrap_err();
    assert_eq!(e.kind(), ErrorKind::InvalidInput);
    assert_eq!(e.detail(), "relative URL without a base");
    assert_eq!(e.message(), "Invalid URL: relative URL without a base");
}

#[test]
fn address_without_scheme_is_invalid_input() {
    let e = validate_url("example.com").unwrap_err();
    assert_eq!(e, ScreenshotError::InvalidUrl("relative URL without a base".to_string()));
    let e = validate_url("/just/a/path").unwrap_err();
    assert_eq!(e.kind(), ErrorKind::InvalidInput);
}

#[test]
fn address_with_empty_host_is_invalid_input() {
    let e = validate_url("http://").unwrap_err();
    assert_eq!(e, ScreenshotError::InvalidUrl("empty host".to_string()));
}

#[test]
fn address_with_bad_port_is_invalid_input() {
    let e = validate_url("http://example.com:99999/").unwrap_err();
    assert_eq!(e, ScreenshotError::InvalidUrl("invalid port number".to_string()));
}

#[test]
fn parser_verdict_becomes_library_verdict() {
    assert_eq!(judge_url(None), Ok(()));
    assert_eq!(
        judge_url(Some("empty host".to_string())),
        Err(ScreenshotError::InvalidUrl("empty host".to_string()))
    );
}

#[test]
fn request_keeps_what_it_was_given() {
    let r = RenderRequest::new("https://example.com", 1920, 1080, 0, OutputFormat::Png).unwrap();
    assert_eq!(r.url(), "https://example.com");
    assert_eq!(r.width(), 1920);
    assert_eq!(r.height(), 1080);
    assert_eq!(r.settle_ms(), 0);
    assert_eq!(r.format(), OutputFormat::Png);
    let r = RenderRequest::new("https://example.com/a", 320, 3840, 250, OutputFormat::Jpeg).unwrap();
    assert_eq!(r.url(), "https://example.com/a");
    assert_eq!(r.width(), 320);
    assert_eq!(r.height(), 3840);
    assert_eq!(r.settle_ms(), 250);
    assert_eq!(r.format(), OutputFormat::Jpeg);
}

#[test]
fn request_reports_first_fault_only() {
    let e = RenderRequest::new("nonsense", 100, 100, 0, OutputFormat::Png).unwrap_err();
    assert_eq!(e.detail(), "relative URL without a base");
    let e = RenderRequest::new("https://example.com", 100, 100, 0, OutputFormat::Png).unwrap_err();
    assert_eq!(e.detail(), "width must be at least 320 pixels (got 100)");
    let e = RenderRequest::new("https://example.com", 320, 5000, 0, OutputFormat::Png).unwrap_err();
    assert_eq!(e.detail(), "height must be at most 3840 pixels (got 5000)");
}

#[test]
fn every_out_of_bounds_pair_is_rejected_with_the_dimension_named() {
    let outside: [u32; 6] = [0, 1, 319, 3841, 10_000, u32::MAX];
    let inside: [u32; 3] = [320, 1080, 3840];
    for &bad in outside.iter() {
        for &good in inside.iter() {
            let e = RenderRequest::new("https://example.com", bad, good, 0, OutputFormat::Png)
                .unwrap_err();
            assert_eq!(e.kind(), ErrorKind::InvalidInput);
            assert!(e.detail().starts_with("width "));
            let e = RenderRequest::new("https://example.com", good, bad, 0, OutputFormat::Png)
                .unwrap_err();
            assert_eq!(e.kind(), ErrorKind::InvalidInput);
            assert!(e.detail().starts_with("height "));
        }
        let e = RenderRequest::new("https://example.com", bad, bad, 0, OutputFormat::Png)
            .unwrap_err();
        assert!(e.detail().starts_with("width "));
    }
}

#[test]
fn content_types_follow_the_format() {
    assert_eq!(OutputFormat::Png.content_type(), "image/png");
    assert_eq!(OutputFormat::Jpeg.content_type(), "image/jpeg");
}

#[test]
fn service_needs_an_installed_engine() {
    assert!(ScreenshotService::new(Some("/opt/chrome")).is_ok());
    let e = ScreenshotService::new(None).unwrap_err();
    assert_eq!(
        e,
        ScreenshotError::ChromeNotFound(
            "Chrome executable not found in any standard location".to_string()
        )
    );
    assert_eq!(
        e.message(),
        "Chrome not found: Chrome executable not found in any standard location"
    );
}

#[test]
fn defaults_fill_what_the_caller_left_out() {
    let service = ScreenshotService::new(Some("/opt/chrome")).unwrap();
    let inv = service.take_screenshot("https://example.com", None, None, None).unwrap();
    assert_eq!(inv.phase(), Phase::Preparing);
    assert_eq!(inv.request().width(), 1920);
    assert_eq!(inv.request().height(), 1080);
    assert_eq!(inv.request().settle_ms(), 1000);
    assert_eq!(inv.request().format(), OutputFormat::Png);
    assert_eq!(inv.request().url(), "https://example.com");
}

#[test]
fn invalid_input_starts_nothing() {
    let service = ScreenshotService::new(Some("/opt/chrome")).unwrap();
    let e = service.take_screenshot("https://example.com", Some(100), None, None).unwrap_err();
    assert_eq!(
        e,
        ScreenshotError::InvalidUrl("width must be at least 320 pixels (got 100)".to_string())
    );
    let e = service.take_screenshot("", Some(1920), Some(1080), Some(0)).unwrap_err();
    assert_eq!(e.kind(), ErrorKind::InvalidInput);
    let e = service.take_screenshot("no scheme", None, Some(4000), None).unwrap_err();
    assert_eq!(e.detail(), "relative URL without a base");
    let e = service.take_screenshot("https://example.com", None, Some(4000), None).unwrap_err();
    assert_eq!(e.detail(), "height must be at most 3840 pixels (got 4000)");
}
