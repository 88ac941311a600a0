use screenshot_service::error::ScreenshotError;
use screenshot_service::gateway::{
    authorize, deny, failure_reply, read_dimension, read_format, read_query, read_wait,
    success_body, wrap_encoded, Stage,
};
use screenshot_service::request::OutputFormat;
use screenshot_service::session::CaptureResult;

#[test]
fn test_missing_url_parameter() {
    let reply = read_query("GET", None, None, None, None, None).unwrap_err();
    assert_eq!(reply.status, 500);
    assert_eq!(reply.error, "INTERNAL_ERROR");
    assert_eq!(reply.message, "Missing required 'url' parameter");
}

#[test]
fn open_door_when_nothing_is_configured() {
    assert!(authorize("", "", None, None, None));
    assert!(authorize("", "", Some("x"), Some("y"), Some("z")));
}

#[test]
fn proxy_secret_opens_the_door() {
    assert!(authorize("", "s3", Some("s3"), None, None));
    assert!(authorize("key", "s3", Some("s3"), None, None));
    assert!(!authorize("", "s3", Some("other"), None, None));
    assert!(!authorize("", "s3", None, None, None));
    assert!(!authorize("key", "", Some(""), None, None));
}

#[test]
fn api_key_opens_the_door_and_header_hides_query() {
    assert!(authorize("key", "", None, Some("key"), None));
    assert!(authorize("key", "", None, None, Some("key")));
    assert!(authorize("key", "s3", Some("bad"), None, Some("key")));
    assert!(!authorize("key", "", None, Some("wrong"), Some("key")));
    assert!(!authorize("key", "", None, None, None));
    assert!(!authorize("key", "", None, None, Some("KEY")));
}

#[test]
fn denial_is_a_401() {
    let reply = deny();
    assert_eq!(reply.status, 401);
    assert_eq!(reply.error, "UNAUTHORIZED");
    assert_eq!(reply.message, "Invalid or missing API key");
}

#[test]
fn numbers_fall_back_to_defaults() {
    assert_eq!(read_dimension(None, 1920), 1920);
    assert_eq!(read_dimension(Some("800"), 1920), 800);
    assert_eq!(read_dimension(Some("+800"), 1920), 800);
    assert_eq!(read_dimension(Some("0800"), 1920), 800);
    assert_eq!(read_dimension(Some(""), 1920), 1920);
    assert_eq!(read_dimension(Some("+"), 1920), 1920);
    assert_eq!(read_dimension(Some("-1"), 1920), 1920);
    assert_eq!(read_dimension(Some("12px"), 1080), 1080);
    assert_eq!(read_dimension(Some(" 12"), 1080), 1080);
    assert_eq!(read_dimension(Some("4294967295"), 1080), 4294967295);
    assert_eq!(read_dimension(Some("4294967296"), 1080), 1080);
    assert_eq!(read_wait(None, 1000), 1000);
    assert_eq!(read_wait(Some("0"), 1000), 0);
    assert_eq!(read_wait(Some("4294967296"), 1000), 4294967296);
    assert_eq!(read_wait(Some("18446744073709551615"), 1000), u64::MAX);
    assert_eq!(read_wait(Some("18446744073709551616"), 1000), 1000);
    assert_eq!(read_wait(Some("soon"), 1000), 1000);
}

#[test]
fn formats_are_png_and_jpeg_only() {
    assert_eq!(read_format(None), Some(OutputFormat::Png));
    assert_eq!(read_format(Some("png")), Some(OutputFormat::Png));
    assert_eq!(read_format(Some("jpeg")), Some(OutputFormat::Jpeg));
    assert_eq!(read_format(Some("jpg")), None);
    assert_eq!(read_format(Some("PNG")), None);
    assert_eq!(read_format(Some("")), None);
}

#[test]
fn query_with_everything_is_read() {
    let w = read_query(
        "GET",
        Some("https://example.com"),
        Some("800"),
        Some("600"),
        Some("5"),
        Some("jpeg"),
    )
    .unwrap();
    assert_eq!(w.url, "https://example.com");
    assert_eq!(w.width, 800);
    assert_eq!(w.height, 600);
    assert_eq!(w.wait_ms, 5);
    assert_eq!(w.format, OutputFormat::Jpeg);
    let w = read_query("POST", Some("x"), Some("wide"), None, None, None).unwrap();
    assert_eq!(w.url, "x");
    assert_eq!(w.width, 1920);
    assert_eq!(w.height, 1080);
    assert_eq!(w.wait_ms, 1000);
    assert_eq!(w.format, OutputFormat::Png);
}

#[test]
fn query_faults_in_order() {
    let r = read_query("DELETE", None, None, None, None, Some("gif")).unwrap_err();
    assert_eq!(r.message, "Missing required 'url' parameter");
    let r = read_query("DELETE", Some("https://example.com"), None, None, None, Some("gif"))
        .unwrap_err();
    assert_eq!(r.status, 500);
    assert_eq!(r.message, "Invalid format. Only 'png' and 'jpeg' are supported");
    let r = read_query("DELETE", Some("https://example.com"), None, None, None, None).unwrap_err();
    assert_eq!(r.status, 405);
    assert_eq!(r.error, "METHOD_NOT_ALLOWED");
    assert_eq!(r.message, "Only GET and POST methods are supported");
    let r = read_query("get", Some("https://example.com"), None, None, None, None).unwrap_err();
    assert_eq!(r.status, 405);
}

#[test]
fn failures_are_reported_with_their_stage() {
    let e = ScreenshotError::ChromeNotFound("nowhere".to_string());
    let r = failure_reply(Stage::Setup, &e);
    assert_eq!(r.status, 500);
    assert_eq!(r.error, "INTERNAL_ERROR");
    assert_eq!(r.message, "Failed to initialize browser: Chrome not found: nowhere");
    let e = ScreenshotError::Screenshot("dark".to_string());
    let r = failure_reply(Stage::Capture, &e);
    assert_eq!(r.message, "Failed to take screenshot: Failed to take screenshot: dark");
}

#[test]
fn every_kind_has_its_own_message() {
    assert_eq!(ScreenshotError::BrowserLaunch("a".to_string()).message(), "Failed to launch browser: a");
    assert_eq!(ScreenshotError::Navigation("a".to_string()).message(), "Failed to navigate to URL: a");
    assert_eq!(ScreenshotError::Screenshot("a".to_string()).message(), "Failed to take screenshot: a");
    assert_eq!(ScreenshotError::InvalidUrl("a".to_string()).message(), "Invalid URL: a");
    assert_eq!(ScreenshotError::ChromeNotFound("a".to_string()).message(), "Chrome not found: a");
    assert_eq!(ScreenshotError::Timeout("a".to_string()).message(), "Timed out: a");
}

#[test]
fn image_is_base64_encoded_under_its_own_type() {
    let image = CaptureResult { data: b"hello".to_vec(), content_type: "image/png".to_string() };
    let body = success_body(&image);
    assert!(body.success);
    assert_eq!(body.data, "aGVsbG8=");
    assert_eq!(body.content_type, "image/png");
    let image = CaptureResult {
        data: vec![0xFF, 0xD8, 0xFF, 0xE0],
        content_type: "image/jpeg".to_string(),
    };
    let body = success_body(&image);
    assert_eq!(body.data, "/9j/4A==");
    assert_eq!(body.content_type, "image/jpeg");
    let image = CaptureResult { data: Vec::new(), content_type: "image/png".to_string() };
    assert_eq!(success_body(&image).data, "");
    let body = wrap_encoded("QUJD".to_string(), "image/jpeg");
    assert!(body.success);
    assert_eq!(body.data, "QUJD");
    assert_eq!(body.content_type, "image/jpeg");
}
