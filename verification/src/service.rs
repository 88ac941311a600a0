//! The service's entry points: checking that an engine is installed, checking a
//! dimension, and turning a caller's wishes into an invocation.

use vstd::prelude::*;
use vstd::string::StringExecFns;
use crate::error::{ErrorKind, ErrorView, ScreenshotError};
use crate::launch::MAX_LAUNCH_ATTEMPTS;
use crate::request::{
    dimension_fault,
    request_fault,
    url_parse_failure,
    OutputFormat,
    RenderRequest,
    RequestView,
    DEFAULT_HEIGHT,
    DEFAULT_SETTLE_MS,
    DEFAULT_WIDTH,
    MAX_SIZE,
    MIN_SIZE,
};
use crate::session::{Invocation, InvocationView};
use crate::text::render_decimal;

verus! {

/// The service. It holds nothing: every invocation stands alone.
#[derive(Debug)]
pub struct ScreenshotService {}

/// The detail of the failure when the service is set up without an engine.
pub open spec fn not_installed() -> Seq<char> {
    "Chrome executable not found in any standard location"@
}

/// `value` where there is one, `fallback` where there is none.
pub open spec fn or_default<T>(value: Option<T>, fallback: T) -> T {
    match value {
        Some(v) => v,
        None => fallback,
    }
}

impl ScreenshotService {
    /// Sets the service up, given where the engine's binary was found.
    ///
    /// Succeeds exactly when a place was found.
    pub fn new(chrome_path: Option<&str>) -> (r: Result<ScreenshotService, ScreenshotError>)
        ensures
            match r {
                Ok(_) => chrome_path is Some,
                Err(e) => chrome_path is None && e@ == (ErrorView {
                    kind: ErrorKind::ChromeNotFound,
                    detail: not_installed(),
                }),
            },
    {
        match chrome_path {
            Some(_) => Ok(ScreenshotService {  }),
            None => Err(
                ScreenshotError::ChromeNotFound(
                    String::from_str("Chrome executable not found in any standard location"),
                ),
            ),
        }
    }

    /// Checks one viewport dimension against the bounds.
    ///
    /// A value inside `[MIN_SIZE, MAX_SIZE]` comes back unchanged. Any other is
    /// an invalid-input failure whose detail names the dimension, the bound it
    /// breaks and the value given; it is never clamped.
    pub fn validate_dimension(value: u32, dimension_name: &str) -> (r: Result<
        u32,
        ScreenshotError,
    >)
        ensures
            match r {
                Ok(v) => dimension_fault(dimension_name@, value) is None && v == value,
                Err(e) => dimension_fault(dimension_name@, value) == Some(e@),
            },
    {
        if value < MIN_SIZE {
            let mut detail = String::from_str(dimension_name);
            detail.append(" must be at least ");
            detail.append(render_decimal(MIN_SIZE as u64).as_str());
            detail.append(" pixels (got ");
            detail.append(render_decimal(value as u64).as_str());
            detail.append(")");
            return Err(ScreenshotError::InvalidUrl(detail));
        }
        if value > MAX_SIZE {
            let mut detail = String::from_str(dimension_name);
            detail.append(" must be at most ");
            detail.append(render_decimal(MAX_SIZE as u64).as_str());
            detail.append(" pixels (got ");
            detail.append(render_decimal(value as u64).as_str());
            detail.append(")");
            return Err(ScreenshotError::InvalidUrl(detail));
        }
        Ok(value)
    }

    /// Checks the caller's wishes and, where they are acceptable, starts the
    /// invocation that will take the image.
    ///
    /// A width, height or settle time left out takes its default. The address
    /// is judged first, then the width, then the height. On a fault nothing is
    /// started: no place is probed and no engine is launched, since no
    /// invocation exists to ask for it. The image is asked for as PNG and
    /// labelled as PNG; a caller who wants another encoding builds the
    /// request with it and begins the invocation from that.
    pub fn take_screenshot(
        &self,
        url: &str,
        width: Option<u32>,
        height: Option<u32>,
        wait_time: Option<u64>,
    ) -> (r: Result<Invocation, ScreenshotError>)
        ensures
            match r {
                Ok(inv) => {
                    &&& request_fault(
                        url_parse_failure(url@),
                        or_default(width, DEFAULT_WIDTH),
                        or_default(height, DEFAULT_HEIGHT),
                    ) is None
                    &&& inv@.wf()
                    &&& inv@ == InvocationView::initial(
                        RequestView {
                            url: url@,
                            width: or_default(width, DEFAULT_WIDTH),
                            height: or_default(height, DEFAULT_HEIGHT),
                            settle_ms: or_default(wait_time, DEFAULT_SETTLE_MS),
                            format: OutputFormat::Png,
                        },
                        MAX_LAUNCH_ATTEMPTS,
                    )
                },
                Err(e) => request_fault(
                    url_parse_failure(url@),
                    or_default(width, DEFAULT_WIDTH),
                    or_default(height, DEFAULT_HEIGHT),
                ) == Some(e@),
            },
    {
        let w = match width {
            Some(v) => v,
            None => DEFAULT_WIDTH,
        };
        let h = match height {
            Some(v) => v,
            None => DEFAULT_HEIGHT,
        };
        let wait = match wait_time {
            Some(v) => v,
            None => DEFAULT_SETTLE_MS,
        };
        match RenderRequest::new(url, w, h, wait, OutputFormat::Png) {
            Ok(request) => Ok(Invocation::begin(request)),
            Err(e) => Err(e),
        }
    }
}

} // verus!
