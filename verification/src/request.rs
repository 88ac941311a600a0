//! What a caller asks for, and the rules an acceptable request meets.

use vstd::prelude::*;
use vstd::string::StringExecFns;
use crate::error::{ErrorKind, ErrorView, ScreenshotError};
use crate::service::ScreenshotService;
use crate::text::decimal;

verus! {

/// The smallest viewport edge, in pixels.
pub const MIN_SIZE: u32 = 320;

/// The largest viewport edge, in pixels.
pub const MAX_SIZE: u32 = 3840;

/// The viewport width used when the caller names none.
pub const DEFAULT_WIDTH: u32 = 1920;

/// The viewport height used when the caller names none.
pub const DEFAULT_HEIGHT: u32 = 1080;

/// The settle time used when the caller names none, in milliseconds.
pub const DEFAULT_SETTLE_MS: u64 = 1000;

/// The encoding a caller asks for.
#[derive(Clone, Copy, Debug, PartialEq, Eq, Structural)]
pub enum OutputFormat {
    Png,
    Jpeg,
}

/// The MIME type that names an encoding.
pub open spec fn mime(format: OutputFormat) -> Seq<char> {
    match format {
        OutputFormat::Png => "image/png"@,
        OutputFormat::Jpeg => "image/jpeg"@,
    }
}

impl OutputFormat {
    /// The MIME type that names this encoding.
    pub fn content_type(&self) -> (s: &'static str)
        ensures
            s@ == mime(*self),
    {
        match self {
            OutputFormat::Png => "image/png",
            OutputFormat::Jpeg => "image/jpeg",
        }
    }
}

/// The detail of the failure for a dimension under the lower bound.
pub open spec fn too_small(name: Seq<char>, value: nat) -> Seq<char> {
    name + " must be at least "@ + decimal(MIN_SIZE as nat) + " pixels (got "@ + decimal(value)
        + ")"@
}

/// The detail of the failure for a dimension over the upper bound.
pub open spec fn too_large(name: Seq<char>, value: nat) -> Seq<char> {
    name + " must be at most "@ + decimal(MAX_SIZE as nat) + " pixels (got "@ + decimal(value)
        + ")"@
}

/// What is wrong with a dimension, if anything.
pub open spec fn dimension_fault(name: Seq<char>, value: u32) -> Option<ErrorView> {
    if value < MIN_SIZE {
        Some(ErrorView { kind: ErrorKind::InvalidInput, detail: too_small(name, value as nat) })
    } else if value > MAX_SIZE {
        Some(ErrorView { kind: ErrorKind::InvalidInput, detail: too_large(name, value as nat) })
    } else {
        None
    }
}

/// Why the address parser of the `url` crate turns a text down: the parser's own
/// words for the failure, or `None` where the text is an absolute URL.
pub uninterp spec fn url_parse_failure(input: Seq<char>) -> Option<Seq<char>>;

/// Calls `url::Url::parse` and keeps only whether it failed, and with which words.
///
/// Trusted: the result is the parser's verdict on exactly this text, `None` for
/// an accepted text and the error's display text otherwise. The parser reads
/// nothing but its argument.
#[verifier::external_body]
fn parse_failure(input: &str) -> (r: Option<String>)
    ensures
        failure_text(r) == url_parse_failure(input@),
{
    match url::Url::parse(input) {
        Ok(_) => None,
        Err(e) => Some(e.to_string()),
    }
}

/// A parser's words as characters.
pub open spec fn failure_text(failure: Option<String>) -> Option<Seq<char>> {
    match failure {
        Some(words) => Some(words@),
        None => None,
    }
}

/// What is wrong with an address, given the parser's verdict on it.
pub open spec fn url_fault(failure: Option<Seq<char>>) -> Option<ErrorView> {
    match failure {
        Some(words) => Some(ErrorView { kind: ErrorKind::InvalidInput, detail: words }),
        None => None,
    }
}

/// Turns the parser's verdict into the library's: no failure is acceptance, and
/// a failure is an invalid-input failure that carries the parser's words.
pub fn judge_url(failure: Option<String>) -> (r: Result<(), ScreenshotError>)
    ensures
        match r {
            Ok(_) => url_fault(failure_text(failure)) is None,
            Err(e) => url_fault(failure_text(failure)) == Some(e@),
        },
{
    match failure {
        None => Ok(()),
        Some(words) => Err(ScreenshotError::InvalidUrl(words)),
    }
}

/// Checks that `url` is an absolute, well-formed address.
pub fn validate_url(url: &str) -> (r: Result<(), ScreenshotError>)
    ensures
        match r {
            Ok(_) => url_fault(url_parse_failure(url@)) is None,
            Err(e) => url_fault(url_parse_failure(url@)) == Some(e@),
        },
{
    judge_url(parse_failure(url))
}

/// What is wrong with a request, if anything: the address is judged first, then
/// the width, then the height, and the first fault found is the one reported.
pub open spec fn request_fault(failure: Option<Seq<char>>, width: u32, height: u32) -> Option<
    ErrorView,
> {
    if url_fault(failure) is Some {
        url_fault(failure)
    } else if dimension_fault("width"@, width) is Some {
        dimension_fault("width"@, width)
    } else {
        dimension_fault("height"@, height)
    }
}

/// One accepted request. Its fields cannot change once it is built.
#[derive(Debug)]
pub struct RenderRequest {
    url: String,
    width: u32,
    height: u32,
    settle_ms: u64,
    format: OutputFormat,
}

/// What a [`RenderRequest`] holds, as plain values.
pub struct RequestView {
    pub url: Seq<char>,
    pub width: u32,
    pub height: u32,
    pub settle_ms: u64,
    pub format: OutputFormat,
}

impl RequestView {
    /// An accepted request has an address the parser takes and both dimensions in bounds.
    pub open spec fn wf(self) -> bool {
        request_fault(url_parse_failure(self.url), self.width, self.height) is None
    }
}

impl View for RenderRequest {
    type V = RequestView;

    closed spec fn view(&self) -> RequestView {
        RequestView {
            url: self.url@,
            width: self.width,
            height: self.height,
            settle_ms: self.settle_ms,
            format: self.format,
        }
    }
}

impl RenderRequest {
    /// Every request that exists was accepted.
    #[verifier::type_invariant]
    closed spec fn accepted(self) -> bool {
        self@.wf()
    }

    /// Builds a request, or says what is wrong with it.
    ///
    /// Succeeds exactly when the address parses and both dimensions lie in
    /// `[MIN_SIZE, MAX_SIZE]`; the request then holds the values given.
    pub fn new(url: &str, width: u32, height: u32, settle_ms: u64, format: OutputFormat) -> (r:
        Result<RenderRequest, ScreenshotError>)
        ensures
            match r {
                Ok(req) => request_fault(url_parse_failure(url@), width, height) is None && req@
                    == (RequestView { url: url@, width, height, settle_ms, format }),
                Err(e) => request_fault(url_parse_failure(url@), width, height) == Some(e@),
            },
    {
        match validate_url(url) {
            Err(e) => {
                return Err(e);
            },
            Ok(_) => {},
        }
        match ScreenshotService::validate_dimension(width, "width") {
            Err(e) => {
                return Err(e);
            },
            Ok(_) => {},
        }
        match ScreenshotService::validate_dimension(height, "height") {
            Err(e) => {
                return Err(e);
            },
            Ok(_) => {},
        }
        Ok(RenderRequest { url: String::from_str(url), width, height, settle_ms, format })
    }

    /// The target address.
    pub fn url(&self) -> (s: &str)
        ensures
            s@ == self@.url,
    {
        self.url.as_str()
    }

    /// The viewport width in pixels.
    pub fn width(&self) -> (w: u32)
        ensures
            w == self@.width,
            MIN_SIZE <= w <= MAX_SIZE,
    {
        proof {
            use_type_invariant(self);
        }
        self.width
    }

    /// The viewport height in pixels.
    pub fn height(&self) -> (h: u32)
        ensures
            h == self@.height,
            MIN_SIZE <= h <= MAX_SIZE,
    {
        proof {
            use_type_invariant(self);
        }
        self.height
    }

    /// The time to let the page settle after its load event, in milliseconds.
    pub fn settle_ms(&self) -> (t: u64)
        ensures
            t == self@.settle_ms,
    {
        self.settle_ms
    }

    /// The encoding asked for.
    pub fn format(&self) -> (f: OutputFormat)
        ensures
            f == self@.format,
    {
        self.format
    }
}

/// A dimension's failure detail begins with the dimension's name.
pub proof fn lemma_fault_names_dimension(name: Seq<char>, value: u32)
    requires
        dimension_fault(name, value) is Some,
    ensures
        dimension_fault(name, value).unwrap().kind == ErrorKind::InvalidInput,
        name.is_prefix_of(dimension_fault(name, value).unwrap().detail),
{
    let detail = dimension_fault(name, value).unwrap().detail;
    assert(detail.subrange(0, name.len() as int) =~= name);
}

/// With an address that the parser takes, the default dimensions make an
/// acceptable request, and so do the bounds themselves.
pub proof fn lemma_sound_dimensions_accepted(width: u32, height: u32)
    requires
        MIN_SIZE <= width <= MAX_SIZE,
        MIN_SIZE <= height <= MAX_SIZE,
    ensures
        request_fault(None, width, height) is None,
        request_fault(None, DEFAULT_WIDTH, DEFAULT_HEIGHT) is None,
{
}

/// An address that the parser turns down is never accepted, whatever the
/// dimensions: the failure is of the invalid-input class and carries the
/// parser's words.
pub proof fn lemma_unparsable_rejected(failure: Option<Seq<char>>, width: u32, height: u32)
    requires
        failure is Some,
    ensures
        request_fault(failure, width, height) == Some(
            ErrorView { kind: ErrorKind::InvalidInput, detail: failure.unwrap() },
        ),
{
}

/// A pair of dimensions with either one outside the bounds is never accepted,
/// whatever the address: the failure is of the invalid-input class, and where
/// the address itself is sound its detail begins with the name of the first
/// dimension at fault.
pub proof fn lemma_out_of_bounds_rejected(failure: Option<Seq<char>>, width: u32, height: u32)
    requires
        width < MIN_SIZE || width > MAX_SIZE || height < MIN_SIZE || height > MAX_SIZE,
    ensures
        request_fault(failure, width, height) is Some,
        request_fault(failure, width, height).unwrap().kind == ErrorKind::InvalidInput,
        failure is None && (width < MIN_SIZE || width > MAX_SIZE) ==> "width"@.is_prefix_of(
            request_fault(failure, width, height).unwrap().detail,
        ),
        failure is None && MIN_SIZE <= width <= MAX_SIZE ==> "height"@.is_prefix_of(
            request_fault(failure, width, height).unwrap().detail,
        ),
{
    if dimension_fault("width"@, width) is Some {
        lemma_fault_names_dimension("width"@, width);
    }
    if dimension_fault("height"@, height) is Some {
        lemma_fault_names_dimension("height"@, height);
    }
}

} // verus!
