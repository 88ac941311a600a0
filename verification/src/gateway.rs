//! The decisions of the HTTP front: who may ask, what a query asks for, and
//! what goes back. Reading the request and writing the response are left to
//! the program.

use vstd::prelude::*;
use vstd::string::StringExecFns;
use crate::error::ScreenshotError;
use crate::request::{
    OutputFormat,
    DEFAULT_HEIGHT,
    DEFAULT_SETTLE_MS,
    DEFAULT_WIDTH,
};
use crate::session::CaptureResult;
use crate::text::{parse_unsigned, same_text, unsigned_value};

verus! {

/// The text that `value` holds, if any.
pub open spec fn text_of(value: Option<&str>) -> Option<Seq<char>> {
    match value {
        Some(s) => Some(s@),
        None => None,
    }
}

/// Who may ask. With neither a key nor a proxy secret configured, everyone.
/// Otherwise whoever offers the configured proxy secret, or the configured
/// key; a key in the header hides one in the query, right or wrong.
pub open spec fn may_enter(
    expected_key: Seq<char>,
    proxy_secret: Seq<char>,
    offered_secret: Option<Seq<char>>,
    header_key: Option<Seq<char>>,
    query_key: Option<Seq<char>>,
) -> bool {
    ||| (expected_key.len() == 0 && proxy_secret.len() == 0)
    ||| (proxy_secret.len() > 0 && offered_secret == Some(proxy_secret))
    ||| (expected_key.len() > 0 && (if header_key is Some {
        header_key
    } else {
        query_key
    }) == Some(expected_key))
}

fn offers(offered: Option<&str>, expected: &str) -> (r: bool)
    ensures
        r == (text_of(offered) == Some(expected@)),
{
    match offered {
        Some(value) => same_text(value, expected),
        None => false,
    }
}

/// Decides whether a request may enter.
pub fn authorize(
    expected_key: &str,
    proxy_secret: &str,
    offered_secret: Option<&str>,
    header_key: Option<&str>,
    query_key: Option<&str>,
) -> (r: bool)
    ensures
        r == may_enter(
            expected_key@,
            proxy_secret@,
            text_of(offered_secret),
            text_of(header_key),
            text_of(query_key),
        ),
{
    let no_key = expected_key.unicode_len() == 0;
    let no_secret = proxy_secret.unicode_len() == 0;
    if no_key && no_secret {
        return true;
    }
    if !no_secret && offers(offered_secret, proxy_secret) {
        return true;
    }
    if !no_key {
        let provided = match header_key {
            Some(k) => Some(k),
            None => query_key,
        };
        return offers(provided, expected_key);
    }
    false
}

/// The number a query parameter gives: its value where it is there and is a
/// number that fits, and the default in every other case.
pub open spec fn number_or(text: Option<Seq<char>>, max: nat, fallback: nat) -> nat {
    match text {
        Some(t) => match unsigned_value(t, max) {
            Some(v) => v,
            None => fallback,
        },
        None => fallback,
    }
}

/// Reads a dimension from a query parameter.
pub fn read_dimension(text: Option<&str>, fallback: u32) -> (r: u32)
    ensures
        r as nat == number_or(text_of(text), u32::MAX as nat, fallback as nat),
{
    match text {
        Some(t) => match parse_unsigned(t, u32::MAX as u64) {
            Some(v) => v as u32,
            None => fallback,
        },
        None => fallback,
    }
}

/// Reads the settle time from a query parameter.
pub fn read_wait(text: Option<&str>, fallback: u64) -> (r: u64)
    ensures
        r as nat == number_or(text_of(text), u64::MAX as nat, fallback as nat),
{
    match text {
        Some(t) => match parse_unsigned(t, u64::MAX) {
            Some(v) => v,
            None => fallback,
        },
        None => fallback,
    }
}

/// The encoding a query parameter names: PNG where it is left out, and none
/// where it names anything but `png` or `jpeg`.
pub open spec fn format_named(text: Option<Seq<char>>) -> Option<OutputFormat> {
    match text {
        None => Some(OutputFormat::Png),
        Some(t) => if t == "png"@ {
            Some(OutputFormat::Png)
        } else if t == "jpeg"@ {
            Some(OutputFormat::Jpeg)
        } else {
            None
        },
    }
}

/// Reads the encoding from a query parameter.
pub fn read_format(text: Option<&str>) -> (r: Option<OutputFormat>)
    ensures
        r == format_named(text_of(text)),
{
    match text {
        None => Some(OutputFormat::Png),
        Some(t) => if same_text(t, "png") {
            Some(OutputFormat::Png)
        } else if same_text(t, "jpeg") {
            Some(OutputFormat::Jpeg)
        } else {
            None
        },
    }
}

/// A response that reports a failure.
#[derive(Debug, PartialEq, Eq)]
pub struct Reply {
    pub status: u16,
    pub error: &'static str,
    pub message: String,
}

/// A [`Reply`] as plain values.
pub struct ReplyView {
    pub status: u16,
    pub error: Seq<char>,
    pub message: Seq<char>,
}

impl View for Reply {
    type V = ReplyView;

    open spec fn view(&self) -> ReplyView {
        ReplyView { status: self.status, error: self.error@, message: self.message@ }
    }
}

/// What a query asks for, with every default filled in.
#[derive(Debug, PartialEq, Eq)]
pub struct Wishes {
    pub url: String,
    pub width: u32,
    pub height: u32,
    pub wait_ms: u64,
    pub format: OutputFormat,
}

/// [`Wishes`] as plain values.
pub struct WishesView {
    pub url: Seq<char>,
    pub width: u32,
    pub height: u32,
    pub wait_ms: u64,
    pub format: OutputFormat,
}

impl View for Wishes {
    type V = WishesView;

    open spec fn view(&self) -> WishesView {
        WishesView {
            url: self.url@,
            width: self.width,
            height: self.height,
            wait_ms: self.wait_ms,
            format: self.format,
        }
    }
}

/// The reply to a request that may not enter.
pub open spec fn unauthorized() -> ReplyView {
    ReplyView { status: 401, error: "UNAUTHORIZED"@, message: "Invalid or missing API key"@ }
}

/// The reply to a request that failed for the reason `message`.
pub open spec fn internal_error(message: Seq<char>) -> ReplyView {
    ReplyView { status: 500, error: "INTERNAL_ERROR"@, message }
}

/// What is wrong with a query, if anything. A missing address is found before
/// an unknown encoding, and that before a method other than GET and POST.
pub open spec fn query_fault(method: Seq<char>, url: Option<Seq<char>>, format: Option<Seq<char>>)
    -> Option<ReplyView> {
    if url is None {
        Some(internal_error("Missing required 'url' parameter"@))
    } else if format_named(format) is None {
        Some(internal_error("Invalid format. Only 'png' and 'jpeg' are supported"@))
    } else if method != "GET"@ && method != "POST"@ {
        Some(
            ReplyView {
                status: 405,
                error: "METHOD_NOT_ALLOWED"@,
                message: "Only GET and POST methods are supported"@,
            },
        )
    } else {
        None
    }
}

/// Builds the reply to a request that may not enter.
pub fn deny() -> (r: Reply)
    ensures
        r@ == unauthorized(),
{
    Reply {
        status: 401,
        error: "UNAUTHORIZED",
        message: String::from_str("Invalid or missing API key"),
    }
}

/// Reads a query: either what it asks for, or the reply that turns it down.
pub fn read_query(
    method: &str,
    url: Option<&str>,
    width: Option<&str>,
    height: Option<&str>,
    wait: Option<&str>,
    format: Option<&str>,
) -> (r: Result<Wishes, Reply>)
    ensures
        match r {
            Ok(w) => query_fault(method@, text_of(url), text_of(format)) is None && w@ == (
            WishesView {
                url: text_of(url).unwrap(),
                width: number_or(text_of(width), u32::MAX as nat, DEFAULT_WIDTH as nat) as u32,
                height: number_or(text_of(height), u32::MAX as nat, DEFAULT_HEIGHT as nat) as u32,
                wait_ms: number_or(text_of(wait), u64::MAX as nat, DEFAULT_SETTLE_MS as nat) as u64,
                format: format_named(text_of(format)).unwrap(),
            }),
            Err(reply) => query_fault(method@, text_of(url), text_of(format)) == Some(reply@),
        },
{
    let address = match url {
        Some(u) => u,
        None => {
            return Err(
                Reply {
                    status: 500,
                    error: "INTERNAL_ERROR",
                    message: String::from_str("Missing required 'url' parameter"),
                },
            );
        },
    };
    let w = read_dimension(width, DEFAULT_WIDTH);
    let h = read_dimension(height, DEFAULT_HEIGHT);
    let wait_ms = read_wait(wait, DEFAULT_SETTLE_MS);
    let encoding = match read_format(format) {
        Some(f) => f,
        None => {
            return Err(
                Reply {
                    status: 500,
                    error: "INTERNAL_ERROR",
                    message: String::from_str(
                        "Invalid format. Only 'png' and 'jpeg' are supported",
                    ),
                },
            );
        },
    };
    if !same_text(method, "GET") && !same_text(method, "POST") {
        return Err(
            Reply {
                status: 405,
                error: "METHOD_NOT_ALLOWED",
                message: String::from_str("Only GET and POST methods are supported"),
            },
        );
    }
    Ok(Wishes { url: String::from_str(address), width: w, height: h, wait_ms, format: encoding })
}

/// The stage at which a request failed.
#[derive(Clone, Copy, Debug, PartialEq, Eq, Structural)]
pub enum Stage {
    /// While the service was set up.
    Setup,
    /// While the image was taken.
    Capture,
}

/// The words that say at which stage a request failed.
pub open spec fn stage_words(stage: Stage) -> Seq<char> {
    match stage {
        Stage::Setup => "Failed to initialize browser: "@,
        Stage::Capture => "Failed to take screenshot: "@,
    }
}

/// Builds the reply to a request that failed: the stage, then the failure's
/// own message.
pub fn failure_reply(stage: Stage, failure: &ScreenshotError) -> (r: Reply)
    ensures
        r@ == internal_error(stage_words(stage) + failure@.message()),
{
    let mut message = match stage {
        Stage::Setup => String::from_str("Failed to initialize browser: "),
        Stage::Capture => String::from_str("Failed to take screenshot: "),
    };
    message.append(failure.message().as_str());
    Reply { status: 500, error: "INTERNAL_ERROR", message }
}

/// The standard base64 text, with padding, of a run of bytes.
pub uninterp spec fn base64_standard(bytes: Seq<u8>) -> Seq<char>;

/// Calls `Engine::encode` on base64's `STANDARD` engine.
///
/// Trusted: the text depends on the bytes alone. The encoder gives up only on
/// inputs longer than a vector can be.
#[verifier::external_body]
fn encode_standard(bytes: &Vec<u8>) -> (text: String)
    ensures
        text@ == base64_standard(bytes@),
{
    base64::Engine::encode(&base64::engine::general_purpose::STANDARD, bytes)
}

/// The body of a response that carries an image.
#[derive(Debug, PartialEq, Eq)]
pub struct SuccessBody {
    pub success: bool,
    /// The image, base64-encoded.
    pub data: String,
    pub content_type: String,
}

/// Wraps an encoded image for the response, under the content type given.
pub fn wrap_encoded(encoded: String, content_type: &str) -> (body: SuccessBody)
    ensures
        body.success,
        body.data@ == encoded@,
        body.content_type@ == content_type@,
{
    SuccessBody { success: true, data: encoded, content_type: String::from_str(content_type) }
}

/// Builds the body of a response that carries `image`. The body is labelled
/// with the image's own content type, the one of the encoding it was taken
/// in, not with anything the query said.
pub fn success_body(image: &CaptureResult) -> (body: SuccessBody)
    ensures
        body.success,
        body.data@ == base64_standard(image@.data),
        body.content_type@ == image@.content_type,
{
    wrap_encoded(encode_standard(&image.data), image.content_type.as_str())
}

} // verus!
