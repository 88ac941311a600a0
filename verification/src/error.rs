//! The failures an invocation can end in.

use vstd::prelude::*;
use vstd::string::StringExecFns;

verus! {

/// The class of a failure, as callers tell failures apart.
#[derive(Clone, Copy, Debug, PartialEq, Eq, Structural)]
pub enum ErrorKind {
    /// The caller's input was rejected: a malformed address or a dimension out of bounds.
    InvalidInput,
    /// No rendering-engine binary exists at any known location.
    ChromeNotFound,
    /// Every launch attempt failed.
    BrowserLaunchFailure,
    /// Opening the tab, setting the viewport, navigating or waiting for the load failed.
    NavigationFailure,
    /// The engine did not hand back an image.
    CaptureFailure,
    /// The deadline that the program set for the page passed.
    Timeout,
}

/// A failure with its human-readable detail.
#[derive(Debug, PartialEq, Eq)]
pub enum ScreenshotError {
    BrowserLaunch(String),
    Navigation(String),
    Screenshot(String),
    InvalidUrl(String),
    ChromeNotFound(String),
    Timeout(String),
}

/// What a [`ScreenshotError`] is, as plain values.
pub struct ErrorView {
    pub kind: ErrorKind,
    pub detail: Seq<char>,
}

/// The words that open the message of each class.
pub open spec fn lead(kind: ErrorKind) -> Seq<char> {
    match kind {
        ErrorKind::BrowserLaunchFailure => "Failed to launch browser: "@,
        ErrorKind::NavigationFailure => "Failed to navigate to URL: "@,
        ErrorKind::CaptureFailure => "Failed to take screenshot: "@,
        ErrorKind::InvalidInput => "Invalid URL: "@,
        ErrorKind::ChromeNotFound => "Chrome not found: "@,
        ErrorKind::Timeout => "Timed out: "@,
    }
}

impl View for ScreenshotError {
    type V = ErrorView;

    open spec fn view(&self) -> ErrorView {
        match self {
            ScreenshotError::BrowserLaunch(d) => ErrorView {
                kind: ErrorKind::BrowserLaunchFailure,
                detail: d@,
            },
            ScreenshotError::Navigation(d) => ErrorView {
                kind: ErrorKind::NavigationFailure,
                detail: d@,
            },
            ScreenshotError::Screenshot(d) => ErrorView {
                kind: ErrorKind::CaptureFailure,
                detail: d@,
            },
            ScreenshotError::InvalidUrl(d) => ErrorView { kind: ErrorKind::InvalidInput, detail: d@ },
            ScreenshotError::ChromeNotFound(d) => ErrorView {
                kind: ErrorKind::ChromeNotFound,
                detail: d@,
            },
            ScreenshotError::Timeout(d) => ErrorView { kind: ErrorKind::Timeout, detail: d@ },
        }
    }
}

impl ErrorView {
    /// The full message: the class's opening words, then the detail.
    pub open spec fn message(self) -> Seq<char> {
        lead(self.kind) + self.detail
    }
}

impl ScreenshotError {
    /// The class of this failure.
    pub fn kind(&self) -> (k: ErrorKind)
        ensures
            k == self@.kind,
    {
        match self {
            ScreenshotError::BrowserLaunch(_) => ErrorKind::BrowserLaunchFailure,
            ScreenshotError::Navigation(_) => ErrorKind::NavigationFailure,
            ScreenshotError::Screenshot(_) => ErrorKind::CaptureFailure,
            ScreenshotError::InvalidUrl(_) => ErrorKind::InvalidInput,
            ScreenshotError::ChromeNotFound(_) => ErrorKind::ChromeNotFound,
            ScreenshotError::Timeout(_) => ErrorKind::Timeout,
        }
    }

    /// The detail, without the opening words.
    pub fn detail(&self) -> (d: &str)
        ensures
            d@ == self@.detail,
    {
        match self {
            ScreenshotError::BrowserLaunch(d) => d.as_str(),
            ScreenshotError::Navigation(d) => d.as_str(),
            ScreenshotError::Screenshot(d) => d.as_str(),
            ScreenshotError::InvalidUrl(d) => d.as_str(),
            ScreenshotError::ChromeNotFound(d) => d.as_str(),
            ScreenshotError::Timeout(d) => d.as_str(),
        }
    }

    /// The message shown to people: the opening words of the class, then the detail.
    pub fn message(&self) -> (m: String)
        ensures
            m@ == self@.message(),
    {
        let head = match self {
            ScreenshotError::BrowserLaunch(_) => "Failed to launch browser: ",
            ScreenshotError::Navigation(_) => "Failed to navigate to URL: ",
            ScreenshotError::Screenshot(_) => "Failed to take screenshot: ",
            ScreenshotError::InvalidUrl(_) => "Invalid URL: ",
            ScreenshotError::ChromeNotFound(_) => "Chrome not found: ",
            ScreenshotError::Timeout(_) => "Timed out: ",
        };
        let mut m = String::from_str(head);
        m.append(self.detail());
        m
    }
}

/// The classes' opening words differ pairwise in their first eleven characters
/// at the latest, so a message tells its class.
pub proof fn lemma_messages_tell_the_kind(a: ErrorView, b: ErrorView)
    requires
        a.message() == b.message(),
    ensures
        a.kind == b.kind,
        a.detail == b.detail,
{
    reveal_strlit("Failed to launch browser: ");
    reveal_strlit("Failed to navigate to URL: ");
    reveal_strlit("Failed to take screenshot: ");
    reveal_strlit("Invalid URL: ");
    reveal_strlit("Chrome not found: ");
    reveal_strlit("Timed out: ");
    let m = a.message();
    assert(m[0] == lead(a.kind)[0] && m[0] == lead(b.kind)[0]);
    assert(m[10] == lead(a.kind)[10] && m[10] == lead(b.kind)[10]);
    assert(a.kind == b.kind);
    let n = lead(a.kind).len() as int;
    assert(a.detail =~= a.message().subrange(n, a.message().len() as int));
    assert(b.detail =~= b.message().subrange(n, b.message().len() as int));
}

} // verus!
