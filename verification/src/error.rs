//! The ways a conversion can fail, and the sentence each one is reported with.

use vstd::prelude::*;

verus! {

/// Why an address was turned down.
#[derive(Clone, Copy, Debug, PartialEq, Eq, Structural)]
pub enum InvalidUrlReason {
    /// The text is not a well-formed absolute URL.
    ParseError,
    /// The URL is well formed but its scheme is neither `http` nor `https`.
    UnsupportedScheme,
}

/// The four families of failure.
#[derive(Clone, Copy, Debug, PartialEq, Eq, Structural)]
pub enum ErrorKind {
    InvalidUrl,
    Io,
    Window,
    Build,
}

/// A failed conversion.
#[derive(Clone, Debug, PartialEq, Eq)]
pub enum ConvertError {
    /// The address was malformed or used a scheme that is not allowed;
    /// `input` is the text as the caller gave it.
    InvalidUrl { reason: InvalidUrlReason, input: String },
    /// The file system, or starting the toolchain, failed; the payload is the
    /// reason the operating system gave.
    Io(String),
    /// The window system refused to create or show the preview window.
    Window(String),
    /// The toolchain ran and exited with a failure; the payload is what it
    /// wrote to its standard error stream.
    Build(String),
}

/// The mathematical content of a [`ConvertError`].
pub enum ConvertErrorView {
    InvalidUrl { reason: InvalidUrlReason, input: Seq<char> },
    Io(Seq<char>),
    Window(Seq<char>),
    Build(Seq<char>),
}

impl View for ConvertError {
    type V = ConvertErrorView;

    open spec fn view(&self) -> ConvertErrorView {
        match self {
            ConvertError::InvalidUrl { reason, input } => ConvertErrorView::InvalidUrl {
                reason: *reason,
                input: input@,
            },
            ConvertError::Io(reason) => ConvertErrorView::Io(reason@),
            ConvertError::Window(reason) => ConvertErrorView::Window(reason@),
            ConvertError::Build(stderr) => ConvertErrorView::Build(stderr@),
        }
    }
}

/// What precedes the rejected text in the report of a parse failure.
pub const PARSE_FAILURE_PREFIX: &'static str = "Failed to parse URL: ";

/// The whole report of a scheme that is not allowed.
pub const UNSUPPORTED_SCHEME_MESSAGE: &'static str = "URL must use http or https protocol";

/// The family a failure belongs to.
pub open spec fn kind_of(e: ConvertErrorView) -> ErrorKind {
    match e {
        ConvertErrorView::InvalidUrl { .. } => ErrorKind::InvalidUrl,
        ConvertErrorView::Io(_) => ErrorKind::Io,
        ConvertErrorView::Window(_) => ErrorKind::Window,
        ConvertErrorView::Build(_) => ErrorKind::Build,
    }
}

/// The sentence a failure is reported with.
pub open spec fn message_text(e: ConvertErrorView) -> Seq<char> {
    match e {
        ConvertErrorView::InvalidUrl { reason, input } => match reason {
            InvalidUrlReason::ParseError => PARSE_FAILURE_PREFIX@ + input,
            InvalidUrlReason::UnsupportedScheme => UNSUPPORTED_SCHEME_MESSAGE@,
        },
        ConvertErrorView::Io(reason) => reason,
        ConvertErrorView::Window(reason) => reason,
        ConvertErrorView::Build(stderr) => stderr,
    }
}

impl ConvertError {
    /// The family this failure belongs to.
    pub fn kind(&self) -> (k: ErrorKind)
        ensures
            k == kind_of(self@),
    {
        match self {
            ConvertError::InvalidUrl { .. } => ErrorKind::InvalidUrl,
            ConvertError::Io(_) => ErrorKind::Io,
            ConvertError::Window(_) => ErrorKind::Window,
            ConvertError::Build(_) => ErrorKind::Build,
        }
    }

    /// The plain sentence handed to the caller: for a failed build the
    /// toolchain's own words and nothing else, for a failure of the system
    /// the reason it gave.
    pub fn message(&self) -> (text: String)
        ensures
            text@ == message_text(self@),
    {
        match self {
            ConvertError::InvalidUrl { reason, input } => match reason {
                InvalidUrlReason::ParseError => {
                    let mut text = String::from_str(PARSE_FAILURE_PREFIX);
                    text.append(input.as_str());
                    text
                },
                InvalidUrlReason::UnsupportedScheme => String::from_str(UNSUPPORTED_SCHEME_MESSAGE),
            },
            ConvertError::Io(reason) => reason.clone(),
            ConvertError::Window(reason) => reason.clone(),
            ConvertError::Build(stderr) => stderr.clone(),
        }
    }
}

} // verus!
