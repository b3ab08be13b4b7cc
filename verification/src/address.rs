//! Addresses: what a parsed URL holds, and the check that admits only the
//! two web schemes.

use vstd::prelude::*;
use crate::error::{ConvertError, ConvertErrorView, InvalidUrlReason};

verus! {

/// The parts of a parsed URL that this crate reads, as plain text.
#[derive(Clone, Debug, PartialEq, Eq)]
pub struct UrlParts {
    /// The scheme, without the colon.
    pub scheme: String,
    /// The host as the parser spells it, be it a domain name or an address;
    /// `None` where the URL has no host.
    pub host: Option<String>,
    /// The whole URL in its normalized spelling.
    pub href: String,
}

/// The mathematical content of [`UrlParts`] and of [`ValidatedUrl`].
pub struct UrlView {
    pub scheme: Seq<char>,
    pub host: Option<Seq<char>>,
    pub href: Seq<char>,
}

impl View for UrlParts {
    type V = UrlView;

    open spec fn view(&self) -> UrlView {
        UrlView {
            scheme: self.scheme@,
            host: match self.host {
                Some(h) => Some(h@),
                None => None,
            },
            href: self.href@,
        }
    }
}

impl UrlParts {
    /// A copy that holds the same text in every part.
    pub fn duplicate(&self) -> (copy: UrlParts)
        ensures
            copy@ == self@,
    {
        UrlParts {
            scheme: self.scheme.clone(),
            host: match &self.host {
                Some(h) => Some(h.clone()),
                None => None,
            },
            href: self.href.clone(),
        }
    }
}

/// What the URL parser makes of a text: the parts of the URL it reads, or
/// `None` where it reads no absolute URL.
pub uninterp spec fn parsed_url(input: Seq<char>) -> Option<UrlView>;

#[verifier::external_type_specification]
#[verifier::external_body]
pub struct ExParseError(url::ParseError);

/// `url::Url::parse`, followed by `Url::scheme`, `Url::host_str` and
/// `Url::as_str` on what it returns. The outcome depends on the text alone.
/// Nothing is claimed of the parts beyond that: they are whatever the parser
/// reads.
#[verifier::external_body]
fn parse_url(input: &str) -> (outcome: Result<UrlParts, url::ParseError>)
    ensures
        match outcome {
            Ok(parts) => parsed_url(input@) == Some(parts@),
            Err(_) => parsed_url(input@) is None,
        },
{
    match url::Url::parse(input) {
        Ok(u) => Ok(UrlParts {
            scheme: u.scheme().to_string(),
            host: u.host_str().map(str::to_string),
            href: u.as_str().to_string(),
        }),
        Err(e) => Err(e),
    }
}

/// The first of the two schemes that are let through.
pub const SCHEME_HTTP: &'static str = "http";

/// The second of the two schemes that are let through.
pub const SCHEME_HTTPS: &'static str = "https";

/// Whether a scheme is one of the two that are let through.
pub open spec fn allowed_scheme(scheme: Seq<char>) -> bool {
    scheme == SCHEME_HTTP@ || scheme == SCHEME_HTTPS@
}

/// What validation makes of a parser's outcome: the URL itself where it was
/// read and its scheme is allowed, else the reason it is turned down, with
/// the text as it was given.
pub open spec fn validation(outcome: Option<UrlView>, input: Seq<char>) -> Result<
    UrlView,
    ConvertErrorView,
> {
    match outcome {
        None => Err(
            ConvertErrorView::InvalidUrl { reason: InvalidUrlReason::ParseError, input },
        ),
        Some(url) => if allowed_scheme(url.scheme) {
            Ok(url)
        } else {
            Err(ConvertErrorView::InvalidUrl { reason: InvalidUrlReason::UnsupportedScheme, input })
        },
    }
}

/// A URL whose scheme is `http` or `https`. It is made by [`validate_url`]
/// or [`check_scheme`] and never changes afterwards.
#[derive(Debug, PartialEq, Eq)]
pub struct ValidatedUrl {
    parts: UrlParts,
}

impl Clone for ValidatedUrl {
    fn clone(&self) -> (copy: Self)
        ensures
            copy@ == self@,
    {
        proof {
            use_type_invariant(self);
        }
        ValidatedUrl { parts: self.parts.duplicate() }
    }
}

impl View for ValidatedUrl {
    type V = UrlView;

    closed spec fn view(&self) -> UrlView {
        self.parts@
    }
}

/// The view of a validation's result.
pub open spec fn validated_view(r: Result<ValidatedUrl, ConvertError>) -> Result<
    UrlView,
    ConvertErrorView,
> {
    match r {
        Ok(url) => Ok(url@),
        Err(e) => Err(e@),
    }
}

impl ValidatedUrl {
    #[verifier::type_invariant]
    spec fn scheme_is_allowed(&self) -> bool {
        allowed_scheme(self.parts.scheme@)
    }

    /// The scheme: `http` or `https`, for every value of this type.
    pub fn scheme(&self) -> (s: &str)
        ensures
            s@ == self@.scheme,
            allowed_scheme(s@),
    {
        proof {
            use_type_invariant(self);
        }
        self.parts.scheme.as_str()
    }

    /// The host, if the URL has one.
    pub fn host(&self) -> (h: Option<&str>)
        ensures
            match h {
                Some(d) => self@.host == Some(d@),
                None => self@.host is None,
            },
    {
        match &self.parts.host {
            Some(d) => Some(d.as_str()),
            None => None,
        }
    }

    /// The whole URL in its normalized spelling.
    pub fn as_str(&self) -> (s: &str)
        ensures
            s@ == self@.href,
    {
        self.parts.href.as_str()
    }
}

/// Whether a scheme is one of the two that are let through.
pub fn is_allowed_scheme(scheme: &str) -> (b: bool)
    ensures
        b == allowed_scheme(scheme@),
{
    let given = String::from_str(scheme);
    given == String::from_str(SCHEME_HTTP) || given == String::from_str(SCHEME_HTTPS)
}

/// Admits the parts of a parsed URL if their scheme is `http` or `https`;
/// `input` is the text they were read from, kept for the report of a refusal.
pub fn check_scheme(parts: UrlParts, input: &str) -> (r: Result<ValidatedUrl, ConvertError>)
    ensures
        validated_view(r) == validation(Some(parts@), input@),
{
    if is_allowed_scheme(parts.scheme.as_str()) {
        Ok(ValidatedUrl { parts })
    } else {
        Err(
            ConvertError::InvalidUrl {
                reason: InvalidUrlReason::UnsupportedScheme,
                input: String::from_str(input),
            },
        )
    }
}

/// Reads `url_str` as an absolute URL and admits it if its scheme is `http`
/// or `https`. A text that is no absolute URL is turned down as a parse
/// error, any other scheme as unsupported; nothing else fails.
pub fn validate_url(url_str: &str) -> (r: Result<ValidatedUrl, ConvertError>)
    ensures
        validated_view(r) == validation(parsed_url(url_str@), url_str@),
        parsed_url(url_str@) is None ==> r is Err && r->Err_0@ == (ConvertErrorView::InvalidUrl {
            reason: InvalidUrlReason::ParseError,
            input: url_str@,
        }),
        parsed_url(url_str@) is Some && !allowed_scheme(parsed_url(url_str@)->0.scheme) ==> r is Err
            && r->Err_0@ == (ConvertErrorView::InvalidUrl {
            reason: InvalidUrlReason::UnsupportedScheme,
            input: url_str@,
        }),
        r is Ok ==> parsed_url(url_str@) == Some(r->Ok_0@) && allowed_scheme(r->Ok_0@.scheme),
{
    match parse_url(url_str) {
        Ok(parts) => check_scheme(parts, url_str),
        Err(_) => Err(
            ConvertError::InvalidUrl {
                reason: InvalidUrlReason::ParseError,
                input: String::from_str(url_str),
            },
        ),
    }
}

} // verus!
