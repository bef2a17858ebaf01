//! Absolute URLs, parsed and normalised by the `url` crate.
use vstd::prelude::*;
use crate::text::{opt_view, str_eq};

verus! {

/// Serialization of the URL that parsing `s` as an absolute URL gives.
pub uninterp spec fn url_serialization(s: Seq<char>) -> Option<Seq<char>>;

/// Host of the URL that parsing `s` gives.
pub uninterp spec fn url_host(s: Seq<char>) -> Option<Seq<char>>;

/// Path of the URL that parsing `s` gives.
pub uninterp spec fn url_path(s: Seq<char>) -> Seq<char>;

/// Serialization of the URL that resolving `input` against the URL parsed
/// from `base` gives.
pub uninterp spec fn url_join(base: Seq<char>, input: Seq<char>) -> Option<Seq<char>>;

#[verifier::external_type_specification]
#[verifier::external_body]
pub struct ExUrlParseError(url::ParseError);

/// An absolute URL in its normalised form.
pub struct Url {
    href: String,
    host: Option<String>,
    path: String,
}

/// Model of a [`Url`].
pub struct UrlView {
    pub href: Seq<char>,
    pub host: Option<Seq<char>>,
    pub path: Seq<char>,
}

impl View for Url {
    type V = UrlView;

    closed spec fn view(&self) -> UrlView {
        UrlView { href: self.href@, host: opt_view(self.host), path: self.path@ }
    }
}

/// What parsing `s` gives, if it is an absolute URL.
pub open spec fn parsed_url(s: Seq<char>) -> Option<UrlView> {
    match url_serialization(s) {
        Some(href) => Some(UrlView { href, host: url_host(s), path: url_path(s) }),
        None => None,
    }
}

impl UrlView {
    /// The URL is in the form that parsing its own text gives back.
    pub open spec fn wf(self) -> bool {
        parsed_url(self.href) == Some(self)
    }
}

/// Relies on `url::Url::parse`, and on `Url::as_str`, `Url::host_str` and
/// `Url::path` of its result: parsing depends on the text alone, and an empty
/// text is a relative URL, which needs a base.
#[verifier::external_body]
fn parse_url_text(s: &str) -> (r: Option<Url>)
    ensures
        r is Some <==> url_serialization(s@) is Some,
        r matches Some(u) ==> u@.href == url_serialization(s@)->0 && u@.host == url_host(s@)
            && u@.path == url_path(s@),
        s@.len() == 0 ==> r is None,
{
    url::Url::parse(s).ok().map(
        |u| Url {
            href: u.as_str().to_string(),
            host: u.host_str().map(|h| h.to_string()),
            path: u.path().to_string(),
        },
    )
}

/// Relies on `url::Url::parse` of `base` and `url::Url::join`, with
/// `Url::as_str` of the result.
#[verifier::external_body]
fn join_url_text(base: &str, input: &str) -> (r: Result<String, url::ParseError>)
    ensures
        r is Ok <==> url_join(base@, input@) is Some,
        r matches Ok(t) ==> t@ == url_join(base@, input@)->0,
{
    url::Url::parse(base).and_then(|b| b.join(input)).map(|u| u.as_str().to_string())
}

/// Why a URL could not be built.
#[derive(Debug, PartialEq, Eq, Structural, Clone, Copy)]
pub enum UrlError {
    /// The text is not an absolute URL.
    Invalid,
}

impl Url {
    /// Parses `s` as an absolute URL.
    pub fn parse(s: &str) -> (r: Option<Url>)
        ensures
            opt_view(r) == parsed_url(s@),
            s@.len() == 0 ==> r is None,
    {
        parse_url_text(s)
    }

    /// Resolves `input` against this URL.
    pub fn join(&self, input: &str) -> (r: Result<Url, UrlError>)
        ensures
            match url_join(self@.href, input@) {
                Some(t) => match parsed_url(t) {
                    Some(u) => r matches Ok(v) && v@ == u,
                    None => r == Err::<Url, UrlError>(UrlError::Invalid),
                },
                None => r == Err::<Url, UrlError>(UrlError::Invalid),
            },
    {
        match join_url_text(self.href.as_str(), input) {
            Ok(t) => match Url::parse(t.as_str()) {
                Some(u) => Ok(u),
                None => Err(UrlError::Invalid),
            },
            Err(_) => Err(UrlError::Invalid),
        }
    }

    /// The normalised text of this URL.
    pub fn as_str(&self) -> (r: &str)
        ensures
            r@ == self@.href,
    {
        self.href.as_str()
    }

    /// The host, if the URL has one.
    pub fn host(&self) -> (r: Option<&String>)
        ensures
            opt_view(r) == self@.host,
    {
        self.host.as_ref()
    }

    /// The path.
    pub fn path(&self) -> (r: &str)
        ensures
            r@ == self@.path,
    {
        self.path.as_str()
    }

    /// Two URLs are the same when their normalised texts are.
    pub fn same_as(&self, other: &Url) -> (r: bool)
        ensures
            r == (self@.href == other@.href),
    {
        str_eq(self.href.as_str(), other.href.as_str())
    }

    pub fn copy_url(&self) -> (r: Url)
        ensures
            r@ == self@,
    {
        Url { href: self.href.clone(), host: crate::text::clone_opt_string(&self.host), path: self.path.clone() }
    }
}

} // verus!
