//! A synthetic error of an HTTP exchange.

use vstd::prelude::*;
use super::status::{lemma_status_code_by_number, StatusCode};
use super::url::Url;

verus! {

/// What a [`MockError`] says, with its URL as text and its status as a
/// number.
pub struct MockErrorView {
    /// Whether the error concerns the body of the request or response.
    pub is_body: bool,
    /// Whether the error comes from building the request.
    pub is_builder: bool,
    /// Whether the error concerns the connection.
    pub is_connect: bool,
    /// Whether the error concerns the decoding of the response body.
    pub is_decode: bool,
    /// Whether the error comes from a redirect policy.
    pub is_redirect: bool,
    /// Whether the error concerns the request.
    pub is_request: bool,
    /// Whether the error was derived from the status of a response.
    pub is_status: bool,
    /// Whether the error concerns a timeout.
    pub is_timeout: bool,
    /// The status of the response that the error was derived from.
    pub status: Option<int>,
    /// The URL that the error concerns.
    pub url: Option<Seq<char>>,
}

impl MockErrorView {
    /// The error that says nothing: no flag, no status, no URL.
    pub open spec fn blank() -> MockErrorView {
        MockErrorView {
            is_body: false,
            is_builder: false,
            is_connect: false,
            is_decode: false,
            is_redirect: false,
            is_request: false,
            is_status: false,
            is_timeout: false,
            status: None,
            url: None,
        }
    }

    /// The error that a response with the status `status` from `url` turns
    /// into: the status flag, the status and the URL, and nothing else.
    pub open spec fn from_status(status: int, url: Seq<char>) -> MockErrorView {
        MockErrorView { is_status: true, status: Some(status), url: Some(url), ..Self::blank() }
    }

    /// This error about `url`, whatever URL it was about before.
    pub open spec fn with_url(self, url: Seq<char>) -> MockErrorView {
        MockErrorView { url: Some(url), ..self }
    }

    /// This error about no URL.
    pub open spec fn without_url(self) -> MockErrorView {
        MockErrorView { url: None, ..self }
    }
}

/// A synthetic failure of an HTTP exchange: a bundle of flags that say which
/// kind of failure it stands for, with the status and URL it concerns.
#[derive(Debug)]
#[non_exhaustive]
pub struct MockError {
    /// Whether the error concerns the body of the request or response.
    pub is_body: bool,
    /// Whether the error comes from building the request.
    pub is_builder: bool,
    /// Whether the error concerns the connection.
    pub is_connect: bool,
    /// Whether the error concerns the decoding of the response body.
    pub is_decode: bool,
    /// Whether the error comes from a redirect policy.
    pub is_redirect: bool,
    /// Whether the error concerns the request.
    pub is_request: bool,
    /// Whether the error was derived from the status of a response.
    pub is_status: bool,
    /// Whether the error concerns a timeout.
    pub is_timeout: bool,
    /// The status of the response that the error was derived from.
    pub status: Option<StatusCode>,
    /// The URL that the error concerns.
    pub url: Option<Url>,
}

impl View for MockError {
    type V = MockErrorView;

    open spec fn view(&self) -> MockErrorView {
        MockErrorView {
            is_body: self.is_body,
            is_builder: self.is_builder,
            is_connect: self.is_connect,
            is_decode: self.is_decode,
            is_redirect: self.is_redirect,
            is_request: self.is_request,
            is_status: self.is_status,
            is_timeout: self.is_timeout,
            status: match self.status {
                Some(status) => Some(status@),
                None => None,
            },
            url: match self.url {
                Some(url) => Some(url@),
                None => None,
            },
        }
    }
}

impl Default for MockError {
    /// The error that says nothing.
    fn default() -> (error: MockError)
        ensures
            error@ == MockErrorView::blank(),
    {
        MockError {
            is_body: false,
            is_builder: false,
            is_connect: false,
            is_decode: false,
            is_redirect: false,
            is_request: false,
            is_status: false,
            is_timeout: false,
            status: None,
            url: None,
        }
    }
}

impl Clone for MockError {
    fn clone(&self) -> (copy: MockError)
        ensures
            copy@ == self@,
    {
        MockError {
            is_body: self.is_body,
            is_builder: self.is_builder,
            is_connect: self.is_connect,
            is_decode: self.is_decode,
            is_redirect: self.is_redirect,
            is_request: self.is_request,
            is_status: self.is_status,
            is_timeout: self.is_timeout,
            status: self.status,
            url: match &self.url {
                Some(url) => Some(url.clone()),
                None => None,
            },
        }
    }
}

impl PartialEq for MockError {
    fn eq(&self, other: &MockError) -> (same: bool) {
        let same_status = match (self.status, other.status) {
            (Some(left), Some(right)) => {
                proof {
                    if left@ == right@ {
                        lemma_status_code_by_number(left, right);
                    }
                }
                left == right
            },
            (None, None) => true,
            _ => false,
        };
        self.is_body == other.is_body && self.is_builder == other.is_builder && self.is_connect
            == other.is_connect && self.is_decode == other.is_decode && self.is_redirect
            == other.is_redirect && self.is_request == other.is_request && self.is_status
            == other.is_status && self.is_timeout == other.is_timeout && same_status && self.url
            == other.url
    }
}

impl Eq for MockError {}

impl vstd::std_specs::cmp::PartialEqSpecImpl for MockError {
    open spec fn obeys_eq_spec() -> bool {
        true
    }

    open spec fn eq_spec(&self, other: &MockError) -> bool {
        self@ == other@
    }
}

impl MockError {
    /// The error that a response with the status `status` from `url` turns
    /// into.
    pub(crate) fn from_status(status: StatusCode, url: Url) -> (error: MockError)
        ensures
            error@ == MockErrorView::from_status(status@, url@),
    {
        MockError {
            is_body: false,
            is_builder: false,
            is_connect: false,
            is_decode: false,
            is_redirect: false,
            is_request: false,
            is_status: true,
            is_timeout: false,
            status: Some(status),
            url: Some(url),
        }
    }

    /// Whether the error concerns the body of the request or response.
    #[must_use]
    pub fn is_body(&self) -> (flag: bool)
        ensures
            flag == self@.is_body,
    {
        self.is_body
    }

    /// Whether the error comes from building the request.
    #[must_use]
    pub fn is_builder(&self) -> (flag: bool)
        ensures
            flag == self@.is_builder,
    {
        self.is_builder
    }

    /// Whether the error concerns the connection.
    #[must_use]
    pub fn is_connect(&self) -> (flag: bool)
        ensures
            flag == self@.is_connect,
    {
        self.is_connect
    }

    /// Whether the error concerns the decoding of the response body.
    #[must_use]
    pub fn is_decode(&self) -> (flag: bool)
        ensures
            flag == self@.is_decode,
    {
        self.is_decode
    }

    /// Whether the error comes from a redirect policy.
    #[must_use]
    pub fn is_redirect(&self) -> (flag: bool)
        ensures
            flag == self@.is_redirect,
    {
        self.is_redirect
    }

    /// Whether the error concerns the request.
    #[must_use]
    pub fn is_request(&self) -> (flag: bool)
        ensures
            flag == self@.is_request,
    {
        self.is_request
    }

    /// Whether the error was derived from the status of a response.
    #[must_use]
    pub fn is_status(&self) -> (flag: bool)
        ensures
            flag == self@.is_status,
    {
        self.is_status
    }

    /// Whether the error concerns a timeout.
    #[must_use]
    pub fn is_timeout(&self) -> (flag: bool)
        ensures
            flag == self@.is_timeout,
    {
        self.is_timeout
    }

    /// The status of the response that the error was derived from.
    #[must_use]
    pub fn status(&self) -> (status: Option<StatusCode>)
        ensures
            status == self.status,
    {
        self.status
    }

    /// The URL that the error concerns.
    #[must_use]
    pub fn url(&self) -> (url: Option<&Url>)
        ensures
            url is Some <==> self.url is Some,
            url matches Some(u) ==> *u == self.url->0,
    {
        self.url.as_ref()
    }

    /// A handle on the URL that the error concerns, to change it in place.
    /// The rest of the error stays as it is.
    pub fn url_mut(&mut self) -> (url: Option<&mut Url>)
        ensures
            url is Some <==> old(self).url is Some,
            url matches Some(u) ==> *u == old(self).url->0 && final(self).url == Some(*final(u)),
            url is None ==> final(self).url is None,
            final(self)@.without_url() == old(self)@.without_url(),
    {
        self.url.as_mut()
    }

    /// The one line that describes every mock error, whatever it says.
    #[must_use]
    pub fn to_string(&self) -> (text: String)
        ensures
            text@ == "Mocked Reqwest error"@,
    {
        "Mocked Reqwest error".to_owned()
    }

    /// This error about `url`, whatever URL it was about before.
    #[must_use]
    pub fn with_url(self, url: Url) -> (error: MockError)
        ensures
            error@ == self@.with_url(url@),
    {
        let mut error = self;
        error.url = Some(url);
        error
    }

    /// This error about no URL.
    #[must_use]
    pub fn without_url(self) -> (error: MockError)
        ensures
            error@ == self@.without_url(),
    {
        let mut error = self;
        error.url = None;
        error
    }
}

/// Attaching a URL and then stripping it leaves an error without URL,
/// whatever URL the error had before, and changes nothing else.
pub proof fn lemma_with_url_then_without_url(error: MockErrorView, url: Seq<char>)
    ensures
        error.with_url(url).without_url().url is None,
        error.with_url(url).without_url() == error.without_url(),
{
}

} // verus!
