//! Absolute URLs, kept in their normal form.

use vstd::prelude::*;

verus! {

/// The normal form that the `url` crate's parser gives to `input`, or `None`
/// where the parser rejects it.
pub uninterp spec fn url_normal_form(input: Seq<char>) -> Option<Seq<char>>;

/// Whether the URL that the `url` crate's parser makes of `input` has a
/// host, for an `input` that the parser takes.
pub uninterp spec fn url_has_host(input: Seq<char>) -> bool;

/// The normal form of `input` where it denotes a URL that a request can go
/// to: an absolute URL with a host.
pub open spec fn request_url(input: Seq<char>) -> Option<Seq<char>> {
    if url_has_host(input) {
        url_normal_form(input)
    } else {
        None
    }
}

/// Whether `text` is the normal form of some input.
pub open spec fn is_normal_form(text: Seq<char>) -> bool {
    exists|input: Seq<char>| url_normal_form(input) == Some(text)
}

/// Calls `url::Url::parse` and hands out the two things that the library
/// reads of the URL it returns: its serialization, and what `has_host` says
/// of it. Nothing is proved of the parser: the two are known by the names
/// `url_normal_form` and `url_has_host` only.
#[verifier::external_body]
fn parts_of(input: &str) -> (parts: Option<(String, bool)>)
    ensures
        parts is Some <==> url_normal_form(input@) is Some,
        parts matches Some(read) ==> url_normal_form(input@) == Some(read.0@) && read.1
            == url_has_host(input@),
{
    match url::Url::parse(input) {
        Ok(parsed) => {
            let host = parsed.has_host();
            Some((String::from(parsed), host))
        },
        Err(_) => None,
    }
}

/// An absolute URL in normal form.
#[derive(Debug)]
pub struct Url {
    text: String,
    host: bool,
}

impl View for Url {
    type V = Seq<char>;

    closed spec fn view(&self) -> Seq<char> {
        self.text@
    }
}

impl Url {
    #[verifier::type_invariant]
    spec fn parsed(self) -> bool {
        exists|input: Seq<char>|
            url_normal_form(input) == Some(self.text@) && url_has_host(input) == self.host
    }

    /// Whether the URL has a host.
    pub closed spec fn hosted(self) -> bool {
        self.host
    }

    /// The URL that `input` denotes, or `None` where `input` is not an
    /// absolute URL.
    pub fn parse(input: &str) -> (url: Option<Url>)
        ensures
            url is Some <==> url_normal_form(input@) is Some,
            url matches Some(u) ==> url_normal_form(input@) == Some(u@) && u.hosted()
                == url_has_host(input@),
    {
        match parts_of(input) {
            Some((text, host)) => Some(Url { text, host }),
            None => None,
        }
    }

    /// The URL that `input` denotes where a request can go to it, or `None`
    /// where `input` is not an absolute URL with a host.
    pub fn for_request(input: &str) -> (url: Option<Url>)
        ensures
            url is Some <==> request_url(input@) is Some,
            url matches Some(u) ==> request_url(input@) == Some(u@) && u.hosted(),
    {
        match Url::parse(input) {
            Some(url) => if url.has_host() {
                Some(url)
            } else {
                None
            },
            None => None,
        }
    }

    /// The URL as text, in normal form.
    pub fn as_str(&self) -> (text: &str)
        ensures
            text@ == self@,
            is_normal_form(text@),
    {
        proof {
            use_type_invariant(self);
        }
        self.text.as_str()
    }

    /// Whether the URL has a host.
    pub fn has_host(&self) -> (host: bool)
        ensures
            host == self.hosted(),
    {
        self.host
    }
}

impl Clone for Url {
    fn clone(&self) -> (copy: Url)
        ensures
            copy@ == self@,
            copy.hosted() == self.hosted(),
    {
        proof {
            use_type_invariant(self);
        }
        Url { text: self.text.clone(), host: self.host }
    }
}

impl PartialEq for Url {
    fn eq(&self, other: &Url) -> (same: bool) {
        self.text == other.text
    }
}

impl Eq for Url {}

impl vstd::std_specs::cmp::PartialEqSpecImpl for Url {
    open spec fn obeys_eq_spec() -> bool {
        true
    }

    open spec fn eq_spec(&self, other: &Url) -> bool {
        self@ == other@
    }
}

} // verus!
