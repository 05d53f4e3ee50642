//! A response that was made up in advance and reads like a real one.

use vstd::prelude::*;
use vstd::utf8::{decode_utf8, valid_utf8};
use bytes::Bytes;
use http::{HeaderMap, HeaderValue};
use std::sync::Arc;
use super::body::{buffer_of, buffer_to_vec, bytes_content, same_buffer, same_bytes, share, text_of};
use super::error::{MockError, MockErrorView};
use super::headers::{
    add_header, canonical_name, check_header_name, check_header_value, decimal, decimal_text,
    equal_headers, header_values, is_header_name, is_header_value, lemma_decimal_is_digits,
    lemma_one_more_name, lemma_printable_is_header_value, no_headers, same_headers, set_header,
    with_added_header, with_header, HeaderModel,
};
use super::status::{
    in_client_error_class, in_server_error_class, lemma_status_code_by_number, StatusCode,
};
use super::url::{request_url, Url};

verus! {

/// What a [`MockResponse`] says: its URL as text, its status as a number,
/// its headers by name, and the bytes of its body or the error in their
/// place.
pub struct MockResponseView {
    /// The URL that the response came from.
    pub url: Seq<char>,
    /// The status of the response.
    pub status: int,
    /// The headers of the response.
    pub headers: HeaderModel,
    /// The bytes of the body, or the error that reading it gives.
    pub body: Result<Seq<u8>, MockErrorView>,
}

impl MockResponseView {
    /// Whether the status reports a mistake of the client or a failure of
    /// the server.
    pub open spec fn is_error(self) -> bool {
        in_client_error_class(self.status) || in_server_error_class(self.status)
    }

    /// What asking the response for its status error gives: the error made
    /// of its status and URL where the status is an error, the response
    /// itself where it is not.
    pub open spec fn checked(self) -> Result<MockResponseView, MockErrorView> {
        if self.is_error() {
            Err(MockErrorView::from_status(self.status, self.url))
        } else {
            Ok(self)
        }
    }

    /// What reading the body as text gives, where the body is text at all.
    pub open spec fn text(self) -> Result<Seq<char>, MockErrorView> {
        match self.body {
            Ok(data) => Ok(decode_utf8(data)),
            Err(error) => Err(error),
        }
    }

    /// Whether the body can be read as text: it is an error, or its bytes
    /// are valid UTF-8.
    pub open spec fn has_text(self) -> bool {
        self.body matches Ok(data) ==> valid_utf8(data)
    }
}

/// What a stored body says.
pub open spec fn body_view(body: Result<Arc<Bytes>, MockError>) -> Result<Seq<u8>, MockErrorView> {
    match body {
        Ok(buffer) => Ok(bytes_content(*buffer)),
        Err(error) => Err(error@),
    }
}

/// What a body says that was read from a response.
pub open spec fn read_view(body: Result<Bytes, MockError>) -> Result<Seq<u8>, MockErrorView> {
    match body {
        Ok(buffer) => Ok(bytes_content(buffer)),
        Err(error) => Err(error@),
    }
}

/// What a text says that was read from a response.
pub open spec fn text_view(text: Result<String, MockError>) -> Result<Seq<char>, MockErrorView> {
    match text {
        Ok(text) => Ok(text@),
        Err(error) => Err(error@),
    }
}

/// Whether `decoded` is what reading the body of `response` through
/// `decode` gives: what the decoder makes of the bytes of the body, or the
/// error that stands in their place.
pub open spec fn decoded_by<T, F: FnOnce(Vec<u8>) -> T>(
    response: MockResponseView,
    decode: F,
    decoded: Result<T, MockError>,
) -> bool {
    match decoded {
        Ok(value) => exists|bytes: Vec<u8>|
            response.body == Ok::<_, MockErrorView>(bytes@) && call_ensures(
                decode,
                (bytes,),
                value,
            ),
        Err(error) => response.body == Err::<Seq<u8>, _>(error@),
    }
}

/// Whether two decoders agree, and each with itself: on the same bytes they
/// return the same value, every time.
pub open spec fn decode_alike<T, F: FnOnce(Vec<u8>) -> T, G: FnOnce(Vec<u8>) -> T>(
    first: F,
    second: G,
) -> bool {
    forall|one: Vec<u8>, other: Vec<u8>, left: T, right: T|
        one@ == other@ && #[trigger] call_ensures(first, (one,), left) && #[trigger] call_ensures(
            second,
            (other,),
            right,
        ) ==> left == right
}

/// Whether two results of reading a body through a decoder are the same:
/// the same value, or errors that say the same.
pub open spec fn same_decoded<T>(left: Result<T, MockError>, right: Result<T, MockError>) -> bool {
    match (left, right) {
        (Ok(one), Ok(other)) => one == other,
        (Err(one), Err(other)) => one@ == other@,
        _ => false,
    }
}

/// Reading the body of a response through a decoder gives the same result
/// every time, for decoders that return the same value on the same bytes.
/// Of a decoder that does not, nothing of the kind holds.
pub proof fn lemma_decoded_alike<T, F: FnOnce(Vec<u8>) -> T, G: FnOnce(Vec<u8>) -> T>(
    response: MockResponseView,
    first: F,
    second: G,
    once: Result<T, MockError>,
    again: Result<T, MockError>,
)
    requires
        decode_alike(first, second),
        decoded_by(response, first, once),
        decoded_by(response, second, again),
    ensures
        same_decoded(once, again),
{
}

/// Reading the body of a response as bytes or as text gives the same result
/// every time.
pub proof fn lemma_read_alike(
    response: MockResponseView,
    once: Result<Bytes, MockError>,
    again: Result<Bytes, MockError>,
    text_once: Result<String, MockError>,
    text_again: Result<String, MockError>,
)
    requires
        read_view(once) == response.body,
        read_view(again) == response.body,
        text_view(text_once) == response.text(),
        text_view(text_again) == response.text(),
    ensures
        read_view(once) == read_view(again),
        text_view(text_once) == text_view(text_again),
{
}

/// The result of an HTTP exchange, fixed when it is made: nothing is read
/// from anywhere when it is asked for its parts.
#[derive(Debug)]
#[non_exhaustive]
pub struct MockResponse {
    /// The URL that the response came from.
    pub url: Url,
    /// The status of the response.
    pub status: StatusCode,
    /// The headers of the response.
    pub headers: HeaderMap<HeaderValue>,
    /// The body of the response, or the error that reading it gives.
    pub body: Result<Arc<Bytes>, MockError>,
}

impl View for MockResponse {
    type V = MockResponseView;

    open spec fn view(&self) -> MockResponseView {
        MockResponseView {
            url: self.url@,
            status: self.status@,
            headers: header_values(self.headers),
            body: body_view(self.body),
        }
    }
}

impl Clone for MockResponse {
    fn clone(&self) -> (copy: MockResponse)
        ensures
            copy@ == self@,
    {
        MockResponse {
            url: self.url.clone(),
            status: self.status,
            headers: same_headers(&self.headers),
            body: match &self.body {
                Ok(buffer) => Ok(share(buffer)),
                Err(error) => Err(error.clone()),
            },
        }
    }
}

impl MockResponse {
    /// The body of the response: a buffer of its bytes, or the error in
    /// their place.
    pub fn bytes(&self) -> (body: Result<Bytes, MockError>)
        ensures
            read_view(body) == self@.body,
    {
        match &self.body {
            Ok(buffer) => Ok(same_buffer(&**buffer)),
            Err(error) => Err(error.clone()),
        }
    }

    /// What a stream of the body yields: the whole body as its one item.
    #[must_use]
    pub fn bytes_stream(&self) -> (items: Vec<Result<Bytes, MockError>>)
        ensures
            items@.len() == 1,
            read_view(items@[0]) == self@.body,
    {
        let mut items: Vec<Result<Bytes, MockError>> = Vec::new();
        items.push(self.bytes());
        items
    }

    /// The error made of the status and URL of the response where its
    /// status is a client or server error; the response itself where it is
    /// not.
    pub fn error_for_status(self) -> (checked: Result<MockResponse, MockError>)
        ensures
            checked matches Ok(response) ==> response == self,
            checked matches Err(error) ==> self@.checked() == Err::<MockResponseView, _>(error@),
            checked is Err <==> self@.is_error(),
    {
        let status = self.status();
        if status.is_client_error() || status.is_server_error() {
            Err(MockError::from_status(status, self.url))
        } else {
            Ok(self)
        }
    }

    /// As `error_for_status`, for a response that is only borrowed.
    pub fn error_for_status_ref(&self) -> (checked: Result<&MockResponse, MockError>)
        ensures
            checked matches Ok(response) ==> *response == *self,
            checked matches Err(error) ==> self@.checked() == Err::<MockResponseView, _>(error@),
            checked is Err <==> self@.is_error(),
    {
        let status = self.status();
        if status.is_client_error() || status.is_server_error() {
            Err(MockError::from_status(status, self.url.clone()))
        } else {
            Ok(self)
        }
    }

    /// The headers of the response.
    #[must_use]
    pub fn headers(&self) -> (headers: &HeaderMap<HeaderValue>)
        ensures
            *headers == self.headers,
    {
        &self.headers
    }

    /// The body of the response as `decode` reads it, or the error in its
    /// place. The decoder is the caller's: for a JSON body, the JSON decoder
    /// of the type that the caller expects. It is run on the bytes of the
    /// body, and not at all where the body is an error.
    pub fn json<T, F: FnOnce(Vec<u8>) -> T>(&self, decode: F) -> (decoded: Result<T, MockError>)
        requires
            self@.body matches Ok(data) ==> forall|bytes: Vec<u8>|
                bytes@ == data ==> call_requires(decode, (bytes,)),
        ensures
            decoded_by(self@, decode, decoded),
    {
        match self.bytes() {
            Ok(buffer) => {
                let bytes = buffer_to_vec(&buffer);
                Ok(decode(bytes))
            },
            Err(error) => Err(error),
        }
    }

    /// The status of the response.
    #[must_use]
    pub fn status(&self) -> (status: StatusCode)
        ensures
            status == self.status,
    {
        self.status
    }

    /// Whether the body can be read as text.
    pub fn has_text(&self) -> (readable: bool)
        ensures
            readable == self@.has_text(),
    {
        match &self.body {
            Ok(buffer) => text_of(buffer_to_vec(&**buffer)).is_some(),
            Err(_) => true,
        }
    }

    /// The body of the response as text, or the error in its place.
    pub fn text(&self) -> (text: Result<String, MockError>)
        requires
            self@.has_text(),
        ensures
            text_view(text) == self@.text(),
    {
        match self.bytes() {
            Ok(buffer) => Ok(text_of(buffer_to_vec(&buffer)).unwrap()),
            Err(error) => Err(error),
        }
    }

    /// The body of the response as text or the error in its place, or
    /// `None` where the body is bytes that are no text.
    pub fn try_text(&self) -> (text: Option<Result<String, MockError>>)
        ensures
            text is Some <==> self@.has_text(),
            text matches Some(read) ==> text_view(read) == self@.text(),
    {
        if self.has_text() {
            Some(self.text())
        } else {
            None
        }
    }

    /// The URL that the response came from.
    #[must_use]
    pub fn url(&self) -> (url: &Url)
        ensures
            *url == self.url,
    {
        &self.url
    }
}

impl PartialEq for MockResponse {
    fn eq(&self, other: &MockResponse) -> (same: bool) {
        let same_body = match (&self.body, &other.body) {
            (Ok(left), Ok(right)) => same_bytes(&**left, &**right),
            (Err(left), Err(right)) => left == right,
            _ => false,
        };
        proof {
            if self.status@ == other.status@ {
                lemma_status_code_by_number(self.status, other.status);
            }
        }
        self.url == other.url && self.status == other.status && equal_headers(
            &self.headers,
            &other.headers,
        ) && same_body
    }
}

impl Eq for MockResponse {}

impl vstd::std_specs::cmp::PartialEqSpecImpl for MockResponse {
    open spec fn obeys_eq_spec() -> bool {
        true
    }

    open spec fn eq_spec(&self, other: &MockResponse) -> bool {
        self@ == other@
    }
}

/// The most extra headers that a response can be made with: as many names
/// as a header map is known to take, less the two of the content type and
/// the content length.
pub const MAX_EXTRA_HEADERS: usize = 6551;

/// The texts of a list of header names and values.
pub open spec fn header_texts(pairs: Seq<(String, String)>) -> Seq<(Seq<char>, Seq<char>)> {
    Seq::new(pairs.len(), |i: int| (pairs[i].0@, pairs[i].1@))
}

/// The text of a string that may be there.
pub open spec fn optional_text(text: Option<&str>) -> Option<Seq<char>> {
    match text {
        Some(text) => Some(text@),
        None => None,
    }
}

/// What a body says that is handed over as a slice of bytes.
pub open spec fn given_body(body: Result<&[u8], MockError>) -> Result<Seq<u8>, MockErrorView> {
    match body {
        Ok(data) => Ok(data@),
        Err(error) => Err(error@),
    }
}

/// The headers after each of `pairs` was added in turn.
pub open spec fn with_added_headers(
    headers: HeaderModel,
    pairs: Seq<(Seq<char>, Seq<char>)>,
) -> HeaderModel
    decreases pairs.len(),
{
    if pairs.len() == 0 {
        headers
    } else {
        with_added_header(
            with_added_headers(headers, pairs.drop_last()),
            pairs.last().0,
            pairs.last().1,
        )
    }
}

/// The headers of a response that is made with a content type, a content
/// length and extra headers: the content type and the content length, each
/// where it is given, as the one value of its name, and then each extra
/// header added to the values of its name.
pub open spec fn response_headers(
    content_type: Option<Seq<char>>,
    content_len: Option<nat>,
    extra_headers: Seq<(Seq<char>, Seq<char>)>,
) -> HeaderModel {
    let typed = match content_type {
        Some(value) => with_header(HeaderModel::empty(), "content-type"@, value),
        None => HeaderModel::empty(),
    };
    let sized = match content_len {
        Some(length) => with_header(typed, "content-length"@, decimal(length)),
        None => typed,
    };
    with_added_headers(sized, extra_headers)
}

/// Whether a response can be made of these parts: the URL is an absolute
/// URL with a host, the content type is a header value, each extra header
/// has a header name and a header value, and there are not too many of
/// them.
pub open spec fn can_respond(
    url: Seq<char>,
    content_type: Option<Seq<char>>,
    extra_headers: Seq<(Seq<char>, Seq<char>)>,
) -> bool {
    &&& request_url(url) is Some
    &&& content_type matches Some(value) ==> is_header_value(value)
    &&& extra_headers.len() <= MAX_EXTRA_HEADERS
    &&& forall|i: int|
        0 <= i < extra_headers.len() ==> is_header_name((#[trigger] extra_headers[i]).0)
            && is_header_value(extra_headers[i].1)
}

/// The names of the content type and content length headers are header
/// names, and each is its own lower-case form.
pub proof fn lemma_standard_names()
    ensures
        is_header_name("content-type"@),
        is_header_name("content-length"@),
        canonical_name("content-type"@) == "content-type"@,
        canonical_name("content-length"@) == "content-length"@,
{
    reveal_strlit("content-type");
    reveal_strlit("content-length");
    assert(canonical_name("content-type"@) =~= "content-type"@);
    assert(canonical_name("content-length"@) =~= "content-length"@);
}

/// A response from `url` with the given status, headers and body.
pub fn create_mock_response(
    url: &str,
    status: StatusCode,
    content_type: Option<&str>,
    content_len: Option<usize>,
    extra_headers: Vec<(String, String)>,
    body: Result<&[u8], MockError>,
) -> (response: MockResponse)
    requires
        can_respond(url@, optional_text(content_type), header_texts(extra_headers@)),
    ensures
        request_url(url@) == Some(response@.url),
        response@.status == status@,
        response@.headers == response_headers(
            optional_text(content_type),
            match content_len {
                Some(length) => Some(length as nat),
                None => None,
            },
            header_texts(extra_headers@),
        ),
        response@.body == given_body(body),
{
    let parsed = Url::for_request(url).unwrap();
    let mut headers = no_headers();
    proof {
        lemma_standard_names();
    }
    if let Some(value) = content_type {
        set_header(&mut headers, "content-type", value);
    }
    let ghost typed = header_values(headers);
    proof {
        lemma_one_more_name(HeaderModel::empty(), "content-type"@, optional_text(content_type)->0);
    }
    if let Some(length) = content_len {
        let text = decimal_text(length);
        proof {
            lemma_decimal_is_digits(length as nat);
            lemma_printable_is_header_value(text@);
        }
        set_header(&mut headers, "content-length", text.as_str());
        proof {
            lemma_one_more_name(typed, "content-length"@, text@);
        }
    }
    let ghost sized = header_values(headers);
    let ghost pairs = header_texts(extra_headers@);
    let mut at: usize = 0;
    while at < extra_headers.len()
        invariant
            at <= extra_headers.len() <= MAX_EXTRA_HEADERS,
            pairs == header_texts(extra_headers@),
            forall|i: int|
                0 <= i < pairs.len() ==> is_header_name((#[trigger] pairs[i]).0)
                    && is_header_value(pairs[i].1),
            header_values(headers) == with_added_headers(sized, pairs.take(at as int)),
            header_values(headers).dom().finite(),
            header_values(headers).dom().len() <= 2 + at,
        decreases extra_headers.len() - at,
    {
        let ghost before = header_values(headers);
        let pair = &extra_headers[at];
        assert(pairs[at as int] == (pair.0@, pair.1@));
        add_header(&mut headers, pair.0.as_str(), pair.1.as_str());
        proof {
            lemma_one_more_name(before, pair.0@, pair.1@);
            assert(pairs.take(at + 1).drop_last() =~= pairs.take(at as int));
        }
        at += 1;
    }
    assert(pairs.take(at as int) =~= pairs);
    MockResponse {
        url: parsed,
        status,
        headers,
        body: match body {
            Ok(data) => Ok(Arc::new(buffer_of(data))),
            Err(error) => Err(error),
        },
    }
}

/// As `create_mock_response`, for parts of which it is not known whether a
/// response can be made of them: `None` where it cannot.
pub fn try_create_mock_response(
    url: &str,
    status: StatusCode,
    content_type: Option<&str>,
    content_len: Option<usize>,
    extra_headers: Vec<(String, String)>,
    body: Result<&[u8], MockError>,
) -> (response: Option<MockResponse>)
    ensures
        response is Some <==> can_respond(
            url@,
            optional_text(content_type),
            header_texts(extra_headers@),
        ),
        response matches Some(made) ==> {
            &&& request_url(url@) == Some(made@.url)
            &&& made@.status == status@
            &&& made@.headers == response_headers(
                optional_text(content_type),
                match content_len {
                    Some(length) => Some(length as nat),
                    None => None,
                },
                header_texts(extra_headers@),
            )
            &&& made@.body == given_body(body)
        },
{
    if Url::for_request(url).is_none() || extra_headers.len() > MAX_EXTRA_HEADERS {
        return None;
    }
    if let Some(value) = content_type {
        if !check_header_value(value) {
            return None;
        }
    }
    let ghost pairs = header_texts(extra_headers@);
    let mut at: usize = 0;
    while at < extra_headers.len()
        invariant
            at <= extra_headers.len(),
            pairs == header_texts(extra_headers@),
            forall|i: int|
                0 <= i < at ==> is_header_name((#[trigger] pairs[i]).0) && is_header_value(
                    pairs[i].1,
                ),
        decreases extra_headers.len() - at,
    {
        let pair = &extra_headers[at];
        assert(pairs[at as int] == (pair.0@, pair.1@));
        if !check_header_name(pair.0.as_str()) || !check_header_value(pair.1.as_str()) {
            return None;
        }
        at += 1;
    }
    Some(create_mock_response(url, status, content_type, content_len, extra_headers, body))
}

} // verus!
