//! A client that is loaded with the requests to expect, in order, and with
//! the answer to each.
//!
//! The client serves an expected request with a request builder that holds
//! the answer, and gives that answer when it is sent, once. It remembers any
//! request that it did not expect at that point, so that it can be asked at
//! the end whether exactly the expected requests were made.

use vstd::prelude::*;
use http::{HeaderMap, HeaderValue};
use super::error::{MockError, MockErrorView};
use super::response::{MockResponse, MockResponseView};
use super::url::{request_url, Url};

verus! {

/// What sending a request gives: a response or an error, as they read.
pub type Outcome = Result<MockResponseView, MockErrorView>;

/// What a stored answer to a request says.
pub open spec fn outcome_view(answer: Result<MockResponse, MockError>) -> Outcome {
    match answer {
        Ok(response) => Ok(response@),
        Err(error) => Err(error@),
    }
}

/// A copy of a stored answer.
fn copy_of(answer: &Result<MockResponse, MockError>) -> (copy: Result<MockResponse, MockError>)
    ensures
        outcome_view(copy) == outcome_view(*answer),
{
    match answer {
        Ok(response) => Ok(response.clone()),
        Err(error) => Err(error.clone()),
    }
}

/// The verb of a request.
#[derive(Clone, Copy, Debug, PartialEq, Eq, Structural)]
pub enum Method {
    /// `DELETE`
    Delete,
    /// `GET`
    Get,
    /// `PATCH`
    Patch,
    /// `POST`
    Post,
    /// `PUT`
    Put,
}

/// Why a mock client refused a request.
#[derive(Clone, Copy, Debug, PartialEq, Eq, Structural)]
pub enum MockFailure {
    /// The URL of the request is not an absolute URL with a host.
    InvalidUrl,
    /// The request is expected, but another one is expected before it.
    OutOfOrder,
    /// No request like this one is expected any more.
    Unregistered,
}

/// How far a request builder has been used.
#[derive(Clone, Copy, Debug, PartialEq, Eq, Structural)]
pub enum Sending {
    /// The request has not been sent.
    Pending,
    /// The request has been sent once.
    Done,
    /// The request has been sent more than once.
    Overdone,
}

/// What a request builder knows: the answer it holds and how far it has
/// been used.
pub struct BuilderState {
    /// What sending the request gives.
    pub answer: Outcome,
    /// How far the builder has been used.
    pub sending: Sending,
}

impl BuilderState {
    /// The state of a builder that holds `answer` and has not been sent.
    pub open spec fn fresh(answer: Outcome) -> BuilderState {
        BuilderState { answer, sending: Sending::Pending }
    }

    /// What sending gives in this state: the answer the first time,
    /// nothing after that.
    pub open spec fn sent(self) -> Option<Outcome> {
        if self.sending == Sending::Pending {
            Some(self.answer)
        } else {
            None
        }
    }

    /// The state after sending.
    pub open spec fn after_send(self) -> BuilderState {
        BuilderState {
            sending: if self.sending == Sending::Pending {
                Sending::Done
            } else {
                Sending::Overdone
            },
            ..self
        }
    }

    /// Whether the request was sent exactly once.
    pub open spec fn satisfied(self) -> bool {
        self.sending == Sending::Done
    }
}

/// A stand-in for a request that is being built. It holds the answer to the
/// request and gives it when the request is sent.
#[derive(Debug)]
pub struct MockRequestBuilder {
    answer: Result<MockResponse, MockError>,
    sending: Sending,
}

impl View for MockRequestBuilder {
    type V = BuilderState;

    closed spec fn view(&self) -> BuilderState {
        BuilderState { answer: outcome_view(self.answer), sending: self.sending }
    }
}

impl MockRequestBuilder {
    /// A builder that holds `answer` and has not been sent.
    pub(crate) fn holding(answer: Result<MockResponse, MockError>) -> (builder: MockRequestBuilder)
        ensures
            builder@ == BuilderState::fresh(outcome_view(answer)),
    {
        MockRequestBuilder { answer, sending: Sending::Pending }
    }

    /// Takes a request body and leaves the builder as it is.
    #[must_use]
    pub fn body<T>(self, _body: T) -> (builder: MockRequestBuilder)
        ensures
            builder == self,
    {
        self
    }

    /// Takes a form to send as the body and leaves the builder as it is.
    #[must_use]
    pub fn form<T: ?Sized>(self, _form: &T) -> (builder: MockRequestBuilder)
        ensures
            builder == self,
    {
        self
    }

    /// Takes headers for the request and leaves the builder as it is.
    #[must_use]
    pub fn headers(self, _headers: HeaderMap<HeaderValue>) -> (builder: MockRequestBuilder)
        ensures
            builder == self,
    {
        self
    }

    /// Takes a value to send as a JSON body and leaves the builder as it is.
    #[must_use]
    pub fn json<T: ?Sized>(self, _json: &T) -> (builder: MockRequestBuilder)
        ensures
            builder == self,
    {
        self
    }

    /// Sends the request: the answer that the builder holds the first time,
    /// `None` every time after that.
    pub fn send(&mut self) -> (answer: Option<Result<MockResponse, MockError>>)
        ensures
            final(self)@ == old(self)@.after_send(),
            answer is Some <==> old(self)@.sent() is Some,
            answer matches Some(given) ==> old(self)@.sent() == Some(outcome_view(given)),
    {
        match self.sending {
            Sending::Pending => {
                self.sending = Sending::Done;
                Some(copy_of(&self.answer))
            },
            _ => {
                self.sending = Sending::Overdone;
                None
            },
        }
    }

    /// Whether the request was sent exactly once.
    pub fn satisfied(&self) -> (ok: bool)
        ensures
            ok == self@.satisfied(),
    {
        match self.sending {
            Sending::Done => true,
            _ => false,
        }
    }
}

/// A request that a client expects: a `GET` for `url`, to be answered with
/// `answer`.
pub struct Expected {
    /// The URL of the request, in normal form.
    pub url: Seq<char>,
    /// What sending the request gives.
    pub answer: Outcome,
}

/// A request as a client sees it: its verb and the normal form of its URL,
/// or `None` for a URL that has none.
pub struct ClientCall {
    /// The verb of the request.
    pub method: Method,
    /// The URL of the request.
    pub url: Option<Seq<char>>,
}

/// What a mock client knows: the requests it expects, how many of them it
/// has served, and whether it has refused any request.
pub struct ClientState {
    /// The requests that the client expects, in order.
    pub expected: Seq<Expected>,
    /// How many of them it has served.
    pub served: nat,
    /// Whether the client has refused a request.
    pub failed: bool,
}

impl ClientState {
    /// The state of a client that has received no request.
    pub open spec fn initial(expected: Seq<Expected>) -> ClientState {
        ClientState { expected, served: 0, failed: false }
    }

    /// Whether `call` is the request that the client expects next.
    pub open spec fn expects(self, call: ClientCall) -> bool {
        &&& call.method == Method::Get
        &&& self.served < self.expected.len()
        &&& call.url == Some(self.expected[self.served as int].url)
    }

    /// Whether the client still expects a `GET` for `url`, next or later.
    pub open spec fn awaits(self, url: Seq<char>) -> bool {
        exists|i: int|
            self.served <= i < self.expected.len() && (#[trigger] self.expected[i]).url == url
    }

    /// What the client says to `call`: the answer to the request where it is
    /// the next one expected, and why it refuses the request where it is
    /// not.
    pub open spec fn judge(self, call: ClientCall) -> Result<Outcome, MockFailure> {
        if call.url is None {
            Err(MockFailure::InvalidUrl)
        } else if self.expects(call) {
            Ok(self.expected[self.served as int].answer)
        } else if call.method == Method::Get && self.awaits(call.url->0) {
            Err(MockFailure::OutOfOrder)
        } else {
            Err(MockFailure::Unregistered)
        }
    }

    /// The state after `call`: one request further where the request was
    /// served, failed where it was refused.
    pub open spec fn after(self, call: ClientCall) -> ClientState {
        if self.judge(call) is Ok {
            ClientState { served: self.served + 1, ..self }
        } else {
            ClientState { failed: true, ..self }
        }
    }

    /// The state after each of `calls` in turn.
    pub open spec fn after_all(self, calls: Seq<ClientCall>) -> ClientState
        decreases calls.len(),
    {
        if calls.len() == 0 {
            self
        } else {
            self.after_all(calls.drop_last()).after(calls.last())
        }
    }

    /// Whether every expected request was served and none was refused.
    pub open spec fn satisfied(self) -> bool {
        !self.failed && self.served == self.expected.len()
    }
}

/// The requests that meet `expected`: a `GET` for each URL, in order.
pub open spec fn expected_calls(expected: Seq<Expected>) -> Seq<ClientCall> {
    Seq::new(
        expected.len(),
        |i: int| ClientCall { method: Method::Get, url: Some(expected[i].url) },
    )
}

/// What a list of stored expectations says.
pub open spec fn expected_view(stored: Seq<(Url, Result<MockResponse, MockError>)>) -> Seq<
    Expected,
> {
    Seq::new(
        stored.len(),
        |i: int| Expected { url: stored[i].0@, answer: outcome_view(stored[i].1) },
    )
}

/// What a URL says that may be there.
pub open spec fn url_view(url: Option<Url>) -> Option<Seq<char>> {
    match url {
        Some(url) => Some(url@),
        None => None,
    }
}

/// The request with the verb `method` for the URL that `url` denotes, if
/// it denotes one that a request can go to.
pub open spec fn call_for(method: Method, url: Seq<char>) -> ClientCall {
    ClientCall { method, url: request_url(url) }
}

/// The request with the verb `method` for `url`, where `None` stands for a
/// URL that is none.
pub open spec fn call_of(method: Method, url: Option<Url>) -> ClientCall {
    ClientCall { method, url: url_view(url) }
}

/// Whether a client that was in the state `before` has made of `call` what
/// it should: it is in the state that follows, and it has answered with a
/// fresh builder that holds the answer to the request, or with the reason
/// for which it refuses the request.
pub open spec fn serves(
    before: ClientState,
    call: ClientCall,
    after: ClientState,
    answer: Result<MockRequestBuilder, MockFailure>,
) -> bool {
    &&& after == before.after(call)
    &&& match answer {
        Ok(builder) => before.judge(call) == Ok::<_, MockFailure>(builder@.answer) && builder@
            == BuilderState::fresh(builder@.answer),
        Err(failure) => before.judge(call) == Err::<Outcome, _>(failure),
    }
}

/// A stand-in for an HTTP client. It serves the requests that it was loaded
/// with, in the order in which it was loaded with them, each once.
#[derive(Debug)]
pub struct MockClient {
    expected: Vec<(Url, Result<MockResponse, MockError>)>,
    served: usize,
    failed: bool,
}

impl View for MockClient {
    type V = ClientState;

    closed spec fn view(&self) -> ClientState {
        ClientState {
            expected: expected_view(self.expected@),
            served: self.served as nat,
            failed: self.failed,
        }
    }
}

impl MockClient {
    #[verifier::type_invariant]
    spec fn within_expected(self) -> bool {
        self.served <= self.expected.len()
    }

    /// Whether the client still expects a `GET` for `url`, next or later.
    fn awaits(&self, url: &Url) -> (found: bool)
        ensures
            found == self@.awaits(url@),
    {
        proof {
            use_type_invariant(self);
        }
        let mut at: usize = self.served;
        while at < self.expected.len()
            invariant
                self.served <= at <= self.expected.len(),
                forall|i: int| self.served <= i < at ==> self.expected@[i].0@ != url@,
            decreases self.expected.len() - at,
        {
            if self.expected[at].0 == *url {
                assert(self@.expected[at as int].url == url@);
                return true;
            }
            at += 1;
        }
        assert forall|i: int| self@.served <= i < self@.expected.len() implies (
        #[trigger] self@.expected[i]).url != url@ by {
            assert(self.expected@[i].0@ != url@);
        }
        false
    }

    /// Serves or refuses a request with the verb `method` for `url`, where
    /// `None` stands for a URL that is none.
    pub fn request(&mut self, method: Method, url: Option<Url>) -> (answer: Result<
        MockRequestBuilder,
        MockFailure,
    >)
        ensures
            serves(old(self)@, call_of(method, url), final(self)@, answer),
    {
        proof {
            use_type_invariant(&*self);
        }
        let url = match url {
            Some(url) => url,
            None => {
                self.failed = true;
                return Err(MockFailure::InvalidUrl);
            },
        };
        let get = match method {
            Method::Get => true,
            _ => false,
        };
        if get && self.served < self.expected.len() && self.expected[self.served].0 == url {
            let builder = MockRequestBuilder::holding(copy_of(&self.expected[self.served].1));
            self.served = self.served + 1;
            Ok(builder)
        } else {
            let later = get && self.awaits(&url);
            self.failed = true;
            if later {
                Err(MockFailure::OutOfOrder)
            } else {
                Err(MockFailure::Unregistered)
            }
        }
    }

    /// A builder for a `DELETE` request for `url`. The client is never
    /// loaded with such a request, so it refuses this one.
    pub fn delete(&mut self, url: &str) -> (answer: Result<MockRequestBuilder, MockFailure>)
        ensures
            serves(old(self)@, call_for(Method::Delete, url@), final(self)@, answer),
    {
        self.request(Method::Delete, Url::for_request(url))
    }

    /// A builder for a `GET` request for `url`: the client serves the
    /// request where it is the next one expected, and refuses it where it is
    /// not.
    pub fn get(&mut self, url: &str) -> (answer: Result<MockRequestBuilder, MockFailure>)
        ensures
            serves(old(self)@, call_for(Method::Get, url@), final(self)@, answer),
    {
        self.request(Method::Get, Url::for_request(url))
    }

    /// A builder for a `PATCH` request for `url`. The client is never
    /// loaded with such a request, so it refuses this one.
    pub fn patch(&mut self, url: &str) -> (answer: Result<MockRequestBuilder, MockFailure>)
        ensures
            serves(old(self)@, call_for(Method::Patch, url@), final(self)@, answer),
    {
        self.request(Method::Patch, Url::for_request(url))
    }

    /// A builder for a `POST` request for `url`. The client is never
    /// loaded with such a request, so it refuses this one.
    pub fn post(&mut self, url: &str) -> (answer: Result<MockRequestBuilder, MockFailure>)
        ensures
            serves(old(self)@, call_for(Method::Post, url@), final(self)@, answer),
    {
        self.request(Method::Post, Url::for_request(url))
    }

    /// A builder for a `PUT` request for `url`. The client is never
    /// loaded with such a request, so it refuses this one.
    pub fn put(&mut self, url: &str) -> (answer: Result<MockRequestBuilder, MockFailure>)
        ensures
            serves(old(self)@, call_for(Method::Put, url@), final(self)@, answer),
    {
        self.request(Method::Put, Url::for_request(url))
    }

    /// Whether every expected request was served and none was refused.
    pub fn satisfied(&self) -> (ok: bool)
        ensures
            ok == self@.satisfied(),
    {
        !self.failed && self.served == self.expected.len()
    }
}

/// Whether a client can be loaded with these requests and answers: each
/// URL is an absolute URL with a host.
pub open spec fn can_expect(responses: Seq<(&str, Result<MockResponse, MockError>)>) -> bool {
    forall|i: int| 0 <= i < responses.len() ==> request_url((#[trigger] responses[i]).0@) is Some
}

/// The requests that a client expects that is loaded with these requests
/// and answers.
pub open spec fn expectations(responses: Seq<(&str, Result<MockResponse, MockError>)>) -> Seq<
    Expected,
> {
    Seq::new(
        responses.len(),
        |i: int|
            Expected {
                url: request_url(responses[i].0@)->0,
                answer: outcome_view(responses[i].1),
            },
    )
}

/// A client that expects one `GET` for each of `responses`, in this order,
/// and answers it with the response or error that stands beside the URL.
#[must_use]
pub fn create_mock_client(responses: Vec<(&str, Result<MockResponse, MockError>)>) -> (client:
    MockClient)
    requires
        can_expect(responses@),
    ensures
        client@ == ClientState::initial(expectations(responses@)),
{
    let mut expected: Vec<(Url, Result<MockResponse, MockError>)> = Vec::new();
    let mut at: usize = 0;
    while at < responses.len()
        invariant
            at <= responses.len(),
            can_expect(responses@),
            expected.len() == at,
            expected_view(expected@) == expectations(responses@).take(at as int),
        decreases responses.len() - at,
    {
        let ghost before = expected@;
        let url = Url::for_request(responses[at].0).unwrap();
        let answer = copy_of(&responses[at].1);
        expected.push((url, answer));
        proof {
            let wanted = expectations(responses@);
            assert forall|i: int| 0 <= i < at + 1 implies expected_view(expected@)[i]
                == wanted.take(at + 1)[i] by {
                if i < at {
                    assert(expected@[i] == before[i]);
                    assert(expected_view(before)[i] == wanted.take(at as int)[i]);
                }
            }
            assert(expected_view(expected@) =~= wanted.take(at + 1));
        }
        at += 1;
    }
    assert(expectations(responses@).take(at as int) =~= expectations(responses@));
    MockClient { expected, served: 0, failed: false }
}

/// As `create_mock_client`, for requests of which it is not known whether
/// their URLs are absolute URLs with a host: `None` where one is not.
pub fn try_create_mock_client(responses: Vec<(&str, Result<MockResponse, MockError>)>) -> (client:
    Option<MockClient>)
    ensures
        client is Some <==> can_expect(responses@),
        client matches Some(made) ==> made@ == ClientState::initial(expectations(responses@)),
{
    let mut at: usize = 0;
    while at < responses.len()
        invariant
            at <= responses.len(),
            forall|i: int| 0 <= i < at ==> request_url((#[trigger] responses@[i]).0@) is Some,
        decreases responses.len() - at,
    {
        if Url::for_request(responses[at].0).is_none() {
            return None;
        }
        at += 1;
    }
    Some(create_mock_client(responses))
}

/// Where no request was refused, the requests are the beginning of the
/// expected ones, and each of them was served; where one was refused, they
/// are not.
proof fn lemma_served_so_far(expected: Seq<Expected>, calls: Seq<ClientCall>)
    ensures
        ({
            let state = ClientState::initial(expected).after_all(calls);
            &&& state.expected == expected
            &&& !state.failed <==> calls.len() <= expected.len() && calls == expected_calls(
                expected,
            ).take(calls.len() as int)
            &&& !state.failed ==> state.served == calls.len()
        }),
    decreases calls.len(),
{
    let wanted = expected_calls(expected);
    if calls.len() == 0 {
        assert(calls =~= wanted.take(0));
    } else {
        let earlier = calls.drop_last();
        let before = ClientState::initial(expected).after_all(earlier);
        let state = before.after(calls.last());
        let n = calls.len() as int;
        lemma_served_so_far(expected, earlier);
        if n <= expected.len() && calls == wanted.take(n) {
            assert(earlier =~= wanted.take(n - 1));
            assert(calls.last() == wanted[n - 1]);
            assert(before.expects(calls.last()));
        }
        if !state.failed {
            assert(before.expects(calls.last()));
            assert(calls.last() == wanted[n - 1]);
            assert(calls =~= wanted.take(n));
        }
    }
}

/// A client that has been sent the first `served` of the requests it
/// expects, in order, has refused none of them, and answers the next one
/// with a builder that holds the answer that was loaded for it.
pub proof fn lemma_expected_calls_are_served(expected: Seq<Expected>, served: int)
    requires
        0 <= served < expected.len(),
    ensures
        ({
            let state = ClientState::initial(expected).after_all(
                expected_calls(expected).take(served),
            );
            &&& state == (ClientState { expected, served: served as nat, failed: false })
            &&& state.judge(expected_calls(expected)[served]) == Ok::<_, MockFailure>(
                expected[served].answer,
            )
        }),
{
    lemma_served_so_far(expected, expected_calls(expected).take(served));
}

/// A builder gives the answer it holds when it is sent for the first time,
/// and nothing when it is sent again: an answer is consumed once.
pub proof fn lemma_answer_is_given_once(answer: Outcome)
    ensures
        BuilderState::fresh(answer).sent() == Some(answer),
        BuilderState::fresh(answer).after_send().satisfied(),
        BuilderState::fresh(answer).after_send().sent() is None,
        !BuilderState::fresh(answer).after_send().after_send().satisfied(),
{
}

/// A client is satisfied by one sequence of requests and no other: a `GET`
/// for each expected URL, in the expected order. A request for another URL,
/// a request too many or too few, or two requests in the other order leave
/// it unsatisfied.
pub proof fn lemma_only_expected_calls_satisfy(expected: Seq<Expected>, calls: Seq<ClientCall>)
    ensures
        ClientState::initial(expected).after_all(calls).satisfied() <==> calls == expected_calls(
            expected,
        ),
{
    let wanted = expected_calls(expected);
    lemma_served_so_far(expected, calls);
    assert(wanted.take(wanted.len() as int) =~= wanted);
}

/// A request that a client refuses leaves it unsatisfied whatever follows.
pub proof fn lemma_refusal_stays(state: ClientState, calls: Seq<ClientCall>)
    requires
        state.failed,
    ensures
        state.after_all(calls).failed,
        !state.after_all(calls).satisfied(),
    decreases calls.len(),
{
    if calls.len() > 0 {
        lemma_refusal_stays(state, calls.drop_last());
    }
}

} // verus!
