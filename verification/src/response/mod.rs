//! Responses and the conversions into them.

use crate::envelope::bytes_contents;
use crate::envelope::payload_len;
use crate::envelope::Body;
use crate::error::ChannelError;
use crate::status::default_status;
use crate::status::StatusCode;
use crate::status::StatusKind;
use crate::status::StatusView;
use bytes::Bytes;
use vstd::prelude::*;
use vstd::utf8::*;

verus! {

/// Mathematical model of a response.
pub struct ResponseView {
    /// URI of the request that is answered, or the topic published to.
    pub uri: Seq<char>,
    pub status: StatusView,
    /// The payload, `None` where there is none or it was taken.
    pub body: Option<Seq<u8>>,
}

/// The answer to a request, or a payload published to a topic.
#[derive(Debug)]
pub struct Response {
    uri: String,
    status: StatusCode,
    body: Body,
}

impl View for Response {
    type V = ResponseView;

    closed spec fn view(&self) -> ResponseView {
        ResponseView { uri: self.uri@, status: self.status@, body: self.body@ }
    }
}

/// The response that `Response::new` makes: no URI, ready, no body.
pub open spec fn blank_response() -> ResponseView {
    ResponseView { uri: Seq::empty(), status: default_status(StatusKind::Ready), body: None }
}

/// The placeholder kept for a URI while its request is in flight.
pub open spec fn placeholder(uri: Seq<char>) -> ResponseView {
    ResponseView { uri, ..blank_response() }
}

/// The response a handler's success is turned into when it carries the
/// given payload.
pub open spec fn success_response(body: Option<Seq<u8>>) -> ResponseView {
    ResponseView { uri: Seq::empty(), status: default_status(StatusKind::Success), body }
}

/// The response a failure is turned into: status `Fail` with the given
/// message, no URI, no body.
pub open spec fn failure_response(message: Seq<char>) -> ResponseView {
    ResponseView {
        uri: Seq::empty(),
        status: StatusView { kind: StatusKind::Fail, message },
        body: None,
    }
}

impl Response {
    pub fn new() -> (r: Response)
        ensures
            r@ == blank_response(),
    {
        Response { uri: String::new(), status: StatusCode::ready(), body: Body::empty() }
    }

    /// A blank response addressed to a topic.
    pub fn topic(uri: &str) -> (r: Response)
        ensures
            r@ == placeholder(uri@),
    {
        Response::new().uri(uri.to_owned())
    }

    /// The same response with the given payload.
    pub fn body(self, body: Bytes) -> (r: Response)
        ensures
            r@ == (ResponseView { body: Some(bytes_contents(body)), ..self@ }),
    {
        Response { uri: self.uri, status: self.status, body: Body::from_bytes(body) }
    }

    /// The same response with the given status.
    pub fn status(self, status: StatusCode) -> (r: Response)
        ensures
            r@ == (ResponseView { status: status@, ..self@ }),
    {
        Response { uri: self.uri, status, body: self.body }
    }

    pub fn status_ref(&self) -> (s: &StatusCode)
        ensures
            s@ == self@.status,
    {
        &self.status
    }

    /// The same response with the given URI.
    pub fn uri(self, uri: String) -> (r: Response)
        ensures
            r@ == (ResponseView { uri: uri@, ..self@ }),
    {
        Response { uri, status: self.status, body: self.body }
    }

    pub fn uri_ref(&self) -> (u: &String)
        ensures
            u@ == self@.uri,
    {
        &self.uri
    }

    pub fn is_ok(&self) -> (b: bool)
        ensures
            b == (self@.status.kind == StatusKind::Success),
    {
        self.status.is_ok()
    }

    /// Hands the body out and leaves the response without one.
    pub fn take_body(&mut self) -> (b: Body)
        ensures
            b@ == old(self)@.body,
            final(self)@ == (ResponseView { body: None, ..old(self)@ }),
    {
        let mut taken = Body::empty();
        std::mem::swap(&mut self.body, &mut taken);
        taken
    }

    /// Length of the body, 0 where there is none.
    pub fn body_len(&self) -> (n: usize)
        ensures
            n == payload_len(self@.body),
    {
        self.body.len()
    }

    /// The body, left in place.
    pub fn body_ref(&self) -> (b: &Body)
        ensures
            b@ == self@.body,
    {
        &self.body
    }

    /// A response with the same URI, status and payload.
    pub fn duplicate(&self) -> (r: Response)
        ensures
            r@ == self@,
    {
        Response {
            uri: self.uri.clone(),
            status: self.status.duplicate(),
            body: self.body.duplicate(),
        }
    }
}

impl Default for Response {
    fn default() -> (r: Response)
        ensures
            r@ == blank_response(),
    {
        Response::new()
    }
}

impl Clone for Response {
    fn clone(&self) -> (r: Response)
        ensures
            r@ == self@,
    {
        self.duplicate()
    }
}

/// Copies of the responses, in their order.
pub fn duplicate_all(responses: &Vec<Response>) -> (copies: Vec<Response>)
    ensures
        copies@.map_values(|r: Response| r@) == responses@.map_values(|r: Response| r@),
{
    let mut copies: Vec<Response> = Vec::new();
    let mut i: usize = 0;
    while i < responses.len()
        invariant
            i <= responses@.len(),
            copies@.len() == i,
            forall|k: int| 0 <= k < i ==> (#[trigger] copies@[k])@ == responses@[k]@,
        decreases responses@.len() - i,
    {
        copies.push(responses[i].duplicate());
        i += 1;
    }
    assert(copies@.map_values(|r: Response| r@) =~= responses@.map_values(|r: Response| r@));
    copies
}

/// The response of a handler that succeeded with the given body.
fn succeed(body: Body) -> (r: Response)
    ensures
        r@ == success_response(body@),
{
    Response { uri: String::new(), status: StatusCode::ok(), body }
}

/// What a handler may return: anything that can be turned into a response.
pub trait IntoResponse: Send {
    /// Whether this value may turn into the response `r`. An
    /// implementation that says nothing allows every response.
    open spec fn becomes(&self, r: ResponseView) -> bool {
        true
    }

    fn into_response(self) -> (r: Response)
        ensures
            self.becomes(r@),
    ;
}

impl IntoResponse for Response {
    open spec fn becomes(&self, r: ResponseView) -> bool {
        r == self@
    }

    fn into_response(self) -> (r: Response) {
        self
    }
}

impl IntoResponse for String {
    open spec fn becomes(&self, r: ResponseView) -> bool {
        r == success_response(Some(encode_utf8(self@)))
    }

    fn into_response(self) -> (r: Response) {
        let ghost me = self;
        let r = succeed(Body::from_string(self));
        assert(me.becomes(r@));
        r
    }
}

impl IntoResponse for &'static str {
    open spec fn becomes(&self, r: ResponseView) -> bool {
        r == success_response(Some(encode_utf8(self@)))
    }

    fn into_response(self) -> (r: Response) {
        let r = succeed(Body::from_static(self.as_bytes()));
        assert(self.becomes(r@));
        r
    }
}

impl IntoResponse for &'static [u8] {
    open spec fn becomes(&self, r: ResponseView) -> bool {
        r == success_response(Some(self@))
    }

    fn into_response(self) -> (r: Response) {
        let r = succeed(Body::from_static(self));
        assert(self.becomes(r@));
        r
    }
}

impl IntoResponse for Bytes {
    open spec fn becomes(&self, r: ResponseView) -> bool {
        r == success_response(Some(bytes_contents(*self)))
    }

    fn into_response(self) -> (r: Response) {
        let ghost me = self;
        let r = succeed(Body::from_bytes(self));
        assert(me.becomes(r@));
        r
    }
}

impl IntoResponse for Vec<u8> {
    open spec fn becomes(&self, r: ResponseView) -> bool {
        r == success_response(Some(self@))
    }

    fn into_response(self) -> (r: Response) {
        let ghost me = self;
        let r = succeed(Body::from_vec(self));
        assert(me.becomes(r@));
        r
    }
}

impl IntoResponse for () {
    open spec fn becomes(&self, r: ResponseView) -> bool {
        r == success_response(None)
    }

    fn into_response(self) -> (r: Response) {
        let r = succeed(Body::empty());
        assert(self.becomes(r@));
        r
    }
}

impl IntoResponse for ChannelError {
    open spec fn becomes(&self, r: ResponseView) -> bool {
        r == failure_response(self@.message())
    }

    fn into_response(self) -> (r: Response) {
        let r = Response::new().status(StatusCode::failed(self.to_string()));
        assert(self.becomes(r@));
        r
    }
}

} // verus!
