//! Requests and the typed extraction of handler arguments from them.

pub mod data;
pub mod json;
pub mod param;
pub mod raw;
pub mod string;
pub mod tuple;

use crate::envelope::Body;
use crate::envelope::Param;
use crate::error::ChannelError;
use crate::extensions::Extensions;
use crate::extensions::SharedValue;
use vstd::prelude::*;

verus! {

/// Mathematical model of a request.
pub struct RequestView {
    /// The routing key.
    pub uri: Seq<char>,
    /// The JSON text of the parameter, where there is one.
    pub param: Option<Seq<char>>,
    /// The payload, `None` where there is none or it was taken.
    pub body: Option<Seq<u8>>,
    /// The values attached by middleware, by tag.
    pub extensions: Map<Seq<char>, SharedValue>,
}

/// A request on its way to a handler.
#[derive(Debug)]
pub struct Request {
    uri: String,
    param: Param,
    body: Body,
    extensions: Extensions,
}

impl View for Request {
    type V = RequestView;

    closed spec fn view(&self) -> RequestView {
        RequestView {
            uri: self.uri@,
            param: self.param@,
            body: self.body@,
            extensions: self.extensions@,
        }
    }
}

impl Request {
    /// A request with nothing attached to it yet.
    pub fn new(uri: String, param: Param, body: Body) -> (r: Request)
        ensures
            r@ == (RequestView {
                uri: uri@,
                param: param@,
                body: body@,
                extensions: Map::empty(),
            }),
    {
        Request { uri, param, body, extensions: Extensions::new() }
    }

    pub fn with_param(uri: String, param: Param) -> (r: Request)
        ensures
            r@ == (RequestView {
                uri: uri@,
                param: param@,
                body: None,
                extensions: Map::empty(),
            }),
    {
        Request::new(uri, param, Body::empty())
    }

    pub fn with_body(uri: String, body: Body) -> (r: Request)
        ensures
            r@ == (RequestView {
                uri: uri@,
                param: None,
                body: body@,
                extensions: Map::empty(),
            }),
    {
        Request::new(uri, Param::empty(), body)
    }

    /// Parts the body from the request, for the extractors to consume: the
    /// request that comes back has none.
    pub fn split(self) -> (parts: (Request, Body))
        ensures
            parts.0@ == (RequestView { body: None, ..self@ }),
            parts.1@ == self@.body,
    {
        let Request { uri, param, body, extensions } = self;
        (Request { uri, param, body: Body::empty(), extensions }, body)
    }

    pub fn uri_ref(&self) -> (u: &str)
        ensures
            u@ == self@.uri,
    {
        self.uri.as_str()
    }

    pub fn extensions(&self) -> (e: &Extensions)
        ensures
            e@ == self@.extensions,
    {
        &self.extensions
    }

    pub fn param(&self) -> (p: &Param)
        ensures
            p@ == self@.param,
    {
        &self.param
    }

    /// The attached values, to add to: the request changes with them and
    /// in nothing else.
    pub fn extensions_mut(&mut self) -> (e: &mut Extensions)
        ensures
            e@ == old(self)@.extensions,
            final(self)@ == (RequestView { extensions: final(e)@, ..old(self)@ }),
    {
        &mut self.extensions
    }
}

/// A type that can be built from a request and what is left of its body.
///
/// Handler arguments are extracted left to right, each from the request
/// and the body as its predecessors left it.
pub trait FromRequest<'a>: Sized {
    /// Whether extraction from `req` with the body `before` may yield
    /// `out` and leave the body `after`. An implementation that says
    /// nothing allows every outcome.
    open spec fn extracts(
        req: RequestView,
        before: Option<Seq<u8>>,
        out: Result<Self, ChannelError>,
        after: Option<Seq<u8>>,
    ) -> bool {
        true
    }

    fn from_request(req: &'a Request, body: &mut Body) -> (out: Result<Self, ChannelError>)
        ensures
            Self::extracts(req@, old(body)@, out, final(body)@),
    ;

    /// Extraction with no body to consume.
    fn from_request_without_body(req: &'a Request) -> (out: Result<Self, ChannelError>)
        ensures
            exists|after: Option<Seq<u8>>| Self::extracts(req@, None, out, after),
    {
        let mut body = Body::default();
        Self::from_request(req, &mut body)
    }
}

} // verus!
