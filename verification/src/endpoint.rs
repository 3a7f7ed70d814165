//! Handlers: units of work that take a request and answer it.

use crate::add_data::attaches;
use crate::add_data::AddData;
use crate::add_data::AddDataEndpoint;
use crate::error::ChannelError;
use crate::extensions::TypeTag;
use crate::request::Request;
use crate::request::RequestView;
use crate::response::failure_response;
use crate::response::IntoResponse;
use crate::response::Response;
use crate::response::ResponseView;
use vstd::prelude::*;

verus! {

/// Whether `res` is the response that the outcome `out` of a handler
/// settles into for a request with the given URI: the handler's result
/// turned into a response, or the error turned into a failure that carries
/// its message, and either stamped with the URI.
pub open spec fn settles<O: IntoResponse>(
    uri: Seq<char>,
    out: Result<O, ChannelError>,
    res: ResponseView,
) -> bool {
    match out {
        Ok(o) => exists|r: ResponseView|
            #[trigger] o.becomes(r) && res == (ResponseView { uri, ..r }),
        Err(e) => res == (ResponseView { uri, ..failure_response(e@.message()) }),
    }
}

/// Turns the outcome of a handler into the response for the request with
/// the given URI. Every outcome gives a response.
pub fn settle<O: IntoResponse>(uri: String, out: Result<O, ChannelError>) -> (res: Response)
    ensures
        settles(uri@, out, res@),
{
    match out {
        Ok(o) => {
            let r = o.into_response();
            assert(o.becomes(r@));
            r.uri(uri)
        },
        Err(e) => e.into_response().uri(uri),
    }
}

/// A unit of work that takes a request and produces something that can be
/// turned into a response, or fails with an error.
pub trait Endpoint: Send + Sync {
    /// What the handler produces.
    type Output: IntoResponse;

    /// Whether a call on a request with the view `req` may return `out`.
    /// An implementation that says nothing allows every outcome.
    open spec fn answers(&self, req: RequestView, out: Result<Self::Output, ChannelError>) -> bool {
        true
    }

    /// Runs the handler on the request.
    fn call(&self, req: Request) -> (out: Result<Self::Output, ChannelError>)
        ensures
            self.answers(req@, out),
    ;

    /// Runs the handler and settles its outcome: the response always
    /// carries the request's URI, and a failure carries the error's
    /// message.
    fn get_response(&self, req: Request) -> (res: Response)
        ensures
            exists|out: Result<Self::Output, ChannelError>| #[trigger]
                self.answers(req@, out) && settles(req@.uri, out, res@),
    {
        let uri = req.uri_ref().to_owned();
        let out = self.call(req);
        settle(uri, out)
    }
}

/// Anything that can be made into an endpoint.
pub trait IntoEndpoint {
    type Endpoint: Endpoint;

    fn into_endpoint(self) -> Self::Endpoint;
}

impl<T: Endpoint> IntoEndpoint for T {
    type Endpoint = T;

    fn into_endpoint(self) -> (e: T)
        ensures
            e == self,
    {
        self
    }
}

/// A transformation of one endpoint into another that wraps it.
pub trait Middleware<E: Endpoint> {
    type Output: Endpoint;

    /// Wraps the endpoint.
    fn transform(&self, ep: E) -> Self::Output;
}

/// An endpoint behind a pointer, with its type erased, so that endpoints
/// of different types can stand in one table.
pub trait ErasedEndpoint: Send + Sync {
    /// As `Endpoint::answers`.
    open spec fn erased_answers(
        &self,
        req: RequestView,
        out: Result<Response, ChannelError>,
    ) -> bool {
        true
    }

    /// As `Endpoint::call`.
    fn erased_call(&self, req: Request) -> (out: Result<Response, ChannelError>)
        ensures
            self.erased_answers(req@, out),
    ;
}

impl<E: Endpoint<Output = Response>> ErasedEndpoint for E {
    open spec fn erased_answers(
        &self,
        req: RequestView,
        out: Result<Response, ChannelError>,
    ) -> bool {
        self.answers(req, out)
    }

    fn erased_call(&self, req: Request) -> (out: Result<Response, ChannelError>) {
        self.call(req)
    }
}

/// Whether two endpoints that answer with a `Response` may give the same
/// outcomes on every request.
pub open spec fn same_answers<A: Endpoint<Output = Response>, B: Endpoint<Output = Response>>(
    a: A,
    b: B,
) -> bool {
    forall|req: RequestView, out: Result<Response, ChannelError>|
        #[trigger] a.answers(req, out) == b.answers(req, out)
}

/// An endpoint that answers with a `Response`, boxed.
pub struct BoxEndpoint {
    inner: Box<dyn ErasedEndpoint>,
}

impl BoxEndpoint {
    /// Boxes the endpoint: the box answers every request as the endpoint
    /// inside does.
    pub fn new<E: Endpoint<Output = Response> + 'static>(ep: E) -> (b: BoxEndpoint)
        ensures
            same_answers(b, ep),
    {
        let inner: Box<dyn ErasedEndpoint> = Box::new(ep);
        assert forall|req: RequestView, out: Result<Response, ChannelError>|
            #[trigger] inner.erased_answers(req, out) == ep.answers(req, out) by {
            assert(ep.erased_answers(req, out) == ep.answers(req, out));
        }
        BoxEndpoint { inner }
    }
}

impl Endpoint for BoxEndpoint {
    type Output = Response;

    closed spec fn answers(&self, req: RequestView, out: Result<Response, ChannelError>) -> bool {
        self.inner.erased_answers(req, out)
    }

    fn call(&self, req: Request) -> (out: Result<Response, ChannelError>) {
        self.inner.erased_call(req)
    }
}

/// Combinators available on everything that can be made into an endpoint.
pub trait EndpointExt: IntoEndpoint {
    /// The endpoint, boxed: the box answers every request as the endpoint
    /// does.
    fn boxed(self) -> (b: BoxEndpoint) where
        Self: Sized,
        Self::Endpoint: Endpoint<Output = Response> + 'static,
        ensures
            exists|inner: Self::Endpoint|
                call_ensures(Self::into_endpoint, (self,), inner) && same_answers(b, inner),
    {
        let inner = self.into_endpoint();
        let ghost made = inner;
        let b = BoxEndpoint::new(inner);
        assert(call_ensures(Self::into_endpoint, (self,), made) && same_answers(b, made));
        b
    }

    /// The endpoint wrapped so that every request it handles carries
    /// `data` under the tag of its type: what `AddData::new(data)` makes
    /// of the endpoint, which attaches the handle made of a clone of
    /// `data`.
    fn data<T>(self, data: T) -> (ep: AddDataEndpoint<Self::Endpoint, T>) where
        T: Clone + TypeTag,
        Self: Sized,
        ensures
            call_ensures(Self::into_endpoint, (self,), ep.inner()),
            attaches(data, ep.attached()),
    {
        self.with(AddData::new(data))
    }

    /// The endpoint wrapped by the middleware.
    fn with<T>(self, middleware: T) -> (ep: T::Output) where
        T: Middleware<Self::Endpoint>,
        Self: Sized,
        ensures
            exists|inner: Self::Endpoint|
                call_ensures(Self::into_endpoint, (self,), inner) && call_ensures(
                    T::transform,
                    (&middleware, inner),
                    ep,
                ),
    {
        middleware.transform(self.into_endpoint())
    }
}

impl<T: IntoEndpoint> EndpointExt for T {
}

} // verus!
