//! The adapter between a plain function and an endpoint: it extracts the
//! function's arguments from the request, calls the function, and turns
//! what it returns into a response.

use crate::endpoint::Endpoint;
use crate::error::ChannelError;
use crate::request::FromRequest;
use crate::request::Request;
use crate::request::RequestView;
use crate::response::IntoResponse;
use crate::response::Response;
use std::marker::PhantomData;
use vstd::prelude::*;

verus! {

/// An endpoint made of a function of an extracted argument. For a
/// function of several arguments the argument is their tuple.
#[verifier::reject_recursive_types(A)]
#[verifier::reject_recursive_types(R)]
#[verifier::reject_recursive_types(F)]
pub struct Handler<A, R, F: Fn(A) -> R> {
    f: F,
    marker: PhantomData<(A, R)>,
}

/// The request as the extractors see it: parted from its body.
pub open spec fn without_body(req: RequestView) -> RequestView {
    RequestView { body: None, ..req }
}

impl<A, R, F: Fn(A) -> R> Handler<A, R, F> {
    #[verifier::type_invariant]
    spec fn well_formed(self) -> bool {
        forall|a: A| call_requires(self.f, (a,))
    }

    /// The function inside.
    pub closed spec fn function(&self) -> F {
        self.f
    }

    /// The endpoint that extracts an `A`, calls `f` on it and answers with
    /// what `f` returns. The function takes every argument.
    pub fn new(f: F) -> (h: Handler<A, R, F>)
        requires
            forall|a: A| call_requires(f, (a,)),
        ensures
            h.function() == f,
    {
        Handler { f, marker: PhantomData }
    }
}

/// Whether a handler made of `f` may answer `out`: where the extraction
/// fails, its error and nothing else, the function not being called;
/// where it succeeds, a response that the function's result turns into.
pub open spec fn handles<'a, A: FromRequest<'a>, R: IntoResponse, F: Fn(A) -> R>(
    f: F,
    req: RequestView,
    out: Result<Response, ChannelError>,
) -> bool {
    exists|arg: Result<A, ChannelError>, rest: Option<Seq<u8>>| #[trigger]
        A::extracts(without_body(req), req.body, arg, rest) && match arg {
            Err(e) => out is Err && out->Err_0 == e,
            Ok(a) => out is Ok && exists|r: R|
                call_ensures(f, (a,), r) && #[trigger] r.becomes(out->Ok_0@),
        }
}

impl<A, R, F> Endpoint for Handler<A, R, F> where
    A: for<'a> FromRequest<'a> + Send + Sync,
    R: IntoResponse + Send + Sync,
    F: Fn(A) -> R + Send + Sync,
{
    type Output = Response;

    open spec fn answers(&self, req: RequestView, out: Result<Response, ChannelError>) -> bool {
        handles::<A, R, F>(self.function(), req, out)
    }

    fn call(&self, req: Request) -> (out: Result<Response, ChannelError>) {
        proof {
            use_type_invariant(self);
        }
        let (parted, mut body) = req.split();
        let arg = A::from_request(&parted, &mut body);
        assert(A::extracts(without_body(req@), req@.body, arg, body@));
        match arg {
            Err(e) => Err(e),
            Ok(a) => {
                let r = (self.f)(a);
                let out: Result<Response, ChannelError> = Ok(r.into_response());
                assert(r.becomes(out->Ok_0@));
                out
            },
        }
    }
}

} // verus!
