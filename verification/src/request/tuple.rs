//! Extraction of several handler arguments, left to right.

use crate::envelope::Body;
use crate::error::ChannelError;
use crate::request::FromRequest;
use crate::request::Request;
use crate::request::RequestView;
use vstd::prelude::*;

verus! {

/// Whether extracting an `A` and then a `B` may yield `out`: the second
/// works on the body as the first left it, and the first failure is the
/// failure of the pair.
pub open spec fn extracts_both<'a, A: FromRequest<'a>, B: FromRequest<'a>>(
    req: RequestView,
    before: Option<Seq<u8>>,
    out: Result<(A, B), ChannelError>,
    after: Option<Seq<u8>>,
) -> bool {
    exists|first: Result<A, ChannelError>, mid: Option<Seq<u8>>| #[trigger]
        A::extracts(req, before, first, mid) && match first {
            Err(e) => out is Err && out->Err_0 == e && after == mid,
            Ok(a) => exists|second: Result<B, ChannelError>| #[trigger]
                B::extracts(req, mid, second, after) && match second {
                    Err(e) => out is Err && out->Err_0 == e,
                    Ok(b) => out is Ok && out->Ok_0 == (a, b),
                },
        }
}

impl<'a, A: FromRequest<'a>, B: FromRequest<'a>> FromRequest<'a> for (A, B) {
    open spec fn extracts(
        req: RequestView,
        before: Option<Seq<u8>>,
        out: Result<Self, ChannelError>,
        after: Option<Seq<u8>>,
    ) -> bool {
        extracts_both::<A, B>(req, before, out, after)
    }

    fn from_request(req: &'a Request, body: &mut Body) -> (out: Result<Self, ChannelError>) {
        let first = A::from_request(req, body);
        let ghost mid = body@;
        match first {
            Err(e) => {
                let out = Err(e);
                assert(A::extracts(req@, old(body)@, first, mid));
                out
            },
            Ok(a) => {
                let second = B::from_request(req, body);
                assert(B::extracts(req@, mid, second, body@));
                assert(A::extracts(req@, old(body)@, first, mid));
                match second {
                    Err(e) => Err(e),
                    Ok(b) => Ok((a, b)),
                }
            },
        }
    }
}

impl<'a, A: FromRequest<'a>, B: FromRequest<'a>, C: FromRequest<'a>> FromRequest<'a> for (A, B, C) {
    /// As for a pair of the first two and the third.
    open spec fn extracts(
        req: RequestView,
        before: Option<Seq<u8>>,
        out: Result<Self, ChannelError>,
        after: Option<Seq<u8>>,
    ) -> bool {
        exists|pair: Result<(A, B), ChannelError>, mid: Option<Seq<u8>>| #[trigger]
            extracts_both::<A, B>(req, before, pair, mid) && match pair {
                Err(e) => out is Err && out->Err_0 == e && after == mid,
                Ok(ab) => exists|third: Result<C, ChannelError>| #[trigger]
                    C::extracts(req, mid, third, after) && match third {
                        Err(e) => out is Err && out->Err_0 == e,
                        Ok(c) => out is Ok && out->Ok_0 == (ab.0, ab.1, c),
                    },
            }
    }

    fn from_request(req: &'a Request, body: &mut Body) -> (out: Result<Self, ChannelError>) {
        let pair = <(A, B)>::from_request(req, body);
        let ghost mid = body@;
        assert(extracts_both::<A, B>(req@, old(body)@, pair, mid));
        match pair {
            Err(e) => Err(e),
            Ok(ab) => {
                let third = C::from_request(req, body);
                assert(C::extracts(req@, mid, third, body@));
                match third {
                    Err(e) => Err(e),
                    Ok(c) => Ok((ab.0, ab.1, c)),
                }
            },
        }
    }
}

} // verus!
