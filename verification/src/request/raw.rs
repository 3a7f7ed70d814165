//! Extraction of the body as it is.

use crate::envelope::bytes_contents;
use crate::envelope::Body;
use crate::error::ChannelError;
use crate::request::FromRequest;
use crate::request::Request;
use crate::request::RequestView;
use bytes::Bytes;
use vstd::prelude::*;

verus! {

impl<'a> FromRequest<'a> for Bytes {
    /// The body is consumed and handed over; an absent body is
    /// `BodyNoData`.
    open spec fn extracts(
        req: RequestView,
        before: Option<Seq<u8>>,
        out: Result<Self, ChannelError>,
        after: Option<Seq<u8>>,
    ) -> bool {
        &&& after is None
        &&& match before {
            Some(bytes) => out is Ok && bytes_contents(out->Ok_0) == bytes,
            None => out is Err && out->Err_0 == ChannelError::BodyNoData,
        }
    }

    fn from_request(_req: &'a Request, body: &mut Body) -> (out: Result<Self, ChannelError>) {
        body.take()
    }
}

impl<'a> FromRequest<'a> for Vec<u8> {
    /// The body is consumed and copied out; an absent body is
    /// `BodyNoData`.
    open spec fn extracts(
        req: RequestView,
        before: Option<Seq<u8>>,
        out: Result<Self, ChannelError>,
        after: Option<Seq<u8>>,
    ) -> bool {
        &&& after is None
        &&& match before {
            Some(bytes) => out is Ok && out->Ok_0@ == bytes,
            None => out is Err && out->Err_0 == ChannelError::BodyNoData,
        }
    }

    fn from_request(_req: &'a Request, body: &mut Body) -> (out: Result<Self, ChannelError>) {
        body.take_vec()
    }
}

} // verus!
