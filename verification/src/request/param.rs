//! Extraction of the JSON parameter.

use crate::envelope::Body;
use crate::error::ChannelError;
use crate::request::json::decode_value;
use crate::request::json::json_value;
use crate::request::FromRequest;
use crate::request::Request;
use crate::request::RequestView;
use vstd::prelude::*;
use vstd::utf8::*;

verus! {

/// A handler argument decoded from the request's parameter.
#[derive(Debug, Eq, PartialEq, Default)]
pub struct ReqParam<T>(pub T);

impl<T: Clone> Clone for ReqParam<T> {
    fn clone(&self) -> (c: Self)
        ensures
            call_ensures(T::clone, (&self.0,), c.0),
    {
        ReqParam(self.0.clone())
    }
}

impl<T> std::ops::Deref for ReqParam<T> {
    type Target = T;

    fn deref(&self) -> (v: &T)
        ensures
            *v == self.0,
    {
        &self.0
    }
}

/// What reading a parameter gives: `ParamNoData` where it is absent,
/// `ParseJsonError` where its text is not JSON, else the value read.
pub open spec fn param_value(
    param: Option<Seq<char>>,
    out: Result<serde_json::Value, ChannelError>,
) -> bool {
    match param {
        None => out is Err && out->Err_0 == ChannelError::ParamNoData,
        Some(text) => match json_value(encode_utf8(text)) {
            Some(v) => out is Ok && out->Ok_0 == v,
            None => out is Err && out->Err_0 == ChannelError::ParseJsonError,
        },
    }
}

impl<'a> FromRequest<'a> for ReqParam<serde_json::Value> {
    /// The parameter is read, never the body, which is left as it was.
    open spec fn extracts(
        req: RequestView,
        before: Option<Seq<u8>>,
        out: Result<Self, ChannelError>,
        after: Option<Seq<u8>>,
    ) -> bool {
        &&& after == before
        &&& match out {
            Ok(p) => param_value(req.param, Ok(p.0)),
            Err(e) => param_value(req.param, Err(e)),
        }
    }

    fn from_request(req: &'a Request, _body: &mut Body) -> (out: Result<Self, ChannelError>) {
        let param = match req.param().as_ref() {
            Ok(p) => p,
            Err(e) => {
                return Err(e);
            },
        };
        match decode_value(param.as_str().as_bytes()) {
            Ok(v) => Ok(ReqParam(v)),
            Err(_e) => Err(ChannelError::ParseJsonError),
        }
    }
}

} // verus!
