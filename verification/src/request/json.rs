//! JSON payloads.

use crate::envelope::bytes_from_vec;
use crate::envelope::Body;
use crate::error::ChannelError;
use crate::request::FromRequest;
use crate::request::Request;
use crate::request::RequestView;
use crate::response::failure_response;
use crate::response::success_response;
use crate::response::IntoResponse;
use crate::response::Response;
use crate::response::ResponseView;
use crate::status::StatusCode;
use vstd::prelude::*;

verus! {

/// `serde_json::Value`: any JSON value, carried through as it is.
#[verifier::external_type_specification]
#[verifier::external_body]
pub struct ExJsonValue(serde_json::Value);

/// `serde_json::Error`: why JSON could not be read or written.
#[verifier::external_type_specification]
#[verifier::external_body]
pub struct ExJsonError(serde_json::Error);

/// The value that `serde_json::from_slice` reads from a byte string, `None`
/// where it rejects the bytes.
pub uninterp spec fn json_value(bytes: Seq<u8>) -> Option<serde_json::Value>;

/// The compact JSON text that `serde_json::to_string` writes for a value,
/// `None` where it reports an error.
pub uninterp spec fn json_text(value: serde_json::Value) -> Option<Seq<char>>;

/// The compact JSON bytes that `serde_json::to_vec` writes for a value, or
/// the error that it reports.
pub uninterp spec fn json_bytes(value: serde_json::Value) -> Result<Seq<u8>, serde_json::Error>;

/// The `Display` text of a `serde_json::Error`.
pub uninterp spec fn json_error_message(e: serde_json::Error) -> Seq<char>;

/// `serde_json::from_slice` at type `Value`: the outcome is a function of
/// the bytes alone.
#[verifier::external_body]
pub(crate) fn decode_value(bytes: &[u8]) -> (r: Result<serde_json::Value, serde_json::Error>)
    ensures
        r is Ok ==> json_value(bytes@) == Some(r->Ok_0),
        r is Err ==> json_value(bytes@) is None,
{
    serde_json::from_slice::<serde_json::Value>(bytes)
}

/// `serde_json::to_string` at type `Value`, with the error dropped.
#[verifier::external_body]
pub(crate) fn encode_text(value: &serde_json::Value) -> (r: Option<String>)
    ensures
        r is Some ==> json_text(*value) == Some(r->0@),
        r is None ==> json_text(*value) is None,
{
    serde_json::to_string(value).ok()
}

/// `serde_json::to_vec` at type `Value`.
#[verifier::external_body]
pub(crate) fn encode_bytes(value: &serde_json::Value) -> (r: Result<Vec<u8>, serde_json::Error>)
    ensures
        r is Ok ==> json_bytes(*value) is Ok && json_bytes(*value)->Ok_0 == r->Ok_0@,
        r is Err ==> json_bytes(*value) is Err && json_bytes(*value)->Err_0 == r->Err_0,
{
    serde_json::to_vec(value)
}

/// The text that a `serde_json::Error` displays as.
#[verifier::external_body]
pub(crate) fn json_error_text(e: &serde_json::Error) -> (s: String)
    ensures
        s@ == json_error_message(*e),
{
    e.to_string()
}

/// A handler argument decoded from a JSON body, or a handler result to be
/// encoded as one.
#[derive(Debug, Eq, PartialEq, Default)]
pub struct Json<T>(pub T);

impl<T: Clone> Clone for Json<T> {
    fn clone(&self) -> (c: Self)
        ensures
            call_ensures(T::clone, (&self.0,), c.0),
    {
        Json(self.0.clone())
    }
}

impl<T> std::ops::Deref for Json<T> {
    type Target = T;

    fn deref(&self) -> (v: &T)
        ensures
            *v == self.0,
    {
        &self.0
    }
}

/// What reading a taken body as JSON gives: the value where the bytes are
/// JSON, else `ParseJsonError`.
pub open spec fn body_value(bytes: Seq<u8>, out: Result<serde_json::Value, ChannelError>) -> bool {
    match json_value(bytes) {
        Some(v) => out is Ok && out->Ok_0 == v,
        None => out is Err && out->Err_0 == ChannelError::ParseJsonError,
    }
}

impl<'a> FromRequest<'a> for Json<serde_json::Value> {
    /// The body is consumed; an absent body is `BodyNoData`.
    open spec fn extracts(
        req: RequestView,
        before: Option<Seq<u8>>,
        out: Result<Self, ChannelError>,
        after: Option<Seq<u8>>,
    ) -> bool {
        &&& after is None
        &&& match before {
            Some(bytes) => match out {
                Ok(j) => body_value(bytes, Ok(j.0)),
                Err(e) => body_value(bytes, Err(e)),
            },
            None => out is Err && out->Err_0 == ChannelError::BodyNoData,
        }
    }

    fn from_request(_req: &'a Request, body: &mut Body) -> (out: Result<Self, ChannelError>) {
        let data = match body.take_vec() {
            Ok(d) => d,
            Err(e) => {
                return Err(e);
            },
        };
        match decode_value(data.as_slice()) {
            Ok(v) => Ok(Json(v)),
            Err(_e) => Err(ChannelError::ParseJsonError),
        }
    }
}

impl IntoResponse for Json<serde_json::Value> {
    /// Success with the compact JSON bytes as body, or, where the value
    /// cannot be encoded, a failure that carries the encoder's message.
    open spec fn becomes(&self, r: ResponseView) -> bool {
        r == match json_bytes(self.0) {
            Ok(bytes) => success_response(Some(bytes)),
            Err(e) => failure_response(json_error_message(e)),
        }
    }

    fn into_response(self) -> (r: Response) {
        let r = match encode_bytes(&self.0) {
            Ok(data) => Response::new().status(StatusCode::ok()).body(bytes_from_vec(data)),
            Err(err) => Response::new().status(StatusCode::failed(json_error_text(&err))),
        };
        assert(self.becomes(r@));
        r
    }
}

} // verus!
