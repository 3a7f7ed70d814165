//! Extraction of the body as text.

use crate::envelope::Body;
use crate::error::ChannelError;
use crate::error::ErrorKind;
use crate::error::ErrorView;
use crate::request::FromRequest;
use crate::request::Request;
use crate::request::RequestView;
use std::string::FromUtf8Error;
use vstd::prelude::*;
use vstd::utf8::*;

verus! {

/// `std::string::FromUtf8Error`: why bytes are not UTF-8.
#[verifier::external_type_specification]
#[verifier::external_body]
pub struct ExFromUtf8Error(FromUtf8Error);

/// The error that `String::from_utf8` reports for bytes that are not valid
/// UTF-8.
pub uninterp spec fn utf8_error(bytes: Seq<u8>) -> FromUtf8Error;

/// The `Display` text of a `FromUtf8Error`.
pub uninterp spec fn utf8_error_message(e: FromUtf8Error) -> Seq<char>;

/// `String::from_utf8`: the text that the bytes encode, and an error
/// exactly where they are not valid UTF-8.
#[verifier::external_body]
fn string_from_utf8(bytes: Vec<u8>) -> (r: Result<String, FromUtf8Error>)
    ensures
        r is Ok == valid_utf8(bytes@),
        r is Ok ==> r->Ok_0@ == decode_utf8(bytes@),
        r is Err ==> r->Err_0 == utf8_error(bytes@),
{
    String::from_utf8(bytes)
}

/// The text that a `FromUtf8Error` displays as.
#[verifier::external_body]
fn utf8_error_text(e: &FromUtf8Error) -> (s: String)
    ensures
        s@ == utf8_error_message(*e),
{
    e.to_string()
}

/// The error for a body that is not valid UTF-8: it carries the decoder's
/// explanation.
pub open spec fn not_utf8(bytes: Seq<u8>) -> ErrorView {
    ErrorView { kind: ErrorKind::NotUtf8, detail: utf8_error_message(utf8_error(bytes)) }
}

/// What decoding a taken body as text gives: the text where the bytes are
/// valid UTF-8, else a `NotUtf8` error.
pub open spec fn text_of(bytes: Seq<u8>, out: Result<String, ChannelError>) -> bool {
    if valid_utf8(bytes) {
        out is Ok && out->Ok_0@ == decode_utf8(bytes)
    } else {
        out is Err && out->Err_0@ == not_utf8(bytes)
    }
}

/// Decodes bytes as UTF-8 text.
pub fn decode_text(bytes: Vec<u8>) -> (out: Result<String, ChannelError>)
    ensures
        text_of(bytes@, out),
{
    match string_from_utf8(bytes) {
        Ok(s) => Ok(s),
        Err(e) => Err(ChannelError::NotUtf8(utf8_error_text(&e))),
    }
}

impl<'a> FromRequest<'a> for String {
    /// The body is consumed; an absent body is `BodyNoData`.
    open spec fn extracts(
        req: RequestView,
        before: Option<Seq<u8>>,
        out: Result<Self, ChannelError>,
        after: Option<Seq<u8>>,
    ) -> bool {
        &&& after is None
        &&& match before {
            Some(bytes) => text_of(bytes, out),
            None => out is Err && out->Err_0 == ChannelError::BodyNoData,
        }
    }

    fn from_request(_req: &'a Request, body: &mut Body) -> (out: Result<Self, ChannelError>) {
        match body.take_vec() {
            Ok(data) => decode_text(data),
            Err(e) => Err(e),
        }
    }
}

} // verus!
