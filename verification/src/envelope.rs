//! The payloads carried by requests and responses: an optional binary body
//! and an optional JSON parameter.

use crate::error::ChannelError;
use crate::request::json::encode_text;
use bytes::Bytes;
use vstd::prelude::*;
use vstd::utf8::*;

verus! {

/// `bytes::Bytes`: a shared, immutable byte buffer. Its bytes are
/// `bytes_contents`.
#[verifier::external_type_specification]
#[verifier::external_body]
pub struct ExBytes(bytes::Bytes);

/// The bytes that a `bytes::Bytes` buffer holds, in order.
pub uninterp spec fn bytes_contents(b: bytes::Bytes) -> Seq<u8>;

/// `Bytes::from(Vec<u8>)` takes the vector over; the buffer holds the
/// vector's bytes.
#[verifier::external_body]
pub(crate) fn bytes_from_vec(v: Vec<u8>) -> (b: Bytes)
    ensures
        bytes_contents(b) == v@,
{
    Bytes::from(v)
}

/// `Bytes::from(String)` takes over the string's buffer, which holds its
/// UTF-8 encoding.
#[verifier::external_body]
fn bytes_from_string(s: String) -> (b: Bytes)
    ensures
        bytes_contents(b) == encode_utf8(s@),
{
    Bytes::from(s)
}

/// `Bytes::from_static` refers to the slice it is given; the buffer holds
/// the slice's bytes.
#[verifier::external_body]
fn bytes_from_static(s: &'static [u8]) -> (b: Bytes)
    ensures
        bytes_contents(b) == s@,
{
    Bytes::from_static(s)
}

/// `Bytes` dereferences to the slice of its contents, which `to_vec`
/// copies.
#[verifier::external_body]
fn bytes_to_vec(b: &Bytes) -> (v: Vec<u8>)
    ensures
        v@ == bytes_contents(*b),
{
    b.to_vec()
}

/// `Bytes::len` is the number of bytes held.
#[verifier::external_body]
fn bytes_len(b: &Bytes) -> (n: usize)
    ensures
        n == bytes_contents(*b).len(),
{
    b.len()
}

/// `Bytes::clone` shares the storage; the clone holds the same bytes.
#[verifier::external_body]
fn bytes_clone(b: &Bytes) -> (c: Bytes)
    ensures
        bytes_contents(c) == bytes_contents(*b),
{
    b.clone()
}

/// The length of a payload, 0 where there is none.
pub open spec fn payload_len(body: Option<Seq<u8>>) -> nat {
    match body {
        Some(bytes) => bytes.len(),
        None => 0,
    }
}

/// An optional binary payload that can be taken at most once.
///
/// Its view is `None` when there is nothing (left) to take, and the bytes
/// otherwise.
#[derive(Debug)]
pub struct Body(Option<Bytes>);

impl View for Body {
    type V = Option<Seq<u8>>;

    closed spec fn view(&self) -> Option<Seq<u8>> {
        match self.0 {
            Some(b) => Some(bytes_contents(b)),
            None => None,
        }
    }
}

impl Body {
    pub fn empty() -> (b: Body)
        ensures
            b@ is None,
    {
        Body(None)
    }

    /// Hands the payload out and leaves the body empty; a body that is
    /// already empty answers `BodyNoData`.
    pub fn take(&mut self) -> (r: Result<Bytes, ChannelError>)
        ensures
            final(self)@ is None,
            old(self)@ is Some ==> r is Ok && bytes_contents(r->Ok_0) == old(self)@->0,
            old(self)@ is None ==> r is Err && r->Err_0 == ChannelError::BodyNoData,
    {
        match self.0.take() {
            Some(b) => Ok(b),
            None => Err(ChannelError::BodyNoData),
        }
    }

    /// As `take`, with the payload copied into a vector.
    pub fn take_vec(&mut self) -> (r: Result<Vec<u8>, ChannelError>)
        ensures
            final(self)@ is None,
            old(self)@ is Some ==> r is Ok && r->Ok_0@ == old(self)@->0,
            old(self)@ is None ==> r is Err && r->Err_0 == ChannelError::BodyNoData,
    {
        match self.take() {
            Ok(b) => Ok(bytes_to_vec(&b)),
            Err(e) => Err(e),
        }
    }

    /// A body holding the UTF-8 encoding of the text.
    pub fn from_string(body: String) -> (b: Body)
        ensures
            b@ == Some(encode_utf8(body@)),
    {
        Body(Some(bytes_from_string(body)))
    }

    pub fn from_bytes(body: Bytes) -> (b: Body)
        ensures
            b@ == Some(bytes_contents(body)),
    {
        Body(Some(body))
    }

    /// A body holding the bytes of the vector.
    pub fn from_vec(body: Vec<u8>) -> (b: Body)
        ensures
            b@ == Some(body@),
    {
        Body(Some(bytes_from_vec(body)))
    }

    /// A body holding the bytes of a static slice.
    pub fn from_static(body: &'static [u8]) -> (b: Body)
        ensures
            b@ == Some(body@),
    {
        Body(Some(bytes_from_static(body)))
    }

    /// Whether a payload is present.
    pub fn has_data(&self) -> (b: bool)
        ensures
            b == (self@ is Some),
    {
        self.0.is_some()
    }

    /// Length of the payload, 0 where there is none.
    pub fn len(&self) -> (n: usize)
        ensures
            n == payload_len(self@),
    {
        match &self.0 {
            Some(b) => bytes_len(b),
            None => 0,
        }
    }

    /// A copy of the payload, if one is present; the body keeps it.
    pub fn to_vec(&self) -> (r: Option<Vec<u8>>)
        ensures
            r is Some == self@ is Some,
            r is Some ==> r->0@ == self@->0,
    {
        match &self.0 {
            Some(b) => Some(bytes_to_vec(b)),
            None => None,
        }
    }

    /// A body with the same payload, sharing its storage.
    pub fn duplicate(&self) -> (b: Body)
        ensures
            b@ == self@,
    {
        match &self.0 {
            Some(b) => Body(Some(bytes_clone(b))),
            None => Body(None),
        }
    }
}

impl std::ops::Deref for Body {
    type Target = Option<Bytes>;

    fn deref(&self) -> (b: &Option<Bytes>)
        ensures
            b is Some == self@ is Some,
            b is Some ==> bytes_contents(b->0) == self@->0,
    {
        &self.0
    }
}

impl Default for Body {
    fn default() -> (b: Body)
        ensures
            b@ is None,
    {
        Body(None)
    }
}

impl Clone for Body {
    fn clone(&self) -> (b: Body)
        ensures
            b@ == self@,
    {
        self.duplicate()
    }
}

/// An optional parameter: the JSON text of a serialized value.
///
/// Absence is a state of its own and no error until the text is asked for.
#[derive(Debug)]
pub struct Param(Option<String>);

impl View for Param {
    type V = Option<Seq<char>>;

    closed spec fn view(&self) -> Option<Seq<char>> {
        match self.0 {
            Some(s) => Some(s@),
            None => None,
        }
    }
}

impl Param {
    pub fn empty() -> (p: Param)
        ensures
            p@ is None,
    {
        Param(None)
    }

    /// The parameter whose text is the compact JSON encoding of `obj`;
    /// absent where the value has no encoding.
    pub fn from_obj(obj: &serde_json::Value) -> (p: Param)
        ensures
            p@ == crate::request::json::json_text(*obj),
    {
        Param(encode_text(obj))
    }

    /// The parameter with the given JSON text, taken as it is.
    pub fn from_text(text: String) -> (p: Param)
        ensures
            p@ == Some(text@),
    {
        Param(Some(text))
    }

    /// The text, or `ParamNoData` when the parameter is absent.
    pub fn as_ref(&self) -> (r: Result<&String, ChannelError>)
        ensures
            self@ is Some ==> r is Ok && r->Ok_0@ == self@->0,
            self@ is None ==> r is Err && r->Err_0 == ChannelError::ParamNoData,
    {
        match &self.0 {
            Some(param) => Ok(param),
            None => Err(ChannelError::ParamNoData),
        }
    }

    /// A parameter with the same text.
    pub fn duplicate(&self) -> (p: Param)
        ensures
            p@ == self@,
    {
        match &self.0 {
            Some(s) => Param(Some(s.clone())),
            None => Param(None),
        }
    }
}

impl Clone for Param {
    fn clone(&self) -> (p: Param)
        ensures
            p@ == self@,
    {
        self.duplicate()
    }
}

} // verus!
