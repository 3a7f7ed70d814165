//! Extraction of shared values attached by middleware.

use crate::envelope::Body;
use crate::error::ChannelError;
use crate::error::ErrorKind;
use crate::error::ErrorView;
use crate::extensions::Extensions;
use crate::extensions::SharedValue;
use crate::extensions::TypeTag;
use crate::request::FromRequest;
use crate::request::Request;
use crate::request::RequestView;
use std::sync::Arc;
use vstd::prelude::*;

verus! {

/// A handler argument that is a shared value attached to the request.
pub struct Data<T>(pub T);

impl<T> std::ops::Deref for Data<T> {
    type Target = T;

    fn deref(&self) -> (v: &T)
        ensures
            *v == self.0,
    {
        &self.0
    }
}

/// The value attached under a tag, or `GetDataError` naming the tag where
/// none is.
pub fn locate<'a>(extensions: &'a Extensions, tag: &str) -> (r: Result<
    &'a SharedValue,
    ChannelError,
>)
    ensures
        extensions@.contains_key(tag@) ==> r is Ok && *r->Ok_0 == extensions@[tag@],
        !extensions@.contains_key(tag@) ==> r is Err && r->Err_0@ == missing_data(tag@),
{
    match extensions.get_tagged(tag) {
        Some(v) => Ok(v),
        None => Err(ChannelError::GetDataError(tag.to_owned())),
    }
}

/// The error for a tag under which nothing of the type asked for is
/// attached.
pub open spec fn missing_data(tag: Seq<char>) -> ErrorView {
    ErrorView { kind: ErrorKind::GetDataError, detail: tag }
}

/// The handler argument for what the look under a tag gave once its type
/// was checked: the value where it is of the type asked for, else
/// `GetDataError` naming the tag.
pub fn found_or_missing<V>(tag: &str, found: Option<V>) -> (r: Result<Data<V>, ChannelError>)
    ensures
        found is Some ==> r is Ok && r->Ok_0.0 == found->0,
        found is None ==> r is Err && r->Err_0@ == missing_data(tag@),
{
    match found {
        Some(v) => Ok(Data(v)),
        None => Err(ChannelError::GetDataError(tag.to_owned())),
    }
}

impl<'a, T: TypeTag> FromRequest<'a> for Data<&'a T> {
    /// The body is left as it was. Where a value is attached under the tag
    /// of `T`, the argument is what the type's `look` at that handle
    /// gives: extraction succeeds exactly where the look finds a `T`. Where
    /// nothing is attached under the tag, or what is attached is not a
    /// `T`, the error is `GetDataError` naming the tag.
    open spec fn extracts(
        req: RequestView,
        before: Option<Seq<u8>>,
        out: Result<Self, ChannelError>,
        after: Option<Seq<u8>>,
    ) -> bool {
        &&& after == before
        &&& out is Err ==> out->Err_0@ == missing_data(T::TAG@)
        &&& out is Ok ==> req.extensions.contains_key(T::TAG@)
        &&& req.extensions.contains_key(T::TAG@) ==> call_ensures(
            T::look,
            (&req.extensions[T::TAG@],),
            match out {
                Ok(d) => Some(d.0),
                Err(_) => None,
            },
        )
    }

    fn from_request(req: &'a Request, _body: &mut Body) -> (out: Result<Self, ChannelError>) {
        match locate(req.extensions(), T::TAG) {
            Ok(v) => found_or_missing(T::TAG, T::look(v)),
            Err(e) => Err(e),
        }
    }
}

impl<'a, T: TypeTag> FromRequest<'a> for Data<Arc<T>> {
    /// As for `Data<&T>`, with a handle that outlives the request: the
    /// argument is what the type's `look_arc` at the attached handle
    /// gives.
    open spec fn extracts(
        req: RequestView,
        before: Option<Seq<u8>>,
        out: Result<Self, ChannelError>,
        after: Option<Seq<u8>>,
    ) -> bool {
        &&& after == before
        &&& out is Err ==> out->Err_0@ == missing_data(T::TAG@)
        &&& out is Ok ==> req.extensions.contains_key(T::TAG@)
        &&& req.extensions.contains_key(T::TAG@) ==> call_ensures(
            T::look_arc,
            (&req.extensions[T::TAG@],),
            match out {
                Ok(d) => Some(d.0),
                Err(_) => None,
            },
        )
    }

    fn from_request(req: &'a Request, _body: &mut Body) -> (out: Result<Self, ChannelError>) {
        match locate(req.extensions(), T::TAG) {
            Ok(v) => found_or_missing(T::TAG, T::look_arc(v)),
            Err(e) => Err(e),
        }
    }
}

} // verus!
