//! Middleware that attaches a shared value to every request.

use crate::endpoint::Endpoint;
use crate::endpoint::Middleware;
use crate::error::ChannelError;
use crate::extensions::SharedValue;
use crate::extensions::TypeTag;
use crate::request::Request;
use crate::request::RequestView;
use std::marker::PhantomData;
use vstd::prelude::*;

verus! {

/// Whether `handle` is what attaching `value` keeps: the handle that the
/// type's `share` makes of a clone of the value.
pub open spec fn attaches<T: Clone + TypeTag>(value: T, handle: SharedValue) -> bool {
    exists|c: T| #[trigger]
        call_ensures(T::clone, (&value,), c) && call_ensures(T::share, (c,), handle)
}

/// Middleware that attaches a value to the requests of the endpoint it
/// wraps.
pub struct AddData<T> {
    value: T,
}

impl<T: Clone + TypeTag> AddData<T> {
    /// Middleware that attaches `value`.
    pub fn new(value: T) -> (m: AddData<T>)
        ensures
            m.value() == value,
    {
        AddData { value }
    }

    /// The value that is attached.
    pub closed spec fn value(&self) -> T {
        self.value
    }
}

impl<E, T> Middleware<E> for AddData<T> where E: Endpoint, T: Clone + TypeTag {
    type Output = AddDataEndpoint<E, T>;

    /// The wrapped endpoint attaches one shared copy of the value: the
    /// handle that the type's `share` makes of a clone of it.
    fn transform(&self, ep: E) -> (out: AddDataEndpoint<E, T>)
        ensures
            out.inner() == ep,
            attaches(self.value(), out.attached()),
    {
        let copy = self.value.clone();
        let ghost c = copy;
        let value = copy.share();
        assert(call_ensures(T::clone, (&self.value(),), c) && call_ensures(T::share, (c,), value));
        AddDataEndpoint { inner: ep, value, marker: PhantomData }
    }
}

/// An endpoint that attaches a shared value of type `T` to each request
/// and then lets the endpoint inside handle it.
pub struct AddDataEndpoint<E, T> {
    inner: E,
    value: SharedValue,
    marker: PhantomData<T>,
}

impl<E, T> AddDataEndpoint<E, T> {
    /// The endpoint inside.
    pub closed spec fn inner(&self) -> E {
        self.inner
    }

    /// The value that is attached to every request.
    pub closed spec fn attached(&self) -> SharedValue {
        self.value
    }
}

/// The request as the endpoint inside sees it: the same, with the value
/// attached under the tag.
pub open spec fn with_data(req: RequestView, tag: Seq<char>, value: SharedValue) -> RequestView {
    RequestView { extensions: req.extensions.insert(tag, value), ..req }
}

impl<E, T> Endpoint for AddDataEndpoint<E, T> where E: Endpoint, T: Clone + TypeTag {
    type Output = E::Output;

    /// The outcome is that of the endpoint inside on the request with the
    /// value attached under the tag of `T`.
    open spec fn answers(&self, req: RequestView, out: Result<Self::Output, ChannelError>) -> bool {
        self.inner().answers(with_data(req, T::TAG@, self.attached()), out)
    }

    fn call(&self, req: Request) -> (out: Result<Self::Output, ChannelError>) {
        let mut req = req;
        req.extensions_mut().insert_tagged(T::TAG.to_owned(), self.value.share());
        self.inner.call(req)
    }
}

impl<E: Clone, T> Clone for AddDataEndpoint<E, T> {
    /// The clone attaches the same value around a clone of the endpoint
    /// inside.
    fn clone(&self) -> (c: Self)
        ensures
            c.attached() == self.attached(),
            call_ensures(E::clone, (&self.inner(),), c.inner()),
    {
        AddDataEndpoint { inner: self.inner.clone(), value: self.value.share(), marker: PhantomData }
    }
}

} // verus!
