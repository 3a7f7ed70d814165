//! The route table: exact-match dispatch from a URI to its handler.

use crate::endpoint::BoxEndpoint;
use crate::endpoint::Endpoint;
use crate::error::ChannelError;
use crate::error::ErrorKind;
use crate::error::ErrorView;
use crate::request::Request;
use crate::request::RequestView;
use crate::response::Response;
use ahash::AHashMap;
use vstd::prelude::*;

verus! {

/// `ahash::RandomState`: the hasher of an `AHashMap`.
#[verifier::external_type_specification]
#[verifier::external_body]
pub struct ExRandomState(ahash::RandomState);

/// `ahash::AHashMap`: a hash map. What one from paths to positions holds
/// is `index_contents`.
#[verifier::external_type_specification]
#[verifier::external_body]
#[verifier::reject_recursive_types(K)]
#[verifier::reject_recursive_types(V)]
#[verifier::reject_recursive_types(S)]
pub struct ExAHashMap<K, V, S>(ahash::AHashMap<K, V, S>);

/// What a hash map from paths to positions holds: the position kept under
/// each path, by the text of the path.
pub uninterp spec fn index_contents(m: AHashMap<&'static str, usize>) -> Map<Seq<char>, usize>;

/// The contents of a map that holds nothing.
pub open spec fn empty_index() -> Map<Seq<char>, usize> {
    Map::empty()
}

/// `AHashMap::new` makes a map that holds nothing.
#[verifier::external_body]
fn index_new() -> (m: AHashMap<&'static str, usize>)
    ensures
        index_contents(m) == empty_index(),
{
    AHashMap::new()
}

/// `AHashMap::get` finds the value kept under a key equal to the one
/// given, and finds nothing where no such key is held.
#[verifier::external_body]
fn index_get(m: &AHashMap<&'static str, usize>, path: &str) -> (r: Option<usize>)
    ensures
        r is Some == index_contents(*m).contains_key(path@),
        r is Some ==> r->0 == index_contents(*m)[path@],
{
    m.get(path).copied()
}

/// `AHashMap::insert` keeps the value under the key, in place of any value
/// that was kept under an equal key, and leaves the other keys alone.
#[verifier::external_body]
fn index_insert(m: &mut AHashMap<&'static str, usize>, path: &'static str, at: usize)
    ensures
        index_contents(*final(m)) == index_contents(*old(m)).insert(path@, at),
{
    m.insert(path, at);
}

/// `AHashMap::clone` makes a map that holds the same pairs.
#[verifier::external_body]
fn index_clone(m: &AHashMap<&'static str, usize>) -> (c: AHashMap<&'static str, usize>)
    ensures
        index_contents(c) == index_contents(*m),
{
    m.clone()
}

/// A table from URIs to handlers, built before the broker starts and read
/// thereafter.
pub struct Route<E = BoxEndpoint> {
    index: AHashMap<&'static str, usize>,
    handlers: Vec<E>,
}

/// The error for a URI that has no handler.
pub open spec fn path_not_found(uri: Seq<char>) -> ErrorView {
    ErrorView { kind: ErrorKind::PathNotFoundError, detail: uri }
}

impl<E> Route<E> {
    #[verifier::type_invariant]
    spec fn well_formed(self) -> bool {
        forall|path: Seq<char>| #[trigger]
            index_contents(self.index).contains_key(path) ==> index_contents(self.index)[path]
                < self.handlers@.len()
    }

    /// The URIs that have a handler.
    pub closed spec fn paths(&self) -> Set<Seq<char>> {
        index_contents(self.index).dom()
    }

    /// The handler registered under a URI that has one.
    pub closed spec fn handler(&self, path: Seq<char>) -> E {
        self.handlers@[index_contents(self.index)[path] as int]
    }

    /// A table without handlers.
    pub fn new() -> (r: Route<E>)
        ensures
            r.paths() == Set::<Seq<char>>::empty(),
    {
        let r = Route { index: index_new(), handlers: Vec::new() };
        assert(r.paths() =~= Set::<Seq<char>>::empty());
        r
    }

    /// Whether a handler is registered under the URI.
    pub fn contains(&self, path: &str) -> (b: bool)
        ensures
            b == self.paths().contains(path@),
    {
        index_get(&self.index, path).is_some()
    }

    /// Registers the handler under the URI. A URI is registered once: a
    /// second registration is a mistake of the program, which `contains`
    /// lets the caller rule out.
    #[must_use]
    pub fn at(self, path: &'static str, ep: E) -> (r: Route<E>)
        requires
            !self.paths().contains(path@),
        ensures
            r.paths() == self.paths().insert(path@),
            r.handler(path@) == ep,
            forall|other: Seq<char>| #[trigger]
                self.paths().contains(other) ==> r.handler(other) == self.handler(other),
    {
        proof {
            use_type_invariant(&self);
        }
        let Route { index, handlers } = self;
        let mut index = index;
        let mut handlers = handlers;
        let at = handlers.len();
        handlers.push(ep);
        index_insert(&mut index, path, at);
        let r = Route { index, handlers };
        assert(r.paths() =~= self.paths().insert(path@));
        r
    }
}

impl<E: Clone> Clone for Route<E> {
    /// The same URIs, each with a clone of its handler.
    fn clone(&self) -> (r: Route<E>)
        ensures
            r.paths() == self.paths(),
            forall|path: Seq<char>| #[trigger]
                self.paths().contains(path) ==> call_ensures(
                    E::clone,
                    (&self.handler(path),),
                    r.handler(path),
                ),
    {
        proof {
            use_type_invariant(self);
        }
        let mut handlers: Vec<E> = Vec::new();
        let mut i: usize = 0;
        while i < self.handlers.len()
            invariant
                i <= self.handlers@.len(),
                handlers@.len() == i,
                forall|k: int|
                    0 <= k < i ==> call_ensures(
                        E::clone,
                        (&self.handlers@[k],),
                        #[trigger] handlers@[k],
                    ),
            decreases self.handlers@.len() - i,
        {
            handlers.push(self.handlers[i].clone());
            i += 1;
        }
        Route { index: index_clone(&self.index), handlers }
    }
}

impl<E> Default for Route<E> {
    fn default() -> (r: Route<E>)
        ensures
            r.paths() == Set::<Seq<char>>::empty(),
    {
        Route::new()
    }
}

impl<E: Endpoint<Output = Response>> Endpoint for Route<E> {
    type Output = Response;

    /// A request for a registered URI is answered by its handler; any
    /// other is refused with `PathNotFoundError` carrying the URI.
    open spec fn answers(&self, req: RequestView, out: Result<Response, ChannelError>) -> bool {
        if self.paths().contains(req.uri) {
            self.handler(req.uri).answers(req, out)
        } else {
            out is Err && out->Err_0@ == path_not_found(req.uri)
        }
    }

    fn call(&self, req: Request) -> (out: Result<Response, ChannelError>) {
        proof {
            use_type_invariant(self);
        }
        match index_get(&self.index, req.uri_ref()) {
            Some(i) => self.handlers[i].call(req),
            None => Err(ChannelError::PathNotFoundError(req.uri_ref().to_owned())),
        }
    }
}

} // verus!
