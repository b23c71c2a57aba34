//! Retrieval: routing a request to the transport primitive of its action.

use vstd::prelude::*;
use crate::action::{Delete, Get, List, Post};
use crate::request::Request;

verus! {

/// A client of the API. Its primitives do the network call and the decoding;
/// nothing is assumed of what they return.
pub trait Transport {
    /// What a primitive reports when it fails.
    type Error;

    /// Removes the resource that the request targets.
    fn delete(&self, request: &Request<Delete, ()>) -> Result<(), Self::Error>;
}

/// A client that can decode values of type `V`, and so offers the primitives
/// that yield them.
pub trait Fetch<V>: Transport {
    /// Fetches every value of a paginated collection, in order.
    fn list(&self, request: &Request<List, Vec<V>>) -> Result<Vec<V>, Self::Error>;

    /// Fetches one value.
    fn get(&self, request: &Request<Get, V>) -> Result<V, Self::Error>;

    /// Sends the request's body and fetches the value that comes back.
    fn post(&self, request: &Request<Post, V>) -> Result<V, Self::Error>;
}

/// A request that the client `C` can turn into a value of type `T`.
///
/// Each pair of an action tag and a response type that can be retrieved has
/// one impl, and each impl is bound to one primitive of the client:
///
/// | request                  | primitive | yields   |
/// |--------------------------|-----------|----------|
/// | `Request<List, Vec<V>>`  | `list`    | `Vec<V>` |
/// | `Request<Post, V>`       | `post`    | `V`      |
/// | `Request<Get, V>`        | `get`     | `V`      |
/// | `Request<Delete, ()>`    | `delete`  | `()`     |
pub trait Retrievable<T, C: Transport>: Sized {
    /// Whether `outcome` is something that the primitive of this request's
    /// action can return when `instance` is handed this request.
    spec fn delivers(&self, instance: &C, outcome: Result<T, C::Error>) -> bool;

    /// Carries the request out on `instance` and returns what the primitive
    /// returned, value or failure, as it came. The request itself is left as
    /// it was.
    fn retrieve(&mut self, instance: &C) -> (r: Result<T, C::Error>)
        ensures
            old(self).delivers(instance, r),
            *final(self) == *old(self),
    ;
}

impl<V, C> Retrievable<Vec<V>, C> for Request<List, Vec<V>> where C: Fetch<V> {
    /// The outcomes of `list` on this request.
    open spec fn delivers(&self, instance: &C, outcome: Result<Vec<V>, C::Error>) -> bool {
        call_ensures(C::list, (instance, self), outcome)
    }

    /// Hands the request to `list` and to no other primitive.
    fn retrieve(&mut self, instance: &C) -> (r: Result<Vec<V>, C::Error>)
        ensures
            call_ensures(C::list, (instance, &*old(self)), r),
    {
        instance.list(self)
    }
}

impl<V, C> Retrievable<V, C> for Request<Post, V> where C: Fetch<V> {
    /// The outcomes of `post` on this request.
    open spec fn delivers(&self, instance: &C, outcome: Result<V, C::Error>) -> bool {
        call_ensures(C::post, (instance, self), outcome)
    }

    /// Hands the request to `post` and to no other primitive.
    fn retrieve(&mut self, instance: &C) -> (r: Result<V, C::Error>)
        ensures
            call_ensures(C::post, (instance, &*old(self)), r),
    {
        instance.post(self)
    }
}

impl<V, C> Retrievable<V, C> for Request<Get, V> where C: Fetch<V> {
    /// The outcomes of `get` on this request.
    open spec fn delivers(&self, instance: &C, outcome: Result<V, C::Error>) -> bool {
        call_ensures(C::get, (instance, self), outcome)
    }

    /// Hands the request to `get` and to no other primitive.
    fn retrieve(&mut self, instance: &C) -> (r: Result<V, C::Error>)
        ensures
            call_ensures(C::get, (instance, &*old(self)), r),
    {
        instance.get(self)
    }
}

impl<C> Retrievable<(), C> for Request<Delete, ()> where C: Transport {
    /// The outcomes of `delete` on this request.
    open spec fn delivers(&self, instance: &C, outcome: Result<(), C::Error>) -> bool {
        call_ensures(C::delete, (instance, self), outcome)
    }

    /// Hands the request to `delete` and to no other primitive.
    fn retrieve(&mut self, instance: &C) -> (r: Result<(), C::Error>)
        ensures
            call_ensures(C::delete, (instance, &*old(self)), r),
    {
        instance.delete(self)
    }
}

} // verus!
