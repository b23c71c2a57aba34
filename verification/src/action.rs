//! The action tags: compile-time markers that select a transport primitive.

use vstd::prelude::*;

verus! {

/// Marks a type as an action tag. A tag holds no data: it only selects,
/// through the type of a request, the primitive that the request is routed to.
pub trait Action {
}

/// Tag of a request that yields every value of a paginated collection.
#[derive(Debug, Clone, Copy, PartialEq, Eq)]
pub struct List;

/// Tag of a request that yields one value.
#[derive(Debug, Clone, Copy, PartialEq, Eq)]
pub struct Get;

/// Tag of a request that sends a body and yields one value.
#[derive(Debug, Clone, Copy, PartialEq, Eq)]
pub struct Post;

/// Tag of a request that removes a resource and yields nothing.
#[derive(Debug, Clone, Copy, PartialEq, Eq)]
pub struct Delete;

impl Action for List {
}

impl Action for Get {
}

impl Action for Post {
}

impl Action for Delete {
}

} // verus!
