//! Typed requests against a REST API and their dispatch to a client's
//! transport primitives.
//!
//! A [`Request`] carries a target URL and an optional JSON body and is tagged,
//! in its type alone, with the action it stands for and the value it is
//! expected to yield. [`Retrievable`] hands such a request to the one
//! primitive of a client ([`Transport`], [`Fetch`]) that its action tag selects.

pub mod action;
pub mod request;
pub mod retrieve;

pub use action::{Action, Delete, Get, List, Post};
pub use request::Request;
pub use retrieve::{Fetch, Retrievable, Transport};
