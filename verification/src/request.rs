//! The request container: a target URL, an optional body and two type-level
//! tags.

use vstd::prelude::*;
use std::marker::PhantomData;
use serde_json::Value;
use url::Url;
use crate::action::Action;

verus! {

/// `url::Url`, carried through as an opaque value.
#[verifier::external_type_specification]
#[verifier::external_body]
pub struct ExUrl(url::Url);

/// `serde_json::Value`, carried through as an opaque value.
#[verifier::external_type_specification]
#[verifier::external_body]
pub struct ExValue(serde_json::Value);

/// Calls `<url::Url as Clone>::clone`. `Url` derives `Clone` over its
/// serialization and the offsets into it, so the copy is the same URL as the
/// one it was made from.
#[verifier::external_body]
fn clone_url(target: &Url) -> (r: Url)
    ensures
        r == *target,
{
    target.clone()
}

/// `<serde_json::Value as Clone>::clone`. `Value` derives `Clone`, so the copy
/// is the same JSON value as the one it was made from.
pub assume_specification[ <serde_json::Value as Clone>::clone ](v: &serde_json::Value) -> (r:
    serde_json::Value)
    ensures
        r == *v,
;

/// A request for a value of type `R`, to be obtained by the action `A`.
///
/// Both tags live in the type only; the runtime content of a request is its
/// target and its body.
#[derive(Debug)]
pub struct Request<A, R> where A: Action {
    /// The endpoint to call.
    pub url: Url,
    /// The payload to send, if any.
    pub body: Option<Value>,
    pub action: PhantomData<A>,
    pub response_type: PhantomData<R>,
}

impl<A, R> Request<A, R> where A: Action {
    /// The request that targets `url` and has no body.
    pub open spec fn fresh(url: Url) -> Self {
        Request { url: url, body: None, action: PhantomData, response_type: PhantomData }
    }

    /// This request with its body replaced by `body`.
    pub open spec fn with_body(self, body: Value) -> Self {
        Request { body: Some(body), ..self }
    }

    /// This request with its target replaced by `url`.
    pub open spec fn with_url(self, url: Url) -> Self {
        Request { url: url, ..self }
    }

    /// Creates a request for `url` without a body.
    pub fn new(url: Url) -> (r: Self)
        ensures
            r == Self::fresh(url),
            r.url == url,
            r.body is None,
    {
        Request { url: url, body: None, action: PhantomData, response_type: PhantomData }
    }

    /// Sets the body, replacing an earlier one, and hands the request back
    /// for further configuration. The target is left as it was.
    pub fn body<'a>(&'a mut self, body: Value) -> (r: &'a mut Self)
        ensures
            *r == old(self).with_body(body),
            *final(self) == *final(r),
    {
        self.body = Some(body);
        self
    }

    /// Sets the target, replacing the earlier one, and hands the request back
    /// for further configuration. The body is left as it was.
    pub fn url<'a>(&'a mut self, url: Url) -> (r: &'a mut Self)
        ensures
            *r == old(self).with_url(url),
            *final(self) == *final(r),
    {
        self.url = url;
        self
    }
}

impl<A, R> Clone for Request<A, R> where A: Action {
    /// A copy with the same target, the same body and the same tags.
    fn clone(&self) -> (r: Self)
        ensures
            r == *self,
    {
        let body = match &self.body {
            Some(value) => Some(value.clone()),
            None => None,
        };
        Request {
            url: clone_url(&self.url),
            body: body,
            action: PhantomData,
            response_type: PhantomData,
        }
    }
}

/// Reading the body after setting it yields the value that was set, and the
/// target is the one from before. Setting the same body again changes nothing.
pub proof fn lemma_body_reads_back<A: Action, R>(request: Request<A, R>, body: Value)
    ensures
        request.with_body(body).body == Some(body),
        request.with_body(body).url == request.url,
        request.with_body(body).with_body(body) == request.with_body(body),
{
}

/// Of two bodies set one after the other only the second is left.
pub proof fn lemma_last_body_stays<A: Action, R>(request: Request<A, R>, first: Value, second: Value)
    ensures
        request.with_body(first).with_body(second) == request.with_body(second),
        request.with_body(first).with_body(second).body == Some(second),
{
}

/// Of two targets set one after the other only the second is left, and the
/// body is the one from before.
pub proof fn lemma_last_url_stays<A: Action, R>(request: Request<A, R>, first: Url, second: Url)
    ensures
        request.with_url(first).with_url(second) == request.with_url(second),
        request.with_url(first).with_url(second).url == second,
        request.with_url(first).with_url(second).body == request.body,
{
}

/// Setting the target and setting the body do not disturb each other: either
/// order gives the same request.
pub proof fn lemma_setters_commute<A: Action, R>(request: Request<A, R>, url: Url, body: Value)
    ensures
        request.with_url(url).with_body(body) == request.with_body(body).with_url(url),
{
}

} // verus!
