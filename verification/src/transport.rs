//! What passes between an operation and the one who carries its requests
//! out.
//!
//! The sender is a function from a request to the body of the answer, as
//! text, or to a failure. The status of an answer is not the sender's
//! concern, nor that of this crate: a body that holds the resource asked for
//! is taken, whatever the status was, and any other body is a `Decode`
//! failure.

use crate::decode::Resource;
use crate::request::{Request, RequestView};
use crate::wire::{parse, parsed};
use vstd::prelude::*;

verus! {

/// Why an operation came to nothing.
#[derive(Clone, Copy, Debug, PartialEq, Eq, Structural)]
pub enum Error {
    /// The request could not be carried out: no connection, no answer in
    /// time, no secure channel.
    Transport,
    /// The body of the answer is not JSON, or not a document of the shape
    /// that was asked for.
    Decode,
}

/// The resource that the body of an answer holds: the body is JSON, and the
/// document has the shape of the resource.
pub open spec fn resource_in<T: Resource>(body: Seq<char>) -> Option<T::V> {
    match parsed(body) {
        Some(doc) => T::of_json(doc),
        None => None,
    }
}

/// What is to be made of an answer: the resource that its body holds, the
/// failure as it is where the answer is one, and `Decode` for a body that
/// holds no such resource.
pub open spec fn received<T: Resource>(r: Result<T, Error>, reply: Result<String, Error>) -> bool {
    match reply {
        Err(e) => r == Err::<T, Error>(e),
        Ok(body) => match resource_in::<T>(body@) {
            Some(model) => r matches Ok(value) && value@ == model,
            None => r == Err::<T, Error>(Error::Decode),
        },
    }
}

/// Reads the resource that an answer holds.
pub fn receive<T: Resource>(reply: Result<String, Error>) -> (r: Result<T, Error>)
    ensures
        received(r, reply),
{
    match reply {
        Ok(body) => match parse(body.as_str()) {
            Some(doc) => match T::decode(&doc) {
                Ok(value) => Ok(value),
                Err(_) => Err(Error::Decode),
            },
            None => Err(Error::Decode),
        },
        Err(e) => Err(e),
    }
}

/// `send` takes every request that reads as `request`.
pub open spec fn accepts<F: Fn(&Request) -> Result<String, Error>>(
    send: F,
    request: RequestView,
) -> bool {
    forall|r: &Request| r@ == request ==> #[trigger] call_requires(send, (r,))
}

/// `reply` is what `send` may give back for a request that reads as
/// `request`.
pub open spec fn answers<F: Fn(&Request) -> Result<String, Error>>(
    send: F,
    request: RequestView,
    reply: Result<String, Error>,
) -> bool {
    exists|r: &Request| r@ == request && #[trigger] call_ensures(send, (r,), reply)
}

} // verus!
