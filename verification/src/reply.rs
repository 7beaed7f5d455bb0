//! The replies that the handlers give: a status code with a text, or with a
//! value that the transport layer sends as JSON.

use vstd::prelude::*;

verus! {

/// Status of a successful reply.
pub const OK: u16 = 200;

/// Status of a rejected cross-origin request.
pub const FORBIDDEN: u16 = 403;

/// Status of a request that no route matched.
pub const NOT_FOUND: u16 = 404;

/// Status of every failure raised by a handler: a missing or malformed
/// range, a range outside the list, and a missing question alike.
pub const RANGE_NOT_SATISFIABLE: u16 = 416;

/// Status of a request whose body could not be deserialised.
pub const UNPROCESSABLE_ENTITY: u16 = 422;

/// A status code with a plain-text body.
#[derive(Debug)]
pub struct Reply {
    pub status: u16,
    pub body: String,
}

/// A status code with a value; the body is the value's JSON encoding.
#[derive(Debug)]
pub struct JsonReply<T> {
    pub status: u16,
    pub value: T,
}

impl Reply {
    /// The confirmation of a request that was carried out.
    pub fn confirmation(text: &str) -> (reply: Self)
        ensures
            reply.status == OK,
            reply.body@ == text@,
    {
        Reply { status: OK, body: text.to_owned() }
    }
}

impl<T> JsonReply<T> {
    /// The successful reply that carries `value`.
    pub fn ok(value: T) -> (reply: Self)
        ensures
            reply.status == OK,
            reply.value == value,
    {
        JsonReply { status: OK, value }
    }
}

} // verus!
