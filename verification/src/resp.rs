//! The uniform response envelope `{code, msg, data}`. Code 0 means success
//! with `msg == "OK"`; code -1 means failure with a human-readable message.
//! Every request terminates by producing exactly one envelope; errors are
//! reported through `code`, not through the transport status.

use vstd::prelude::*;
use crate::err::Error;

verus! {

/// The response envelope returned for every API call.
pub struct Resp<T> {
    pub code: i32,
    pub msg: String,
    pub data: T,
}

impl<T> Resp<T> {
    /// A success envelope: code 0, message "OK", the given payload.
    pub fn ok(data: T) -> (r: Self)
        ensures
            r.code == 0,
            r.msg@ == "OK"@,
            r.data == data,
    {
        Resp { code: 0, msg: "OK".to_owned(), data }
    }
}

impl Resp<()> {
    /// A success envelope with an empty payload.
    pub fn ok_empty() -> (r: Self)
        ensures
            r.code == 0,
            r.msg@ == "OK"@,
    {
        Resp::<()>::ok(())
    }

    /// A failure envelope: code -1, the error's message, empty payload.
    pub fn err(e: Error) -> (r: Self)
        ensures
            r.code == -1,
            r.msg@ == e.msg_view(),
    {
        Resp { code: -1, msg: e.msg(), data: () }
    }
}

} // verus!
