//! The answer to each verb, given what the backend said.
//!
//! | verb   | backend operation | success               | not found | other failure |
//! |--------|-------------------|-----------------------|-----------|---------------|
//! | HEAD   | exists            | 200 present, 404 absent | 404     | 500           |
//! | GET    | read              | 200 and the bytes     | 404       | 500           |
//! | PUT    | write             | 200                   | -         | 500           |
//! | DELETE | delete            | 200                   | 404       | 500           |
//!
//! Every request makes one backend call, and nothing is retried.

use vstd::prelude::*;

use crate::error::ErrorKind;

verus! {

/// The three status codes that the adapter answers with.
#[derive(Clone, Copy, Debug, PartialEq, Eq, Hash, Structural)]
pub enum Status {
    /// 200: the operation succeeded.
    Success,
    /// 404: no entry is stored under the key.
    NotFound,
    /// 500: the backend failed.
    InternalServerError,
}

impl Status {
    /// The number of the status code.
    pub open spec fn spec_code(self) -> u16 {
        match self {
            Status::Success => 200,
            Status::NotFound => 404,
            Status::InternalServerError => 500,
        }
    }

    /// The number of the status code.
    #[verifier::when_used_as_spec(spec_code)]
    pub fn code(self) -> (code: u16)
        ensures
            code == self.spec_code(),
    {
        match self {
            Status::Success => 200,
            Status::NotFound => 404,
            Status::InternalServerError => 500,
        }
    }
}

/// A status code together with a body.
#[derive(Debug, PartialEq, Eq)]
pub struct Reply {
    pub status: Status,
    pub body: Vec<u8>,
}

/// A reply as a mathematical value.
pub struct ReplyView {
    pub status: Status,
    pub body: Seq<u8>,
}

impl View for Reply {
    type V = ReplyView;

    open spec fn view(&self) -> ReplyView {
        ReplyView { status: self.status, body: self.body@ }
    }
}

/// What a read returned, with the bytes as a sequence.
pub open spec fn read_view(read: Result<Vec<u8>, ErrorKind>) -> Result<Seq<u8>, ErrorKind> {
    match read {
        Ok(bytes) => Ok(bytes@),
        Err(kind) => Err(kind),
    }
}

/// The status of `HEAD`: 200 for a present entry, 404 for an absent one,
/// whether the backend says so by its answer or by a not-found error, 500 for
/// any other failure.
pub open spec fn head_status(found: Result<bool, ErrorKind>) -> Status {
    match found {
        Ok(present) => if present {
            Status::Success
        } else {
            Status::NotFound
        },
        Err(kind) => if kind is NotFound {
            Status::NotFound
        } else {
            Status::InternalServerError
        },
    }
}

/// The reply to `GET`: 200 with the stored bytes, 404 with an empty body for
/// a missing entry, 500 with an empty body for any other failure.
pub open spec fn get_reply(read: Result<Seq<u8>, ErrorKind>) -> ReplyView {
    match read {
        Ok(bytes) => ReplyView { status: Status::Success, body: bytes },
        Err(kind) => ReplyView {
            status: if kind is NotFound {
                Status::NotFound
            } else {
                Status::InternalServerError
            },
            body: Seq::empty(),
        },
    }
}

/// The status of `PUT`: 200 once the body is stored, 500 for any failure.
pub open spec fn put_status(written: Result<(), ErrorKind>) -> Status {
    match written {
        Ok(_) => Status::Success,
        Err(_) => Status::InternalServerError,
    }
}

/// The status of `DELETE`: 200 once the entry is gone, 404 for a missing
/// entry, 500 for any other failure.
pub open spec fn delete_status(deleted: Result<(), ErrorKind>) -> Status {
    match deleted {
        Ok(_) => Status::Success,
        Err(kind) => if kind is NotFound {
            Status::NotFound
        } else {
            Status::InternalServerError
        },
    }
}

/// The text served at the root path.
pub const BANNER: &'static str =
    "ccache GHAC adapter\n\nUse HEAD, GET, PUT, DELETE on any path to interact with the cache.";

/// Answers `GET /` with the usage banner, whatever the cache holds.
pub fn root() -> (banner: &'static str)
    ensures
        banner@ == BANNER@,
{
    BANNER
}

/// Answers `HEAD` from the result of asking the backend whether the entry
/// exists.
///
/// An absent entry is 404, whether the backend answers `Ok(false)` or fails
/// with a not-found error. Every other failure is 500: neither is ever taken
/// for the other.
pub fn ccache_head(found: Result<bool, ErrorKind>) -> (status: Status)
    ensures
        status == head_status(found),
        found matches Ok(present) ==> (status is Success <==> present) && (status is NotFound
            <==> !present),
        found matches Err(kind) ==> (status is NotFound <==> kind is NotFound) && (status
            is InternalServerError <==> !(kind is NotFound)),
{
    match found {
        Ok(true) => Status::Success,
        Ok(false) => Status::NotFound,
        Err(kind) => if kind.is_not_found() {
            Status::NotFound
        } else {
            Status::InternalServerError
        },
    }
}

/// Answers `GET` from the result of reading the entry.
///
/// The stored bytes pass through unchanged. A failure never carries a body.
/// Only a missing entry is reported as 404, and every other failure of the
/// backend as 500: neither is ever taken for the other.
pub fn ccache_get(read: Result<Vec<u8>, ErrorKind>) -> (reply: Reply)
    ensures
        reply@ == get_reply(read_view(read)),
        read matches Ok(bytes) ==> reply.status is Success && reply.body@ == bytes@,
        read matches Err(kind) ==> reply.body@.len() == 0 && (reply.status is NotFound
            <==> kind is NotFound) && (reply.status is InternalServerError <==> !(kind
            is NotFound)),
{
    match read {
        Ok(bytes) => Reply { status: Status::Success, body: bytes },
        Err(kind) => {
            let status = if kind.is_not_found() {
                Status::NotFound
            } else {
                Status::InternalServerError
            };
            Reply { status, body: Vec::new() }
        },
    }
}

/// Answers `PUT` from the result of writing the body.
///
/// A missing entry is no error for a write, so every failure is a failure of
/// the backend.
pub fn ccache_put(written: Result<(), ErrorKind>) -> (status: Status)
    ensures
        status == put_status(written),
        written is Ok <==> status is Success,
        written is Err <==> status is InternalServerError,
{
    match written {
        Ok(_) => Status::Success,
        Err(_) => Status::InternalServerError,
    }
}

/// Answers `DELETE` from the result of deleting the entry.
pub fn ccache_delete(deleted: Result<(), ErrorKind>) -> (status: Status)
    ensures
        status == delete_status(deleted),
        deleted is Ok <==> status is Success,
        deleted matches Err(kind) ==> (status is NotFound <==> kind is NotFound) && (status
            is InternalServerError <==> !(kind is NotFound)),
{
    match deleted {
        Ok(_) => Status::Success,
        Err(kind) => if kind.is_not_found() {
            Status::NotFound
        } else {
            Status::InternalServerError
        },
    }
}

} // verus!
