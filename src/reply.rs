use vstd::prelude::*;
use crate::user::Users;

verus! {

/// The HTTP reply to a request on the users resource.
#[derive(Clone, Debug)]
pub enum Reply {
    /// 200, with the user as body.
    Found(Users),
    /// 201, with the created user as body.
    Created(Users),
    /// 404, with an empty body.
    NotFound(String),
    /// 204, with no body.
    NoContent,
    /// 500, with the repository's error text as body.
    InternalError(String),
}

/// The status code of a reply.
pub open spec fn status_of(reply: Reply) -> u16 {
    match reply {
        Reply::Found(_) => 200,
        Reply::Created(_) => 201,
        Reply::NotFound(_) => 404,
        Reply::NoContent => 204,
        Reply::InternalError(_) => 500,
    }
}

/// The body of the reply to a lookup that found nothing: empty.
pub open spec fn not_found_text() -> Seq<char> {
    Seq::empty()
}

impl Reply {
    /// The HTTP status code of this reply.
    pub fn status(&self) -> (r: u16)
        ensures
            r == status_of(*self),
    {
        match self {
            Reply::Found(_) => 200,
            Reply::Created(_) => 201,
            Reply::NotFound(_) => 404,
            Reply::NoContent => 204,
            Reply::InternalError(_) => 500,
        }
    }
}

/// The reply to `GET /users/{id}`: the user when found, 404 with an empty body
/// when absent, 500
/// with the error text on failure.
pub fn get_user_reply(outcome: Result<Option<Users>, String>) -> (r: Reply)
    ensures
        match outcome {
            Ok(Some(u)) => r == Reply::Found(u),
            Ok(None) => r is NotFound && r->NotFound_0@ == not_found_text(),
            Err(e) => r == Reply::InternalError(e),
        },
{
    match outcome {
        Ok(Some(user)) => Reply::Found(user),
        Ok(None) => Reply::NotFound(String::new()),
        Err(e) => Reply::InternalError(e),
    }
}

/// The reply to `POST /users`: 201 with the created user, 500 with the error
/// text on failure.
pub fn create_user_reply(outcome: Result<Users, String>) -> (r: Reply)
    ensures
        match outcome {
            Ok(u) => r == Reply::Created(u),
            Err(e) => r == Reply::InternalError(e),
        },
{
    match outcome {
        Ok(user) => Reply::Created(user),
        Err(e) => Reply::InternalError(e),
    }
}

/// The reply to `PUT /users`: 200 with the updated user, 500 with the error
/// text on failure, a missing row included.
pub fn update_user_reply(outcome: Result<Users, String>) -> (r: Reply)
    ensures
        match outcome {
            Ok(u) => r == Reply::Found(u),
            Err(e) => r == Reply::InternalError(e),
        },
{
    match outcome {
        Ok(user) => Reply::Found(user),
        Err(e) => Reply::InternalError(e),
    }
}

/// The reply to `DELETE /users/{id}`: 204 on success, 500 with the error text
/// on failure.
pub fn delete_user_reply(outcome: Result<(), String>) -> (r: Reply)
    ensures
        match outcome {
            Ok(()) => r == Reply::NoContent,
            Err(e) => r == Reply::InternalError(e),
        },
{
    match outcome {
        Ok(()) => Reply::NoContent,
        Err(e) => Reply::InternalError(e),
    }
}

} // verus!
