use vstd::prelude::*;

use crate::db::user::User;
use crate::handlers::HandlerError;

verus! {

/// The answer to a lookup of a user.
#[derive(Clone, Debug, PartialEq, Eq)]
pub struct Response {
    pub name: User,
}

/// A request to register the user `name`.
#[derive(Clone, Debug, PartialEq, Eq)]
pub struct CreateRequest {
    pub name: String,
}

/// The answer to the registration of a user.
#[derive(Clone, Debug, PartialEq, Eq, Structural)]
pub struct CreateResponse {}

/// Answers a lookup of a user with what the database found: the user, or
/// `UserNotFound` when there is none.
pub fn handle_get(found: Option<User>) -> (res: Result<Response, HandlerError>)
    ensures
        res is Ok <==> found is Some,
        found matches Some(u) ==> res is Ok && res->Ok_0.name == u,
        found is None ==> res == Err::<Response, HandlerError>(HandlerError::UserNotFound),
{
    match found {
        Some(user) => Ok(Response { name: user }),
        None => Err(HandlerError::UserNotFound),
    }
}

/// Registers a user: answered with an empty answer.
pub fn handle_create(req: CreateRequest) -> (res: Result<CreateResponse, HandlerError>)
    ensures
        res is Ok,
{
    Ok(CreateResponse {})
}

} // verus!
