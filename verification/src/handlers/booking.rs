use vstd::prelude::*;

use crate::handlers::HandlerError;

verus! {

/// The answer to a listing of bookings.
#[derive(Clone, Debug, PartialEq, Eq, Structural)]
pub struct Response {}

/// A request to book `table` for `owner`, inviting the users in `invite`.
#[derive(Clone, Debug, PartialEq, Eq)]
pub struct CreateRequest {
    pub table: String,
    pub owner: String,
    pub invite: Vec<String>,
}

/// The answer to a booking request: the new booking's id and a status text.
#[derive(Clone, Debug, PartialEq, Eq)]
pub struct CreateResponse {
    pub id: i32,
    pub status: String,
}

/// The answer to the removal of a booking.
#[derive(Clone, Debug, PartialEq, Eq, Structural)]
pub struct DeleteResponse {}

/// A request by the user `login` to join the booking `booking_id`.
#[derive(Clone, Debug, PartialEq, Eq)]
pub struct JoinRequest {
    pub booking_id: i32,
    pub login: String,
}

/// The answer to a request to join a booking.
#[derive(Clone, Debug, PartialEq, Eq)]
pub struct JoinResponse {
    pub status: String,
}

/// A request by the user `login` to decline the booking `booking_id`.
#[derive(Clone, Debug, PartialEq, Eq)]
pub struct DeclineRequest {
    pub booking_id: i32,
    pub login: String,
}

/// The answer to a request to decline a booking.
#[derive(Clone, Debug, PartialEq, Eq)]
pub struct DeclineResponse {
    pub status: String,
}

/// The answer to a request for one booking.
#[derive(Clone, Debug, PartialEq, Eq, Structural)]
pub struct ItemResponse {}

/// Lists the bookings of `table` between `from` and `to`: answered with an
/// empty listing.
pub fn handle_get(table: &str, from: i64, to: i64) -> (res: Result<Response, HandlerError>)
    ensures
        res is Ok,
{
    Ok(Response {})
}

/// Books a table: answered with id 0 and an empty status.
pub fn handle_create(req: CreateRequest) -> (res: Result<CreateResponse, HandlerError>)
    ensures
        res is Ok,
        res->Ok_0.id == 0,
        res->Ok_0.status@ == Seq::<char>::empty(),
{
    Ok(CreateResponse { id: 0, status: String::new() })
}

/// Removes the booking `id`: answered with an empty answer.
pub fn handle_delete(id: i32) -> (res: Result<DeleteResponse, HandlerError>)
    ensures
        res is Ok,
{
    Ok(DeleteResponse {})
}

/// Joins a booking: answered with an empty status.
pub fn handle_join(req: JoinRequest) -> (res: Result<JoinResponse, HandlerError>)
    ensures
        res is Ok,
        res->Ok_0.status@ == Seq::<char>::empty(),
{
    Ok(JoinResponse { status: String::new() })
}

/// Declines a booking: answered with an empty status.
pub fn handle_decline(req: DeclineRequest) -> (res: Result<DeclineResponse, HandlerError>)
    ensures
        res is Ok,
        res->Ok_0.status@ == Seq::<char>::empty(),
{
    Ok(DeclineResponse { status: String::new() })
}

/// Shows the booking `id`: answered with an empty answer.
pub fn handle_item(id: i32) -> (res: Result<ItemResponse, HandlerError>)
    ensures
        res is Ok,
{
    Ok(ItemResponse {})
}

} // verus!
