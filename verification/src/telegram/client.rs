use vstd::prelude::*;

verus! {

/// The booking server's answer to a listing of bookings.
#[derive(Clone, Debug, PartialEq, Eq, Structural)]
pub struct BookingListResponse {}

/// What the bot sends to book `table` for `owner`, inviting `invite`.
#[derive(Clone, Debug, PartialEq, Eq)]
pub struct CreateBookingRequest {
    pub table: String,
    pub owner: String,
    pub invite: Vec<String>,
}

/// The booking server's answer to a booking request.
#[derive(Clone, Debug, PartialEq, Eq)]
pub struct CreateBookingResponse {
    pub id: i32,
    pub status: String,
}

} // verus!
