pub mod number;
pub mod query;
pub mod routes;
pub mod settings;

use vstd::prelude::*;

verus! {

/// The one-field document that the server answers with when a request fails.
pub struct Status {
    pub status: String,
}

impl Status {
    /// A status whose text is `status` converted into a `String`.
    pub fn new<T: Into<String>>(status: T) -> (res: Status)
        ensures
            call_ensures(T::into, (status,), res.status),
    {
        Status { status: status.into() }
    }
}

} // verus!
