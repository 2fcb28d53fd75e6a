pub mod book;
pub mod table;
pub mod user;

use vstd::prelude::*;

verus! {

/// A table that can be booked, and where it stands.
#[derive(Clone, Debug, PartialEq, Eq)]
pub struct Table {
    pub name: String,
    pub location: String,
}

impl Table {
    /// A table with this name and location, each converted into a `String`.
    pub fn new<T: Into<String>>(name: T, location: T) -> (res: Table)
        ensures
            call_ensures(T::into, (name,), res.name),
            call_ensures(T::into, (location,), res.location),
    {
        Table { name: name.into(), location: location.into() }
    }
}

/// A user of the booking service.
#[derive(Clone, Debug, PartialEq, Eq)]
pub struct Users {
    pub name: String,
}

/// A booking of a table: who owns it, when it starts and how long it lasts,
/// and whether others may join.
#[derive(Clone, Debug, PartialEq, Eq)]
pub struct Book {
    pub id: i32,
    pub start: usize,
    pub duration: i32,
    pub table_name: String,
    pub owner: String,
    pub public: bool,
}

} // verus!
