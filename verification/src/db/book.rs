use vstd::prelude::*;

verus! {

/// A booking as the database stores it: its start as a UTC instant
/// (seconds and nanoseconds since the Unix epoch) and its duration (seconds
/// and nanoseconds).
#[derive(Clone, Debug, PartialEq, Eq)]
pub struct Book {
    pub id: u64,
    pub start_secs: i64,
    pub start_nanos: u32,
    pub duration_secs: u64,
    pub duration_nanos: u32,
    pub table_name: String,
    pub owner: String,
    pub public: bool,
}

} // verus!
