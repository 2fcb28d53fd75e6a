use vstd::prelude::*;

verus! {

/// The games that a table is for.
#[derive(Clone, Copy, Debug, PartialEq, Eq, Structural)]
pub enum GameType {
    Kicker,
    Pool,
    PingPong,
}

/// Where a lobby stands.
#[derive(Clone, Copy, Debug, PartialEq, Eq, Structural)]
pub enum LobbyStatus {
    Draft,
    Approved,
    Declined,
}

} // verus!
