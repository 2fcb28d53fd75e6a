use vstd::prelude::*;

use crate::db::table::Table;
use crate::handlers::HandlerError;

verus! {

/// The answer to a listing of tables.
#[derive(Clone, Debug, PartialEq, Eq)]
pub struct Response {
    pub tables: Vec<Table>,
}

/// Lists the tables: answered with the tables that the database holds, as
/// they were read.
pub fn handle_get(tables: Vec<Table>) -> (res: Result<Response, HandlerError>)
    ensures
        res is Ok,
        res->Ok_0.tables@ == tables@,
{
    Ok(Response { tables })
}

} // verus!
