use vstd::prelude::*;

use crate::server::number::{parse_u16, u16_value};

verus! {

/// Where the booking database is and how to log in to it.
#[derive(Clone, Debug, PartialEq, Eq)]
pub struct DbSettings {
    pub host: String,
    pub port: u16,
    pub dbname: String,
    pub user: String,
    pub pass: String,
}

/// The database settings from the values of the `host`, `port`, `dbname`,
/// `user` and `pass` entries of the settings file (`None` where an entry is
/// missing); `None` when one is missing or the port is no `u16`.
pub fn db_settings(
    host: Option<String>,
    port: Option<String>,
    dbname: Option<String>,
    user: Option<String>,
    pass: Option<String>,
) -> (res: Option<DbSettings>)
    ensures
        res is Some <==> (host is Some && port is Some && dbname is Some && user is Some && pass is Some
            && u16_value(port->0@) is Some),
        res matches Some(s) ==> (s.host@ == host->0@ && u16_value(port->0@) == Some(s.port as int)
            && s.dbname@ == dbname->0@ && s.user@ == user->0@ && s.pass@ == pass->0@),
{
    match (host, port, dbname, user, pass) {
        (Some(host), Some(port), Some(dbname), Some(user), Some(pass)) => {
            match parse_u16(port.as_str()) {
                Some(port) => Some(DbSettings { host, port, dbname, user, pass }),
                None => None,
            }
        },
        _ => None,
    }
}

} // verus!
