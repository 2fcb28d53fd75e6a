use vstd::prelude::*;

verus! {

/// A table that can be booked, and where it stands.
#[derive(Clone, Debug, PartialEq, Eq)]
pub struct Table {
    pub name: String,
    pub location: String,
}

impl Table {
    /// A table with this name and location, each converted into a `String`.
    pub fn new<T: Into<String>>(name: T, location: T) -> (res: Table)
        ensures
            call_ensures(T::into, (name,), res.name),
            call_ensures(T::into, (location,), res.location),
    {
        Table { name: name.into(), location: location.into() }
    }
}

/// Whether `table` holds the `(name, location)` of `row`.
pub open spec fn table_of_row(table: Table, row: (String, String)) -> bool {
    table.name@ == row.0@ && table.location@ == row.1@
}

/// The table that the first of the `(name, location)` rows that a lookup
/// returned describes; `None` when the lookup found none.
pub fn find_table(rows: &Vec<(String, String)>) -> (res: Option<Table>)
    ensures
        res is None <==> rows@.len() == 0,
        res matches Some(t) ==> table_of_row(t, rows@[0]),
{
    if rows.len() == 0 {
        None
    } else {
        let row = &rows[0];
        Some(Table { name: row.0.clone(), location: row.1.clone() })
    }
}

/// The tables that the `(name, location)` rows describe, one per row and in
/// the same order.
pub fn tables(rows: &Vec<(String, String)>) -> (res: Vec<Table>)
    ensures
        res@.len() == rows@.len(),
        forall|i: int| 0 <= i < rows@.len() ==> table_of_row(#[trigger] res@[i], rows@[i]),
{
    let mut result: Vec<Table> = Vec::new();
    let mut i: usize = 0;
    while i < rows.len()
        invariant
            i <= rows@.len(),
            result@.len() == i,
            forall|j: int| 0 <= j < i ==> table_of_row(#[trigger] result@[j], rows@[j]),
        decreases rows@.len() - i,
    {
        let row = &rows[i];
        result.push(Table { name: row.0.clone(), location: row.1.clone() });
        i = i + 1;
    }
    result
}

} // verus!
