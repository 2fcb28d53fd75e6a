use vstd::prelude::*;

verus! {

/// A user of the booking service.
#[derive(Clone, Debug, PartialEq, Eq)]
pub struct User {
    pub name: String,
}

/// The user that the first of the names that a lookup returned belongs to;
/// `None` when the lookup found none.
pub fn find_user(names: &Vec<String>) -> (res: Option<User>)
    ensures
        res is None <==> names@.len() == 0,
        res matches Some(u) ==> u.name@ == names@[0]@,
{
    if names.len() == 0 {
        None
    } else {
        Some(User { name: names[0].clone() })
    }
}

} // verus!
