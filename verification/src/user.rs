use vstd::prelude::*;

verus! {

/// An identity record: a generated id and the username it was registered
/// under. Immutable after creation; equality is by id alone, never by name.
#[derive(Debug)]
pub struct User {
    pub id: u128,
    pub username: String,
}

impl User {
    /// Creates a user with a freshly generated id.
    pub fn new(username: String) -> (user: User)
        ensures
            user.username == username,
    {
        User { id: crate::ids::fresh_id(), username }
    }
}

impl PartialEq for User {
    fn eq(&self, other: &Self) -> bool {
        self.id == other.id
    }
}

impl vstd::std_specs::cmp::PartialEqSpecImpl for User {
    open spec fn obeys_eq_spec() -> bool {
        true
    }

    open spec fn eq_spec(&self, other: &Self) -> bool {
        self.id == other.id
    }
}

impl Clone for User {
    fn clone(&self) -> (r: Self)
        ensures
            r == *self,
    {
        User { id: self.id, username: self.username.clone() }
    }
}

} // verus!
