use crate::user::User;
use vstd::prelude::*;

verus! {

/// An immutable post: a generated id, the author it was accepted from, the
/// text, and the time of capture in milliseconds since the Unix epoch.
/// Equality is by id alone.
#[derive(Debug)]
pub struct Message {
    pub id: u128,
    pub author: User,
    pub content: String,
    pub timestamp: u64,
}

impl Message {
    /// Creates a message with a freshly generated id, stamped with the
    /// current time.
    pub fn new(author: User, content: String) -> (message: Message)
        ensures
            message.author == author,
            message.content == content,
    {
        Message {
            id: crate::ids::fresh_id(),
            author,
            content,
            timestamp: crate::clock::now_millis(),
        }
    }
}

impl PartialEq for Message {
    fn eq(&self, other: &Self) -> bool {
        self.id == other.id
    }
}

impl vstd::std_specs::cmp::PartialEqSpecImpl for Message {
    open spec fn obeys_eq_spec() -> bool {
        true
    }

    open spec fn eq_spec(&self, other: &Self) -> bool {
        self.id == other.id
    }
}

impl Clone for Message {
    fn clone(&self) -> (r: Self)
        ensures
            r == *self,
    {
        Message {
            id: self.id,
            author: self.author.clone(),
            content: self.content.clone(),
            timestamp: self.timestamp,
        }
    }
}

} // verus!
