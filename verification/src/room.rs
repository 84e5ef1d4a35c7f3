use crate::message::Message;
use crate::user::User;
use vstd::prelude::*;

verus! {

/// A named collection of member users and posted messages. Members are kept
/// in join order without duplicate ids; messages are append-only, in arrival
/// order, and posting is gated on the author's membership.
#[derive(Debug)]
pub struct Room {
    pub id: u128,
    pub name: String,
    pub users: Vec<User>,
    pub messages: Vec<Message>,
}

impl Room {
    /// A user id is a member exactly when some member record carries it.
    pub open spec fn spec_has_member(self, user_id: u128) -> bool {
        exists|i: int| 0 <= i < self.users@.len() && self.users@[i].id == user_id
    }

    /// Member records never repeat an id.
    pub open spec fn members_distinct(self) -> bool {
        forall|i: int, j: int|
            0 <= i < j < self.users@.len() ==> self.users@[i].id != self.users@[j].id
    }

    /// Every recorded message carries an author who is a member. Membership
    /// is checked when a message is accepted, and the store never removes
    /// members, so the property persists.
    pub open spec fn authors_are_members(self) -> bool {
        forall|i: int|
            0 <= i < self.messages@.len() ==> self.spec_has_member(
                #[trigger] self.messages@[i].author.id,
            )
    }

    /// Message timestamps never decrease along the room's sequence:
    /// messages are accepted one at a time under the store's
    /// serialization, in arrival order.
    pub open spec fn timestamps_monotone(self) -> bool {
        forall|i: int, j: int|
            0 <= i < j < self.messages@.len() ==> self.messages@[i].timestamp
                <= self.messages@[j].timestamp
    }

    /// The room's own consistency: no duplicate members. Whether message
    /// authors are still members is the store's affair, since only the
    /// store decides when members may leave.
    pub open spec fn wf(self) -> bool {
        self.members_distinct()
    }

    /// Creates an empty room with a freshly generated id.
    pub fn new(name: String) -> (room: Room)
        ensures
            room.name == name,
            room.users@ == Seq::<User>::empty(),
            room.messages@ == Seq::<Message>::empty(),
            room.wf(),
    {
        Room {
            id: crate::ids::fresh_id(),
            name,
            users: Vec::new(),
            messages: Vec::new(),
        }
    }

    /// Membership test by identity: true exactly when some member carries
    /// the given user's id, whatever the other fields hold.
    pub fn is_user_in_room(&self, user: &User) -> (r: bool)
        ensures
            r == self.spec_has_member(user.id),
    {
        let mut i: usize = 0;
        while i < self.users.len()
            invariant
                i <= self.users@.len(),
                forall|k: int| 0 <= k < i ==> self.users@[k].id != user.id,
            decreases self.users@.len() - i,
        {
            if self.users[i].id == user.id {
                return true;
            }
            i = i + 1;
        }
        false
    }

    /// Adds a member. Fails exactly when a member with the same id is
    /// already present; re-adding is an error, not a no-op.
    pub fn add_user_to_room(&mut self, user: User) -> (r: Result<(), &'static str>)
        ensures
            old(self).spec_has_member(user.id) ==> {
                &&& r matches Err(m) && m@ == "User is already in the room"@
                &&& *final(self) == *old(self)
            },
            !old(self).spec_has_member(user.id) ==> {
                &&& r is Ok
                &&& final(self).users@ == old(self).users@.push(user)
                &&& final(self).messages == old(self).messages
                &&& final(self).name == old(self).name
                &&& final(self).id == old(self).id
            },
            old(self).wf() ==> final(self).wf(),
    {
        if self.is_user_in_room(&user) {
            return Err("User is already in the room");
        }

        self.users.push(user);
        Ok(())
    }

    /// Removes a member. Fails exactly when no member carries the id; on
    /// success the remaining members keep their order.
    pub fn remove_user_from_room(&mut self, user: &User) -> (r: Result<(), &'static str>)
        ensures
            !old(self).spec_has_member(user.id) ==> {
                &&& r matches Err(m) && m@ == "User is not in the room"@
                &&& *final(self) == *old(self)
            },
            old(self).spec_has_member(user.id) ==> {
                &&& r is Ok
                &&& final(self).users@ == old(self).users@.filter(|u: User| u.id != user.id)
                &&& final(self).messages == old(self).messages
                &&& final(self).name == old(self).name
                &&& final(self).id == old(self).id
            },
            old(self).wf() ==> final(self).wf(),
    {
        if !self.is_user_in_room(user) {
            return Err("User is not in the room");
        }

        let mut kept: Vec<User> = Vec::new();
        let mut i: usize = 0;
        proof {
            reveal(Seq::filter);
            assert(self.users@.subrange(0, 0).filter(|u: User| u.id != user.id) =~= Seq::<
                User,
            >::empty());
        }
        while i < self.users.len()
            invariant
                i <= self.users@.len(),
                kept@ == self.users@.subrange(0, i as int).filter(|u: User| u.id != user.id),
                forall|a: int| #![trigger kept@[a]]
                    0 <= a < kept@.len() ==> exists|k: int|
                        0 <= k < i && kept@[a] == #[trigger] self.users@[k],
                self.wf() ==> forall|a: int, b: int|
                    0 <= a < b < kept@.len() ==> kept@[a].id != kept@[b].id,
            decreases self.users@.len() - i,
        {
            if self.users[i].id != user.id {
                proof {
                    if self.wf() {
                        let cur = self.users@[i as int];
                        assert forall|a: int|
                            0 <= a < kept@.len() implies kept@[a].id != cur.id by {
                            let ka = choose|k: int|
                                0 <= k < i && kept@[a] == self.users@[k];
                        }
                    }
                }
                kept.push(self.users[i].clone());
            }
            proof {
                reveal(Seq::filter);
                let prefix = self.users@.subrange(0, i as int + 1);
                assert(prefix.drop_last() =~= self.users@.subrange(0, i as int));
                assert(prefix.last() == self.users@[i as int]);
                assert(kept@ == prefix.filter(|u: User| u.id != user.id));
            }
            i = i + 1;
        }
        proof {
            assert(self.users@.subrange(0, self.users@.len() as int) =~= self.users@);
        }
        self.users = kept;
        Ok(())
    }

    /// Appends a message. Fails exactly when the author is not a member:
    /// the last line of defense for membership-gated posting.
    pub fn post_new_message(&mut self, message: Message) -> (r: Result<(), &'static str>)
        ensures
            !old(self).spec_has_member(message.author.id) ==> {
                &&& r matches Err(m) && m@ == "User is not in the room"@
                &&& *final(self) == *old(self)
            },
            old(self).spec_has_member(message.author.id) ==> {
                &&& r is Ok
                &&& final(self).messages@ == old(self).messages@.push(message)
                &&& final(self).users == old(self).users
                &&& final(self).name == old(self).name
                &&& final(self).id == old(self).id
            },
            old(self).wf() ==> final(self).wf(),
    {
        let author_user = message.author.clone();
        if !self.is_user_in_room(&author_user) {
            return Err("User is not in the room");
        }

        self.messages.push(message);
        Ok(())
    }
}

impl Clone for Room {
    fn clone(&self) -> (r: Self)
        ensures
            r.id == self.id,
            r.name == self.name,
            r.users@ == self.users@,
            r.messages@ == self.messages@,
    {
        let users = self.users.clone();
        let messages = self.messages.clone();
        proof {
            assert(users@ =~= self.users@);
            assert(messages@ =~= self.messages@);
        }
        Room {
            id: self.id,
            name: self.name.clone(),
            users,
            messages,
        }
    }
}

} // verus!
