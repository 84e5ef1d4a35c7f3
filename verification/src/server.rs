use crate::message::Message;
use crate::room::Room;
use crate::text::str_eq;
use crate::user::User;
use vstd::prelude::*;

verus! {

/// The process-wide registry of users and rooms: the sole owner of both
/// masters, the unit of serialization for mutations, and the only place
/// where cross-entity validation (uniqueness, membership, existence)
/// happens.
#[derive(Debug)]
pub struct Server {
    pub id: u128,
    pub name: String,
    pub users: Vec<User>,
    pub rooms: Vec<Room>,
}

impl Server {
    /// A username is registered exactly when some user record carries it.
    pub open spec fn spec_has_username(self, username: Seq<char>) -> bool {
        exists|i: int| 0 <= i < self.users@.len() && self.users@[i].username@ == username
    }

    /// The index of the user registered under a username (unique when the
    /// store is well formed).
    pub open spec fn spec_user_index(self, username: Seq<char>) -> int {
        choose|i: int| 0 <= i < self.users@.len() && self.users@[i].username@ == username
    }

    /// The user registered under a username.
    pub open spec fn spec_user_named(self, username: Seq<char>) -> User {
        self.users@[self.spec_user_index(username)]
    }

    /// A room name is taken exactly when some room carries it.
    pub open spec fn spec_has_room(self, room_name: Seq<char>) -> bool {
        exists|i: int| 0 <= i < self.rooms@.len() && self.rooms@[i].name@ == room_name
    }

    /// The index of the room carrying a name (unique when the store is well
    /// formed).
    pub open spec fn spec_room_index(self, room_name: Seq<char>) -> int {
        choose|i: int| 0 <= i < self.rooms@.len() && self.rooms@[i].name@ == room_name
    }

    /// The room carrying a name.
    pub open spec fn spec_room_named(self, room_name: Seq<char>) -> Room {
        self.rooms@[self.spec_room_index(room_name)]
    }

    /// No two users share a username.
    pub open spec fn usernames_distinct(self) -> bool {
        forall|i: int, j: int|
            0 <= i < j < self.users@.len() ==> self.users@[i].username@
                != self.users@[j].username@
    }

    /// No two rooms share a name.
    pub open spec fn room_names_distinct(self) -> bool {
        forall|i: int, j: int|
            0 <= i < j < self.rooms@.len() ==> self.rooms@[i].name@ != self.rooms@[j].name@
    }

    /// The member record is one of the registered users.
    pub open spec fn member_is_registered(self, member: User) -> bool {
        exists|j: int| 0 <= j < self.users@.len() && self.users@[j] == member
    }

    /// Every room keeps distinct members, all of them registered users,
    /// only messages whose author is a member, and message timestamps in
    /// non-decreasing order.
    pub open spec fn rooms_wf(self) -> bool {
        forall|i: int|
            0 <= i < self.rooms@.len() ==> {
                let room = #[trigger] self.rooms@[i];
                &&& room.wf()
                &&& room.authors_are_members()
                &&& room.timestamps_monotone()
                &&& forall|k: int|
                    0 <= k < room.users@.len() ==> self.member_is_registered(
                        #[trigger] room.users@[k],
                    )
            }
    }

    /// Referential integrity of the whole store: usernames unique, room
    /// names unique, and every room internally consistent.
    pub open spec fn wf(self) -> bool {
        &&& self.usernames_distinct()
        &&& self.room_names_distinct()
        &&& self.rooms_wf()
    }

    /// No caller ever observes a room without members: every room holds at
    /// least its creator.
    pub open spec fn rooms_populated(self) -> bool {
        forall|i: int| 0 <= i < self.rooms@.len() ==> #[trigger] self.rooms@[i].users@.len() >= 1
    }

    /// Creates an empty store with a freshly generated id.
    pub fn new(name: String) -> (server: Server)
        ensures
            server.name == name,
            server.users@ == Seq::<User>::empty(),
            server.rooms@ == Seq::<Room>::empty(),
            server.wf(),
            server.rooms_populated(),
    {
        Server {
            id: crate::ids::fresh_id(),
            name,
            users: Vec::new(),
            rooms: Vec::new(),
        }
    }

    /// The index of the first user carrying the username, if any.
    fn find_user_index(&self, username: &str) -> (r: Option<usize>)
        ensures
            r is Some <==> self.spec_has_username(username@),
            r matches Some(i) ==> 0 <= i < self.users@.len()
                && self.users@[i as int].username@ == username@,
    {
        let mut i: usize = 0;
        while i < self.users.len()
            invariant
                i <= self.users@.len(),
                forall|k: int| 0 <= k < i ==> self.users@[k].username@ != username@,
            decreases self.users@.len() - i,
        {
            if str_eq(self.users[i].username.as_str(), username) {
                return Some(i);
            }
            i = i + 1;
        }
        None
    }

    /// The index of the first room carrying the name, if any.
    fn find_room_index(&self, room_name: &str) -> (r: Option<usize>)
        ensures
            r is Some <==> self.spec_has_room(room_name@),
            r matches Some(i) ==> 0 <= i < self.rooms@.len() && self.rooms@[i as int].name@
                == room_name@,
    {
        let mut i: usize = 0;
        while i < self.rooms.len()
            invariant
                i <= self.rooms@.len(),
                forall|k: int| 0 <= k < i ==> self.rooms@[k].name@ != room_name@,
            decreases self.rooms@.len() - i,
        {
            if str_eq(self.rooms[i].name.as_str(), room_name) {
                return Some(i);
            }
            i = i + 1;
        }
        None
    }

    /// Whichever index carries the username is the one the specification
    /// names: usernames are unique in a well-formed store.
    pub proof fn lemma_user_index_unique(self, i: int, username: Seq<char>)
        requires
            self.usernames_distinct(),
            0 <= i < self.users@.len(),
            self.users@[i].username@ == username,
        ensures
            self.spec_has_username(username),
            self.spec_user_index(username) == i,
            self.spec_user_named(username) == self.users@[i],
    {
        assert(self.spec_has_username(username));
        let j = self.spec_user_index(username);
        if j != i {
            if j < i {
                assert(self.users@[j].username@ != self.users@[i].username@);
            } else {
                assert(self.users@[i].username@ != self.users@[j].username@);
            }
        }
    }

    /// Whichever index carries the room name is the one the specification
    /// names: room names are unique in a well-formed store.
    pub proof fn lemma_room_index_unique(self, i: int, room_name: Seq<char>)
        requires
            self.room_names_distinct(),
            0 <= i < self.rooms@.len(),
            self.rooms@[i].name@ == room_name,
        ensures
            self.spec_has_room(room_name),
            self.spec_room_index(room_name) == i,
            self.spec_room_named(room_name) == self.rooms@[i],
    {
        assert(self.spec_has_room(room_name));
        let j = self.spec_room_index(room_name);
        if j != i {
            if j < i {
                assert(self.rooms@[j].name@ != self.rooms@[i].name@);
            } else {
                assert(self.rooms@[i].name@ != self.rooms@[j].name@);
            }
        }
    }

    /// Pure read: whether the username is already taken.
    pub fn is_username_already_registered(&self, username: &str) -> (r: bool)
        ensures
            r == self.spec_has_username(username@),
    {
        self.find_user_index(username).is_some()
    }

    /// Pure read: the registered user carrying the username, if any.
    pub fn get_user_by_username(&self, username: &str) -> (r: Option<User>)
        requires
            self.wf(),
        ensures
            r is Some <==> self.spec_has_username(username@),
            r matches Some(user) ==> user == self.spec_user_named(username@),
            r matches Some(user) ==> user.username@ == username@,
    {
        match self.find_user_index(username) {
            Some(i) => {
                let user = self.users[i].clone();
                proof {
                    self.lemma_user_index_unique(i as int, username@);
                }
                Some(user)
            },
            None => None,
        }
    }

    /// Pure read: whether the room name is already taken.
    pub fn is_room_name_already_registered(&self, room_name: &str) -> (r: bool)
        ensures
            r == self.spec_has_room(room_name@),
    {
        self.find_room_index(room_name).is_some()
    }

    /// Pure read: a snapshot of the room carrying the name, if any. Later
    /// mutations of the store never show through the returned value.
    pub fn get_room_by_name(&self, room_name: &str) -> (r: Option<Room>)
        requires
            self.wf(),
        ensures
            r is Some <==> self.spec_has_room(room_name@),
            r matches Some(room) ==> {
                let named = self.spec_room_named(room_name@);
                &&& room.id == named.id
                &&& room.name == named.name
                &&& room.users@ == named.users@
                &&& room.messages@ == named.messages@
            },
    {
        match self.find_room_index(room_name) {
            Some(i) => {
                let room = self.rooms[i].clone();
                proof {
                    self.lemma_room_index_unique(i as int, room_name@);
                }
                Some(room)
            },
            None => None,
        }
    }

    /// Registers a username. Fails exactly when the name is taken; on
    /// success exactly one user record, carrying the new name, is appended,
    /// and nothing else changes.
    pub fn register_user(&mut self, username: &str) -> (r: Result<(), &'static str>)
        requires
            old(self).wf(),
        ensures
            final(self).wf(),
            old(self).rooms_populated() ==> final(self).rooms_populated(),
            old(self).spec_has_username(username@) ==> {
                &&& r matches Err(m) && m@ == "Username already registered"@
                &&& *final(self) == *old(self)
            },
            !old(self).spec_has_username(username@) ==> {
                &&& r is Ok
                &&& user_registered(*old(self), *final(self), username@)
            },
    {
        if self.is_username_already_registered(username) {
            return Err("Username already registered");
        }

        let user = User::new(username.to_owned());
        self.users.push(user);
        proof {
            let pre = *old(self);
            let post = *self;
            assert forall|i: int| 0 <= i < post.rooms@.len() implies {
                let room = #[trigger] post.rooms@[i];
                &&& room.wf()
                &&& room.authors_are_members()
                &&& room.timestamps_monotone()
                &&& forall|k: int|
                    0 <= k < room.users@.len() ==> post.member_is_registered(
                        #[trigger] room.users@[k],
                    )
            } by {
                let room = post.rooms@[i];
                assert(room == pre.rooms@[i]);
                assert forall|k: int|
                    0 <= k < room.users@.len() implies post.member_is_registered(
                    #[trigger] room.users@[k],
                ) by {
                    assert(pre.member_is_registered(room.users@[k]));
                    let j = choose|j: int|
                        0 <= j < pre.users@.len() && pre.users@[j] == room.users@[k];
                    assert(post.users@[j] == room.users@[k]);
                }
            }
        }
        Ok(())
    }

    /// Creates a room with the creator as its first, sole member, as one
    /// visible step. Fails exactly when the name is taken (first) or the
    /// creator is not registered (second); a failed call leaves the store
    /// untouched, so the name stays available.
    pub fn create_room(&mut self, room_name: &str, creator_username: &str) -> (r: Result<
        (),
        &'static str,
    >)
        requires
            old(self).wf(),
        ensures
            final(self).wf(),
            old(self).rooms_populated() ==> final(self).rooms_populated(),
            old(self).spec_has_room(room_name@) ==> {
                &&& r matches Err(m) && m@ == "Room name already registered"@
                &&& *final(self) == *old(self)
            },
            !old(self).spec_has_room(room_name@) && !old(self).spec_has_username(
                creator_username@,
            ) ==> {
                &&& r matches Err(m) && m@ == "Creator user not registered"@
                &&& *final(self) == *old(self)
            },
            !old(self).spec_has_room(room_name@) && old(self).spec_has_username(
                creator_username@,
            ) ==> {
                &&& r is Ok
                &&& room_created(*old(self), *final(self), room_name@, creator_username@)
            },
    {
        if self.is_room_name_already_registered(room_name) {
            return Err("Room name already registered");
        }

        if !self.is_username_already_registered(creator_username) {
            return Err("Creator user not registered");
        }

        let ghost pre = *self;
        let room = Room::new(room_name.to_owned());
        self.rooms.push(room);
        proof {
            lemma_push_room_preserves_wf(pre, *self);
        }
        let ghost mid = *self;
        let result = self.add_user_to_room(room_name, creator_username);
        match result {
            Ok(_) => {
                proof {
                    mid.lemma_room_index_unique(mid.rooms@.len() - 1, room_name@);
                    assert(final(self).rooms@ =~= pre.rooms@.push(
                        final(self).rooms@[mid.rooms@.len() - 1],
                    ));
                    assert(final(self).rooms@.last().users@ =~= seq![
                        pre.spec_user_named(creator_username@),
                    ]);
                }
                Ok(())
            },
            Err(_) => Err("Failed to add creator user to room"),
        }
    }

    /// Adds a registered user to an existing room. Fails exactly when the
    /// room is missing (first), the user is missing (second), or the user is
    /// already a member (third); a failed call leaves the store untouched.
    pub fn add_user_to_room(&mut self, room_name: &str, username: &str) -> (r: Result<
        (),
        &'static str,
    >)
        requires
            old(self).wf(),
        ensures
            final(self).wf(),
            old(self).rooms_populated() ==> final(self).rooms_populated(),
            !old(self).spec_has_room(room_name@) ==> {
                &&& r matches Err(m) && m@ == "Room name not registered"@
                &&& *final(self) == *old(self)
            },
            old(self).spec_has_room(room_name@) && !old(self).spec_has_username(username@) ==> {
                &&& r matches Err(m) && m@ == "Username not registered"@
                &&& *final(self) == *old(self)
            },
            old(self).spec_has_room(room_name@) && old(self).spec_has_username(username@)
                && old(self).spec_room_named(room_name@).spec_has_member(
                old(self).spec_user_named(username@).id,
            ) ==> {
                &&& r matches Err(m) && m@ == "Failed to add user to room"@
                &&& *final(self) == *old(self)
            },
            old(self).spec_has_room(room_name@) && old(self).spec_has_username(username@) && !old(
                self,
            ).spec_room_named(room_name@).spec_has_member(old(self).spec_user_named(username@).id)
                ==> {
                &&& r is Ok
                &&& member_added(*old(self), *final(self), room_name@, username@)
            },
    {
        let room_index = match self.find_room_index(room_name) {
            Some(i) => i,
            None => {
                return Err("Room name not registered");
            },
        };
        proof {
            self.lemma_room_index_unique(room_index as int, room_name@);
        }

        let user = match self.get_user_by_username(username) {
            Some(u) => u,
            None => {
                return Err("Username not registered");
            },
        };

        if self.rooms[room_index].is_user_in_room(&user) {
            return Err("Failed to add user to room");
        }

        let ghost pre = *self;
        let mut room = self.rooms.remove(room_index);
        let result = room.add_user_to_room(user);
        self.rooms.insert(room_index, room);
        proof {
            assert(self.rooms@ =~= pre.rooms@.update(
                room_index as int,
                self.rooms@[room_index as int],
            ));
            lemma_update_room_member_preserves_wf(pre, *self, room_index as int);
        }
        match result {
            Ok(_) => Ok(()),
            Err(_) => Err("Failed to add user to room"),
        }
    }

    /// Accepts a message into a room on behalf of a registered member and
    /// returns the stored message. Fails exactly when the room is missing
    /// (first), the user is missing (second), or the author is not a member
    /// (third); a failed call leaves the store untouched. The stored
    /// message's timestamp never falls below an earlier message's in the
    /// same room: a clock reading that stepped backwards is raised to the
    /// room's latest timestamp.
    pub fn post_message_to_room(&mut self, room_name: &str, username: &str, message: &str) -> (r:
        Result<Message, &'static str>)
        requires
            old(self).wf(),
        ensures
            final(self).wf(),
            old(self).rooms_populated() ==> final(self).rooms_populated(),
            !old(self).spec_has_room(room_name@) ==> {
                &&& r matches Err(m) && m@ == "Room name not registered"@
                &&& *final(self) == *old(self)
            },
            old(self).spec_has_room(room_name@) && !old(self).spec_has_username(username@) ==> {
                &&& r matches Err(m) && m@ == "Username not registered"@
                &&& *final(self) == *old(self)
            },
            old(self).spec_has_room(room_name@) && old(self).spec_has_username(username@) && !old(
                self,
            ).spec_room_named(room_name@).spec_has_member(old(self).spec_user_named(username@).id)
                ==> {
                &&& r matches Err(m) && m@ == "Failed to post message to room"@
                &&& *final(self) == *old(self)
            },
            old(self).spec_has_room(room_name@) && old(self).spec_has_username(username@) && old(
                self,
            ).spec_room_named(room_name@).spec_has_member(old(self).spec_user_named(username@).id)
                ==> {
                &&& r matches Ok(m) && message_posted(*old(self), *final(self), room_name@, m)
                &&& r matches Ok(m) && m.author == old(self).spec_user_named(username@)
                    && m.content@ == message@
            },
    {
        let room_index = match self.find_room_index(room_name) {
            Some(i) => i,
            None => {
                return Err("Room name not registered");
            },
        };
        proof {
            self.lemma_room_index_unique(room_index as int, room_name@);
        }

        let user = match self.get_user_by_username(username) {
            Some(u) => u,
            None => {
                return Err("Username not registered");
            },
        };

        if !self.rooms[room_index].is_user_in_room(&user) {
            return Err("Failed to post message to room");
        }

        let ghost pre = *self;
        let mut msg = Message::new(user, message.to_owned());
        let existing = self.rooms[room_index].messages.len();
        if existing > 0 {
            let latest = self.rooms[room_index].messages[existing - 1].timestamp;
            if msg.timestamp < latest {
                msg.timestamp = latest;
            }
        }
        proof {
            let before = pre.rooms@[room_index as int];
            assert forall|k: int|
                0 <= k < before.messages@.len() implies msg.timestamp >= #[trigger] before
                .messages@[k].timestamp by {
                assert(before.timestamps_monotone());
                if k < before.messages@.len() - 1 {
                    assert(before.messages@[k].timestamp <= before.messages@[before.messages@.len()
                        - 1].timestamp);
                }
            }
        }
        let mut room = self.rooms.remove(room_index);
        let result = room.post_new_message(msg.clone());
        self.rooms.insert(room_index, room);
        proof {
            assert(self.rooms@ =~= pre.rooms@.update(
                room_index as int,
                self.rooms@[room_index as int],
            ));
            lemma_update_room_message_preserves_wf(pre, *self, room_index as int);
        }
        match result {
            Ok(_) => Ok(msg),
            Err(_) => Err("Failed to post message to room"),
        }
    }

    /// Pure read: a stable snapshot of the room's messages in arrival
    /// order, or a failure when the room is missing. Later posts never show
    /// through the returned list.
    pub fn get_room_messages(&self, room_name: &str) -> (r: Result<Vec<Message>, &'static str>)
        requires
            self.wf(),
        ensures
            !self.spec_has_room(room_name@) ==> (r matches Err(m) && m@
                == "Room name not registered"@),
            self.spec_has_room(room_name@) ==> (r matches Ok(v) && v@ == self.spec_room_named(
                room_name@,
            ).messages@),
    {
        let room_index = match self.find_room_index(room_name) {
            Some(i) => i,
            None => {
                return Err("Room name not registered");
            },
        };
        proof {
            self.lemma_room_index_unique(room_index as int, room_name@);
        }
        let messages = self.rooms[room_index].messages.clone();
        proof {
            assert(messages@ =~= self.rooms@[room_index as int].messages@);
        }
        Ok(messages)
    }
}

/// The transition made by a successful registration: one user record,
/// carrying the new name, appended; everything else untouched.
pub open spec fn user_registered(pre: Server, post: Server, username: Seq<char>) -> bool {
    &&& post.users@.len() == pre.users@.len() + 1
    &&& post.users@ == pre.users@.push(post.users@.last())
    &&& post.users@.last().username@ == username
    &&& post.rooms == pre.rooms
    &&& post.name == pre.name
    &&& post.id == pre.id
}

/// The transition made by a successful room creation: one room appended,
/// named as asked, with the creator as sole member and no messages;
/// everything else untouched.
pub open spec fn room_created(pre: Server, post: Server, room_name: Seq<char>, creator: Seq<
    char,
>) -> bool {
    &&& post.users == pre.users
    &&& post.rooms@.len() == pre.rooms@.len() + 1
    &&& post.rooms@ == pre.rooms@.push(post.rooms@.last())
    &&& post.rooms@.last().name@ == room_name
    &&& post.rooms@.last().users@ == seq![pre.spec_user_named(creator)]
    &&& post.rooms@.last().messages@ == Seq::<Message>::empty()
    &&& post.name == pre.name
    &&& post.id == pre.id
}

/// The transition made by a successful membership add: the addressed room
/// gains the addressed user as its last member; every other room, and
/// everything else, is untouched.
pub open spec fn member_added(pre: Server, post: Server, room_name: Seq<char>, username: Seq<
    char,
>) -> bool {
    &&& pre.spec_has_room(room_name)
    &&& pre.spec_has_username(username)
    &&& post.users == pre.users
    &&& post.rooms@.len() == pre.rooms@.len()
    &&& {
        let idx = pre.spec_room_index(room_name);
        let before = pre.rooms@[idx];
        let after = post.rooms@[idx];
        &&& post.rooms@ == pre.rooms@.update(idx, after)
        &&& after.users@ == before.users@.push(pre.spec_user_named(username))
        &&& after.messages == before.messages
        &&& after.name == before.name
        &&& after.id == before.id
    }
    &&& post.name == pre.name
    &&& post.id == pre.id
}

/// The transition made by a successful post: the addressed room gains the
/// message as its last entry, stamped no earlier than any message already
/// there; every other room, and everything else, is untouched.
pub open spec fn message_posted(pre: Server, post: Server, room_name: Seq<char>, m: Message) -> bool {
    &&& pre.spec_has_room(room_name)
    &&& post.users == pre.users
    &&& post.rooms@.len() == pre.rooms@.len()
    &&& {
        let idx = pre.spec_room_index(room_name);
        let before = pre.rooms@[idx];
        let after = post.rooms@[idx];
        &&& post.rooms@ == pre.rooms@.update(idx, after)
        &&& after.messages@ == before.messages@.push(m)
        &&& forall|k: int|
            0 <= k < before.messages@.len() ==> m.timestamp
                >= #[trigger] before.messages@[k].timestamp
        &&& after.users == before.users
        &&& after.name == before.name
        &&& after.id == before.id
    }
    &&& post.name == pre.name
    &&& post.id == pre.id
}

/// Appending a fresh, empty room keeps the store well formed.
proof fn lemma_push_room_preserves_wf(pre: Server, post: Server)
    requires
        pre.wf(),
        post.users == pre.users,
        post.rooms@.len() == pre.rooms@.len() + 1,
        post.rooms@ == pre.rooms@.push(post.rooms@.last()),
        !pre.spec_has_room(post.rooms@.last().name@),
        post.rooms@.last().users@.len() == 0,
        post.rooms@.last().messages@.len() == 0,
    ensures
        post.wf(),
{
    assert forall|i: int, j: int|
        0 <= i < j < post.rooms@.len() implies post.rooms@[i].name@ != post.rooms@[j].name@ by {
        if j < post.rooms@.len() - 1 {
            assert(post.rooms@[i] == pre.rooms@[i]);
            assert(post.rooms@[j] == pre.rooms@[j]);
        } else {
            assert(post.rooms@[i] == pre.rooms@[i]);
        }
    }
    assert forall|i: int| 0 <= i < post.rooms@.len() implies {
        let room = #[trigger] post.rooms@[i];
        &&& room.wf()
        &&& room.authors_are_members()
        &&& room.timestamps_monotone()
        &&& forall|k: int|
            0 <= k < room.users@.len() ==> post.member_is_registered(#[trigger] room.users@[k])
    } by {
        let room = post.rooms@[i];
        if i < post.rooms@.len() - 1 {
            assert(room == pre.rooms@[i]);
            assert forall|k: int|
                0 <= k < room.users@.len() implies post.member_is_registered(
                #[trigger] room.users@[k],
            ) by {
                assert(pre.member_is_registered(room.users@[k]));
            }
        }
    }
}

/// Replacing one room by a version with one more member keeps the store
/// well formed, as long as the new member is registered and was not a
/// member before.
proof fn lemma_update_room_member_preserves_wf(pre: Server, post: Server, idx: int)
    requires
        pre.wf(),
        post.users == pre.users,
        0 <= idx < pre.rooms@.len(),
        post.rooms@.len() == pre.rooms@.len(),
        post.rooms@ == pre.rooms@.update(idx, post.rooms@[idx]),
        post.rooms@[idx].name == pre.rooms@[idx].name,
        post.rooms@[idx].id == pre.rooms@[idx].id,
        post.rooms@[idx].messages == pre.rooms@[idx].messages,
        post.rooms@[idx].users@.len() == pre.rooms@[idx].users@.len() + 1,
        post.rooms@[idx].users@ == pre.rooms@[idx].users@.push(post.rooms@[idx].users@.last()),
        pre.member_is_registered(post.rooms@[idx].users@.last()),
        !pre.rooms@[idx].spec_has_member(post.rooms@[idx].users@.last().id),
    ensures
        post.wf(),
{
    let added = post.rooms@[idx].users@.last();
    assert forall|i: int| 0 <= i < post.rooms@.len() implies {
        let room = #[trigger] post.rooms@[i];
        &&& room.wf()
        &&& room.authors_are_members()
        &&& room.timestamps_monotone()
        &&& forall|k: int|
            0 <= k < room.users@.len() ==> post.member_is_registered(#[trigger] room.users@[k])
    } by {
        let room = post.rooms@[i];
        if i != idx {
            assert(room == pre.rooms@[i]);
            assert forall|k: int|
                0 <= k < room.users@.len() implies post.member_is_registered(
                #[trigger] room.users@[k],
            ) by {
                assert(pre.member_is_registered(room.users@[k]));
            }
        } else {
            let before = pre.rooms@[idx];
            assert forall|a: int, b: int|
                0 <= a < b < room.users@.len() implies room.users@[a].id != room.users@[b].id by {
                if b < room.users@.len() - 1 {
                    assert(before.members_distinct());
                } else {
                    assert(room.users@[a] == before.users@[a]);
                    if room.users@[a].id == added.id {
                        assert(before.spec_has_member(added.id));
                    }
                }
            }
            assert forall|k: int|
                0 <= k < room.messages@.len() implies room.spec_has_member(
                #[trigger] room.messages@[k].author.id,
            ) by {
                assert(before.spec_has_member(room.messages@[k].author.id));
                let author_id = room.messages@[k].author.id;
                let w = choose|w: int|
                    0 <= w < before.users@.len() && before.users@[w].id == author_id;
                assert(room.users@[w].id == room.messages@[k].author.id);
            }
            assert forall|k: int|
                0 <= k < room.users@.len() implies post.member_is_registered(
                #[trigger] room.users@[k],
            ) by {
                if k < room.users@.len() - 1 {
                    assert(pre.member_is_registered(before.users@[k]));
                } else {
                    assert(pre.member_is_registered(added));
                }
            }
        }
    }
}

/// Replacing one room by a version with one more message keeps the store
/// well formed, as long as the new message's author is a member.
proof fn lemma_update_room_message_preserves_wf(pre: Server, post: Server, idx: int)
    requires
        pre.wf(),
        post.users == pre.users,
        0 <= idx < pre.rooms@.len(),
        post.rooms@.len() == pre.rooms@.len(),
        post.rooms@ == pre.rooms@.update(idx, post.rooms@[idx]),
        post.rooms@[idx].name == pre.rooms@[idx].name,
        post.rooms@[idx].id == pre.rooms@[idx].id,
        post.rooms@[idx].users == pre.rooms@[idx].users,
        post.rooms@[idx].messages@.len() == pre.rooms@[idx].messages@.len() + 1,
        post.rooms@[idx].messages@ == pre.rooms@[idx].messages@.push(
            post.rooms@[idx].messages@.last(),
        ),
        pre.rooms@[idx].spec_has_member(post.rooms@[idx].messages@.last().author.id),
        forall|k: int|
            0 <= k < pre.rooms@[idx].messages@.len() ==> post.rooms@[idx].messages@.last().timestamp
                >= #[trigger] pre.rooms@[idx].messages@[k].timestamp,
    ensures
        post.wf(),
{
    assert forall|i: int| 0 <= i < post.rooms@.len() implies {
        let room = #[trigger] post.rooms@[i];
        &&& room.wf()
        &&& room.authors_are_members()
        &&& room.timestamps_monotone()
        &&& forall|k: int|
            0 <= k < room.users@.len() ==> post.member_is_registered(#[trigger] room.users@[k])
    } by {
        let room = post.rooms@[i];
        if i != idx {
            assert(room == pre.rooms@[i]);
            assert forall|k: int|
                0 <= k < room.users@.len() implies post.member_is_registered(
                #[trigger] room.users@[k],
            ) by {
                assert(pre.member_is_registered(room.users@[k]));
            }
        } else {
            let before = pre.rooms@[idx];
            assert forall|k: int|
                0 <= k < room.messages@.len() implies room.spec_has_member(
                #[trigger] room.messages@[k].author.id,
            ) by {
                if k < room.messages@.len() - 1 {
                    assert(before.spec_has_member(room.messages@[k].author.id));
                }
            }
            assert forall|a: int, b: int|
                0 <= a < b < room.messages@.len() implies room.messages@[a].timestamp
                <= room.messages@[b].timestamp by {
                if b < room.messages@.len() - 1 {
                    assert(before.timestamps_monotone());
                    assert(before.messages@[a].timestamp <= before.messages@[b].timestamp);
                } else {
                    assert(room.messages@[a] == before.messages@[a]);
                }
            }
            assert forall|k: int|
                0 <= k < room.users@.len() implies post.member_is_registered(
                #[trigger] room.users@[k],
            ) by {
                assert(pre.member_is_registered(before.users@[k]));
            }
        }
    }
}

} // verus!
