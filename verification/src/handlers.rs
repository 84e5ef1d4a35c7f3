use crate::message::Message;
use crate::room::Room;
use crate::server::{member_added, message_posted, room_created, user_registered, Server};
use crate::user::User;
use vstd::prelude::*;
use vstd::string::StringExecFns;

verus! {

/// The stable error body every endpoint answers failures with: a machine
/// readable code and a human readable text.
#[derive(Debug)]
pub struct ErrorDetailsResponse {
    pub error_id: String,
    pub error_message: String,
}

impl Clone for ErrorDetailsResponse {
    fn clone(&self) -> (r: Self)
        ensures
            r.error_id == self.error_id,
            r.error_message == self.error_message,
    {
        ErrorDetailsResponse {
            error_id: self.error_id.clone(),
            error_message: self.error_message.clone(),
        }
    }
}

/// What the room endpoints answer on success: the room's identity and its
/// members.
#[derive(Debug)]
pub struct RoomSummary {
    pub id: u128,
    pub name: String,
    pub users: Vec<User>,
}

/// The body of an endpoint's answer.
#[derive(Debug)]
pub enum ApiBody {
    UserBody(User),
    RoomBody(RoomSummary),
    MessageBody(Message),
    MessagesBody(Vec<Message>),
    ErrorBody(ErrorDetailsResponse),
}

/// An endpoint's answer: the HTTP status code and the body to serialize.
#[derive(Debug)]
pub struct ApiReply {
    pub status: u16,
    pub body: ApiBody,
}

/// A summary snapshot of a room.
fn room_summary(room: &Room) -> (r: RoomSummary)
    ensures
        r.id == room.id,
        r.name == room.name,
        r.users@ == room.users@,
{
    let users = room.users.clone();
    proof {
        assert(users@ =~= room.users@);
    }
    RoomSummary { id: room.id, name: room.name.clone(), users }
}

/// Answers a user lookup: the user on 200, or 404 with
/// ERR__USER_NOT_FOUND.
pub fn get_user_in_server_by_username(server: &Server, username: &str) -> (r: ApiReply)
    requires
        server.wf(),
    ensures
        server.spec_has_username(username@) ==> r.status == 200 && (r.body matches
            ApiBody::UserBody(u) && u == server.spec_user_named(username@)),
        !server.spec_has_username(username@) ==> r.status == 404 && (r.body matches
            ApiBody::ErrorBody(e) && e.error_id@ == "ERR__USER_NOT_FOUND"@ && e.error_message@
            == "User with username "@ + username@ + " not found in server"@),
{
    match server.get_user_by_username(username) {
        Some(user) => ApiReply { status: 200, body: ApiBody::UserBody(user) },
        None => ApiReply {
            status: 404,
            body: ApiBody::ErrorBody(ErrorDetailsResponse {
                error_id: "ERR__USER_NOT_FOUND".to_owned(),
                error_message: "User with username ".to_owned().concat(username).concat(
                    " not found in server",
                ),
            }),
        },
    }
}

/// Answers a registration: the new user on 201, or 409 with
/// ERR__USER_ALREADY_EXISTS when the name is taken.
pub fn register_user_to_server(server: &mut Server, username: &str) -> (r: ApiReply)
    requires
        old(server).wf(),
    ensures
        final(server).wf(),
        old(server).rooms_populated() ==> final(server).rooms_populated(),
        !old(server).spec_has_username(username@) ==> r.status == 201 && user_registered(
            *old(server),
            *final(server),
            username@,
        ) && (r.body matches ApiBody::UserBody(u) && u == final(server).users@.last()),
        old(server).spec_has_username(username@) ==> *final(server) == *old(server) && r.status
            == 409 && (r.body matches ApiBody::ErrorBody(e) && e.error_id@
            == "ERR__USER_ALREADY_EXISTS"@ && e.error_message@ == "User with username "@
            + username@ + " already exists in server"@),
{
    match server.register_user(username) {
        Ok(_) => {
            let user = match server.get_user_by_username(username) {
                Some(u) => u,
                None => {
                    return ApiReply {
                        status: 409,
                        body: ApiBody::ErrorBody(ErrorDetailsResponse {
                            error_id: "ERR__USER_ALREADY_EXISTS".to_owned(),
                            error_message: "User with username ".to_owned().concat(
                                username,
                            ).concat(" already exists in server"),
                        }),
                    };
                },
            };
            proof {
                server.lemma_user_index_unique(server.users@.len() - 1, username@);
            }
            ApiReply { status: 201, body: ApiBody::UserBody(user) }
        },
        Err(_) => ApiReply {
            status: 409,
            body: ApiBody::ErrorBody(ErrorDetailsResponse {
                error_id: "ERR__USER_ALREADY_EXISTS".to_owned(),
                error_message: "User with username ".to_owned().concat(username).concat(
                    " already exists in server",
                ),
            }),
        },
    }
}

/// Answers a room lookup: the room summary on 200, or 404 with
/// ERR__ROOM_NOT_FOUND.
pub fn get_room_by_name(server: &Server, room_name: &str) -> (r: ApiReply)
    requires
        server.wf(),
    ensures
        server.spec_has_room(room_name@) ==> r.status == 200 && (r.body matches
            ApiBody::RoomBody(summary) && {
            let room = server.spec_room_named(room_name@);
            &&& summary.id == room.id
            &&& summary.name == room.name
            &&& summary.users@ == room.users@
        }),
        !server.spec_has_room(room_name@) ==> r.status == 404 && (r.body matches
            ApiBody::ErrorBody(e) && e.error_id@ == "ERR__ROOM_NOT_FOUND"@ && e.error_message@
            == "Room with name "@ + room_name@ + " not found in server"@),
{
    match server.get_room_by_name(room_name) {
        Some(room) => ApiReply { status: 200, body: ApiBody::RoomBody(room_summary(&room)) },
        None => ApiReply {
            status: 404,
            body: ApiBody::ErrorBody(ErrorDetailsResponse {
                error_id: "ERR__ROOM_NOT_FOUND".to_owned(),
                error_message: "Room with name ".to_owned().concat(room_name).concat(
                    " not found in server",
                ),
            }),
        },
    }
}

/// Answers a membership lookup: the member on 200; 404 with
/// ERR__ROOM_NOT_FOUND, ERR__USER_NOT_FOUND or ERR__USER_NOT_IN_ROOM
/// otherwise, checked in that order.
pub fn get_user_in_room_by_username(server: &Server, room_name: &str, username: &str) -> (r:
    ApiReply)
    requires
        server.wf(),
    ensures
        !server.spec_has_room(room_name@) ==> r.status == 404 && (r.body matches
            ApiBody::ErrorBody(e) && e.error_id@ == "ERR__ROOM_NOT_FOUND"@ && e.error_message@
            == "Room with name "@ + room_name@ + " not found in server"@),
        server.spec_has_room(room_name@) && !server.spec_has_username(username@) ==> r.status
            == 404 && (r.body matches ApiBody::ErrorBody(e) && e.error_id@
            == "ERR__USER_NOT_FOUND"@ && e.error_message@ == "User with username "@ + username@
            + " not found in server"@),
        server.spec_has_room(room_name@) && server.spec_has_username(username@)
            && server.spec_room_named(room_name@).spec_has_member(
            server.spec_user_named(username@).id,
        ) ==> r.status == 200 && (r.body matches ApiBody::UserBody(u) && u
            == server.spec_user_named(username@)),
        server.spec_has_room(room_name@) && server.spec_has_username(username@) && !server
            .spec_room_named(room_name@).spec_has_member(server.spec_user_named(username@).id)
            ==> r.status == 404 && (r.body matches ApiBody::ErrorBody(e) && e.error_id@
            == "ERR__USER_NOT_IN_ROOM"@ && e.error_message@ == "User with username "@ + username@
            + " is not in room with name "@ + room_name@),
{
    let room = match server.get_room_by_name(room_name) {
        Some(room) => room,
        None => {
            return ApiReply {
                status: 404,
                body: ApiBody::ErrorBody(ErrorDetailsResponse {
                    error_id: "ERR__ROOM_NOT_FOUND".to_owned(),
                    error_message: "Room with name ".to_owned().concat(room_name).concat(
                        " not found in server",
                    ),
                }),
            };
        },
    };
    let user = match server.get_user_by_username(username) {
        Some(user) => user,
        None => {
            return ApiReply {
                status: 404,
                body: ApiBody::ErrorBody(ErrorDetailsResponse {
                    error_id: "ERR__USER_NOT_FOUND".to_owned(),
                    error_message: "User with username ".to_owned().concat(username).concat(
                        " not found in server",
                    ),
                }),
            };
        },
    };
    if room.is_user_in_room(&user) {
        ApiReply { status: 200, body: ApiBody::UserBody(user) }
    } else {
        ApiReply {
            status: 404,
            body: ApiBody::ErrorBody(ErrorDetailsResponse {
                error_id: "ERR__USER_NOT_IN_ROOM".to_owned(),
                error_message: "User with username ".to_owned().concat(username).concat(
                    " is not in room with name ",
                ).concat(room_name),
            }),
        }
    }
}

/// Answers a room creation: the new room's summary on 201; 400 with
/// ERR__ROOM_CREATE_BAD_REQUEST when the creator parameter is missing;
/// 409 with ERR__ROOM_CREATE_CONFLICT when the store refuses.
pub fn create_room(server: &mut Server, room_name: &str, creator_username: Option<&str>) -> (r:
    ApiReply)
    requires
        old(server).wf(),
    ensures
        final(server).wf(),
        old(server).rooms_populated() ==> final(server).rooms_populated(),
        creator_username is None ==> *final(server) == *old(server) && r.status == 400 && (r.body
            matches ApiBody::ErrorBody(e) && e.error_id@ == "ERR__ROOM_CREATE_BAD_REQUEST"@
            && e.error_message@ == "Missing creator_username query parameter"@),
        creator_username matches Some(creator) ==> {
            &&& old(server).spec_has_room(room_name@) ==> *final(server) == *old(server)
                && r.status == 409 && (r.body matches ApiBody::ErrorBody(e) && e.error_id@
                == "ERR__ROOM_CREATE_CONFLICT"@ && e.error_message@ == "Cannot create room "@
                + creator@ + ": "@ + "Room name already registered"@)
            &&& !old(server).spec_has_room(room_name@) && !old(server).spec_has_username(creator@)
                ==> *final(server) == *old(server) && r.status == 409 && (r.body matches
                ApiBody::ErrorBody(e) && e.error_id@ == "ERR__ROOM_CREATE_CONFLICT"@
                && e.error_message@ == "Cannot create room "@ + creator@ + ": "@
                + "Creator user not registered"@)
            &&& !old(server).spec_has_room(room_name@) && old(server).spec_has_username(creator@)
                ==> r.status == 201 && room_created(
                *old(server),
                *final(server),
                room_name@,
                creator@,
            ) && (r.body matches ApiBody::RoomBody(summary) && {
                let room = final(server).rooms@.last();
                &&& summary.id == room.id
                &&& summary.name == room.name
                &&& summary.users@ == room.users@
            })
        },
{
    let creator = match creator_username {
        Some(creator) => creator,
        None => {
            return ApiReply {
                status: 400,
                body: ApiBody::ErrorBody(ErrorDetailsResponse {
                    error_id: "ERR__ROOM_CREATE_BAD_REQUEST".to_owned(),
                    error_message: "Missing creator_username query parameter".to_owned(),
                }),
            };
        },
    };
    match server.create_room(room_name, creator) {
        Ok(_) => {
            proof {
                server.lemma_room_index_unique(server.rooms@.len() - 1, room_name@);
            }
            let room = match server.get_room_by_name(room_name) {
                Some(room) => room,
                None => {
                    return ApiReply {
                        status: 409,
                        body: ApiBody::ErrorBody(ErrorDetailsResponse {
                            error_id: "ERR__ROOM_CREATE_CONFLICT".to_owned(),
                            error_message: "Cannot create room ".to_owned().concat(creator),
                        }),
                    };
                },
            };
            ApiReply { status: 201, body: ApiBody::RoomBody(room_summary(&room)) }
        },
        Err(store_error) => ApiReply {
            status: 409,
            body: ApiBody::ErrorBody(ErrorDetailsResponse {
                error_id: "ERR__ROOM_CREATE_CONFLICT".to_owned(),
                error_message: "Cannot create room ".to_owned().concat(creator).concat(
                    ": ",
                ).concat(store_error),
            }),
        },
    }
}

/// Answers a membership add: the room's summary on 201, or 409 with
/// ERR__USER_ADD_TO_ROOM_CONFLICT carrying the store's reason.
pub fn add_user_to_room(server: &mut Server, room_name: &str, username: &str) -> (r: ApiReply)
    requires
        old(server).wf(),
    ensures
        final(server).wf(),
        old(server).rooms_populated() ==> final(server).rooms_populated(),
        !old(server).spec_has_room(room_name@) ==> *final(server) == *old(server) && r.status
            == 409 && (r.body matches ApiBody::ErrorBody(e) && e.error_id@
            == "ERR__USER_ADD_TO_ROOM_CONFLICT"@ && e.error_message@ == "Cannot add user "@
            + username@ + " to room "@ + room_name@ + ": "@ + "Room name not registered"@),
        old(server).spec_has_room(room_name@) && !old(server).spec_has_username(username@)
            ==> *final(server) == *old(server) && r.status == 409 && (r.body matches
            ApiBody::ErrorBody(e) && e.error_id@ == "ERR__USER_ADD_TO_ROOM_CONFLICT"@
            && e.error_message@ == "Cannot add user "@ + username@ + " to room "@ + room_name@
            + ": "@ + "Username not registered"@),
        old(server).spec_has_room(room_name@) && old(server).spec_has_username(username@) && old(server).spec_room_named(room_name@).spec_has_member(old(server).spec_user_named(username@).id)
            ==> *final(server) == *old(server) && r.status == 409 && (r.body matches
            ApiBody::ErrorBody(e) && e.error_id@ == "ERR__USER_ADD_TO_ROOM_CONFLICT"@
            && e.error_message@ == "Cannot add user "@ + username@ + " to room "@ + room_name@
            + ": "@ + "Failed to add user to room"@),
        old(server).spec_has_room(room_name@) && old(server).spec_has_username(username@) && !old(server).spec_room_named(room_name@).spec_has_member(old(server).spec_user_named(username@).id)
            ==> r.status == 201 && member_added(*old(server), *final(server), room_name@, username@)
            && (r.body matches ApiBody::RoomBody(summary) && {
            let room = final(server).spec_room_named(room_name@);
            &&& summary.id == room.id
            &&& summary.name == room.name
            &&& summary.users@ == room.users@
        }),
{
    match server.add_user_to_room(room_name, username) {
        Ok(_) => {
            proof {
                crate::laws::lemma_room_lookup_stable(*old(server), *server, room_name@);
            }
            let room = match server.get_room_by_name(room_name) {
                Some(room) => room,
                None => {
                    return ApiReply {
                        status: 409,
                        body: ApiBody::ErrorBody(ErrorDetailsResponse {
                            error_id: "ERR__USER_ADD_TO_ROOM_CONFLICT".to_owned(),
                            error_message: "Cannot add user ".to_owned().concat(username),
                        }),
                    };
                },
            };
            ApiReply { status: 201, body: ApiBody::RoomBody(room_summary(&room)) }
        },
        Err(store_error) => ApiReply {
            status: 409,
            body: ApiBody::ErrorBody(ErrorDetailsResponse {
                error_id: "ERR__USER_ADD_TO_ROOM_CONFLICT".to_owned(),
                error_message: "Cannot add user ".to_owned().concat(username).concat(
                    " to room ",
                ).concat(room_name).concat(": ").concat(store_error),
            }),
        },
    }
}

/// Answers a message listing: the messages on 200, or 409 with
/// ERR__ROOM_MESSAGES_CONFLICT when the room is missing.
pub fn get_room_messages(server: &Server, room_name: &str) -> (r: ApiReply)
    requires
        server.wf(),
    ensures
        server.spec_has_room(room_name@) ==> r.status == 200 && (r.body matches
            ApiBody::MessagesBody(v) && v@ == server.spec_room_named(room_name@).messages@),
        !server.spec_has_room(room_name@) ==> r.status == 409 && (r.body matches
            ApiBody::ErrorBody(e) && e.error_id@ == "ERR__ROOM_MESSAGES_CONFLICT"@
            && e.error_message@ == "Cannot get messages for room "@ + room_name@ + ": "@
            + "Room name not registered"@),
{
    match server.get_room_messages(room_name) {
        Ok(messages) => ApiReply { status: 200, body: ApiBody::MessagesBody(messages) },
        Err(store_error) => ApiReply {
            status: 409,
            body: ApiBody::ErrorBody(ErrorDetailsResponse {
                error_id: "ERR__ROOM_MESSAGES_CONFLICT".to_owned(),
                error_message: "Cannot get messages for room ".to_owned().concat(
                    room_name,
                ).concat(": ").concat(store_error),
            }),
        },
    }
}

/// Answers a post: the created message on 201, echoed back to the caller;
/// 400 with ERR__MESSAGE_POST_TO_ROOM_BAD_REQUEST when a field is missing;
/// 409 with ERR__MESSAGE_POST_TO_ROOM_CONFLICT carrying the store's
/// reason.
pub fn post_message_to_room(
    server: &mut Server,
    room_name: &str,
    username: Option<&str>,
    message: Option<&str>,
) -> (r: ApiReply)
    requires
        old(server).wf(),
    ensures
        final(server).wf(),
        old(server).rooms_populated() ==> final(server).rooms_populated(),
        username is None || message is None ==> *final(server) == *old(server) && r.status == 400
            && (r.body matches ApiBody::ErrorBody(e) && e.error_id@
            == "ERR__MESSAGE_POST_TO_ROOM_BAD_REQUEST"@ && e.error_message@
            == "Missing username or message in request body"@),
        username matches Some(author) ==> message matches Some(text) ==> {
            &&& !old(server).spec_has_room(room_name@) ==> *final(server) == *old(server)
                && r.status == 409 && (r.body matches ApiBody::ErrorBody(e) && e.error_id@
                == "ERR__MESSAGE_POST_TO_ROOM_CONFLICT"@ && e.error_message@
                == "Cannot post message to room "@ + room_name@ + ": "@ + "Room name not registered"@)
            &&& old(server).spec_has_room(room_name@) && !old(server).spec_has_username(author@)
                ==> *final(server) == *old(server) && r.status == 409 && (r.body matches
                ApiBody::ErrorBody(e) && e.error_id@ == "ERR__MESSAGE_POST_TO_ROOM_CONFLICT"@
                && e.error_message@ == "Cannot post message to room "@ + room_name@ + ": "@
                + "Username not registered"@)
            &&& old(server).spec_has_room(room_name@) && old(server).spec_has_username(author@)
                && !old(server).spec_room_named(room_name@).spec_has_member(
                old(server).spec_user_named(author@).id,
            ) ==> *final(server) == *old(server) && r.status == 409 && (r.body matches
                ApiBody::ErrorBody(e) && e.error_id@ == "ERR__MESSAGE_POST_TO_ROOM_CONFLICT"@
                && e.error_message@ == "Cannot post message to room "@ + room_name@ + ": "@
                + "Failed to post message to room"@)
            &&& old(server).spec_has_room(room_name@) && old(server).spec_has_username(author@)
                && old(server).spec_room_named(room_name@).spec_has_member(
                old(server).spec_user_named(author@).id,
            ) ==> r.status == 201 && (r.body matches ApiBody::MessageBody(m) && message_posted(
                *old(server),
                *final(server),
                room_name@,
                m,
            ) && m.author == old(server).spec_user_named(author@) && m.content@ == text@)
        },
{
    let author = match username {
        Some(author) => author,
        None => {
            return ApiReply {
                status: 400,
                body: ApiBody::ErrorBody(ErrorDetailsResponse {
                    error_id: "ERR__MESSAGE_POST_TO_ROOM_BAD_REQUEST".to_owned(),
                    error_message: "Missing username or message in request body".to_owned(),
                }),
            };
        },
    };
    let text = match message {
        Some(text) => text,
        None => {
            return ApiReply {
                status: 400,
                body: ApiBody::ErrorBody(ErrorDetailsResponse {
                    error_id: "ERR__MESSAGE_POST_TO_ROOM_BAD_REQUEST".to_owned(),
                    error_message: "Missing username or message in request body".to_owned(),
                }),
            };
        },
    };
    match server.post_message_to_room(room_name, author, text) {
        Ok(posted) => ApiReply { status: 201, body: ApiBody::MessageBody(posted) },
        Err(store_error) => ApiReply {
            status: 409,
            body: ApiBody::ErrorBody(ErrorDetailsResponse {
                error_id: "ERR__MESSAGE_POST_TO_ROOM_CONFLICT".to_owned(),
                error_message: "Cannot post message to room ".to_owned().concat(room_name).concat(
                    ": ",
                ).concat(store_error),
            }),
        },
    }
}

} // verus!
