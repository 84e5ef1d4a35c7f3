use vstd::prelude::*;
use vstd::string::StringExecFns;

verus! {

/// The liveness endpoint.
pub fn status_url(endpoint: &str) -> (r: String)
    ensures
        r@ == endpoint@ + "/status"@,
{
    endpoint.to_owned().concat("/status")
}

/// The endpoint for one user, by username.
pub fn user_url(endpoint: &str, username: &str) -> (r: String)
    ensures
        r@ == endpoint@ + "/users/"@ + username@,
{
    endpoint.to_owned().concat("/users/").concat(username)
}

/// The endpoint for one room, by name.
pub fn room_url(endpoint: &str, room_name: &str) -> (r: String)
    ensures
        r@ == endpoint@ + "/rooms/"@ + room_name@,
{
    endpoint.to_owned().concat("/rooms/").concat(room_name)
}

/// The endpoint for one member of one room.
pub fn room_user_url(endpoint: &str, room_name: &str, username: &str) -> (r: String)
    ensures
        r@ == endpoint@ + "/rooms/"@ + room_name@ + "/users/"@ + username@,
{
    endpoint.to_owned().concat("/rooms/").concat(room_name).concat("/users/").concat(username)
}

/// The endpoint that creates a room, carrying the creator as a query
/// parameter.
pub fn create_room_url(endpoint: &str, room_name: &str, creator_username: &str) -> (r: String)
    ensures
        r@ == endpoint@ + "/rooms/"@ + room_name@ + "?creator_username="@ + creator_username@,
{
    endpoint.to_owned().concat("/rooms/").concat(room_name).concat("?creator_username=").concat(
        creator_username,
    )
}

/// The endpoint for one room's messages.
pub fn room_messages_url(endpoint: &str, room_name: &str) -> (r: String)
    ensures
        r@ == endpoint@ + "/rooms/"@ + room_name@ + "/messages"@,
{
    endpoint.to_owned().concat("/rooms/").concat(room_name).concat("/messages")
}

} // verus!
