use chat_registry::client::CliClient;
use chat_registry::flows::{
    auth_flow_step, parse_chat_choice, parse_yes_no, room_choice_step, AuthFlowEvent,
    AuthFlowState, RoomChatChoice, RoomChoiceEvent, RoomChoiceState,
};
use chat_registry::handlers::{
    add_user_to_room, create_room, get_room_by_name, get_room_messages,
    get_user_in_room_by_username, get_user_in_server_by_username, post_message_to_room,
    register_user_to_server, ApiBody, ErrorDetailsResponse,
};
use chat_registry::host::{host_is_valid, parse_host_octets};
use chat_registry::room::Room;
use chat_registry::user::User;
use chat_registry::server::Server;
use chat_registry::text::{str_eq, u16_to_dec};
use chat_registry::urls::{
    create_room_url, room_messages_url, room_url, room_user_url, status_url, user_url,
};

#[test]
fn registration_is_first_come_first_served() {
    let mut server = Server::new("main".to_string());
    assert!(server.register_user("x").is_ok());
    // every later attempt fails, regardless of registrations in between
    assert!(server.register_user("other").is_ok());
    assert_eq!(server.register_user("x"), Err("Username already registered"));
    assert_eq!(server.register_user("x"), Err("Username already registered"));
    // exactly one user named "x" exists afterwards
    let named_x = server.users.iter().filter(|u| u.username == "x").count();
    assert_eq!(named_x, 1);
    // and both lookups still find their own record
    assert_eq!(server.get_user_by_username("x").unwrap().username, "x");
    assert_eq!(server.get_user_by_username("other").unwrap().username, "other");
}

#[test]
fn created_room_has_exactly_the_creator_and_no_messages() {
    let mut server = Server::new("main".to_string());
    server.register_user("alice").unwrap();
    server.create_room("lobby", "alice").unwrap();
    let room = server.get_room_by_name("lobby").unwrap();
    assert_eq!(room.users.len(), 1);
    assert_eq!(room.users[0].username, "alice");
    assert_eq!(room.messages.len(), 0);
}

#[test]
fn failed_create_keeps_the_name_available() {
    let mut server = Server::new("main".to_string());
    let result = server.create_room("lobby", "ghost");
    assert_eq!(result, Err("Creator user not registered"));
    assert!(server.get_room_by_name("lobby").is_none());
    // the name is still available for a later, valid call
    server.register_user("alice").unwrap();
    assert!(server.create_room("lobby", "alice").is_ok());
}

#[test]
fn message_order_equals_post_order() {
    let mut server = Server::new("main".to_string());
    server.register_user("alice").unwrap();
    server.create_room("lobby", "alice").unwrap();
    server.post_message_to_room("lobby", "alice", "first").unwrap();
    server.post_message_to_room("lobby", "alice", "second").unwrap();
    server.post_message_to_room("lobby", "alice", "third").unwrap();
    let messages = server.get_room_messages("lobby").unwrap();
    assert_eq!(messages.len(), 3);
    assert_eq!(messages[0].content, "first");
    assert_eq!(messages[1].content, "second");
    assert_eq!(messages[2].content, "third");
}

#[test]
fn returned_messages_are_a_stable_snapshot() {
    let mut server = Server::new("main".to_string());
    server.register_user("alice").unwrap();
    server.create_room("lobby", "alice").unwrap();
    server.post_message_to_room("lobby", "alice", "first").unwrap();
    let snapshot = server.get_room_messages("lobby").unwrap();
    server.post_message_to_room("lobby", "alice", "second").unwrap();
    assert_eq!(snapshot.len(), 1);
    assert_eq!(snapshot[0].content, "first");
}

#[test]
fn operations_on_different_rooms_leave_each_other_alone() {
    let mut server = Server::new("main".to_string());
    server.register_user("alice").unwrap();
    server.register_user("bob").unwrap();
    server.create_room("red", "alice").unwrap();
    server.create_room("blue", "bob").unwrap();
    server.add_user_to_room("red", "bob").unwrap();
    server.post_message_to_room("blue", "bob", "hi").unwrap();
    let red = server.get_room_by_name("red").unwrap();
    let blue = server.get_room_by_name("blue").unwrap();
    assert_eq!(red.users.len(), 2);
    assert_eq!(red.messages.len(), 0);
    assert_eq!(blue.users.len(), 1);
    assert_eq!(blue.messages.len(), 1);
}

#[test]
fn end_to_end_chat_scenario() {
    let mut server = Server::new("main".to_string());
    server.register_user("alice").unwrap();
    server.create_room("lobby", "alice").unwrap();
    assert_eq!(server.get_room_by_name("lobby").unwrap().users.len(), 1);
    server.register_user("bob").unwrap();
    server.add_user_to_room("lobby", "bob").unwrap();
    assert_eq!(server.get_room_by_name("lobby").unwrap().users.len(), 2);
    server.post_message_to_room("lobby", "alice", "hi").unwrap();
    let messages = server.get_room_messages("lobby").unwrap();
    assert_eq!(messages.len(), 1);
    assert_eq!(messages[0].content, "hi");
    assert_eq!(messages[0].author.username, "alice");
    server.post_message_to_room("lobby", "bob", "yo").unwrap();
    let messages = server.get_room_messages("lobby").unwrap();
    assert_eq!(messages.len(), 2);
    assert_eq!(messages[0].content, "hi");
    assert_eq!(messages[1].content, "yo");
}

#[test]
fn end_to_end_rejected_posts_change_nothing() {
    let mut server = Server::new("main".to_string());
    server.register_user("alice").unwrap();
    server.register_user("carol").unwrap();
    server.create_room("lobby", "alice").unwrap();
    server.post_message_to_room("lobby", "alice", "hi").unwrap();
    // unregistered author
    assert_eq!(
        server.post_message_to_room("lobby", "ghost", "boo"),
        Err("Username not registered")
    );
    // registered, but not a member
    assert_eq!(
        server.post_message_to_room("lobby", "carol", "hello"),
        Err("Failed to post message to room")
    );
    assert_eq!(server.get_room_messages("lobby").unwrap().len(), 1);
}

#[test]
fn handler_user_lookup_answers() {
    let mut server = Server::new("main".to_string());
    server.register_user("alice").unwrap();
    let reply = get_user_in_server_by_username(&server, "alice");
    assert_eq!(reply.status, 200);
    assert!(matches!(reply.body, ApiBody::UserBody(u) if u.username == "alice"));
    let reply = get_user_in_server_by_username(&server, "bob");
    assert_eq!(reply.status, 404);
    match reply.body {
        ApiBody::ErrorBody(e) => {
            assert_eq!(e.error_id, "ERR__USER_NOT_FOUND");
            assert_eq!(e.error_message, "User with username bob not found in server");
        },
        _ => panic!("expected an error body"),
    }
}

#[test]
fn handler_registration_answers() {
    let mut server = Server::new("main".to_string());
    let reply = register_user_to_server(&mut server, "alice");
    assert_eq!(reply.status, 201);
    assert!(matches!(reply.body, ApiBody::UserBody(u) if u.username == "alice"));
    let reply = register_user_to_server(&mut server, "alice");
    assert_eq!(reply.status, 409);
    match reply.body {
        ApiBody::ErrorBody(e) => {
            assert_eq!(e.error_id, "ERR__USER_ALREADY_EXISTS");
            assert_eq!(e.error_message, "User with username alice already exists in server");
        },
        _ => panic!("expected an error body"),
    }
}

#[test]
fn handler_room_lookup_answers() {
    let mut server = Server::new("main".to_string());
    server.register_user("alice").unwrap();
    server.create_room("lobby", "alice").unwrap();
    let reply = get_room_by_name(&server, "lobby");
    assert_eq!(reply.status, 200);
    assert!(matches!(reply.body, ApiBody::RoomBody(s) if s.name == "lobby" && s.users.len() == 1));
    let reply = get_room_by_name(&server, "attic");
    assert_eq!(reply.status, 404);
    match reply.body {
        ApiBody::ErrorBody(e) => {
            assert_eq!(e.error_id, "ERR__ROOM_NOT_FOUND");
            assert_eq!(e.error_message, "Room with name attic not found in server");
        },
        _ => panic!("expected an error body"),
    }
}

#[test]
fn handler_membership_lookup_answers() {
    let mut server = Server::new("main".to_string());
    server.register_user("alice").unwrap();
    server.register_user("bob").unwrap();
    server.create_room("lobby", "alice").unwrap();
    let reply = get_user_in_room_by_username(&server, "lobby", "alice");
    assert_eq!(reply.status, 200);
    assert!(matches!(reply.body, ApiBody::UserBody(u) if u.username == "alice"));
    let reply = get_user_in_room_by_username(&server, "attic", "alice");
    assert_eq!(reply.status, 404);
    assert!(matches!(reply.body, ApiBody::ErrorBody(e) if e.error_id == "ERR__ROOM_NOT_FOUND"));
    let reply = get_user_in_room_by_username(&server, "lobby", "ghost");
    assert_eq!(reply.status, 404);
    assert!(matches!(reply.body, ApiBody::ErrorBody(e) if e.error_id == "ERR__USER_NOT_FOUND"));
    let reply = get_user_in_room_by_username(&server, "lobby", "bob");
    assert_eq!(reply.status, 404);
    match reply.body {
        ApiBody::ErrorBody(e) => {
            assert_eq!(e.error_id, "ERR__USER_NOT_IN_ROOM");
            assert_eq!(e.error_message, "User with username bob is not in room with name lobby");
        },
        _ => panic!("expected an error body"),
    }
}

#[test]
fn handler_create_room_answers() {
    let mut server = Server::new("main".to_string());
    server.register_user("alice").unwrap();
    let reply = create_room(&mut server, "lobby", None);
    assert_eq!(reply.status, 400);
    assert!(matches!(
        reply.body,
        ApiBody::ErrorBody(e) if e.error_id == "ERR__ROOM_CREATE_BAD_REQUEST"
            && e.error_message == "Missing creator_username query parameter"
    ));
    let reply = create_room(&mut server, "lobby", Some("ghost"));
    assert_eq!(reply.status, 409);
    assert!(matches!(
        reply.body,
        ApiBody::ErrorBody(e) if e.error_id == "ERR__ROOM_CREATE_CONFLICT"
            && e.error_message == "Cannot create room ghost: Creator user not registered"
    ));
    let reply = create_room(&mut server, "lobby", Some("alice"));
    assert_eq!(reply.status, 201);
    assert!(matches!(reply.body, ApiBody::RoomBody(s) if s.name == "lobby" && s.users.len() == 1));
    let reply = create_room(&mut server, "lobby", Some("alice"));
    assert_eq!(reply.status, 409);
    assert!(matches!(
        reply.body,
        ApiBody::ErrorBody(e) if e.error_id == "ERR__ROOM_CREATE_CONFLICT"
            && e.error_message == "Cannot create room alice: Room name already registered"
    ));
}

#[test]
fn handler_add_user_answers() {
    let mut server = Server::new("main".to_string());
    server.register_user("alice").unwrap();
    server.register_user("bob").unwrap();
    server.create_room("lobby", "alice").unwrap();
    let reply = add_user_to_room(&mut server, "attic", "bob");
    assert_eq!(reply.status, 409);
    assert!(matches!(
        reply.body,
        ApiBody::ErrorBody(e) if e.error_id == "ERR__USER_ADD_TO_ROOM_CONFLICT"
            && e.error_message == "Cannot add user bob to room attic: Room name not registered"
    ));
    let reply = add_user_to_room(&mut server, "lobby", "ghost");
    assert_eq!(reply.status, 409);
    assert!(matches!(
        reply.body,
        ApiBody::ErrorBody(e) if e.error_id == "ERR__USER_ADD_TO_ROOM_CONFLICT"
            && e.error_message == "Cannot add user ghost to room lobby: Username not registered"
    ));
    let reply = add_user_to_room(&mut server, "lobby", "bob");
    assert_eq!(reply.status, 201);
    assert!(matches!(reply.body, ApiBody::RoomBody(s) if s.users.len() == 2));
    let reply = add_user_to_room(&mut server, "lobby", "bob");
    assert_eq!(reply.status, 409);
    assert!(matches!(
        reply.body,
        ApiBody::ErrorBody(e) if e.error_id == "ERR__USER_ADD_TO_ROOM_CONFLICT"
            && e.error_message == "Cannot add user bob to room lobby: Failed to add user to room"
    ));
}

#[test]
fn handler_messages_answers() {
    let mut server = Server::new("main".to_string());
    server.register_user("alice").unwrap();
    server.create_room("lobby", "alice").unwrap();
    let reply = get_room_messages(&server, "lobby");
    assert_eq!(reply.status, 200);
    assert!(matches!(reply.body, ApiBody::MessagesBody(v) if v.is_empty()));
    let reply = get_room_messages(&server, "attic");
    assert_eq!(reply.status, 409);
    assert!(matches!(
        reply.body,
        ApiBody::ErrorBody(e) if e.error_id == "ERR__ROOM_MESSAGES_CONFLICT"
            && e.error_message == "Cannot get messages for room attic: Room name not registered"
    ));
}

#[test]
fn handler_post_message_answers() {
    let mut server = Server::new("main".to_string());
    server.register_user("alice").unwrap();
    server.register_user("bob").unwrap();
    server.create_room("lobby", "alice").unwrap();
    let reply = post_message_to_room(&mut server, "lobby", None, Some("hi"));
    assert_eq!(reply.status, 400);
    assert!(matches!(
        reply.body,
        ApiBody::ErrorBody(e) if e.error_id == "ERR__MESSAGE_POST_TO_ROOM_BAD_REQUEST"
            && e.error_message == "Missing username or message in request body"
    ));
    let reply = post_message_to_room(&mut server, "lobby", Some("alice"), None);
    assert_eq!(reply.status, 400);
    assert!(matches!(
        reply.body,
        ApiBody::ErrorBody(e) if e.error_id == "ERR__MESSAGE_POST_TO_ROOM_BAD_REQUEST"
    ));
    let reply = post_message_to_room(&mut server, "attic", Some("alice"), Some("hi"));
    assert_eq!(reply.status, 409);
    assert!(matches!(
        reply.body,
        ApiBody::ErrorBody(e) if e.error_id == "ERR__MESSAGE_POST_TO_ROOM_CONFLICT"
            && e.error_message == "Cannot post message to room attic: Room name not registered"
    ));
    let reply = post_message_to_room(&mut server, "lobby", Some("ghost"), Some("hi"));
    assert_eq!(reply.status, 409);
    assert!(matches!(
        reply.body,
        ApiBody::ErrorBody(e) if e.error_id == "ERR__MESSAGE_POST_TO_ROOM_CONFLICT"
            && e.error_message == "Cannot post message to room lobby: Username not registered"
    ));
    let reply = post_message_to_room(&mut server, "lobby", Some("bob"), Some("hi"));
    assert_eq!(reply.status, 409);
    assert!(matches!(
        reply.body,
        ApiBody::ErrorBody(e) if e.error_id == "ERR__MESSAGE_POST_TO_ROOM_CONFLICT"
            && e.error_message == "Cannot post message to room lobby: Failed to post message to room"
    ));
    let reply = post_message_to_room(&mut server, "lobby", Some("alice"), Some("hi"));
    assert_eq!(reply.status, 201);
    assert!(matches!(
        reply.body,
        ApiBody::MessageBody(m) if m.content == "hi" && m.author.username == "alice"
    ));
    assert_eq!(server.get_room_messages("lobby").unwrap().len(), 1);
}

#[test]
fn auth_flow_walks_the_register_path() {
    let state = AuthFlowState::StartAuthentication;
    let not_found = ErrorDetailsResponse {
        error_id: "ERR__USER_NOT_FOUND".to_string(),
        error_message: "User not found".to_string(),
    };
    let state = auth_flow_step(state, AuthFlowEvent::Fetched(Err(not_found)));
    assert!(matches!(state, AuthFlowState::ConsiderRegistration(_)));
    let state = auth_flow_step(state, AuthFlowEvent::Answered(true));
    assert!(matches!(state, AuthFlowState::StartRegistration));
    let state = auth_flow_step(state, AuthFlowEvent::Fetched(Ok("alice".to_string())));
    assert!(matches!(state, AuthFlowState::Done(u) if u == "alice"));
}

#[test]
fn auth_flow_gives_up_on_other_errors_and_on_no() {
    let state = AuthFlowState::StartAuthentication;
    let fetch_error = ErrorDetailsResponse {
        error_id: "ERR__CLIENT_FETCH_API".to_string(),
        error_message: "Failed to fetch API".to_string(),
    };
    let state = auth_flow_step(state, AuthFlowEvent::Fetched(Err(fetch_error)));
    assert!(matches!(state, AuthFlowState::Failed(e) if e.error_id == "ERR__CLIENT_FETCH_API"));

    let state = AuthFlowState::StartAuthentication;
    let not_found = ErrorDetailsResponse {
        error_id: "ERR__USER_NOT_FOUND".to_string(),
        error_message: "User not found".to_string(),
    };
    let state = auth_flow_step(state, AuthFlowEvent::Fetched(Err(not_found)));
    let state = auth_flow_step(state, AuthFlowEvent::Answered(false));
    assert!(matches!(state, AuthFlowState::Failed(e) if e.error_id == "ERR__USER_NOT_FOUND"));
}

#[test]
fn auth_flow_retries_authentication_for_a_taken_name() {
    let state = AuthFlowState::StartRegistration;
    let taken = ErrorDetailsResponse {
        error_id: "ERR__USER_ALREADY_EXISTS".to_string(),
        error_message: "User already exists".to_string(),
    };
    let state = auth_flow_step(state, AuthFlowEvent::Fetched(Err(taken)));
    assert!(matches!(state, AuthFlowState::ConsiderAuthentication(_)));
    let state = auth_flow_step(state, AuthFlowEvent::Answered(true));
    assert!(matches!(state, AuthFlowState::StartAuthentication));
}

#[test]
fn room_choice_flow_enters_joins_and_creates() {
    // already a member
    let state = room_choice_step(
        RoomChoiceState::ChoosingRoom,
        RoomChoiceEvent::RoomFetched("lobby".to_string(), None),
    );
    assert!(matches!(&state, RoomChoiceState::CheckingMembership(r) if r == "lobby"));
    let state = room_choice_step(state, RoomChoiceEvent::MembershipChecked(true));
    assert!(matches!(&state, RoomChoiceState::Entered(r) if r == "lobby"));

    // not a member, joins
    let state = room_choice_step(
        RoomChoiceState::CheckingMembership("lobby".to_string()),
        RoomChoiceEvent::MembershipChecked(false),
    );
    assert!(matches!(&state, RoomChoiceState::ConsiderJoining(r) if r == "lobby"));
    let state = room_choice_step(state, RoomChoiceEvent::Answered(true));
    assert!(matches!(&state, RoomChoiceState::Joining(r) if r == "lobby"));
    let state = room_choice_step(state, RoomChoiceEvent::JoinFinished(None));
    assert!(matches!(&state, RoomChoiceState::Entered(r) if r == "lobby"));

    // declines to join
    let state = room_choice_step(
        RoomChoiceState::ConsiderJoining("lobby".to_string()),
        RoomChoiceEvent::Answered(false),
    );
    match state {
        RoomChoiceState::Failed(e) => {
            assert_eq!(e.error_id, "ERR__USER_NOT_ADDED_TO_ROOM");
            assert_eq!(e.error_message, "User chose not to be added to the room.");
        },
        _ => panic!("expected a failure"),
    }

    // room missing, creates another
    let missing = ErrorDetailsResponse {
        error_id: "ERR__ROOM_NOT_FOUND".to_string(),
        error_message: "Room not found".to_string(),
    };
    let state = room_choice_step(
        RoomChoiceState::ChoosingRoom,
        RoomChoiceEvent::RoomFetched("attic".to_string(), Some(missing)),
    );
    assert!(matches!(&state, RoomChoiceState::ConsiderCreating(_)));
    let state = room_choice_step(state, RoomChoiceEvent::Answered(true));
    assert!(matches!(&state, RoomChoiceState::CreatingRoom));
    let state = room_choice_step(
        state,
        RoomChoiceEvent::CreateFinished("den".to_string(), None),
    );
    assert!(matches!(&state, RoomChoiceState::Entered(r) if r == "den"));
}

#[test]
fn chat_menu_and_yes_no_answers_parse() {
    assert!(matches!(parse_chat_choice("1"), Some(RoomChatChoice::ViewMessages)));
    assert!(matches!(parse_chat_choice("2"), Some(RoomChatChoice::SendMessage)));
    assert!(parse_chat_choice("3").is_none());
    assert!(parse_chat_choice("").is_none());
    assert_eq!(parse_yes_no("y"), Some(true));
    assert_eq!(parse_yes_no("n"), Some(false));
    assert_eq!(parse_yes_no("maybe"), None);
}

#[test]
fn host_shapes_are_judged_like_the_option_parser() {
    assert_eq!(host_is_valid("127.0.0.1"), Ok("127.0.0.1".to_string()));
    assert_eq!(host_is_valid("999.999.999.999"), Ok("999.999.999.999".to_string()));
    assert_eq!(host_is_valid("localhost"), Err("Invalid host".to_string()));
    assert_eq!(host_is_valid("1.2.3"), Err("Invalid host".to_string()));
    assert_eq!(host_is_valid("1.2.3.4.5"), Err("Invalid host".to_string()));
    assert_eq!(host_is_valid("1..3.4"), Err("Invalid host".to_string()));
    assert_eq!(host_is_valid("1.2.3.4444"), Err("Invalid host".to_string()));
    assert_eq!(host_is_valid(""), Err("Invalid host".to_string()));
    assert_eq!(host_is_valid("1.2.3.x"), Err("Invalid host".to_string()));
}

#[test]
fn host_octets_parse_and_range_check() {
    assert_eq!(parse_host_octets("127.0.0.1"), Some((127, 0, 0, 1)));
    assert_eq!(parse_host_octets("0.0.0.0"), Some((0, 0, 0, 0)));
    assert_eq!(parse_host_octets("255.255.255.255"), Some((255, 255, 255, 255)));
    assert_eq!(parse_host_octets("256.0.0.1"), None);
    assert_eq!(parse_host_octets("host"), None);
}

#[test]
fn ports_render_in_decimal() {
    assert_eq!(u16_to_dec(0), "0");
    assert_eq!(u16_to_dec(7), "7");
    assert_eq!(u16_to_dec(3030), "3030");
    assert_eq!(u16_to_dec(65535), "65535");
}

#[test]
fn client_endpoint_is_assembled_from_host_and_port() {
    let client = CliClient::new("127.0.0.1".to_string(), 3030);
    assert_eq!(client.server_endpoint, "http://127.0.0.1:3030");
    assert_eq!(client.current_username, "");
    assert_eq!(client.current_room, "");
}

#[test]
fn urls_spell_out_each_endpoint() {
    let e = "http://127.0.0.1:3030";
    assert_eq!(status_url(e), "http://127.0.0.1:3030/status");
    assert_eq!(user_url(e, "alice"), "http://127.0.0.1:3030/users/alice");
    assert_eq!(room_url(e, "lobby"), "http://127.0.0.1:3030/rooms/lobby");
    assert_eq!(
        room_user_url(e, "lobby", "alice"),
        "http://127.0.0.1:3030/rooms/lobby/users/alice"
    );
    assert_eq!(
        create_room_url(e, "lobby", "alice"),
        "http://127.0.0.1:3030/rooms/lobby?creator_username=alice"
    );
    assert_eq!(
        room_messages_url(e, "lobby"),
        "http://127.0.0.1:3030/rooms/lobby/messages"
    );
}

#[test]
fn string_equality_helper_compares_contents() {
    assert!(str_eq("abc", "abc"));
    assert!(!str_eq("abc", "abd"));
    assert!(!str_eq("abc", "abcd"));
    assert!(str_eq("", ""));
}

#[test]
fn removing_a_member_keeps_the_others_in_order() {
    let first = User::new("first".to_string());
    let second = User::new("second".to_string());
    let third = User::new("third".to_string());
    let mut room = Room::new("lobby".to_string());
    room.add_user_to_room(first.clone()).unwrap();
    room.add_user_to_room(second.clone()).unwrap();
    room.add_user_to_room(third.clone()).unwrap();
    room.remove_user_from_room(&second).unwrap();
    assert_eq!(room.users.len(), 2);
    assert_eq!(room.users[0].username, "first");
    assert_eq!(room.users[1].username, "third");
}

#[test]
fn host_octets_allow_leading_zeros() {
    assert_eq!(parse_host_octets("01.02.003.000"), Some((1, 2, 3, 0)));
}

#[test]
fn timestamps_do_not_decrease_within_a_room() {
    let mut server = Server::new("main".to_string());
    server.register_user("alice").unwrap();
    server.create_room("lobby", "alice").unwrap();
    server.post_message_to_room("lobby", "alice", "one").unwrap();
    server.post_message_to_room("lobby", "alice", "two").unwrap();
    let messages = server.get_room_messages("lobby").unwrap();
    assert!(messages[0].timestamp <= messages[1].timestamp);
}
