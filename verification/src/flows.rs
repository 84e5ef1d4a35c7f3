use crate::handlers::ErrorDetailsResponse;
use crate::text::str_eq;
use vstd::prelude::*;
use vstd::string::StringExecFns;

verus! {

/// What the chat loop does next.
#[derive(Debug)]
pub enum RoomChatChoice {
    ViewMessages,
    SendMessage,
}

/// Reads the chat menu answer: "1" views messages, "2" sends one, anything
/// else is refused and asked again.
pub fn parse_chat_choice(s: &str) -> (r: Option<RoomChatChoice>)
    ensures
        s@ == "1"@ ==> r == Some(RoomChatChoice::ViewMessages),
        s@ == "2"@ ==> r == Some(RoomChatChoice::SendMessage),
        s@ != "1"@ && s@ != "2"@ ==> r is None,
{
    proof {
        reveal_strlit("1");
        reveal_strlit("2");
        assert("1"@[0] == '1' && "2"@[0] == '2');
        assert("1"@ != "2"@);
    }
    if str_eq(s, "1") {
        Some(RoomChatChoice::ViewMessages)
    } else if str_eq(s, "2") {
        Some(RoomChatChoice::SendMessage)
    } else {
        None
    }
}

/// Reads a yes/no answer: "y" or "n", anything else is refused and asked
/// again.
pub fn parse_yes_no(s: &str) -> (r: Option<bool>)
    ensures
        s@ == "y"@ ==> r == Some(true),
        s@ == "n"@ ==> r == Some(false),
        s@ != "y"@ && s@ != "n"@ ==> r is None,
{
    proof {
        reveal_strlit("y");
        reveal_strlit("n");
        assert("y"@[0] == 'y' && "n"@[0] == 'n');
        assert("y"@ != "n"@);
    }
    if str_eq(s, "y") {
        Some(true)
    } else if str_eq(s, "n") {
        Some(false)
    } else {
        None
    }
}

/// Where the sign-in conversation stands. The driving loop asks for input
/// or calls the server as the state demands and feeds the outcome back in.
#[derive(Debug)]
pub enum AuthFlowState {
    /// Ask for a username and look it up.
    StartAuthentication,
    /// The user was not found: ask whether to register instead.
    ConsiderRegistration(ErrorDetailsResponse),
    /// Ask for a new username and register it.
    StartRegistration,
    /// The name was taken after all: ask whether to sign in with it.
    ConsiderAuthentication(ErrorDetailsResponse),
    /// Signed in under the carried username.
    Done(String),
    /// Gave up; the driving loop reports the error and starts over.
    Failed(ErrorDetailsResponse),
}

/// What happened since the last step of the sign-in conversation.
#[derive(Debug)]
pub enum AuthFlowEvent {
    /// A lookup or registration came back: the username on success, the
    /// server's error otherwise.
    Fetched(Result<String, ErrorDetailsResponse>),
    /// The user answered a yes/no question.
    Answered(bool),
}

/// The sign-in conversation, one step at a time: authenticate; offer to
/// register when the user is unknown; offer to authenticate when the new
/// name turned out taken; give up on any other error or on a "no". An
/// event that does not fit the state leaves it unchanged.
pub open spec fn spec_auth_flow_step(state: AuthFlowState, event: AuthFlowEvent) -> AuthFlowState {
    match (state, event) {
        (AuthFlowState::StartAuthentication, AuthFlowEvent::Fetched(outcome)) => match outcome {
            Ok(username) => AuthFlowState::Done(username),
            Err(error) => {
                if error.error_id@ == "ERR__USER_NOT_FOUND"@ {
                    AuthFlowState::ConsiderRegistration(error)
                } else {
                    AuthFlowState::Failed(error)
                }
            },
        },
        (AuthFlowState::ConsiderRegistration(error), AuthFlowEvent::Answered(yes)) => {
            if yes {
                AuthFlowState::StartRegistration
            } else {
                AuthFlowState::Failed(error)
            }
        },
        (AuthFlowState::StartRegistration, AuthFlowEvent::Fetched(outcome)) => match outcome {
            Ok(username) => AuthFlowState::Done(username),
            Err(error) => {
                if error.error_id@ == "ERR__USER_ALREADY_EXISTS"@ {
                    AuthFlowState::ConsiderAuthentication(error)
                } else {
                    AuthFlowState::Failed(error)
                }
            },
        },
        (AuthFlowState::ConsiderAuthentication(error), AuthFlowEvent::Answered(yes)) => {
            if yes {
                AuthFlowState::StartAuthentication
            } else {
                AuthFlowState::Failed(error)
            }
        },
        (other, _) => other,
    }
}

/// Runs one step of the sign-in conversation.
pub fn auth_flow_step(state: AuthFlowState, event: AuthFlowEvent) -> (next: AuthFlowState)
    ensures
        next == spec_auth_flow_step(state, event),
{
    match (state, event) {
        (AuthFlowState::StartAuthentication, AuthFlowEvent::Fetched(outcome)) => match outcome {
            Ok(username) => AuthFlowState::Done(username),
            Err(error) => {
                if str_eq(error.error_id.as_str(), "ERR__USER_NOT_FOUND") {
                    AuthFlowState::ConsiderRegistration(error)
                } else {
                    AuthFlowState::Failed(error)
                }
            },
        },
        (AuthFlowState::ConsiderRegistration(error), AuthFlowEvent::Answered(yes)) => {
            if yes {
                AuthFlowState::StartRegistration
            } else {
                AuthFlowState::Failed(error)
            }
        },
        (AuthFlowState::StartRegistration, AuthFlowEvent::Fetched(outcome)) => match outcome {
            Ok(username) => AuthFlowState::Done(username),
            Err(error) => {
                if str_eq(error.error_id.as_str(), "ERR__USER_ALREADY_EXISTS") {
                    AuthFlowState::ConsiderAuthentication(error)
                } else {
                    AuthFlowState::Failed(error)
                }
            },
        },
        (AuthFlowState::ConsiderAuthentication(error), AuthFlowEvent::Answered(yes)) => {
            if yes {
                AuthFlowState::StartAuthentication
            } else {
                AuthFlowState::Failed(error)
            }
        },
        (other, _) => other,
    }
}

/// Where the room-choice conversation stands.
#[derive(Debug)]
pub enum RoomChoiceState {
    /// Ask which room to enter and look it up.
    ChoosingRoom,
    /// The room exists: check whether the user is already a member.
    CheckingMembership(String),
    /// Not a member: ask whether to be added.
    ConsiderJoining(String),
    /// Add the user to the room.
    Joining(String),
    /// The room was not found: ask whether to create one.
    ConsiderCreating(ErrorDetailsResponse),
    /// Ask for the new room's name and create it.
    CreatingRoom,
    /// Entered the carried room.
    Entered(String),
    /// Gave up; the driving loop reports the error and starts over.
    Failed(ErrorDetailsResponse),
}

/// What happened since the last step of the room-choice conversation.
#[derive(Debug)]
pub enum RoomChoiceEvent {
    /// A room lookup came back: the room's name, and the server's error if
    /// it was not found.
    RoomFetched(String, Option<ErrorDetailsResponse>),
    /// The membership check came back.
    MembershipChecked(bool),
    /// The user answered a yes/no question.
    Answered(bool),
    /// The attempt to join came back: the server's error, if it failed.
    JoinFinished(Option<ErrorDetailsResponse>),
    /// The attempt to create came back: the room's name, and the server's
    /// error if it failed.
    CreateFinished(String, Option<ErrorDetailsResponse>),
}

/// Whether the event is the one the state is waiting for.
pub open spec fn spec_room_choice_fits(state: RoomChoiceState, event: RoomChoiceEvent) -> bool {
    match (state, event) {
        (RoomChoiceState::ChoosingRoom, RoomChoiceEvent::RoomFetched(_, _)) => true,
        (RoomChoiceState::CheckingMembership(_), RoomChoiceEvent::MembershipChecked(_)) => true,
        (RoomChoiceState::ConsiderJoining(_), RoomChoiceEvent::Answered(_)) => true,
        (RoomChoiceState::Joining(_), RoomChoiceEvent::JoinFinished(_)) => true,
        (RoomChoiceState::ConsiderCreating(_), RoomChoiceEvent::Answered(_)) => true,
        (RoomChoiceState::CreatingRoom, RoomChoiceEvent::CreateFinished(_, _)) => true,
        _ => false,
    }
}

/// Runs one step of the room-choice conversation: pick a room; join it
/// when it exists and the user agrees; offer to create one when it does
/// not; give up on any server error or on a "no". An event that does not
/// fit the state leaves it unchanged.
pub fn room_choice_step(state: RoomChoiceState, event: RoomChoiceEvent) -> (next: RoomChoiceState)
    ensures
        state matches RoomChoiceState::ChoosingRoom ==> event matches RoomChoiceEvent::RoomFetched(
            room_name,
            outcome,
        ) ==> {
            &&& outcome is None ==> next == RoomChoiceState::CheckingMembership(room_name)
            &&& outcome matches Some(error) ==> next == RoomChoiceState::ConsiderCreating(error)
        },
        state matches RoomChoiceState::CheckingMembership(room_name) ==> event matches
            RoomChoiceEvent::MembershipChecked(member) ==> {
            &&& member ==> next == RoomChoiceState::Entered(room_name)
            &&& !member ==> next == RoomChoiceState::ConsiderJoining(room_name)
        },
        state matches RoomChoiceState::ConsiderJoining(room_name) ==> event matches
            RoomChoiceEvent::Answered(yes) ==> {
            &&& yes ==> next == RoomChoiceState::Joining(room_name)
            &&& !yes ==> (next matches RoomChoiceState::Failed(e) && e.error_id@
                == "ERR__USER_NOT_ADDED_TO_ROOM"@ && e.error_message@
                == "User chose not to be added to the room."@)
        },
        state matches RoomChoiceState::Joining(room_name) ==> event matches
            RoomChoiceEvent::JoinFinished(outcome) ==> {
            &&& outcome is None ==> next == RoomChoiceState::Entered(room_name)
            &&& outcome matches Some(error) ==> next == RoomChoiceState::Failed(error)
        },
        state matches RoomChoiceState::ConsiderCreating(error) ==> event matches
            RoomChoiceEvent::Answered(yes) ==> {
            &&& yes ==> next == RoomChoiceState::CreatingRoom
            &&& !yes ==> next == RoomChoiceState::Failed(error)
        },
        state matches RoomChoiceState::CreatingRoom ==> event matches
            RoomChoiceEvent::CreateFinished(room_name, outcome) ==> {
            &&& outcome is None ==> next == RoomChoiceState::Entered(room_name)
            &&& outcome matches Some(error) ==> next == RoomChoiceState::Failed(error)
        },
        !spec_room_choice_fits(state, event) ==> next == state,
{
    match (state, event) {
        (RoomChoiceState::ChoosingRoom, RoomChoiceEvent::RoomFetched(room_name, outcome)) => {
            match outcome {
                None => RoomChoiceState::CheckingMembership(room_name),
                Some(error) => RoomChoiceState::ConsiderCreating(error),
            }
        },
        (
            RoomChoiceState::CheckingMembership(room_name),
            RoomChoiceEvent::MembershipChecked(member),
        ) => {
            if member {
                RoomChoiceState::Entered(room_name)
            } else {
                RoomChoiceState::ConsiderJoining(room_name)
            }
        },
        (RoomChoiceState::ConsiderJoining(room_name), RoomChoiceEvent::Answered(yes)) => {
            if yes {
                RoomChoiceState::Joining(room_name)
            } else {
                RoomChoiceState::Failed(
                    ErrorDetailsResponse {
                        error_id: "ERR__USER_NOT_ADDED_TO_ROOM".to_owned(),
                        error_message: "User chose not to be added to the room.".to_owned(),
                    },
                )
            }
        },
        (RoomChoiceState::Joining(room_name), RoomChoiceEvent::JoinFinished(outcome)) => {
            match outcome {
                None => RoomChoiceState::Entered(room_name),
                Some(error) => RoomChoiceState::Failed(error),
            }
        },
        (RoomChoiceState::ConsiderCreating(error), RoomChoiceEvent::Answered(yes)) => {
            if yes {
                RoomChoiceState::CreatingRoom
            } else {
                RoomChoiceState::Failed(error)
            }
        },
        (RoomChoiceState::CreatingRoom, RoomChoiceEvent::CreateFinished(room_name, outcome)) => {
            match outcome {
                None => RoomChoiceState::Entered(room_name),
                Some(error) => RoomChoiceState::Failed(error),
            }
        },
        (other, _) => other,
    }
}

} // verus!
