// The connection registry and the login handshake.

use chat_presence::websocket::{handle_frame, handle_login_message, login};
use chat_presence::{
    AppState, ConnectedUser, Delivery, LoginRequest, MessageType, Payload, RegistryError, User,
    WebSocketMessage,
};

fn user(name: &str) -> User {
    User { username: name.to_string(), is_available: true, chat_id: None }
}

fn request(name: &str) -> LoginRequest {
    LoginRequest { username: name.to_string() }
}

fn text_frame(message_type: MessageType, text: &str) -> WebSocketMessage {
    WebSocketMessage { message_type, data: Payload::Text(text.to_string()) }
}

#[test]
fn new_state_is_empty() {
    let state = AppState::new();
    assert!(state.connected_users.is_empty());
    assert!(state.chat_tracking.is_empty());
    assert!(state.private_chats_with_both_users.is_empty());
    assert!(state.users().is_empty());
}

#[test]
fn register_adds_a_session_in_order() {
    let mut state = AppState::new();
    assert_eq!(state.register("alice", 7, "s-a".to_string()), Ok(()));
    assert_eq!(state.register("bob", 9, "s-b".to_string()), Ok(()));
    assert_eq!(
        state.connected_users,
        vec![
            ConnectedUser { user: user("alice"), sender: 7, session_id: "s-a".to_string() },
            ConnectedUser { user: user("bob"), sender: 9, session_id: "s-b".to_string() },
        ]
    );
    assert_eq!(state.users(), vec![user("alice"), user("bob")]);
}

#[test]
fn register_turns_down_a_taken_name() {
    let mut state = AppState::new();
    assert_eq!(state.register("alice", 7, "s-a".to_string()), Ok(()));
    let before = state.connected_users.clone();
    assert_eq!(state.register("alice", 8, "s-x".to_string()), Err(RegistryError::UsernameTaken));
    assert_eq!(state.connected_users, before);
    assert_eq!(state.lookup("alice").unwrap().sender, 7);
    assert_eq!(state.lookup("alice").unwrap().session_id, "s-a");
}

#[test]
fn names_are_told_apart_to_the_letter() {
    let mut state = AppState::new();
    assert_eq!(state.register("alice", 1, "a".to_string()), Ok(()));
    assert_eq!(state.register("Alice", 2, "b".to_string()), Ok(()));
    assert_eq!(state.register("alice ", 3, "c".to_string()), Ok(()));
    assert_eq!(state.register("", 4, "d".to_string()), Ok(()));
    assert_eq!(state.register("", 5, "e".to_string()), Err(RegistryError::UsernameTaken));
    assert_eq!(state.register("älice", 6, "f".to_string()), Ok(()));
    assert_eq!(state.register("alicé", 7, "g".to_string()), Ok(()));
    assert_eq!(state.connected_users.len(), 6);
    assert_eq!(state.lookup("älice").unwrap().sender, 6);
    assert!(state.lookup("alic").is_none());
}

#[test]
fn unregister_is_idempotent() {
    let mut state = AppState::new();
    state.register("alice", 1, "a".to_string()).unwrap();
    state.register("bob", 2, "b".to_string()).unwrap();
    state.register("carol", 3, "c".to_string()).unwrap();
    let gone = state.unregister("bob");
    assert_eq!(
        gone,
        Some(ConnectedUser { user: user("bob"), sender: 2, session_id: "b".to_string() })
    );
    assert_eq!(state.users(), vec![user("alice"), user("carol")]);
    assert_eq!(state.unregister("bob"), None);
    assert_eq!(state.users(), vec![user("alice"), user("carol")]);
    assert!(!state.is_registered("bob"));
    assert!(state.is_registered("carol"));
}

#[test]
fn a_freed_name_can_be_taken_again() {
    let mut state = AppState::new();
    state.register("alice", 1, "a".to_string()).unwrap();
    state.unregister("alice");
    assert_eq!(state.register("alice", 2, "b".to_string()), Ok(()));
    assert_eq!(state.lookup("alice").unwrap().sender, 2);
}

#[test]
fn login_confirms_announces_and_lists() {
    let mut state = AppState::new();
    state.register("alice", 1, "a".to_string()).unwrap();
    let mut name: Option<String> = None;
    let out = login(&mut state, 2, &request("bob"), &mut name, "sid-1".to_string());
    assert_eq!(name, Some("bob".to_string()));
    let joined = WebSocketMessage {
        message_type: MessageType::UserJoined,
        data: Payload::User(user("bob")),
    };
    assert_eq!(
        out,
        vec![
            Delivery {
                sender: 2,
                message: text_frame(
                    MessageType::LoginSuccess,
                    "Username 'bob' è disponibile; session_id: sid-1"
                ),
            },
            Delivery { sender: 1, message: joined.clone() },
            Delivery { sender: 2, message: joined },
            Delivery {
                sender: 2,
                message: WebSocketMessage {
                    message_type: MessageType::UsersList,
                    data: Payload::UsersList(vec![user("alice"), user("bob")]),
                },
            },
        ]
    );
    assert_eq!(
        state.lookup("bob"),
        Some(ConnectedUser { user: user("bob"), sender: 2, session_id: "sid-1".to_string() })
    );
}

#[test]
fn login_under_a_taken_name_is_refused() {
    let mut state = AppState::new();
    let mut first: Option<String> = None;
    login(&mut state, 1, &request("mario"), &mut first, "sid-1".to_string());
    let before = state.connected_users.clone();

    let mut second: Option<String> = None;
    let out = login(&mut state, 2, &request("mario"), &mut second, "sid-2".to_string());
    assert_eq!(
        out,
        vec![Delivery {
            sender: 2,
            message: text_frame(
                MessageType::LoginError,
                "Username 'mario' è già in uso. Scegli un altro nome."
            ),
        }]
    );
    assert_eq!(second, None);
    assert_eq!(state.connected_users, before);
    assert_eq!(state.lookup("mario").unwrap().session_id, "sid-1");
}

#[test]
fn a_refused_login_keeps_the_name_the_connection_had() {
    let mut state = AppState::new();
    let mut one: Option<String> = None;
    login(&mut state, 1, &request("alice"), &mut one, "a".to_string());
    let mut two: Option<String> = None;
    login(&mut state, 2, &request("bob"), &mut two, "b".to_string());
    let out = login(&mut state, 2, &request("alice"), &mut two, "c".to_string());
    assert_eq!(out.len(), 1);
    assert_eq!(out[0].message.message_type, MessageType::LoginError);
    assert_eq!(two, Some("bob".to_string()));
    assert_eq!(state.connected_users.len(), 2);
}

#[test]
fn a_connection_that_logs_in_again_goes_by_the_new_name() {
    let mut state = AppState::new();
    let mut name: Option<String> = None;
    login(&mut state, 1, &request("alice"), &mut name, "a".to_string());
    login(&mut state, 1, &request("alicia"), &mut name, "b".to_string());
    assert_eq!(name, Some("alicia".to_string()));
    assert_eq!(state.users(), vec![user("alice"), user("alicia")]);
}

#[test]
fn login_frame_draws_a_fresh_session_id() {
    let mut state = AppState::new();
    let mut a: Option<String> = None;
    let mut b: Option<String> = None;
    let frame_a =
        WebSocketMessage { message_type: MessageType::Login, data: Payload::Login(request("a")) };
    let frame_b =
        WebSocketMessage { message_type: MessageType::Login, data: Payload::Login(request("b")) };
    handle_login_message(&mut state, 1, &frame_a, &mut a);
    handle_login_message(&mut state, 2, &frame_b, &mut b);
    let sid_a = state.lookup("a").unwrap().session_id;
    let sid_b = state.lookup("b").unwrap().session_id;
    assert_eq!(sid_a.len(), 36);
    assert_eq!(sid_b.len(), 36);
    assert_ne!(sid_a, sid_b);
    assert!(uuid::Uuid::parse_str(&sid_a).is_ok());
}

#[test]
fn login_frame_without_a_request_is_dropped() {
    let mut state = AppState::new();
    let mut name: Option<String> = None;
    let frame = text_frame(MessageType::Login, "{\"user\":\"alice\"}");
    let out = handle_login_message(&mut state, 1, &frame, &mut name);
    assert!(out.is_empty());
    assert_eq!(name, None);
    assert!(state.connected_users.is_empty());
}

#[test]
fn frames_of_other_kinds_are_ignored() {
    let mut state = AppState::new();
    state.register("alice", 1, "a".to_string()).unwrap();
    let before = state.connected_users.clone();
    let mut name = Some("alice".to_string());
    for kind in [
        MessageType::LoginSuccess,
        MessageType::LoginError,
        MessageType::UserJoined,
        MessageType::UserLeft,
        MessageType::UsersList,
        MessageType::ChatReady,
        MessageType::AloneInChat,
        MessageType::ChatUsersCount,
        MessageType::ChatAbandoned,
        MessageType::ChatInvalidated,
        MessageType::Error,
    ] {
        let frame = WebSocketMessage { message_type: kind, data: Payload::Login(request("bob")) };
        let out = handle_frame(&mut state, 1, &mut name, &frame);
        assert!(out.is_empty());
    }
    assert_eq!(state.connected_users, before);
    assert_eq!(name, Some("alice".to_string()));
}

#[test]
fn no_two_sessions_share_a_name_after_many_logins() {
    let mut state = AppState::new();
    let attempts = ["a", "b", "a", "c", "b", "a", "d", "", "", "c"];
    let mut successes = 0;
    for (i, attempt) in attempts.iter().enumerate() {
        let mut name: Option<String> = None;
        let frame = WebSocketMessage {
            message_type: MessageType::Login,
            data: Payload::Login(request(attempt)),
        };
        let out = handle_frame(&mut state, i as u64, &mut name, &frame);
        if out[0].message.message_type == MessageType::LoginSuccess {
            successes += 1;
            assert_eq!(name, Some(attempt.to_string()));
        } else {
            assert_eq!(out.len(), 1);
            assert_eq!(out[0].message.message_type, MessageType::LoginError);
            assert_eq!(out[0].sender, i as u64);
            assert_eq!(name, None);
        }
    }
    assert_eq!(successes, 5);
    let names: Vec<String> = state.users().into_iter().map(|u| u.username).collect();
    assert_eq!(names, vec!["a", "b", "c", "d", ""]);
    let senders: Vec<u64> = state.connected_users.iter().map(|c| c.sender).collect();
    assert_eq!(senders, vec![0, 1, 3, 6, 7]);
}

#[test]
fn snapshot_copies_the_sessions_in_order() {
    let mut state = AppState::new();
    state.register("alice", 7, "s-a".to_string()).unwrap();
    state.register("bob", 9, "s-b".to_string()).unwrap();
    state.connected_users[1].user.chat_id = Some("c1".to_string());
    let copy = state.snapshot();
    assert_eq!(copy, state.connected_users);
    assert_eq!(copy[1].user.chat_id, Some("c1".to_string()));
    state.unregister("alice");
    assert_eq!(copy.len(), 2);
    assert_eq!(state.snapshot().len(), 1);
}
