// Invitations: sending, accepting, declining.

use chat_presence::invites::{
    accept_invite, handle_invite_response, reject_invite, send_chat_invite,
};
use chat_presence::tracking::{add_user_to_chat_tracking, init_chat_tracking};
use chat_presence::websocket::{handle_chat_invite, handle_chat_invite_response};
use chat_presence::{
    AppState, ChatInvite, ChatInviteResponse, ChatInviteResponseNotify, ChatReady, ChatType,
    ChatUsersCount, Delivery, MessageType, Payload, Timestamp, WebSocketMessage,
};

fn stamp() -> Timestamp {
    Timestamp { secs: 1_700_000_123, nanos: 456 }
}

fn id() -> uuid::Uuid {
    uuid::Uuid::from_u128(42)
}

fn names(list: &[&str]) -> Vec<String> {
    list.iter().map(|n| n.to_string()).collect()
}

fn registered(list: &[&str]) -> AppState {
    let mut state = AppState::new();
    for (i, name) in list.iter().enumerate() {
        state.register(name, 100 + i as u64, format!("s-{}", name)).unwrap();
    }
    state
}

fn invite(chat_id: Option<&str>, from: &str, chat_type: ChatType) -> ChatInvite {
    ChatInvite {
        id: "inv1".into(),
        chat_id: chat_id.map(|c| c.to_string()),
        from: from.into(),
        from_session_id: format!("s-{}", from),
        chat_type,
        message: "Join me".into(),
        timestamp: stamp(),
    }
}

fn response(chat_id: Option<&str>, accepted: bool, session: &str) -> ChatInviteResponse {
    ChatInviteResponse {
        invite_id: "inv1".into(),
        chat_id: chat_id.map(|c| c.to_string()),
        accepted,
        from_user: "alice".into(),
        from_session_id: session.into(),
        chat_type: ChatType::Private { target: "bob".into() },
    }
}

fn senders(out: &[Delivery]) -> Vec<u64> {
    out.iter().map(|d| d.sender).collect()
}

fn kinds(out: &[Delivery]) -> Vec<(u64, MessageType)> {
    out.iter().map(|d| (d.sender, d.message.message_type)).collect()
}

#[test]
fn private_invite_goes_to_the_target_and_starts_the_membership() {
    let mut state = registered(&["alice", "bob", "carol"]);
    let inv = invite(Some("c1"), "alice", ChatType::Private { target: "bob".into() });
    let out = send_chat_invite(&mut state, "alice", &inv);
    assert_eq!(
        out,
        vec![Delivery {
            sender: 101,
            message: WebSocketMessage {
                message_type: MessageType::ChatInvite,
                data: Payload::ChatInvite(inv),
            },
        }]
    );
    assert_eq!(
        state.chat_tracking,
        vec![ChatUsersCount {
            chat_id: "c1".into(),
            invited_users: names(&["alice", "bob"]),
            users_in_chat: vec![],
            invited_count: 2,
            in_chat_count: 0,
        }]
    );
}

#[test]
fn invite_without_a_chat_starts_no_membership() {
    let mut state = registered(&["alice", "bob"]);
    let inv = invite(None, "alice", ChatType::Private { target: "bob".into() });
    assert_eq!(senders(&send_chat_invite(&mut state, "alice", &inv)), vec![101]);
    assert!(state.chat_tracking.is_empty());
}

#[test]
fn invite_to_somebody_absent_is_dropped_but_tracked() {
    let mut state = registered(&["alice"]);
    let inv = invite(Some("c1"), "alice", ChatType::Private { target: "zoe".into() });
    assert!(send_chat_invite(&mut state, "alice", &inv).is_empty());
    assert_eq!(state.chat_tracking[0].invited_users, names(&["alice", "zoe"]));
}

#[test]
fn group_invite_goes_to_every_member_but_the_sender() {
    let mut state = registered(&["alice", "bob", "carol", "dave"]);
    let inv = invite(
        Some("g"),
        "bob",
        ChatType::Group { members: names(&["dave", "bob", "zoe", "alice", "bob"]) },
    );
    let out = send_chat_invite(&mut state, "bob", &inv);
    assert_eq!(senders(&out), vec![103, 100]);
    assert_eq!(state.chat_tracking[0].invited_users, names(&["dave", "bob", "zoe", "alice", "bob"]));
    assert_eq!(state.chat_tracking[0].invited_count, 5);
}

#[test]
fn system_invite_goes_nowhere() {
    let mut state = registered(&["alice", "bob"]);
    let inv = invite(Some("s"), "alice", ChatType::System);
    assert!(send_chat_invite(&mut state, "alice", &inv).is_empty());
    assert_eq!(state.chat_tracking[0].invited_count, 0);
    assert!(state.chat_tracking[0].invited_users.is_empty());
}

#[test]
fn invite_again_starts_the_membership_afresh() {
    let mut state = registered(&["alice", "bob"]);
    let inv = invite(Some("c1"), "alice", ChatType::Private { target: "bob".into() });
    send_chat_invite(&mut state, "alice", &inv);
    add_user_to_chat_tracking(&mut state, "c1", "alice");
    send_chat_invite(&mut state, "alice", &inv);
    assert_eq!(state.chat_tracking.len(), 1);
    assert_eq!(state.chat_tracking[0].in_chat_count, 0);
}

#[test]
fn invite_frame_needs_a_login_and_an_invite() {
    let mut state = registered(&["alice", "bob"]);
    let inv = invite(Some("c1"), "alice", ChatType::Private { target: "bob".into() });
    let frame = WebSocketMessage {
        message_type: MessageType::ChatInvite,
        data: Payload::ChatInvite(inv),
    };
    assert!(handle_chat_invite(&mut state, &None, &frame).is_empty());
    assert!(state.chat_tracking.is_empty());
    let raw = WebSocketMessage {
        message_type: MessageType::ChatInvite,
        data: Payload::Text("{}".into()),
    };
    assert!(handle_chat_invite(&mut state, &Some("alice".into()), &raw).is_empty());
    assert!(state.chat_tracking.is_empty());
    // The sender is the one the connection goes by, whatever the invite says.
    let out = handle_chat_invite(&mut state, &Some("carol".into()), &frame);
    assert_eq!(senders(&out), vec![101]);
    assert_eq!(state.chat_tracking[0].invited_users, names(&["carol", "bob"]));
}

#[test]
fn accept_tells_chat_inviter_and_responder() {
    let mut state = registered(&["alice", "bob", "carol"]);
    state.connected_users[0].user.chat_id = Some("c1".into());
    state.connected_users[2].user.chat_id = Some("c1".into());
    let resp = response(Some("c1"), true, "s-alice");
    let out = accept_invite(&state, "bob", &resp, "c1".to_string(), id(), stamp());
    assert_eq!(
        kinds(&out),
        vec![
            (100, MessageType::ChatMessage),
            (102, MessageType::ChatMessage),
            (100, MessageType::ChatReady),
            (101, MessageType::ChatInviteResponse),
        ]
    );
    match &out[0].message.data {
        Payload::ChatMessage(m) => {
            assert_eq!(m.id, id());
            assert_eq!(m.chat_id, Some("c1".to_string()));
            assert_eq!(m.username, "Sistema");
            assert_eq!(m.content, "bob è entrato nella chat");
            assert_eq!(m.timestamp, stamp());
            assert_eq!(m.chat_type, ChatType::System);
        }
        other => panic!("not a chat message: {:?}", other),
    }
    assert_eq!(
        out[2].message.data,
        Payload::ChatReady(ChatReady {
            chat_id: "c1".into(),
            inviter: "alice".into(),
            inviter_session_id: "s-alice".into(),
            chat_type: ChatType::Private { target: "bob".into() },
            accepted_by: "bob".into(),
        })
    );
    assert_eq!(out[3].message.data, Payload::ChatInviteResponse(resp));
}

#[test]
fn readiness_is_not_sent_to_a_session_that_logged_in_anew() {
    let state = registered(&["alice", "bob"]);
    let stale = response(Some("c1"), true, "s-older");
    let out = accept_invite(&state, "bob", &stale, "c1".to_string(), id(), stamp());
    assert_eq!(kinds(&out), vec![(101, MessageType::ChatInviteResponse)]);
}

#[test]
fn readiness_is_not_sent_to_an_inviter_who_is_gone() {
    let state = registered(&["bob"]);
    let resp = response(Some("c1"), true, "s-alice");
    let out = accept_invite(&state, "bob", &resp, "c1".to_string(), id(), stamp());
    assert_eq!(kinds(&out), vec![(100, MessageType::ChatInviteResponse)]);
}

#[test]
fn accept_changes_no_membership() {
    let mut state = registered(&["alice", "bob"]);
    init_chat_tracking(&mut state, "c1", names(&["alice", "bob"]));
    let before = state.chat_tracking.clone();
    let out = handle_invite_response(&mut state, "bob", &response(Some("c1"), true, "s-alice"));
    assert_eq!(
        kinds(&out),
        vec![(100, MessageType::ChatReady), (101, MessageType::ChatInviteResponse)]
    );
    assert_eq!(state.chat_tracking, before);
    match &out[0].message.data {
        Payload::ChatReady(r) => assert_eq!(r.chat_id, "c1"),
        other => panic!("not a readiness notice: {:?}", other),
    }
}

#[test]
fn accept_without_a_chat_names_a_fresh_one() {
    let mut state = registered(&["alice", "bob"]);
    let out = handle_invite_response(&mut state, "bob", &response(None, true, "s-alice"));
    assert_eq!(
        kinds(&out),
        vec![(100, MessageType::ChatReady), (101, MessageType::ChatInviteResponse)]
    );
    match &out[0].message.data {
        Payload::ChatReady(r) => {
            assert_eq!(r.chat_id.len(), 36);
            assert!(uuid::Uuid::parse_str(&r.chat_id).is_ok());
            assert_eq!(r.accepted_by, "bob");
        }
        other => panic!("not a readiness notice: {:?}", other),
    }
}

#[test]
fn reject_tells_the_inviter_who_declined() {
    let mut state = registered(&["alice", "bob", "carol"]);
    let resp = response(None, false, "s-alice");
    let out = reject_invite(&mut state, "bob", &resp);
    assert_eq!(
        out,
        vec![Delivery {
            sender: 100,
            message: WebSocketMessage {
                message_type: MessageType::ChatInviteResponse,
                data: Payload::ChatInviteResponseNotify(ChatInviteResponseNotify {
                    invite_id: "inv1".into(),
                    chat_id: None,
                    accepted: false,
                    from_user: "alice".into(),
                    from_session_id: "s-alice".into(),
                    chat_type: ChatType::Private { target: "bob".into() },
                    responding_user: "bob".into(),
                }),
            },
        }]
    );
    assert!(state.chat_tracking.is_empty());
}

#[test]
fn reject_strikes_the_responder_and_tells_those_still_invited() {
    let mut state = registered(&["alice", "bob", "carol"]);
    init_chat_tracking(&mut state, "g", names(&["alice", "bob", "carol"]));
    add_user_to_chat_tracking(&mut state, "g", "alice");
    let out = handle_invite_response(&mut state, "bob", &response(Some("g"), false, "s-alice"));
    assert_eq!(
        kinds(&out),
        vec![
            (100, MessageType::ChatInviteResponse),
            (100, MessageType::ChatUsersCount),
            (102, MessageType::ChatUsersCount),
        ]
    );
    let now = ChatUsersCount {
        chat_id: "g".into(),
        invited_users: names(&["alice", "carol"]),
        users_in_chat: names(&["alice"]),
        invited_count: 2,
        in_chat_count: 1,
    };
    assert_eq!(out[1].message.data, Payload::ChatUsersCount(now.clone()));
    assert_eq!(state.chat_tracking, vec![now]);
}

#[test]
fn reject_with_a_stale_session_still_strikes() {
    let mut state = registered(&["alice", "bob"]);
    init_chat_tracking(&mut state, "c1", names(&["alice", "bob"]));
    let out = reject_invite(&mut state, "bob", &response(Some("c1"), false, "s-older"));
    assert_eq!(kinds(&out), vec![(100, MessageType::ChatUsersCount)]);
    assert_eq!(state.chat_tracking[0].invited_users, names(&["alice"]));
    assert_eq!(state.chat_tracking[0].invited_count, 1);
}

#[test]
fn response_frame_needs_a_login_and_a_response() {
    let mut state = registered(&["alice", "bob"]);
    init_chat_tracking(&mut state, "c1", names(&["alice", "bob"]));
    let frame = WebSocketMessage {
        message_type: MessageType::ChatInviteResponse,
        data: Payload::ChatInviteResponse(response(Some("c1"), false, "s-alice")),
    };
    assert!(handle_chat_invite_response(&mut state, &None, &frame).is_empty());
    assert_eq!(state.chat_tracking[0].invited_count, 2);
    let raw = WebSocketMessage {
        message_type: MessageType::ChatInviteResponse,
        data: Payload::Text("{}".into()),
    };
    assert!(handle_chat_invite_response(&mut state, &Some("bob".into()), &raw).is_empty());
    let out = handle_chat_invite_response(&mut state, &Some("bob".into()), &frame);
    assert_eq!(out.len(), 2);
    assert_eq!(state.chat_tracking[0].invited_count, 1);
}
