// Whole conversations between clients and the server, one frame at a time.
// Each frame a client sends is handled by the library; what the library
// queues is put into the inbox of the connection it is for.

use chat_presence::websocket::{disconnect, handle_frame};
use chat_presence::{
    AppState, ChatInvite, ChatInviteResponse, ChatMessage, ChatType, LoginRequest, MessageType,
    Payload, Timestamp, User, WebSocketMessage,
};

struct TestServer {
    state: AppState,
    names: Vec<Option<String>>,
    inboxes: Vec<Vec<WebSocketMessage>>,
}

fn start_test_server() -> TestServer {
    TestServer { state: AppState::new(), names: Vec::new(), inboxes: Vec::new() }
}

fn connect_client(server: &mut TestServer) -> usize {
    server.names.push(None);
    server.inboxes.push(Vec::new());
    server.names.len() - 1
}

fn deliver(server: &mut TestServer, out: Vec<chat_presence::Delivery>) {
    for d in out {
        server.inboxes[d.sender as usize].push(d.message);
    }
}

fn send_ws(server: &mut TestServer, client: usize, message_type: MessageType, data: Payload) {
    let frame = WebSocketMessage { message_type, data };
    let out = handle_frame(&mut server.state, client as u64, &mut server.names[client], &frame);
    deliver(server, out);
}

fn close(server: &mut TestServer, client: usize) {
    let name = server.names[client].take();
    let out = disconnect(&mut server.state, &name);
    deliver(server, out);
}

// Takes frames from the front of the client's inbox until one satisfies
// `pred`; the ones before it are dropped.
fn recv_until<F>(server: &mut TestServer, client: usize, pred: F) -> Option<WebSocketMessage>
where
    F: Fn(&WebSocketMessage) -> bool,
{
    while !server.inboxes[client].is_empty() {
        let m = server.inboxes[client].remove(0);
        if pred(&m) {
            return Some(m);
        }
    }
    None
}

fn login(server: &mut TestServer, client: usize, name: &str) {
    send_ws(
        server,
        client,
        MessageType::Login,
        Payload::Login(LoginRequest { username: name.to_string() }),
    );
}

fn wait_user_in_chat(server: &mut TestServer, client: usize, username: &str, chat_id: &str) {
    let got = recv_until(server, client, |m| {
        if let MessageType::UserStatusChanged = m.message_type {
            if let Payload::User(u) = &m.data {
                return u.username == username
                    && u.chat_id.as_deref() == Some(chat_id)
                    && !u.is_available;
            }
        }
        false
    });
    assert!(got.is_some(), "{} should be marked in chat {}", username, chat_id);
}

fn stamp() -> Timestamp {
    Timestamp { secs: 1_700_000_000, nanos: 0 }
}

fn group_message(chat_id: &str, from: &str, content: &str, members: &[&str]) -> ChatMessage {
    ChatMessage {
        id: uuid::Uuid::new_v4(),
        chat_id: Some(chat_id.to_string()),
        username: from.to_string(),
        content: content.to_string(),
        timestamp: stamp(),
        chat_type: ChatType::Group { members: members.iter().map(|m| m.to_string()).collect() },
    }
}

fn content_of(m: &WebSocketMessage) -> String {
    match &m.data {
        Payload::ChatMessage(c) => c.content.clone(),
        other => panic!("not a chat message: {:?}", other),
    }
}

#[test]
fn test_duplicate_login_rejected() {
    let mut server = start_test_server();
    let c1 = connect_client(&mut server);
    let c2 = connect_client(&mut server);

    login(&mut server, c1, "mario");
    let _ = recv_until(&mut server, c1, |m| matches!(m.message_type, MessageType::LoginSuccess));

    login(&mut server, c2, "mario");
    let got_error =
        recv_until(&mut server, c2, |m| matches!(m.message_type, MessageType::LoginError));
    assert!(got_error.is_some());
}

#[test]
fn test_invite_delivery_private() {
    let mut server = start_test_server();
    let alice = connect_client(&mut server);
    let bob = connect_client(&mut server);

    login(&mut server, alice, "alice");
    let _ = recv_until(&mut server, alice, |m| matches!(m.message_type, MessageType::LoginSuccess));
    login(&mut server, bob, "bob");
    let _ = recv_until(&mut server, bob, |m| matches!(m.message_type, MessageType::LoginSuccess));

    let invite = ChatInvite {
        id: "inv1".into(),
        chat_id: Some("chat-1".into()),
        from: "alice".into(),
        from_session_id: "dummy".into(),
        chat_type: ChatType::Private { target: "bob".into() },
        message: "Join me".into(),
        timestamp: stamp(),
    };
    send_ws(&mut server, alice, MessageType::ChatInvite, Payload::ChatInvite(invite.clone()));

    let got_invite =
        recv_until(&mut server, bob, |m| matches!(m.message_type, MessageType::ChatInvite))
            .expect("bob should receive invite");
    match got_invite.data {
        Payload::ChatInvite(payload) => assert_eq!(payload.id, invite.id),
        other => panic!("not an invite: {:?}", other),
    }
}

#[test]
fn test_group_message_broadcast_to_all_members() {
    let mut server = start_test_server();
    let a = connect_client(&mut server);
    let b = connect_client(&mut server);
    let c = connect_client(&mut server);

    login(&mut server, a, "alice");
    let _ = recv_until(&mut server, a, |m| matches!(m.message_type, MessageType::LoginSuccess));
    login(&mut server, b, "bob");
    let _ = recv_until(&mut server, b, |m| matches!(m.message_type, MessageType::LoginSuccess));
    login(&mut server, c, "carol");
    let _ = recv_until(&mut server, c, |m| matches!(m.message_type, MessageType::LoginSuccess));

    let status = r#"{"available":false,"inChat":true,"chatId":"group-1","members":["alice","bob","carol"]}"#;
    send_ws(&mut server, a, MessageType::UserStatusChanged, Payload::Text(status.to_string()));
    send_ws(&mut server, b, MessageType::UserStatusChanged, Payload::Text(status.to_string()));
    send_ws(&mut server, c, MessageType::UserStatusChanged, Payload::Text(status.to_string()));

    wait_user_in_chat(&mut server, a, "alice", "group-1");
    wait_user_in_chat(&mut server, b, "bob", "group-1");
    wait_user_in_chat(&mut server, c, "carol", "group-1");

    let chat_msg = group_message("group-1", "alice", "ciao gruppo", &["alice", "bob", "carol"]);
    send_ws(&mut server, a, MessageType::ChatMessage, Payload::ChatMessage(chat_msg.clone()));

    let msg_b = recv_until(&mut server, b, |m| matches!(m.message_type, MessageType::ChatMessage))
        .expect("bob should receive group message");
    assert_eq!(content_of(&msg_b), chat_msg.content);

    let msg_c = recv_until(&mut server, c, |m| matches!(m.message_type, MessageType::ChatMessage))
        .expect("carol should receive group message");
    assert_eq!(content_of(&msg_c), chat_msg.content);
}

#[test]
fn test_multiple_chats_correct_deliver() {
    let mut server = start_test_server();
    let a = connect_client(&mut server);
    let b = connect_client(&mut server);
    let c = connect_client(&mut server);
    let d = connect_client(&mut server);

    login(&mut server, a, "alice");
    let _ = recv_until(&mut server, a, |m| matches!(m.message_type, MessageType::LoginSuccess));
    login(&mut server, b, "bob");
    let _ = recv_until(&mut server, b, |m| matches!(m.message_type, MessageType::LoginSuccess));
    login(&mut server, c, "carol");
    let _ = recv_until(&mut server, c, |m| matches!(m.message_type, MessageType::LoginSuccess));
    login(&mut server, d, "dave");
    let _ = recv_until(&mut server, d, |m| matches!(m.message_type, MessageType::LoginSuccess));

    let status1 =
        r#"{"available":false,"inChat":true,"chatId":"group-1","members":["alice","bob"]}"#;
    send_ws(&mut server, a, MessageType::UserStatusChanged, Payload::Text(status1.to_string()));
    send_ws(&mut server, b, MessageType::UserStatusChanged, Payload::Text(status1.to_string()));

    let status2 =
        r#"{"available":false,"inChat":true,"chatId":"group-2","members":["carol","dave"]}"#;
    send_ws(&mut server, c, MessageType::UserStatusChanged, Payload::Text(status2.to_string()));
    send_ws(&mut server, d, MessageType::UserStatusChanged, Payload::Text(status2.to_string()));
    wait_user_in_chat(&mut server, a, "alice", "group-1");
    wait_user_in_chat(&mut server, b, "bob", "group-1");
    wait_user_in_chat(&mut server, c, "carol", "group-2");
    wait_user_in_chat(&mut server, d, "dave", "group-2");

    let chat_msg1 = group_message("group-1", "alice", "ciao gruppo 1", &["alice", "bob"]);
    send_ws(&mut server, a, MessageType::ChatMessage, Payload::ChatMessage(chat_msg1.clone()));
    let msg_b = recv_until(&mut server, b, |m| matches!(m.message_type, MessageType::ChatMessage))
        .expect("bob should receive group message");
    assert_eq!(content_of(&msg_b), chat_msg1.content);
    let no_msg_c =
        recv_until(&mut server, c, |m| matches!(m.message_type, MessageType::ChatMessage));
    assert!(no_msg_c.is_none(), "carol should NOT receive group-1 message");
    let no_msg_d =
        recv_until(&mut server, d, |m| matches!(m.message_type, MessageType::ChatMessage));
    assert!(no_msg_d.is_none(), "dave should NOT receive group-1 message");
}

#[test]
fn test_group_message_latency() {
    let mut server = start_test_server();
    let sender = connect_client(&mut server);
    let receiver = connect_client(&mut server);

    login(&mut server, sender, "alice");
    let _ =
        recv_until(&mut server, sender, |m| matches!(m.message_type, MessageType::LoginSuccess));
    login(&mut server, receiver, "bob");
    let _ =
        recv_until(&mut server, receiver, |m| matches!(m.message_type, MessageType::LoginSuccess));

    let status =
        r#"{"available":false,"inChat":true,"chatId":"group-latency","members":["alice","bob"]}"#;
    send_ws(&mut server, sender, MessageType::UserStatusChanged, Payload::Text(status.to_string()));
    send_ws(
        &mut server,
        receiver,
        MessageType::UserStatusChanged,
        Payload::Text(status.to_string()),
    );
    wait_user_in_chat(&mut server, sender, "alice", "group-latency");
    wait_user_in_chat(&mut server, receiver, "bob", "group-latency");

    let chat_msg = group_message("group-latency", "alice", "misura latenza", &["alice", "bob"]);

    let start = std::time::Instant::now();
    send_ws(&mut server, sender, MessageType::ChatMessage, Payload::ChatMessage(chat_msg.clone()));
    let _msg =
        recv_until(&mut server, receiver, |m| matches!(m.message_type, MessageType::ChatMessage))
            .expect("bob should receive group message");
    let elapsed_ms = start.elapsed().as_micros();

    println!("Tempo di latenza: {} µs", elapsed_ms);
    assert!(elapsed_ms < 3000, "Messaggio ricevuto troppo tardi");
}

#[test]
fn test_group_message_average_latency() {
    const N_MESSAGES: usize = 1000;

    let mut server = start_test_server();
    let sender = connect_client(&mut server);
    let receiver = connect_client(&mut server);

    login(&mut server, sender, "alice");
    let _ =
        recv_until(&mut server, sender, |m| matches!(m.message_type, MessageType::LoginSuccess));
    login(&mut server, receiver, "bob");
    let _ =
        recv_until(&mut server, receiver, |m| matches!(m.message_type, MessageType::LoginSuccess));

    let status =
        r#"{"available":false,"inChat":true,"chatId":"group-latency","members":["alice","bob"]}"#;
    send_ws(&mut server, sender, MessageType::UserStatusChanged, Payload::Text(status.to_string()));
    send_ws(
        &mut server,
        receiver,
        MessageType::UserStatusChanged,
        Payload::Text(status.to_string()),
    );
    wait_user_in_chat(&mut server, sender, "alice", "group-latency");
    wait_user_in_chat(&mut server, receiver, "bob", "group-latency");

    let mut latencies = Vec::with_capacity(N_MESSAGES);
    for i in 0..N_MESSAGES {
        let chat_msg =
            group_message("group-latency", "alice", &format!("msg {}", i), &["alice", "bob"]);

        let start = std::time::Instant::now();
        send_ws(
            &mut server,
            sender,
            MessageType::ChatMessage,
            Payload::ChatMessage(chat_msg.clone()),
        );
        let msg = recv_until(&mut server, receiver, |m| {
            matches!(m.message_type, MessageType::ChatMessage)
        })
        .expect("bob should receive group message");
        let elapsed_ms = start.elapsed().as_micros();
        assert_eq!(content_of(&msg), chat_msg.content);
        latencies.push(elapsed_ms);
        server.inboxes[sender].clear();
    }

    let avg_latency = latencies.iter().copied().sum::<u128>() as f64 / N_MESSAGES as f64;
    println!("Tempo medio di latenza su {} messaggi: {:.2} µs", N_MESSAGES, avg_latency);
    assert!(avg_latency < 3000_000.0, "Messaggi ricevuti troppo tardi in in media");
}

#[test]
fn test_group_message_average_latency_with_arbitrary_size() {
    const N_BYTES: usize = 10000;
    const N_ITER: usize = 10000;

    let mut server = start_test_server();
    let sender = connect_client(&mut server);
    let receiver = connect_client(&mut server);

    login(&mut server, sender, "alice");
    let _ =
        recv_until(&mut server, sender, |m| matches!(m.message_type, MessageType::LoginSuccess));
    login(&mut server, receiver, "bob");
    let _ =
        recv_until(&mut server, receiver, |m| matches!(m.message_type, MessageType::LoginSuccess));

    let status = r#"{"available":false,"inChat":true,"chatId":"group-arbitrary-size","members":["alice","bob"]}"#;
    send_ws(&mut server, sender, MessageType::UserStatusChanged, Payload::Text(status.to_string()));
    send_ws(
        &mut server,
        receiver,
        MessageType::UserStatusChanged,
        Payload::Text(status.to_string()),
    );
    wait_user_in_chat(&mut server, sender, "alice", "group-arbitrary-size");
    wait_user_in_chat(&mut server, receiver, "bob", "group-arbitrary-size");

    let big_content = "X".repeat(N_BYTES);

    let mut latencies = Vec::with_capacity(N_ITER);
    for _ in 0..N_ITER {
        let chat_msg =
            group_message("group-arbitrary-size", "alice", &big_content, &["alice", "bob"]);

        let start = std::time::Instant::now();
        send_ws(
            &mut server,
            sender,
            MessageType::ChatMessage,
            Payload::ChatMessage(chat_msg.clone()),
        );
        let _ = recv_until(&mut server, receiver, |m| {
            matches!(m.message_type, MessageType::ChatMessage)
        })
        .expect("bob should receive group message");
        let elapsed_us = start.elapsed().as_micros();
        latencies.push(elapsed_us);
        server.inboxes[sender].clear();
    }

    let avg_latency = latencies.iter().copied().sum::<u128>() as f64 / N_ITER as f64;
    println!(
        "Latenza media invio/ricezione per {} byte su {} iterazioni: {:.2} µs",
        N_BYTES, N_ITER, avg_latency
    );
    assert!(avg_latency < 5_000_000.0, "Messaggi ricevuti troppo tardi in media");
}

#[test]
fn test_multiple_concurrent_users_latency() {
    const NUM_USERS: usize = 100;
    const N_BYTES: usize = 90;
    const N_ITER: usize = 100;

    let mut server = start_test_server();

    let mut users = Vec::with_capacity(NUM_USERS);
    for i in 0..NUM_USERS {
        let client = connect_client(&mut server);
        login(&mut server, client, &format!("user{}", i));
        let _ = recv_until(&mut server, client, |m| {
            matches!(m.message_type, MessageType::LoginSuccess)
        });
        users.push(client);
    }

    let members: Vec<String> = (0..NUM_USERS).map(|i| format!("user{}", i)).collect();
    let quoted: Vec<String> = members.iter().map(|m| format!("\"{}\"", m)).collect();
    let status = format!(
        "{{\"available\":false,\"inChat\":true,\"chatId\":\"concurrent-test\",\"members\":[{}]}}",
        quoted.join(",")
    );

    for user in &users {
        send_ws(&mut server, *user, MessageType::UserStatusChanged, Payload::Text(status.clone()));
    }

    for (i, user) in users.iter().enumerate() {
        wait_user_in_chat(&mut server, *user, &format!("user{}", i), "concurrent-test");
    }
    for user in &users {
        server.inboxes[*user].clear();
    }

    let content = "X".repeat(N_BYTES);
    let mut iteration_latencies = Vec::with_capacity(N_ITER);

    for iter in 0..N_ITER {
        let start = std::time::Instant::now();

        for (i, user) in users.iter().enumerate() {
            let chat_msg = ChatMessage {
                id: uuid::Uuid::new_v4(),
                chat_id: Some("concurrent-test".into()),
                username: format!("user{}", i),
                content: format!("{}-iter{}", content, iter),
                timestamp: stamp(),
                chat_type: ChatType::Group { members: members.clone() },
            };
            send_ws(&mut server, *user, MessageType::ChatMessage, Payload::ChatMessage(chat_msg));
        }

        for user in &users {
            let inbox = std::mem::take(&mut server.inboxes[*user]);
            let got = inbox
                .iter()
                .filter(|m| matches!(m.message_type, MessageType::ChatMessage))
                .count();
            assert_eq!(got, NUM_USERS, "Message not received in time");
        }

        let elapsed = start.elapsed();
        iteration_latencies.push(elapsed.as_micros());
    }

    let avg_latency = iteration_latencies.iter().sum::<u128>() as f64 / N_ITER as f64;
    let min_latency = iteration_latencies.iter().min().unwrap();
    let max_latency = iteration_latencies.iter().max().unwrap();

    println!("\nStatistiche latenza con {} utenti contemporanei:", NUM_USERS);
    println!("- Messaggi per iterazione: {}", NUM_USERS);
    println!("- Dimensione messaggi: {} bytes", N_BYTES);
    println!("- Numero iterazioni: {}", N_ITER);
    println!("- Latenza media: {:.2} µs", avg_latency);
    println!("- Latenza minima: {} µs", min_latency);
    println!("- Latenza massima: {} µs", max_latency);

    assert!(avg_latency < 5_000_000.0, "Latenza media troppo alta");
}

// Two users log in, one invites the other to a private chat, both mark the
// chat on their presence records, and the other accepts.
#[test]
fn private_invite_accepted_end_to_end() {
    let mut server = start_test_server();
    let alice = connect_client(&mut server);
    let bob = connect_client(&mut server);

    login(&mut server, alice, "alice");
    let success =
        recv_until(&mut server, alice, |m| matches!(m.message_type, MessageType::LoginSuccess))
            .expect("alice should log in");
    let alice_session = match success.data {
        Payload::Text(t) => {
            let prefix = "Username 'alice' è disponibile; session_id: ";
            assert!(t.starts_with(prefix));
            t[prefix.len()..].to_string()
        }
        other => panic!("not a text: {:?}", other),
    };
    assert_eq!(alice_session.len(), 36);

    login(&mut server, bob, "bob");
    assert!(
        recv_until(&mut server, bob, |m| matches!(m.message_type, MessageType::LoginSuccess))
            .is_some()
    );
    // Each learns of the other: alice of bob's arrival, bob from the list.
    let joined =
        recv_until(&mut server, alice, |m| match &m.data {
            Payload::User(u) => {
                matches!(m.message_type, MessageType::UserJoined) && u.username == "bob"
            }
            _ => false,
        });
    assert!(joined.is_some());
    let list = recv_until(&mut server, bob, |m| matches!(m.message_type, MessageType::UsersList))
        .expect("bob should get the list");
    assert_eq!(
        list.data,
        Payload::UsersList(vec![
            User { username: "alice".into(), is_available: true, chat_id: None },
            User { username: "bob".into(), is_available: true, chat_id: None },
        ])
    );

    let invite = ChatInvite {
        id: "inv1".into(),
        chat_id: Some("chat-1".into()),
        from: "alice".into(),
        from_session_id: alice_session.clone(),
        chat_type: ChatType::Private { target: "bob".into() },
        message: "Join me".into(),
        timestamp: stamp(),
    };
    send_ws(&mut server, alice, MessageType::ChatInvite, Payload::ChatInvite(invite.clone()));
    let got = recv_until(&mut server, bob, |m| matches!(m.message_type, MessageType::ChatInvite))
        .expect("bob should receive invite");
    assert_eq!(got.data, Payload::ChatInvite(invite.clone()));
    assert!(server.inboxes[alice].iter().all(|m| m.message_type != MessageType::ChatInvite));

    // The chat message of the server goes by the presence records, so both
    // name the chat before bob answers.
    let marks = r#"{"chatId":"chat-1"}"#;
    send_ws(&mut server, alice, MessageType::UserStatusChanged, Payload::Text(marks.to_string()));
    send_ws(&mut server, bob, MessageType::UserStatusChanged, Payload::Text(marks.to_string()));
    server.inboxes[alice].clear();
    server.inboxes[bob].clear();

    let response = ChatInviteResponse {
        invite_id: "inv1".into(),
        chat_id: Some("chat-1".into()),
        accepted: true,
        from_user: "alice".into(),
        from_session_id: alice_session.clone(),
        chat_type: ChatType::Private { target: "bob".into() },
    };
    send_ws(
        &mut server,
        bob,
        MessageType::ChatInviteResponse,
        Payload::ChatInviteResponse(response.clone()),
    );

    let alice_got = std::mem::take(&mut server.inboxes[alice]);
    let bob_got = std::mem::take(&mut server.inboxes[bob]);
    assert_eq!(alice_got.len(), 2);
    assert_eq!(bob_got.len(), 2);

    assert_eq!(alice_got[0].message_type, MessageType::ChatMessage);
    assert_eq!(bob_got[0].message_type, MessageType::ChatMessage);
    assert_eq!(alice_got[0], bob_got[0]);
    match &alice_got[0].data {
        Payload::ChatMessage(m) => {
            assert_eq!(m.content, "bob è entrato nella chat");
            assert_eq!(m.username, "Sistema");
            assert_eq!(m.chat_id, Some("chat-1".to_string()));
            assert_eq!(m.chat_type, ChatType::System);
        }
        other => panic!("not a chat message: {:?}", other),
    }

    assert_eq!(alice_got[1].message_type, MessageType::ChatReady);
    match &alice_got[1].data {
        Payload::ChatReady(r) => {
            assert_eq!(r.chat_id, "chat-1");
            assert_eq!(r.inviter, "alice");
            assert_eq!(r.inviter_session_id, alice_session);
            assert_eq!(r.accepted_by, "bob");
            assert_eq!(r.chat_type, ChatType::Private { target: "bob".into() });
        }
        other => panic!("not a readiness notice: {:?}", other),
    }

    assert_eq!(bob_got[1].message_type, MessageType::ChatInviteResponse);
    assert_eq!(bob_got[1].data, Payload::ChatInviteResponse(response));
}

// Without the chat on anybody's presence record the server's chat message
// has nobody to go to; the readiness notice and the echo still arrive.
#[test]
fn accepted_invite_before_anyone_marks_the_chat() {
    let mut server = start_test_server();
    let alice = connect_client(&mut server);
    let bob = connect_client(&mut server);
    login(&mut server, alice, "alice");
    login(&mut server, bob, "bob");
    let alice_session = server.state.lookup("alice").unwrap().session_id;
    server.inboxes[alice].clear();
    server.inboxes[bob].clear();

    let response = ChatInviteResponse {
        invite_id: "inv1".into(),
        chat_id: Some("chat-1".into()),
        accepted: true,
        from_user: "alice".into(),
        from_session_id: alice_session,
        chat_type: ChatType::Private { target: "bob".into() },
    };
    send_ws(
        &mut server,
        bob,
        MessageType::ChatInviteResponse,
        Payload::ChatInviteResponse(response),
    );
    let alice_kinds: Vec<MessageType> =
        server.inboxes[alice].iter().map(|m| m.message_type).collect();
    let bob_kinds: Vec<MessageType> = server.inboxes[bob].iter().map(|m| m.message_type).collect();
    assert_eq!(alice_kinds, vec![MessageType::ChatReady]);
    assert_eq!(bob_kinds, vec![MessageType::ChatInviteResponse]);
}

// A private chat that had both members inside: when one connection closes,
// the other is told of the abandonment, once.
#[test]
fn disconnect_from_established_private_chat_notifies_the_other() {
    let mut server = start_test_server();
    let alice = connect_client(&mut server);
    let bob = connect_client(&mut server);
    login(&mut server, alice, "alice");
    login(&mut server, bob, "bob");
    let invite = ChatInvite {
        id: "inv1".into(),
        chat_id: Some("chat-1".into()),
        from: "alice".into(),
        from_session_id: "s".into(),
        chat_type: ChatType::Private { target: "bob".into() },
        message: "Join me".into(),
        timestamp: stamp(),
    };
    send_ws(&mut server, alice, MessageType::ChatInvite, Payload::ChatInvite(invite));
    let enter = r#"{"chatId":"chat-1","inChat":true}"#;
    send_ws(&mut server, alice, MessageType::UserStatusChanged, Payload::Text(enter.to_string()));
    send_ws(&mut server, bob, MessageType::UserStatusChanged, Payload::Text(enter.to_string()));
    server.inboxes[alice].clear();
    server.inboxes[bob].clear();

    close(&mut server, bob);

    let abandoned: Vec<&WebSocketMessage> = server.inboxes[alice]
        .iter()
        .filter(|m| m.message_type == MessageType::ChatAbandoned)
        .collect();
    assert_eq!(abandoned.len(), 1);
    match &abandoned[0].data {
        Payload::ChatAbandoned(n) => {
            assert_eq!(n.chat_id, "chat-1");
            assert_eq!(n.abandoned_by, "bob");
            assert_eq!(n.remaining_user, "alice");
            assert_eq!(
                n.message,
                "bob ha abbandonato la chat definitivamente e non potrà rientrare"
            );
            assert!(n.is_private_chat);
        }
        other => panic!("not an abandonment notice: {:?}", other),
    }
    assert!(server.inboxes[bob].is_empty());
    let kinds: Vec<MessageType> = server.inboxes[alice].iter().map(|m| m.message_type).collect();
    assert_eq!(
        kinds,
        vec![
            MessageType::UserStatusChanged,
            MessageType::UserLeft,
            MessageType::ChatMessage,
            MessageType::ChatUsersCount,
            MessageType::ChatAbandoned,
            MessageType::AloneInChat,
        ]
    );
    assert!(server.state.lookup("bob").is_none());
}

// The invited one closes its connection before ever coming in: the chat
// never had both inside, so nobody is told of an abandonment.
#[test]
fn disconnect_before_the_chat_was_full_is_no_abandonment() {
    let mut server = start_test_server();
    let alice = connect_client(&mut server);
    let bob = connect_client(&mut server);
    login(&mut server, alice, "alice");
    login(&mut server, bob, "bob");
    let invite = ChatInvite {
        id: "inv1".into(),
        chat_id: Some("chat-1".into()),
        from: "alice".into(),
        from_session_id: "s".into(),
        chat_type: ChatType::Private { target: "bob".into() },
        message: "Join me".into(),
        timestamp: stamp(),
    };
    send_ws(&mut server, alice, MessageType::ChatInvite, Payload::ChatInvite(invite));
    let enter = r#"{"chatId":"chat-1","inChat":true}"#;
    send_ws(&mut server, alice, MessageType::UserStatusChanged, Payload::Text(enter.to_string()));
    server.inboxes[alice].clear();
    server.inboxes[bob].clear();

    close(&mut server, alice);
    assert!(server.inboxes[bob].iter().all(|m| m.message_type != MessageType::ChatAbandoned));
    assert!(server.inboxes[alice].is_empty());
    close(&mut server, bob);
    assert!(server.state.connected_users.is_empty());
}
