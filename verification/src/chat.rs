//! Chat messages: who gets one, and what follows when a user has gone.

use crate::router::{
    extend, send_to, send_to_chat, send_to_names, to_all, to_chat, to_names, to_session,
};
use crate::stamp::{new_uuid, now};
use crate::state::{find_user, lookup, AppState, AppStateView, ConnectedUserView};
use crate::tracking::{
    after_leave, alone_deliveries, check_and_notify_alone_in_chat, leave_deliveries,
    remove_user_from_chat_tracking,
};
use crate::types::{
    clone_opt, ChatMessage, ChatMessageView, ChatType, ChatTypeView, Delivery, DeliveryView,
    MessageType, Payload, PayloadView, Timestamp, WebSocketMessage, WebSocketMessageView,
};
use crate::user::broadcast_to_all;
use crate::views::Text;
use vstd::prelude::*;
use vstd::string::StringExecFns;

verus! {

/// The frame that carries a chat message.
pub open spec fn chat_message_frame(msg: ChatMessageView) -> WebSocketMessageView {
    WebSocketMessageView {
        message_type: MessageType::ChatMessage,
        data: PayloadView::ChatMessage(msg),
    }
}

/// The chat a message from `sender` belongs to: the one the message names,
/// else the one that the sender's presence record names.
pub open spec fn target_chat_id(
    users: Seq<ConnectedUserView>,
    sender: Text,
    msg: ChatMessageView,
) -> Option<Text> {
    match msg.chat_id {
        Some(c) => Some(c),
        None => match lookup(users, sender) {
            Some(s) => s.user.chat_id,
            None => None,
        },
    }
}

/// Who gets a chat message from `sender`. A message with a chat goes to every
/// session whose presence record names that chat. One without goes by its
/// kind: a private one to the sender and the target, a group one to the
/// listed members, any other to nobody.
pub open spec fn chat_message_deliveries(
    users: Seq<ConnectedUserView>,
    sender: Text,
    msg: ChatMessageView,
) -> Seq<DeliveryView> {
    match target_chat_id(users, sender, msg) {
        Some(c) => to_chat(users, c, chat_message_frame(msg)),
        None => match msg.chat_type {
            ChatTypeView::Private { target } => to_names(
                users,
                seq![sender, target],
                chat_message_frame(msg),
            ),
            ChatTypeView::Group { members } => to_names(users, members, chat_message_frame(msg)),
            ChatTypeView::System => Seq::empty(),
        },
    }
}

/// Routes the chat message `chat_msg`, sent by `sender_username`, to the
/// sessions that are to get it.
pub fn broadcast_chat_message(
    state: &AppState,
    sender_username: &str,
    chat_msg: &ChatMessage,
) -> (out: Vec<Delivery>)
    ensures
        out.deep_view() == chat_message_deliveries(
            state@.connected_users,
            sender_username@,
            chat_msg@,
        ),
{
    let message = WebSocketMessage {
        message_type: MessageType::ChatMessage,
        data: Payload::ChatMessage(chat_msg.clone()),
    };
    let target_chat_id = match &chat_msg.chat_id {
        Some(explicit_chat_id) => Some(explicit_chat_id.clone()),
        None => match find_user(&state.connected_users, sender_username) {
            Some(i) => clone_opt(&state.connected_users[i].user.chat_id),
            None => None,
        },
    };
    let mut out: Vec<Delivery> = Vec::new();
    match target_chat_id {
        Some(chat_id) => {
            send_to_chat(&state.connected_users, chat_id.as_str(), &message, &mut out);
        },
        None => {
            match &chat_msg.chat_type {
                ChatType::Private { target } => {
                    send_to(&state.connected_users, sender_username, &message, &mut out);
                    send_to(&state.connected_users, target.as_str(), &message, &mut out);
                    proof {
                        let users = state@.connected_users;
                        let pair = seq![sender_username@, target@];
                        let one = seq![sender_username@];
                        assert(pair.drop_last() =~= one);
                        assert(to_names(users, one.drop_last(), message@) =~= Seq::empty());
                        assert(to_names(users, one, message@) =~= to_session(
                            users,
                            sender_username@,
                            message@,
                        ));
                    }
                },
                ChatType::Group { members } => {
                    send_to_names(&state.connected_users, members, &message, &mut out);
                },
                ChatType::System => {},
            }
        },
    }
    out
}

/// A message that the server itself writes into a chat.
pub open spec fn system_message(
    id: uuid::Uuid,
    chat_id: Option<Text>,
    content: Text,
    timestamp: Timestamp,
) -> ChatMessageView {
    ChatMessageView {
        id,
        chat_id,
        username: "Sistema"@,
        content,
        timestamp,
        chat_type: ChatTypeView::System,
    }
}

/// Writes a message of the server itself.
pub fn new_system_message(
    id: uuid::Uuid,
    chat_id: Option<String>,
    content: String,
    timestamp: Timestamp,
) -> (msg: ChatMessage)
    ensures
        msg@ == system_message(id, chat_id.deep_view(), content@, timestamp),
{
    ChatMessage {
        id,
        chat_id,
        username: String::from_str("Sistema"),
        content,
        timestamp,
        chat_type: ChatType::System,
    }
}

/// The frame that tells that a user has gone.
pub open spec fn user_left_frame(name: Text) -> WebSocketMessageView {
    WebSocketMessageView { message_type: MessageType::UserLeft, data: PayloadView::Text(name) }
}

/// What the chat is told when `name` has gone.
pub open spec fn left_chat_text(name: Text) -> Text {
    name + " ha abbandonato la chat"@
}

/// What follows in the chat `chat_id` when `name`, who was in it, has gone:
/// the server's message to the chat, then what the membership tracker sends
/// for `name` going out, then the notices about being alone. `id` and
/// `timestamp` are those of the server's message.
pub open spec fn departure_deliveries(
    s: AppStateView,
    name: Text,
    chat_id: Text,
    id: uuid::Uuid,
    timestamp: Timestamp,
) -> Seq<DeliveryView> {
    chat_message_deliveries(
        s.connected_users,
        "Sistema"@,
        system_message(id, Some(chat_id), left_chat_text(name), timestamp),
    ) + leave_deliveries(s, chat_id, name) + alone_deliveries(s.connected_users, chat_id)
}

/// Tells the chat `chat_id` that `username` has gone, takes `username` out of
/// its membership and tells whoever is left alone. `id` and `timestamp` are
/// given to the server's message.
pub fn announce_departure(
    state: &mut AppState,
    username: &str,
    chat_id: &str,
    id: uuid::Uuid,
    timestamp: Timestamp,
) -> (out: Vec<Delivery>)
    ensures
        final(state)@ == after_leave(old(state)@, chat_id@, username@),
        out.deep_view() == departure_deliveries(old(state)@, username@, chat_id@, id, timestamp),
{
    let mut content = String::from_str(username);
    content.append(" ha abbandonato la chat");
    let system_chat_message = new_system_message(
        id,
        Some(String::from_str(chat_id)),
        content,
        timestamp,
    );
    let mut out = broadcast_chat_message(state, "Sistema", &system_chat_message);
    let tracked_out = remove_user_from_chat_tracking(state, chat_id, username);
    extend(&mut out, tracked_out);
    let alone = check_and_notify_alone_in_chat(state, chat_id);
    extend(&mut out, alone);
    out
}

/// The state after `name` has gone: the chat it was in, if any, no longer
/// has it inside.
pub open spec fn after_user_left(
    s: AppStateView,
    name: Text,
    chat_id: Option<Text>,
) -> AppStateView {
    match chat_id {
        Some(c) => after_leave(s, c, name),
        None => s,
    }
}

/// What is sent when `name` has gone: every session is told, and the chat
/// that `name` was in, if any, sees what follows a departure.
pub open spec fn user_left_deliveries(
    s: AppStateView,
    name: Text,
    chat_id: Option<Text>,
    id: uuid::Uuid,
    timestamp: Timestamp,
) -> Seq<DeliveryView> {
    to_all(s.connected_users, user_left_frame(name)) + (match chat_id {
        Some(c) => departure_deliveries(s, name, c, id, timestamp),
        None => Seq::empty(),
    })
}

/// Tells every session that `username` has gone. Where `chat_id` names the
/// chat that `username` was in, that chat is told too, `username` is taken
/// out of its membership, and whoever is left alone in it is told so. The
/// server's message to the chat gets a fresh random identifier and the
/// current time.
pub fn broadcast_user_left(
    state: &mut AppState,
    username: &str,
    chat_id: Option<String>,
) -> (out: Vec<Delivery>)
    ensures
        final(state)@ == after_user_left(old(state)@, username@, chat_id.deep_view()),
        exists|id: uuid::Uuid, timestamp: Timestamp|
            out.deep_view() == #[trigger] user_left_deliveries(
                old(state)@,
                username@,
                chat_id.deep_view(),
                id,
                timestamp,
            ),
{
    let message = WebSocketMessage {
        message_type: MessageType::UserLeft,
        data: Payload::Text(String::from_str(username)),
    };
    let mut out = broadcast_to_all(state, &message);
    match chat_id {
        Some(chat_id_str) => {
            let id = new_uuid();
            let timestamp = now();
            let rest = announce_departure(state, username, chat_id_str.as_str(), id, timestamp);
            extend(&mut out, rest);
            assert(out.deep_view() == user_left_deliveries(
                old(state)@,
                username@,
                chat_id.deep_view(),
                id,
                timestamp,
            ));
        },
        None => {
            let ghost id: uuid::Uuid = arbitrary();
            let ghost timestamp: Timestamp = arbitrary();
            assert(out.deep_view() =~= user_left_deliveries(
                old(state)@,
                username@,
                chat_id.deep_view(),
                id,
                timestamp,
            ));
        },
    }
    out
}

} // verus!
