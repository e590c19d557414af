//! Broadcasts about users.

use crate::router::{push_delivery, send_to_all, to_all};
use crate::state::{users_of, AppState, ConnectedUserView};
use crate::types::{
    Delivery, DeliveryView, MessageType, Payload, PayloadView, User, UserView, WebSocketMessage,
    WebSocketMessageView,
};
use vstd::prelude::*;

verus! {

/// The frame that announces a new user.
pub open spec fn user_joined_message(user: UserView) -> WebSocketMessageView {
    WebSocketMessageView { message_type: MessageType::UserJoined, data: PayloadView::User(user) }
}

/// The frame that carries a user's changed presence.
pub open spec fn user_status_message(user: UserView) -> WebSocketMessageView {
    WebSocketMessageView {
        message_type: MessageType::UserStatusChanged,
        data: PayloadView::User(user),
    }
}

/// The frame that lists the presence records of all sessions.
pub open spec fn users_list_message(users: Seq<ConnectedUserView>) -> WebSocketMessageView {
    WebSocketMessageView {
        message_type: MessageType::UsersList,
        data: PayloadView::UsersList(users_of(users)),
    }
}

/// Queues `message` for every session.
pub fn broadcast_to_all(state: &AppState, message: &WebSocketMessage) -> (out: Vec<Delivery>)
    ensures
        out.deep_view() == to_all(state@.connected_users, message@),
{
    let mut out: Vec<Delivery> = Vec::new();
    send_to_all(&state.connected_users, message, &mut out);
    out
}

/// Announces `user` to every session.
pub fn broadcast_user_joined(state: &AppState, user: &User) -> (out: Vec<Delivery>)
    ensures
        out.deep_view() == to_all(state@.connected_users, user_joined_message(user@)),
{
    let message = WebSocketMessage {
        message_type: MessageType::UserJoined,
        data: Payload::User(user.clone()),
    };
    broadcast_to_all(state, &message)
}

/// Sends the changed presence of `updated_user` to every session.
pub fn broadcast_user_status_changed(state: &AppState, updated_user: &User) -> (out: Vec<Delivery>)
    ensures
        out.deep_view() == to_all(state@.connected_users, user_status_message(updated_user@)),
{
    let message = WebSocketMessage {
        message_type: MessageType::UserStatusChanged,
        data: Payload::User(updated_user.clone()),
    };
    broadcast_to_all(state, &message)
}

/// Sends the list of all users to every session.
pub fn send_users_list_to_all(state: &AppState) -> (out: Vec<Delivery>)
    ensures
        out.deep_view() == to_all(
            state@.connected_users,
            users_list_message(state@.connected_users),
        ),
{
    let message = WebSocketMessage {
        message_type: MessageType::UsersList,
        data: Payload::UsersList(state.users()),
    };
    broadcast_to_all(state, &message)
}

/// Sends the list of all users to the connection `tx`.
pub fn send_users_list(tx: u64, state: &AppState) -> (out: Vec<Delivery>)
    ensures
        out.deep_view() == seq![
            DeliveryView { sender: tx, message: users_list_message(state@.connected_users) },
        ],
{
    let message = WebSocketMessage {
        message_type: MessageType::UsersList,
        data: Payload::UsersList(state.users()),
    };
    let mut out: Vec<Delivery> = Vec::new();
    push_delivery(&mut out, tx, &message);
    out
}

} // verus!
