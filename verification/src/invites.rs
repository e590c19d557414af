//! Invitations: sending one, and carrying out the answer to it.

use crate::chat::{
    broadcast_chat_message, chat_message_deliveries, new_system_message, system_message,
};
use crate::router::{extend, push_delivery, send_to, send_to_names, to_names, to_session};
use crate::stamp::{new_uuid, now, uuid_text, uuid_to_string};
use crate::state::{find_user, lookup, AppState, AppStateView, ConnectedUserView};
use crate::text::str_eq;
use crate::tracking::{
    after_strike, broadcast_chat_users_count, init_chat_tracking, new_membership, remove_name,
    remove_user_from_invited, users_count_deliveries, with_membership, without,
};
use crate::types::{
    clone_names, clone_opt, ChatInvite, ChatInviteResponse, ChatInviteResponseNotify,
    ChatInviteResponseNotifyView, ChatInviteResponseView, ChatInviteView, ChatReady, ChatReadyView,
    ChatType, ChatTypeView, Delivery, DeliveryView, MessageType, Payload, PayloadView, Timestamp,
    WebSocketMessage, WebSocketMessageView,
};
use crate::views::Text;
use vstd::prelude::*;
use vstd::string::StringExecFns;

verus! {

/// The frame that carries an invitation.
pub open spec fn invite_frame(invite: ChatInviteView) -> WebSocketMessageView {
    WebSocketMessageView {
        message_type: MessageType::ChatInvite,
        data: PayloadView::ChatInvite(invite),
    }
}

/// Who is invited to a chat that `from` opens: `from` and the target of a
/// private chat, the members of a group chat.
pub open spec fn invited_set(from: Text, chat_type: ChatTypeView) -> Seq<Text> {
    match chat_type {
        ChatTypeView::Private { target } => seq![from, target],
        ChatTypeView::Group { members } => members,
        ChatTypeView::System => Seq::empty(),
    }
}

/// The state after `from` has sent `invite`: a chat that the invitation
/// names starts its membership afresh.
pub open spec fn after_invite(s: AppStateView, from: Text, invite: ChatInviteView) -> AppStateView {
    match invite.chat_id {
        Some(c) => with_membership(
            s,
            c,
            new_membership(c, invited_set(from, invite.chat_type)),
        ),
        None => s,
    }
}

/// Who gets the invitation: the target of a private chat, the members of a
/// group chat but for the sender.
pub open spec fn invite_deliveries(
    users: Seq<ConnectedUserView>,
    from: Text,
    invite: ChatInviteView,
) -> Seq<DeliveryView> {
    match invite.chat_type {
        ChatTypeView::Private { target } => to_session(users, target, invite_frame(invite)),
        ChatTypeView::Group { members } => to_names(
            users,
            without(members, from),
            invite_frame(invite),
        ),
        ChatTypeView::System => Seq::empty(),
    }
}

/// Sends the invitation `invite` of `from_username` to those it invites, and
/// starts the membership of the chat it names.
pub fn send_chat_invite(
    state: &mut AppState,
    from_username: &str,
    invite: &ChatInvite,
) -> (out: Vec<Delivery>)
    ensures
        final(state)@ == after_invite(old(state)@, from_username@, invite@),
        out.deep_view() == invite_deliveries(
            old(state)@.connected_users,
            from_username@,
            invite@,
        ),
{
    let message = WebSocketMessage {
        message_type: MessageType::ChatInvite,
        data: Payload::ChatInvite(invite.clone()),
    };
    let invited_users = match &invite.chat_type {
        ChatType::Private { target } => {
            let mut v: Vec<String> = Vec::new();
            v.push(String::from_str(from_username));
            v.push(target.clone());
            assert(v.deep_view() =~= seq![from_username@, target@]);
            v
        },
        ChatType::Group { members } => clone_names(members),
        ChatType::System => {
            let v: Vec<String> = Vec::new();
            assert(v.deep_view() =~= Seq::<Text>::empty());
            v
        },
    };
    if let Some(chat_id) = &invite.chat_id {
        init_chat_tracking(state, chat_id.as_str(), invited_users);
    }
    let mut out: Vec<Delivery> = Vec::new();
    match &invite.chat_type {
        ChatType::Private { target } => {
            send_to(&state.connected_users, target.as_str(), &message, &mut out);
        },
        ChatType::Group { members } => {
            let others = remove_name(members, from_username);
            send_to_names(&state.connected_users, &others, &message, &mut out);
        },
        ChatType::System => {},
    }
    out
}

/// The inviter's session, if it is still the one the invitation was sent
/// from.
pub open spec fn inviter_session(
    users: Seq<ConnectedUserView>,
    response: ChatInviteResponseView,
) -> Option<ConnectedUserView> {
    match lookup(users, response.from_user) {
        Some(s) => if s.session_id == response.from_session_id {
            Some(s)
        } else {
            None
        },
        None => None,
    }
}

/// The frame `message`, queued for the inviter if its session is still the
/// one the invitation was sent from.
pub open spec fn to_inviter(
    users: Seq<ConnectedUserView>,
    response: ChatInviteResponseView,
    message: WebSocketMessageView,
) -> Seq<DeliveryView> {
    match inviter_session(users, response) {
        Some(s) => seq![DeliveryView { sender: s.sender, message }],
        None => Seq::empty(),
    }
}

/// Queues `message` for the inviter behind `response`, unless the inviter is
/// gone or has logged in anew since.
pub fn send_to_inviter(
    state: &AppState,
    response: &ChatInviteResponse,
    message: &WebSocketMessage,
    out: &mut Vec<Delivery>,
)
    ensures
        final(out).deep_view() == old(out).deep_view() + to_inviter(
            state@.connected_users,
            response@,
            message@,
        ),
{
    if let Some(i) = find_user(&state.connected_users, response.from_user.as_str()) {
        if str_eq(
            state.connected_users[i].session_id.as_str(),
            response.from_session_id.as_str(),
        ) {
            push_delivery(out, state.connected_users[i].sender, message);
        }
    }
}

/// The frame that tells the inviter that the chat can be opened.
pub open spec fn ready_frame(
    response: ChatInviteResponseView,
    responding_user: Text,
    ready_chat_id: Text,
) -> WebSocketMessageView {
    WebSocketMessageView {
        message_type: MessageType::ChatReady,
        data: PayloadView::ChatReady(
            ChatReadyView {
                chat_id: ready_chat_id,
                inviter: response.from_user,
                inviter_session_id: response.from_session_id,
                chat_type: response.chat_type,
                accepted_by: responding_user,
            },
        ),
    }
}

/// The frame that hands a response back to the one who gave it.
pub open spec fn response_frame(response: ChatInviteResponseView) -> WebSocketMessageView {
    WebSocketMessageView {
        message_type: MessageType::ChatInviteResponse,
        data: PayloadView::ChatInviteResponse(response),
    }
}

/// What the chat is told when `name` has accepted.
pub open spec fn entered_chat_text(name: Text) -> Text {
    name + " è entrato nella chat"@
}

/// What is sent when `responding_user` accepts: the server's message to the
/// chat, the readiness notice to the inviter, and the response back to
/// `responding_user`. `ready_chat_id` is the chat the readiness notice names;
/// `id` and `timestamp` are those of the server's message.
pub open spec fn accept_deliveries(
    users: Seq<ConnectedUserView>,
    responding_user: Text,
    response: ChatInviteResponseView,
    ready_chat_id: Text,
    id: uuid::Uuid,
    timestamp: Timestamp,
) -> Seq<DeliveryView> {
    chat_message_deliveries(
        users,
        "Sistema"@,
        system_message(id, response.chat_id, entered_chat_text(responding_user), timestamp),
    ) + to_inviter(users, response, ready_frame(response, responding_user, ready_chat_id))
        + to_session(users, responding_user, response_frame(response))
}

/// Carries out the acceptance `response` of `responding_user`. The readiness
/// notice names the chat `ready_chat_id`; the server's message to the chat
/// gets `id` and `timestamp`.
pub fn accept_invite(
    state: &AppState,
    responding_user: &str,
    response: &ChatInviteResponse,
    ready_chat_id: String,
    id: uuid::Uuid,
    timestamp: Timestamp,
) -> (out: Vec<Delivery>)
    ensures
        out.deep_view() == accept_deliveries(
            state@.connected_users,
            responding_user@,
            response@,
            ready_chat_id@,
            id,
            timestamp,
        ),
{
    let chat_ready = ChatReady {
        chat_id: ready_chat_id,
        inviter: response.from_user.clone(),
        inviter_session_id: response.from_session_id.clone(),
        chat_type: response.chat_type.clone(),
        accepted_by: String::from_str(responding_user),
    };
    let ready_message = WebSocketMessage {
        message_type: MessageType::ChatReady,
        data: Payload::ChatReady(chat_ready),
    };
    let mut content = String::from_str(responding_user);
    content.append(" è entrato nella chat");
    let system_message = new_system_message(
        id,
        clone_opt(&response.chat_id),
        content,
        timestamp,
    );
    let mut out = broadcast_chat_message(state, "Sistema", &system_message);
    send_to_inviter(state, response, &ready_message, &mut out);
    let response_message = WebSocketMessage {
        message_type: MessageType::ChatInviteResponse,
        data: Payload::ChatInviteResponse(response.clone()),
    };
    send_to(&state.connected_users, responding_user, &response_message, &mut out);
    out
}

/// The frame that tells the inviter who declined.
pub open spec fn reject_frame(
    response: ChatInviteResponseView,
    responding_user: Text,
) -> WebSocketMessageView {
    WebSocketMessageView {
        message_type: MessageType::ChatInviteResponse,
        data: PayloadView::ChatInviteResponseNotify(
            ChatInviteResponseNotifyView {
                invite_id: response.invite_id,
                chat_id: response.chat_id,
                accepted: false,
                from_user: response.from_user,
                from_session_id: response.from_session_id,
                chat_type: response.chat_type,
                responding_user,
            },
        ),
    }
}

/// The state after `responding_user` has declined: the chat that the
/// response names no longer lists `responding_user`.
pub open spec fn after_reject(
    s: AppStateView,
    responding_user: Text,
    response: ChatInviteResponseView,
) -> AppStateView {
    match response.chat_id {
        Some(c) => after_strike(s, c, responding_user),
        None => s,
    }
}

/// What is sent when `responding_user` declines: the notice to the inviter,
/// then the new membership of the chat to those still invited.
pub open spec fn reject_deliveries(
    s: AppStateView,
    responding_user: Text,
    response: ChatInviteResponseView,
) -> Seq<DeliveryView> {
    to_inviter(s.connected_users, response, reject_frame(response, responding_user)) + (
    match response.chat_id {
        Some(c) => users_count_deliveries(after_reject(s, responding_user, response), c),
        None => Seq::empty(),
    })
}

/// Carries out the refusal `response` of `responding_user`.
pub fn reject_invite(
    state: &mut AppState,
    responding_user: &str,
    response: &ChatInviteResponse,
) -> (out: Vec<Delivery>)
    ensures
        final(state)@ == after_reject(old(state)@, responding_user@, response@),
        out.deep_view() == reject_deliveries(old(state)@, responding_user@, response@),
{
    let notify = ChatInviteResponseNotify {
        invite_id: response.invite_id.clone(),
        chat_id: clone_opt(&response.chat_id),
        accepted: false,
        from_user: response.from_user.clone(),
        from_session_id: response.from_session_id.clone(),
        chat_type: response.chat_type.clone(),
        responding_user: String::from_str(responding_user),
    };
    let response_message = WebSocketMessage {
        message_type: MessageType::ChatInviteResponse,
        data: Payload::ChatInviteResponseNotify(notify),
    };
    let mut out: Vec<Delivery> = Vec::new();
    send_to_inviter(state, response, &response_message, &mut out);
    if let Some(chat_id) = &response.chat_id {
        remove_user_from_invited(state, chat_id.as_str(), responding_user);
        let counts = broadcast_chat_users_count(state, chat_id.as_str());
        extend(&mut out, counts);
    }
    out
}

/// The chat that the readiness notice for `response` names: the chat of the
/// response or, where it names none, the identifier `fresh` written out.
pub open spec fn ready_chat_id(response: ChatInviteResponseView, fresh: uuid::Uuid) -> Text {
    match response.chat_id {
        Some(c) => c,
        None => uuid_text(fresh),
    }
}

/// What holds after `responding_user` has answered an invitation with
/// `response`. A refusal is carried out as it stands. An acceptance changes
/// nothing in the state; its readiness notice names the chat of the response
/// or, where it names none, some identifier written out, and the server's message to the
/// chat has some identifier and time.
pub open spec fn response_carried_out(
    pre: AppStateView,
    responding_user: Text,
    response: ChatInviteResponseView,
    post: AppStateView,
    out: Seq<DeliveryView>,
) -> bool {
    if response.accepted {
        &&& post == pre
        &&& exists|fresh: uuid::Uuid, id: uuid::Uuid, timestamp: Timestamp|
            out == #[trigger] accept_deliveries(
                pre.connected_users,
                responding_user,
                response,
                ready_chat_id(response, fresh),
                id,
                timestamp,
            )
    } else {
        &&& post == after_reject(pre, responding_user, response)
        &&& out == reject_deliveries(pre, responding_user, response)
    }
}

/// Carries out the response of `responding_user` to an invitation. The
/// readiness notice of an acceptance that names no chat gets a fresh random
/// identifier for one; the server's message to the chat gets a fresh random
/// identifier and the current time.
pub fn handle_invite_response(
    state: &mut AppState,
    responding_user: &str,
    response: &ChatInviteResponse,
) -> (out: Vec<Delivery>)
    ensures
        response_carried_out(
            old(state)@,
            responding_user@,
            response@,
            final(state)@,
            out.deep_view(),
        ),
{
    if response.accepted {
        let ghost fresh: uuid::Uuid = arbitrary();
        let chat_id = match &response.chat_id {
            Some(c) => c.clone(),
            None => {
                let drawn = new_uuid();
                proof {
                    fresh = drawn;
                }
                uuid_to_string(&drawn)
            },
        };
        let id = new_uuid();
        let timestamp = now();
        let out = accept_invite(state, responding_user, response, chat_id, id, timestamp);
        assert(out.deep_view() == accept_deliveries(
            old(state)@.connected_users,
            responding_user@,
            response@,
            ready_chat_id(response@, fresh),
            id,
            timestamp,
        ));
        out
    } else {
        reject_invite(state, responding_user, response)
    }
}

} // verus!
