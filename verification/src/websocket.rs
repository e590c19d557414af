//! Handling the frames of a connection, from login to disconnect.

use crate::chat::{
    after_user_left, broadcast_chat_message, broadcast_user_left, chat_message_deliveries,
    user_left_deliveries,
};
use crate::invites::{
    after_invite, handle_invite_response, invite_deliveries, response_carried_out, send_chat_invite,
};
use crate::json::{json_parse, parse_json};
use crate::presence::{
    after_status_patch, apply_status_patch, read_status_patch, status_patch_deliveries,
    status_patch_of,
};
use crate::router::{extend, push_delivery, to_all};
use crate::stamp::{new_session_id, uuid_text};
use crate::state::{
    lookup, names_of, new_user, with_session, without_session, AppState, AppStateView,
    ConnectedUserView,
};
use crate::text::concat3;
use crate::types::{
    clone_opt, Delivery, DeliveryView, LoginRequest, MessageType, Payload, PayloadView, Timestamp,
    User, UserView, WebSocketMessage, WebSocketMessageView,
};
use crate::user::{
    broadcast_user_joined, broadcast_user_status_changed, send_users_list, user_joined_message,
    user_status_message, users_list_message,
};
use crate::views::{first_index, Text};
use vstd::prelude::*;
use vstd::string::StringExecFns;

verus! {

/// What a client is told whose name is taken.
pub open spec fn login_error_text(name: Text) -> Text {
    "Username '"@ + name + "' è già in uso. Scegli un altro nome."@
}

/// What a client is told that has logged in.
pub open spec fn login_success_text(name: Text, session_id: Text) -> Text {
    "Username '"@ + name + "' è disponibile; session_id: "@ + session_id
}

/// The frame that turns a login down.
pub open spec fn login_error_message(name: Text) -> WebSocketMessageView {
    WebSocketMessageView {
        message_type: MessageType::LoginError,
        data: PayloadView::Text(login_error_text(name)),
    }
}

/// The frame that confirms a login.
pub open spec fn login_success_message(name: Text, session_id: Text) -> WebSocketMessageView {
    WebSocketMessageView {
        message_type: MessageType::LoginSuccess,
        data: PayloadView::Text(login_success_text(name, session_id)),
    }
}

/// Whether the name is taken.
pub open spec fn name_taken(s: AppStateView, name: Text) -> bool {
    lookup(s.connected_users, name) is Some
}

/// The state after the connection `tx` has asked to log in as `name`: a
/// free name is registered with `session_id`, a taken one changes nothing.
pub open spec fn after_login(
    s: AppStateView,
    tx: u64,
    name: Text,
    session_id: Text,
) -> AppStateView {
    if name_taken(s, name) {
        s
    } else {
        with_session(s, ConnectedUserView { user: new_user(name), sender: tx, session_id })
    }
}

/// What is sent when the connection `tx` asks to log in as `name`. A taken
/// name gets the refusal and nothing else. A free one gets the confirmation;
/// then every session, the new one too, is told of the new user, and the new
/// one gets the list of all users.
pub open spec fn login_deliveries(
    s: AppStateView,
    tx: u64,
    name: Text,
    session_id: Text,
) -> Seq<DeliveryView> {
    if name_taken(s, name) {
        seq![DeliveryView { sender: tx, message: login_error_message(name) }]
    } else {
        let users = after_login(s, tx, name, session_id).connected_users;
        seq![DeliveryView { sender: tx, message: login_success_message(name, session_id) }]
            + to_all(users, user_joined_message(new_user(name))) + seq![
            DeliveryView { sender: tx, message: users_list_message(users) },
        ]
    }
}

/// The name that a connection goes by after it has asked to log in as `name`.
pub open spec fn name_after_login(
    s: AppStateView,
    name: Text,
    before: Option<Text>,
) -> Option<Text> {
    if name_taken(s, name) {
        before
    } else {
        Some(name)
    }
}

/// Logs the connection `tx` in as the user that `request` names, with
/// `session_id` as its session identifier, and notes the name in `username`.
/// A name that is taken is turned down: the state and `username` stay as
/// they are.
pub fn login(
    state: &mut AppState,
    tx: u64,
    request: &LoginRequest,
    username: &mut Option<String>,
    session_id: String,
) -> (out: Vec<Delivery>)
    ensures
        final(state)@ == after_login(old(state)@, tx, request@.username, session_id@),
        out.deep_view() == login_deliveries(old(state)@, tx, request@.username, session_id@),
        final(username).deep_view() == name_after_login(
            old(state)@,
            request@.username,
            old(username).deep_view(),
        ),
{
    let name = request.username.as_str();
    let mut out: Vec<Delivery> = Vec::new();
    let success_text = {
        let mut t = concat3("Username '", name, "' è disponibile; session_id: ");
        t.append(session_id.as_str());
        t
    };
    match state.register(name, tx, session_id) {
        Err(_) => {
            let error_msg = WebSocketMessage {
                message_type: MessageType::LoginError,
                data: Payload::Text(
                    concat3("Username '", name, "' è già in uso. Scegli un altro nome."),
                ),
            };
            push_delivery(&mut out, tx, &error_msg);
        },
        Ok(()) => {
            *username = Some(request.username.clone());
            let user = User {
                username: request.username.clone(),
                is_available: true,
                chat_id: None,
            };
            let success_msg = WebSocketMessage {
                message_type: MessageType::LoginSuccess,
                data: Payload::Text(success_text),
            };
            push_delivery(&mut out, tx, &success_msg);
            let joined = broadcast_user_joined(state, &user);
            extend(&mut out, joined);
            let list = send_users_list(tx, state);
            extend(&mut out, list);
        },
    }
    out
}

/// What holds after a login frame from the connection `tx` has been handled.
/// A frame that carries a login request is carried out with some identifier,
/// written out, as the session identifier; any other frame changes nothing
/// and sends nothing.
pub open spec fn login_handled(
    pre: AppStateView,
    tx: u64,
    msg: WebSocketMessageView,
    name_before: Option<Text>,
    post: AppStateView,
    name_after: Option<Text>,
    out: Seq<DeliveryView>,
) -> bool {
    match msg.data {
        PayloadView::Login(request) => {
            &&& name_after == name_after_login(pre, request.username, name_before)
            &&& exists|id: uuid::Uuid|
                post == #[trigger] after_login(pre, tx, request.username, uuid_text(id)) && out
                    == login_deliveries(pre, tx, request.username, uuid_text(id))
        },
        _ => post == pre && name_after == name_before && out =~= Seq::<DeliveryView>::empty(),
    }
}

/// Handles a login frame from the connection `tx`. The session of a login
/// that succeeds gets a fresh random identifier.
pub fn handle_login_message(
    state: &mut AppState,
    tx: u64,
    ws_msg: &WebSocketMessage,
    username: &mut Option<String>,
) -> (out: Vec<Delivery>)
    ensures
        login_handled(
            old(state)@,
            tx,
            ws_msg@,
            old(username).deep_view(),
            final(state)@,
            final(username).deep_view(),
            out.deep_view(),
        ),
        ws_msg@.data matches PayloadView::Login(request) ==> (name_taken(
            old(state)@,
            request.username,
        ) ==> final(state)@ == old(state)@ && out.deep_view() == seq![
            DeliveryView { sender: tx, message: login_error_message(request.username) },
        ]),
{
    match &ws_msg.data {
        Payload::Login(login_req) => {
            let session_id = if state.is_registered(login_req.username.as_str()) {
                String::new()
            } else {
                new_session_id()
            };
            let ghost sid = session_id@;
            let out = login(state, tx, login_req, username, session_id);
            proof {
                let id = if name_taken(old(state)@, login_req@.username) {
                    arbitrary()
                } else {
                    choose|id: uuid::Uuid| sid == #[trigger] uuid_text(id)
                };
                assert(final(state)@ == after_login(
                    old(state)@,
                    tx,
                    login_req@.username,
                    uuid_text(id),
                ));
            }
            out
        },
        _ => Vec::new(),
    }
}

/// What is sent for a chat message frame from a connection that goes by
/// `username`: the message is routed if the connection has logged in and the
/// frame carries a chat message.
pub open spec fn chat_message_handled(
    s: AppStateView,
    username: Option<Text>,
    msg: WebSocketMessageView,
) -> Seq<DeliveryView> {
    match (username, msg.data) {
        (Some(name), PayloadView::ChatMessage(chat_msg)) => chat_message_deliveries(
            s.connected_users,
            name,
            chat_msg,
        ),
        _ => Seq::empty(),
    }
}

/// Handles a chat message frame.
pub fn handle_chat_message(
    state: &AppState,
    username: &Option<String>,
    ws_msg: &WebSocketMessage,
) -> (out: Vec<Delivery>)
    ensures
        out.deep_view() == chat_message_handled(state@, username.deep_view(), ws_msg@),
{
    match username {
        Some(current_username) => match &ws_msg.data {
            Payload::ChatMessage(chat_msg) => broadcast_chat_message(
                state,
                current_username.as_str(),
                chat_msg,
            ),
            _ => Vec::new(),
        },
        None => Vec::new(),
    }
}

/// The status patch that a status frame from a connection that goes by
/// `username` asks for, with the name it is asked under: the connection must
/// have logged in, and the frame must carry the text of a JSON document.
pub open spec fn status_request(
    username: Option<Text>,
    msg: WebSocketMessageView,
) -> Option<(Text, crate::presence::StatusPatchView)> {
    match (username, msg.data) {
        (Some(name), PayloadView::Text(raw)) => match json_parse(raw) {
            Some(v) => Some((name, status_patch_of(v))),
            None => None,
        },
        _ => None,
    }
}

/// Handles a status frame: the patch that its JSON text holds is carried
/// out. A frame from a connection that has not logged in, and one whose
/// text is no JSON document, is dropped.
pub fn handle_user_status_changed(
    state: &mut AppState,
    username: &Option<String>,
    ws_msg: &WebSocketMessage,
) -> (out: Vec<Delivery>)
    ensures
        match status_request(username.deep_view(), ws_msg@) {
            Some((name, patch)) => final(state)@ == after_status_patch(old(state)@, name, patch)
                && out.deep_view() == status_patch_deliveries(old(state)@, name, patch),
            None => final(state)@ == old(state)@ && out.deep_view() == Seq::<
                DeliveryView,
            >::empty(),
        },
{
    match username {
        Some(current_username) => match &ws_msg.data {
            Payload::Text(raw) => match parse_json(raw.as_str()) {
                Some(status_data) => {
                    let patch = read_status_patch(&status_data);
                    apply_status_patch(state, current_username.as_str(), &patch)
                },
                None => Vec::new(),
            },
            _ => Vec::new(),
        },
        None => Vec::new(),
    }
}

/// The state after an invitation frame from a connection that goes by
/// `username`.
pub open spec fn after_invite_frame(
    s: AppStateView,
    username: Option<Text>,
    msg: WebSocketMessageView,
) -> AppStateView {
    match (username, msg.data) {
        (Some(name), PayloadView::ChatInvite(invite)) => after_invite(s, name, invite),
        _ => s,
    }
}

/// What is sent for an invitation frame from a connection that goes by
/// `username`.
pub open spec fn invite_frame_deliveries(
    s: AppStateView,
    username: Option<Text>,
    msg: WebSocketMessageView,
) -> Seq<DeliveryView> {
    match (username, msg.data) {
        (Some(name), PayloadView::ChatInvite(invite)) => invite_deliveries(
            s.connected_users,
            name,
            invite,
        ),
        _ => Seq::empty(),
    }
}

/// Handles an invitation frame.
pub fn handle_chat_invite(
    state: &mut AppState,
    username: &Option<String>,
    ws_msg: &WebSocketMessage,
) -> (out: Vec<Delivery>)
    ensures
        final(state)@ == after_invite_frame(old(state)@, username.deep_view(), ws_msg@),
        out.deep_view() == invite_frame_deliveries(old(state)@, username.deep_view(), ws_msg@),
{
    match username {
        Some(current_username) => match &ws_msg.data {
            Payload::ChatInvite(invite) => send_chat_invite(
                state,
                current_username.as_str(),
                invite,
            ),
            _ => Vec::new(),
        },
        None => Vec::new(),
    }
}

/// What holds after a response frame from a connection that goes by
/// `username` has been handled.
pub open spec fn invite_response_handled(
    pre: AppStateView,
    username: Option<Text>,
    msg: WebSocketMessageView,
    post: AppStateView,
    out: Seq<DeliveryView>,
) -> bool {
    match (username, msg.data) {
        (Some(name), PayloadView::ChatInviteResponse(response)) => response_carried_out(
            pre,
            name,
            response,
            post,
            out,
        ),
        _ => post == pre && out =~= Seq::<DeliveryView>::empty(),
    }
}

/// Handles a response frame.
pub fn handle_chat_invite_response(
    state: &mut AppState,
    username: &Option<String>,
    ws_msg: &WebSocketMessage,
) -> (out: Vec<Delivery>)
    ensures
        invite_response_handled(
            old(state)@,
            username.deep_view(),
            ws_msg@,
            final(state)@,
            out.deep_view(),
        ),
{
    match username {
        Some(current_username) => match &ws_msg.data {
            Payload::ChatInviteResponse(response) => handle_invite_response(
                state,
                current_username.as_str(),
                response,
            ),
            _ => Vec::new(),
        },
        None => Vec::new(),
    }
}

/// The presence record that is sent round when its user disconnects:
/// available again, the chat still named.
pub open spec fn parting_user(user: UserView) -> UserView {
    UserView { is_available: true, ..user }
}

/// The state after a connection that goes by `username` has closed: its
/// session is gone, and so is its place in the chat it was in. A connection
/// that never logged in leaves no trace.
pub open spec fn after_disconnect(s: AppStateView, username: Option<Text>) -> AppStateView {
    match username {
        Some(name) => match first_index(names_of(s.connected_users), name) {
            Some(i) => after_user_left(
                without_session(s, i),
                name,
                s.connected_users[i].user.chat_id,
            ),
            None => s,
        },
        None => s,
    }
}

/// What is sent when a connection that goes by `username` has closed: the
/// sessions that remain get the parting presence record, then all that
/// follows a user's going. `id` and `timestamp` are those of the server's
/// message to the chat that the user was in.
pub open spec fn disconnect_deliveries(
    s: AppStateView,
    username: Option<Text>,
    id: uuid::Uuid,
    timestamp: Timestamp,
) -> Seq<DeliveryView> {
    match username {
        Some(name) => match first_index(names_of(s.connected_users), name) {
            Some(i) => {
                let t = without_session(s, i);
                let user = s.connected_users[i].user;
                to_all(t.connected_users, user_status_message(parting_user(user)))
                    + user_left_deliveries(t, name, user.chat_id, id, timestamp)
            },
            None => user_left_deliveries(s, name, None, id, timestamp),
        },
        None => Seq::empty(),
    }
}

/// Cleans up after a connection that went by `username` has closed. The
/// server's message to the chat that the user was in gets a fresh random
/// identifier and the current time.
pub fn disconnect(state: &mut AppState, username: &Option<String>) -> (out: Vec<Delivery>)
    ensures
        final(state)@ == after_disconnect(old(state)@, username.deep_view()),
        exists|id: uuid::Uuid, timestamp: Timestamp|
            out.deep_view() == #[trigger] disconnect_deliveries(
                old(state)@,
                username.deep_view(),
                id,
                timestamp,
            ),
        old(state)@.wf() ==> final(state)@.wf(),
{
    proof {
        if old(state)@.wf() {
            crate::laws_registry::lemma_disconnect_wf(old(state)@, username.deep_view());
        }
    }
    match username {
        Some(disconnected_username) => {
            let name = disconnected_username.as_str();
            let mut out: Vec<Delivery> = Vec::new();
            let mut chat_id: Option<String> = None;
            if let Some(session) = state.unregister(name) {
                let mut user_to_broadcast = session.user;
                user_to_broadcast.is_available = true;
                chat_id = clone_opt(&user_to_broadcast.chat_id);
                let status = broadcast_user_status_changed(state, &user_to_broadcast);
                extend(&mut out, status);
            }
            let ghost t = state@;
            let left = broadcast_user_left(state, name, chat_id);
            extend(&mut out, left);
            proof {
                let (id, timestamp) = choose|id: uuid::Uuid, timestamp: Timestamp|
                    left.deep_view() == #[trigger] user_left_deliveries(
                        t,
                        name@,
                        chat_id.deep_view(),
                        id,
                        timestamp,
                    );
                assert(out.deep_view() =~= disconnect_deliveries(
                    old(state)@,
                    username.deep_view(),
                    id,
                    timestamp,
                ));
            }
            out
        },
        None => {
            let out: Vec<Delivery> = Vec::new();
            proof {
                let id: uuid::Uuid = arbitrary();
                let timestamp: Timestamp = arbitrary();
                assert(out.deep_view() =~= disconnect_deliveries(
                    old(state)@,
                    username.deep_view(),
                    id,
                    timestamp,
                ));
            }
            out
        },
    }
}

/// What holds after a frame from the connection `tx` has been handled: it is
/// handled by its kind, and a kind that clients have no business sending
/// changes nothing and sends nothing.
pub open spec fn frame_handled(
    pre: AppStateView,
    tx: u64,
    msg: WebSocketMessageView,
    name_before: Option<Text>,
    post: AppStateView,
    name_after: Option<Text>,
    out: Seq<DeliveryView>,
) -> bool {
    match msg.message_type {
        MessageType::Login => login_handled(pre, tx, msg, name_before, post, name_after, out),
        MessageType::ChatMessage => {
            &&& post == pre
            &&& name_after == name_before
            &&& out == chat_message_handled(pre, name_before, msg)
        },
        MessageType::UserStatusChanged => {
            &&& name_after == name_before
            &&& match status_request(name_before, msg) {
                Some((name, patch)) => post == after_status_patch(pre, name, patch) && out
                    == status_patch_deliveries(pre, name, patch),
                None => post == pre && out =~= Seq::<DeliveryView>::empty(),
            }
        },
        MessageType::ChatInvite => {
            &&& name_after == name_before
            &&& post == after_invite_frame(pre, name_before, msg)
            &&& out == invite_frame_deliveries(pre, name_before, msg)
        },
        MessageType::ChatInviteResponse => {
            &&& name_after == name_before
            &&& invite_response_handled(pre, name_before, msg, post, out)
        },
        _ => post == pre && name_after == name_before && out =~= Seq::<DeliveryView>::empty(),
    }
}

/// Handles one frame from the connection `tx`, which goes by `username`
/// once it has logged in.
pub fn handle_frame(
    state: &mut AppState,
    tx: u64,
    username: &mut Option<String>,
    ws_msg: &WebSocketMessage,
) -> (out: Vec<Delivery>)
    ensures
        frame_handled(
            old(state)@,
            tx,
            ws_msg@,
            old(username).deep_view(),
            final(state)@,
            final(username).deep_view(),
            out.deep_view(),
        ),
        old(state)@.wf() ==> final(state)@.wf(),
{
    let out = match ws_msg.message_type {
        MessageType::Login => handle_login_message(state, tx, ws_msg, username),
        MessageType::ChatMessage => handle_chat_message(state, username, ws_msg),
        MessageType::UserStatusChanged => handle_user_status_changed(state, username, ws_msg),
        MessageType::ChatInvite => handle_chat_invite(state, username, ws_msg),
        MessageType::ChatInviteResponse => handle_chat_invite_response(state, username, ws_msg),
        _ => Vec::new(),
    };
    proof {
        if old(state)@.wf() {
            crate::laws_registry::lemma_frame_wf(
                old(state)@,
                tx,
                ws_msg@,
                old(username).deep_view(),
                state@,
                username.deep_view(),
                out.deep_view(),
            );
        }
    }
    out
}

} // verus!
