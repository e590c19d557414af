//! Laws of the registry: no two sessions share a name, whatever happens.

use crate::invites::{after_invite, after_reject};
use crate::laws_membership::{lemma_leave_wf, lemma_strike_wf};
use crate::presence::{
    after_status_patch, entered_chat, patched_user, vacated_chat, with_user, StatusPatchView,
};
use crate::routes::{after_availability, with_availability};
use crate::stamp::uuid_text;
use crate::state::{names_of, without_session, AppStateView};
use crate::types::{
    ChatInviteResponseView, ChatInviteView, DeliveryView, MessageType, PayloadView, UserView,
    WebSocketMessageView,
};
use crate::views::{first_index, lemma_first_index, Text};
use crate::websocket::{
    after_disconnect, after_login, frame_handled, login_deliveries, login_error_message, name_taken,
    status_request,
};
use vstd::prelude::*;

verus! {

/// Taking one place out of a list that holds no name twice leaves a list
/// that holds none twice, and that no longer holds the name taken out.
pub proof fn lemma_remove_keeps_distinct(names: Seq<Text>, i: int)
    requires
        names.no_duplicates(),
        0 <= i < names.len(),
    ensures
        names.remove(i).no_duplicates(),
        !names.remove(i).contains(names[i]),
{
    let out = names.remove(i);
    if out.contains(names[i]) {
    }
}

/// A login keeps the state well formed: no two sessions ever share a name.
pub proof fn lemma_login_wf(s: AppStateView, tx: u64, name: Text, session_id: Text)
    requires
        s.wf(),
    ensures
        after_login(s, tx, name, session_id).wf(),
{
    if !name_taken(s, name) {
        let names = names_of(s.connected_users);
        let after = names_of(after_login(s, tx, name, session_id).connected_users);
        lemma_first_index(names, name);
        assert(after =~= names.push(name));
    }
}

/// Once somebody has asked to log in under a name, the name is taken, by
/// that one or by whoever had it before. Whoever asks for it then is turned
/// down: the refusal is all that is sent, and the state, the session that
/// holds the name with it, stays as it is.
pub proof fn lemma_second_login_refused(
    s: AppStateView,
    tx: u64,
    name: Text,
    session_id: Text,
    later_tx: u64,
    later_session_id: Text,
)
    ensures
        ({
            let t = after_login(s, tx, name, session_id);
            &&& name_taken(t, name)
            &&& after_login(t, later_tx, name, later_session_id) == t
            &&& login_deliveries(t, later_tx, name, later_session_id) == seq![
                DeliveryView { sender: later_tx, message: login_error_message(name) },
            ]
        }),
{
    let t = after_login(s, tx, name, session_id);
    if !name_taken(s, name) {
        let after = names_of(t.connected_users);
        assert(after[after.len() - 1] == name);
        lemma_first_index(after, name);
    }
}

/// One request to log in: the connection that asks, the name it asks for and
/// the session identifier it would get.
pub struct LoginAttempt {
    pub tx: u64,
    pub name: Text,
    pub session_id: Text,
}

/// The state after the login requests `attempts`, one after the other.
pub open spec fn after_logins(s: AppStateView, attempts: Seq<LoginAttempt>) -> AppStateView
    decreases attempts.len(),
{
    if attempts.len() == 0 {
        s
    } else {
        let a = attempts.last();
        after_login(after_logins(s, attempts.drop_last()), a.tx, a.name, a.session_id)
    }
}

/// Whatever the sequence of login requests, no two sessions share a name
/// after it.
pub proof fn lemma_logins_never_share_a_name(s: AppStateView, attempts: Seq<LoginAttempt>)
    requires
        s.wf(),
    ensures
        after_logins(s, attempts).wf(),
        names_of(after_logins(s, attempts).connected_users).no_duplicates(),
    decreases attempts.len(),
{
    if attempts.len() > 0 {
        let a = attempts.last();
        lemma_logins_never_share_a_name(s, attempts.drop_last());
        lemma_login_wf(after_logins(s, attempts.drop_last()), a.tx, a.name, a.session_id);
    }
}

/// Replacing a presence record by one of the same name keeps the state well
/// formed and the names where they are.
pub proof fn lemma_with_user_wf(s: AppStateView, i: int, user: UserView)
    requires
        s.wf(),
        0 <= i < s.connected_users.len(),
        user.username == s.connected_users[i].user.username,
    ensures
        with_user(s, i, user).wf(),
        names_of(with_user(s, i, user).connected_users) == names_of(s.connected_users),
{
}

/// Taking a session out keeps the state well formed, and the name it went
/// by is free again.
pub proof fn lemma_without_session_wf(s: AppStateView, i: int)
    requires
        s.wf(),
        0 <= i < s.connected_users.len(),
    ensures
        without_session(s, i).wf(),
        !name_taken(without_session(s, i), s.connected_users[i].user.username),
{
    let names = names_of(s.connected_users);
    let after = names_of(without_session(s, i).connected_users);
    assert(after =~= names.remove(i));
    lemma_remove_keeps_distinct(names, i);
}

/// A status patch keeps the state well formed.
pub proof fn lemma_status_patch_wf(s: AppStateView, name: Text, patch: StatusPatchView)
    requires
        s.wf(),
    ensures
        after_status_patch(s, name, patch).wf(),
{
    if let Some(i) = first_index(names_of(s.connected_users), name) {
        let user = s.connected_users[i].user;
        let t = with_user(s, i, patched_user(user, patch));
        lemma_with_user_wf(s, i, patched_user(user, patch));
        match vacated_chat(user, patch) {
            Some(c) => {
                lemma_leave_wf(t, c, name);
            },
            None => match entered_chat(user, patch) {
                Some(c) => {},
                None => {},
            },
        }
    }
}

/// An invitation keeps the state well formed.
pub proof fn lemma_invite_wf(s: AppStateView, from: Text, invite: ChatInviteView)
    requires
        s.wf(),
    ensures
        after_invite(s, from, invite).wf(),
{
}

/// A refusal keeps the state well formed.
pub proof fn lemma_reject_wf(
    s: AppStateView,
    responding_user: Text,
    response: ChatInviteResponseView,
)
    requires
        s.wf(),
    ensures
        after_reject(s, responding_user, response).wf(),
{
    if let Some(c) = response.chat_id {
        lemma_strike_wf(s, c, responding_user);
    }
}

/// Setting the availability of a user keeps the state well formed.
pub proof fn lemma_availability_wf(s: AppStateView, name: Text, available: bool)
    requires
        s.wf(),
    ensures
        after_availability(s, name, available).wf(),
{
    if let Some(i) = first_index(names_of(s.connected_users), name) {
        lemma_with_user_wf(s, i, with_availability(s.connected_users[i].user, available));
    }
}

/// Whatever frame arrives, handling it keeps the state well formed: no two
/// sessions share a name, and every membership counts what it lists.
pub proof fn lemma_frame_wf(
    pre: AppStateView,
    tx: u64,
    msg: WebSocketMessageView,
    name_before: Option<Text>,
    post: AppStateView,
    name_after: Option<Text>,
    out: Seq<DeliveryView>,
)
    requires
        pre.wf(),
        frame_handled(pre, tx, msg, name_before, post, name_after, out),
    ensures
        post.wf(),
{
    match msg.message_type {
        MessageType::Login => {
            match msg.data {
                PayloadView::Login(request) => {
                    let id = choose|id: uuid::Uuid|
                        post == #[trigger] after_login(pre, tx, request.username, uuid_text(id))
                            && out == login_deliveries(pre, tx, request.username, uuid_text(id));
                    lemma_login_wf(pre, tx, request.username, uuid_text(id));
                },
                _ => {},
            }
        },
        MessageType::UserStatusChanged => {
            if let Some((name, patch)) = status_request(name_before, msg) {
                lemma_status_patch_wf(pre, name, patch);
            }
        },
        MessageType::ChatInvite => {
            match (name_before, msg.data) {
                (Some(name), PayloadView::ChatInvite(invite)) => {},
                _ => {},
            }
        },
        MessageType::ChatInviteResponse => {
            match (name_before, msg.data) {
                (Some(name), PayloadView::ChatInviteResponse(response)) => {
                    lemma_reject_wf(pre, name, response);
                },
                _ => {},
            }
        },
        _ => {},
    }
}

/// Cleaning up after a connection keeps the state well formed, and the name
/// the connection went by is free again.
pub proof fn lemma_disconnect_wf(s: AppStateView, username: Option<Text>)
    requires
        s.wf(),
    ensures
        after_disconnect(s, username).wf(),
        username matches Some(name) ==> !name_taken(after_disconnect(s, username), name),
{
    if let Some(name) = username {
        if let Some(i) = first_index(names_of(s.connected_users), name) {
            lemma_without_session_wf(s, i);
            if let Some(c) = s.connected_users[i].user.chat_id {
                lemma_leave_wf(without_session(s, i), c, name);
            }
        }
    }
}

/// Whether the server can get from `pre` to `post` in one step: by handling
/// a frame, by cleaning up after a connection, or by setting the
/// availability of a user.
pub open spec fn step(pre: AppStateView, post: AppStateView) -> bool {
    ||| exists|
        tx: u64,
        msg: WebSocketMessageView,
        name_before: Option<Text>,
        name_after: Option<Text>,
        out: Seq<DeliveryView>,
    | frame_handled(pre, tx, msg, name_before, post, name_after, out)
    ||| exists|username: Option<Text>| post == after_disconnect(pre, username)
    ||| exists|name: Text, available: bool| post == after_availability(pre, name, available)
}

/// Whether each state of `trace` follows from the one before it in one step.
pub open spec fn is_run(trace: Seq<AppStateView>) -> bool {
    forall|i: int| 0 <= i < trace.len() - 1 ==> step(#[trigger] trace[i], trace[i + 1])
}

/// One step keeps the state well formed.
pub proof fn lemma_step_wf(pre: AppStateView, post: AppStateView)
    requires
        pre.wf(),
        step(pre, post),
    ensures
        post.wf(),
{
    if exists|
        tx: u64,
        msg: WebSocketMessageView,
        name_before: Option<Text>,
        name_after: Option<Text>,
        out: Seq<DeliveryView>,
    | frame_handled(pre, tx, msg, name_before, post, name_after, out) {
        let (tx, msg, name_before, name_after, out) = choose|
            tx: u64,
            msg: WebSocketMessageView,
            name_before: Option<Text>,
            name_after: Option<Text>,
            out: Seq<DeliveryView>,
        | frame_handled(pre, tx, msg, name_before, post, name_after, out);
        lemma_frame_wf(pre, tx, msg, name_before, post, name_after, out);
    } else if exists|username: Option<Text>| post == after_disconnect(pre, username) {
        let username = choose|username: Option<Text>| post == after_disconnect(pre, username);
        lemma_disconnect_wf(pre, username);
    } else {
        let (name, available) = choose|name: Text, available: bool|
            post == after_availability(pre, name, available);
        lemma_availability_wf(pre, name, available);
    }
}

/// Whatever the server goes through, from a well-formed state on, every
/// state it is in is well formed: at no time do two sessions share a name.
pub proof fn lemma_run_wf(trace: Seq<AppStateView>, i: int)
    requires
        is_run(trace),
        0 <= i < trace.len(),
        trace[0].wf(),
    ensures
        trace[i].wf(),
        names_of(trace[i].connected_users).no_duplicates(),
    decreases i,
{
    if i > 0 {
        lemma_run_wf(trace, i - 1);
        assert(step(trace[i - 1], trace[i - 1 + 1]));
        lemma_step_wf(trace[i - 1], trace[i]);
    }
}

} // verus!
