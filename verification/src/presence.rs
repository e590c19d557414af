//! Status patches: what a client may change in its own presence, and what
//! follows from it.

use crate::json::{as_str, bool_member, get_bool, is_null, json_kind, json_member, member, JsonKind};
use crate::notifications::{invalidate_chat_ready_notifications, invalidated_message};
use crate::router::{extend, to_all};
use crate::state::{find_user, names_of, AppState, AppStateView, ConnectedUserView};
use crate::text::concat3;
use crate::tracking::{
    add_user_to_chat_tracking, after_join, after_leave, alone_deliveries,
    check_and_notify_alone_in_chat, join_deliveries, leave_deliveries,
    remove_user_from_chat_tracking,
};
use crate::types::{clone_opt, Delivery, DeliveryView, User, UserView};
use crate::user::{
    broadcast_user_status_changed, send_users_list_to_all, user_status_message, users_list_message,
};
use crate::views::{first_index, lemma_deep_index, lemma_deep_update, Text};
use serde_json::Value;
use vstd::prelude::*;
use vstd::string::StringExecFns;

verus! {

/// What a status patch does to the chat that a presence record names.
#[derive(Debug, PartialEq, Eq)]
pub enum ChatIdPatch {
    /// Leave it as it is.
    Keep,
    /// Name no chat.
    Clear,
    /// Name this chat.
    Assign(String),
}

/// A `ChatIdPatch` as the contracts see it: its texts as sequences of characters.
pub enum ChatIdPatchView {
    Keep,
    Clear,
    Assign(Text),
}

impl View for ChatIdPatch {
    type V = ChatIdPatchView;

    open spec fn view(&self) -> ChatIdPatchView {
        match self {
            ChatIdPatch::Keep => ChatIdPatchView::Keep,
            ChatIdPatch::Clear => ChatIdPatchView::Clear,
            ChatIdPatch::Assign(c) => ChatIdPatchView::Assign(c@),
        }
    }
}

/// A change that a client asks for in its own presence. Each part may be
/// absent.
#[derive(Debug, PartialEq, Eq)]
pub struct StatusPatch {
    pub available: Option<bool>,
    pub chat_id: ChatIdPatch,
    pub in_chat: Option<bool>,
}

/// A `StatusPatch` as the contracts see it: its texts as sequences of characters.
pub struct StatusPatchView {
    pub available: Option<bool>,
    pub chat_id: ChatIdPatchView,
    pub in_chat: Option<bool>,
}

impl View for StatusPatch {
    type V = StatusPatchView;

    open spec fn view(&self) -> StatusPatchView {
        StatusPatchView {
            available: self.available,
            chat_id: self.chat_id@,
            in_chat: self.in_chat,
        }
    }
}

/// What the member `chatId` of the JSON value `v` asks for: null clears, a
/// string sets, anything else and an absent member leave the chat as it is.
pub open spec fn chat_id_patch_of(v: Value) -> ChatIdPatchView {
    match json_member(v, "chatId"@) {
        Some(m) => match json_kind(m) {
            JsonKind::Null => ChatIdPatchView::Clear,
            JsonKind::Str(c) => ChatIdPatchView::Assign(c),
            _ => ChatIdPatchView::Keep,
        },
        None => ChatIdPatchView::Keep,
    }
}

/// The status patch that the JSON value `v` holds: `available` and `inChat`
/// count where they are booleans, `chatId` where it is null or a string.
pub open spec fn status_patch_of(v: Value) -> StatusPatchView {
    StatusPatchView {
        available: bool_member(v, "available"@),
        chat_id: chat_id_patch_of(v),
        in_chat: bool_member(v, "inChat"@),
    }
}

/// Reads the status patch that the JSON value `v` holds.
pub fn read_status_patch(v: &Value) -> (patch: StatusPatch)
    ensures
        patch@ == status_patch_of(*v),
{
    let available = get_bool(v, "available");
    let chat_id = match member(v, "chatId") {
        Some(m) => {
            if is_null(m) {
                ChatIdPatch::Clear
            } else {
                match as_str(m) {
                    Some(c) => ChatIdPatch::Assign(String::from_str(c)),
                    None => ChatIdPatch::Keep,
                }
            }
        },
        None => ChatIdPatch::Keep,
    };
    let in_chat = get_bool(v, "inChat");
    StatusPatch { available, chat_id, in_chat }
}

/// The presence record once the patch has set availability and chat.
pub open spec fn patched_presence(user: UserView, patch: StatusPatchView) -> UserView {
    UserView {
        username: user.username,
        is_available: match patch.available {
            Some(a) => a,
            None => user.is_available,
        },
        chat_id: match patch.chat_id {
            ChatIdPatchView::Keep => user.chat_id,
            ChatIdPatchView::Clear => None,
            ChatIdPatchView::Assign(c) => Some(c),
        },
    }
}

/// The presence record after the whole patch: coming into a chat makes the
/// user unavailable, going out makes it available and clears its chat.
pub open spec fn patched_user(user: UserView, patch: StatusPatchView) -> UserView {
    let u = patched_presence(user, patch);
    match patch.in_chat {
        Some(true) => UserView { is_available: false, ..u },
        Some(false) => UserView { is_available: true, chat_id: None, ..u },
        None => u,
    }
}

/// The chat that the patch makes the user come into, if any.
pub open spec fn entered_chat(user: UserView, patch: StatusPatchView) -> Option<Text> {
    if patch.in_chat == Some(true) {
        patched_presence(user, patch).chat_id
    } else {
        None
    }
}

/// The chat that the patch makes the user go out of, if any.
pub open spec fn vacated_chat(user: UserView, patch: StatusPatchView) -> Option<Text> {
    if patch.in_chat == Some(false) {
        patched_presence(user, patch).chat_id
    } else {
        None
    }
}

/// The state with the presence record of session `i` replaced.
pub open spec fn with_user(s: AppStateView, i: int, user: UserView) -> AppStateView {
    AppStateView {
        connected_users: s.connected_users.update(
            i,
            ConnectedUserView { user, ..s.connected_users[i] },
        ),
        ..s
    }
}

/// Why readiness notices are withdrawn when `name` goes out of a chat.
pub open spec fn left_reason(name: Text) -> Text {
    "User "@ + name + " left chat"@
}

/// The state after the session registered under `name` has asked for
/// `patch`: its presence record is patched, and the membership of the chat it
/// came into or went out of follows. Nothing changes where nobody is
/// registered under `name`.
pub open spec fn after_status_patch(
    s: AppStateView,
    name: Text,
    patch: StatusPatchView,
) -> AppStateView {
    match first_index(names_of(s.connected_users), name) {
        Some(i) => {
            let user = s.connected_users[i].user;
            let t = with_user(s, i, patched_user(user, patch));
            match vacated_chat(user, patch) {
                Some(c) => after_leave(t, c, name),
                None => match entered_chat(user, patch) {
                    Some(c) => after_join(t, c, name),
                    None => t,
                },
            }
        },
        None => s,
    }
}

/// What is sent when the session registered under `name` asks for `patch`.
/// Going out of a chat withdraws its readiness notices, tells its invited
/// users the new membership, tells the one left behind of an abandonment and
/// tells those still in it whether one is alone. Coming into a chat tells its
/// invited users the new membership and those in it whether one is alone.
/// Then every session gets the patched presence record and the list of all
/// users.
pub open spec fn status_patch_deliveries(
    s: AppStateView,
    name: Text,
    patch: StatusPatchView,
) -> Seq<DeliveryView> {
    match first_index(names_of(s.connected_users), name) {
        Some(i) => {
            let user = s.connected_users[i].user;
            let t = with_user(s, i, patched_user(user, patch));
            let users = t.connected_users;
            (match vacated_chat(user, patch) {
                Some(c) => to_all(users, invalidated_message(c, left_reason(name)))
                    + leave_deliveries(t, c, name) + alone_deliveries(users, c),
                None => match entered_chat(user, patch) {
                    Some(c) => join_deliveries(t, c, name) + alone_deliveries(users, c),
                    None => Seq::empty(),
                },
            }) + to_all(users, user_status_message(patched_user(user, patch))) + to_all(
                users,
                users_list_message(users),
            )
        },
        None => Seq::empty(),
    }
}

/// Patches the presence record of session `i` and says which chat the user
/// thereby went out of and which it came into.
fn patch_user(
    state: &mut AppState,
    i: usize,
    patch: &StatusPatch,
) -> (r: (Option<String>, Option<String>))
    requires
        i < old(state).connected_users.len(),
    ensures
        final(state)@ == with_user(
            old(state)@,
            i as int,
            patched_user(old(state)@.connected_users[i as int].user, patch@),
        ),
        r.0.deep_view() == vacated_chat(old(state)@.connected_users[i as int].user, patch@),
        r.1.deep_view() == entered_chat(old(state)@.connected_users[i as int].user, patch@),
{
    let ghost before = state.connected_users;
    if let Some(available) = patch.available {
        state.connected_users[i].user.is_available = available;
    }
    match &patch.chat_id {
        ChatIdPatch::Keep => {},
        ChatIdPatch::Clear => {
            state.connected_users[i].user.chat_id = None;
        },
        ChatIdPatch::Assign(chat_id) => {
            state.connected_users[i].user.chat_id = Some(chat_id.clone());
        },
    }
    let mut vacated: Option<String> = None;
    let mut entered: Option<String> = None;
    match patch.in_chat {
        Some(false) => {
            vacated = clone_opt(&state.connected_users[i].user.chat_id);
            state.connected_users[i].user.is_available = true;
            state.connected_users[i].user.chat_id = None;
        },
        Some(true) => {
            state.connected_users[i].user.is_available = false;
            entered = clone_opt(&state.connected_users[i].user.chat_id);
        },
        None => {},
    }
    proof {
        let session = state.connected_users@[i as int];
        assert(state.connected_users@ =~= before@.update(i as int, session));
        lemma_deep_update(before, state.connected_users, i as int, session);
    }
    (vacated, entered)
}

/// Carries out the status patch that the session registered under
/// `current_username` asks for.
pub fn apply_status_patch(
    state: &mut AppState,
    current_username: &str,
    patch: &StatusPatch,
) -> (out: Vec<Delivery>)
    ensures
        final(state)@ == after_status_patch(old(state)@, current_username@, patch@),
        out.deep_view() == status_patch_deliveries(old(state)@, current_username@, patch@),
{
    match find_user(&state.connected_users, current_username) {
        Some(i) => {
            let (vacated, entered) = patch_user(state, i, patch);
            let mut out: Vec<Delivery> = Vec::new();
            match vacated {
                Some(old_chat_id) => {
                    let reason = concat3("User ", current_username, " left chat");
                    let invalidated = invalidate_chat_ready_notifications(
                        state,
                        old_chat_id.as_str(),
                        reason.as_str(),
                    );
                    extend(&mut out, invalidated);
                    let tracked_out = remove_user_from_chat_tracking(
                        state,
                        old_chat_id.as_str(),
                        current_username,
                    );
                    extend(&mut out, tracked_out);
                    let alone = check_and_notify_alone_in_chat(state, old_chat_id.as_str());
                    extend(&mut out, alone);
                },
                None => {
                    if let Some(chat_id) = entered {
                        let tracked_in = add_user_to_chat_tracking(
                            state,
                            chat_id.as_str(),
                            current_username,
                        );
                        extend(&mut out, tracked_in);
                        let alone = check_and_notify_alone_in_chat(state, chat_id.as_str());
                        extend(&mut out, alone);
                    }
                },
            }
            proof {
                let user = old(state)@.connected_users[i as int].user;
                lemma_deep_index(state.connected_users, i as int);
            }
            let updated_user = state.connected_users[i].user.clone();
            let status = broadcast_user_status_changed(state, &updated_user);
            extend(&mut out, status);
            let list = send_users_list_to_all(state);
            extend(&mut out, list);
            out
        },
        None => Vec::new(),
    }
}

} // verus!
