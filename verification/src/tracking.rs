//! Chat membership: who is invited, who is inside, which private chats
//! have had both members inside, and who is alone.

use crate::router::{extend, send_to, send_to_names, to_names, to_session};
use crate::state::{
    find_chat, lemma_tracking_push, lemma_tracking_update, AppState, AppStateView,
    ConnectedUserView,
};
use crate::text::{find_name, opt_is, str_eq};
use crate::types::{
    clone_names, AloneInChatNotification, AloneInChatNotificationView, ChatAbandonedNotification,
    ChatAbandonedNotificationView, ChatUsersCount, ChatUsersCountView, Delivery, DeliveryView,
    MessageType, Payload, PayloadView, WebSocketMessage, WebSocketMessageView,
};
use crate::views::{
    first_index, lemma_deep_push, lemma_deep_remove, lemma_deep_update, lemma_first_index, Text,
};
use vstd::prelude::*;
use vstd::string::StringExecFns;

verus! {

/// The membership of a chat at its creation: `invited` are invited, nobody
/// is inside.
pub open spec fn new_membership(chat_id: Text, invited: Seq<Text>) -> ChatUsersCountView {
    ChatUsersCountView {
        chat_id,
        invited_users: invited,
        users_in_chat: Seq::empty(),
        invited_count: invited.len(),
        in_chat_count: 0,
    }
}

/// The state with `m` as the membership of the chat `chat_id`, in place of
/// any it had.
pub open spec fn with_membership(
    s: AppStateView,
    chat_id: Text,
    m: ChatUsersCountView,
) -> AppStateView {
    AppStateView { chat_tracking: s.chat_tracking.insert(chat_id, m), ..s }
}

/// Files `entry` under its chat identifier, in place of the entry that chat
/// had, if any.
fn put_membership(state: &mut AppState, entry: ChatUsersCount)
    ensures
        final(state)@ == with_membership(old(state)@, entry@.chat_id, entry@),
{
    let ghost before = state.chat_tracking;
    match find_chat(&state.chat_tracking, entry.chat_id.as_str()) {
        Some(i) => {
            state.chat_tracking.set(i, entry);
            proof {
                lemma_deep_update(before, state.chat_tracking, i as int, entry);
                lemma_tracking_update(before.deep_view(), i as int, entry@);
            }
        },
        None => {
            state.chat_tracking.push(entry);
            proof {
                lemma_deep_push(before, state.chat_tracking, entry);
                lemma_tracking_push(before.deep_view(), entry@);
            }
        },
    }
}

/// Starts the membership of the chat `chat_id` afresh: `invited_users` are
/// invited and nobody is inside. A membership the chat already had is
/// replaced.
pub fn init_chat_tracking(state: &mut AppState, chat_id: &str, invited_users: Vec<String>)
    ensures
        final(state)@ == with_membership(
            old(state)@,
            chat_id@,
            new_membership(chat_id@, invited_users.deep_view()),
        ),
{
    let invited_count = invited_users.len();
    let entry = ChatUsersCount {
        chat_id: String::from_str(chat_id),
        invited_users,
        users_in_chat: Vec::new(),
        invited_count,
        in_chat_count: 0,
    };
    assert(entry@.users_in_chat =~= Seq::<Text>::empty());
    put_membership(state, entry);
}

/// The membership `m` once `name` has come in.
pub open spec fn joined(m: ChatUsersCountView, name: Text) -> ChatUsersCountView {
    ChatUsersCountView {
        users_in_chat: m.users_in_chat.push(name),
        in_chat_count: m.users_in_chat.len() + 1,
        ..m
    }
}

/// Whether `name` coming into the chat `chat_id` changes anything: the chat
/// has a membership and `name` is not inside yet.
pub open spec fn join_changes(s: AppStateView, chat_id: Text, name: Text) -> bool {
    s.chat_tracking.contains_key(chat_id) && !s.chat_tracking[chat_id].users_in_chat.contains(name)
}

/// Whether the chat `chat_id` is a private chat with both members inside.
pub open spec fn is_private_full(s: AppStateView, chat_id: Text) -> bool {
    &&& s.chat_tracking.contains_key(chat_id)
    &&& s.chat_tracking[chat_id].invited_count == 2
    &&& s.chat_tracking[chat_id].in_chat_count == 2
}

/// The state after `name` has come into the chat `chat_id`. A private chat
/// that is full thereby is recorded as having had both members.
pub open spec fn after_join(s: AppStateView, chat_id: Text, name: Text) -> AppStateView {
    if join_changes(s, chat_id, name) {
        let t = with_membership(s, chat_id, joined(s.chat_tracking[chat_id], name));
        if is_private_full(t, chat_id) {
            AppStateView {
                private_chats_with_both_users: s.private_chats_with_both_users.insert(chat_id),
                ..t
            }
        } else {
            t
        }
    } else {
        s
    }
}

/// The frame that carries the membership `m`.
pub open spec fn users_count_message(m: ChatUsersCountView) -> WebSocketMessageView {
    WebSocketMessageView {
        message_type: MessageType::ChatUsersCount,
        data: PayloadView::ChatUsersCount(m),
    }
}

/// The membership of the chat `chat_id`, queued for each of its invited users
/// that is registered, inside the chat or not.
pub open spec fn users_count_deliveries(s: AppStateView, chat_id: Text) -> Seq<DeliveryView> {
    if s.chat_tracking.contains_key(chat_id) {
        let m = s.chat_tracking[chat_id];
        to_names(s.connected_users, m.invited_users, users_count_message(m))
    } else {
        Seq::empty()
    }
}

/// What is sent when `name` comes into the chat `chat_id`: the new
/// membership, if that changed it.
pub open spec fn join_deliveries(s: AppStateView, chat_id: Text, name: Text) -> Seq<DeliveryView> {
    if join_changes(s, chat_id, name) {
        users_count_deliveries(after_join(s, chat_id, name), chat_id)
    } else {
        Seq::empty()
    }
}

impl AppState {
    /// A copy of the membership of the chat `chat_id`, if it has one.
    pub fn membership(&self, chat_id: &str) -> (m: Option<ChatUsersCount>)
        ensures
            m.deep_view() == (if self@.chat_tracking.contains_key(chat_id@) {
                Some(self@.chat_tracking[chat_id@])
            } else {
                None
            }),
    {
        match find_chat(&self.chat_tracking, chat_id) {
            Some(i) => Some(self.chat_tracking[i].clone()),
            None => None,
        }
    }
}

/// Sends the membership of the chat `chat_id` to each of its invited users
/// that is registered. A chat without membership sends nothing.
pub fn broadcast_chat_users_count(state: &AppState, chat_id: &str) -> (out: Vec<Delivery>)
    ensures
        out.deep_view() == users_count_deliveries(state@, chat_id@),
{
    let mut out: Vec<Delivery> = Vec::new();
    if let Some(count_data) = state.membership(chat_id) {
        let invited_users = clone_names(&count_data.invited_users);
        let message = WebSocketMessage {
            message_type: MessageType::ChatUsersCount,
            data: Payload::ChatUsersCount(count_data),
        };
        send_to_names(&state.connected_users, &invited_users, &message, &mut out);
    }
    out
}

/// Records the chat `chat_id` as one that has had both members inside.
fn mark_seen_both(state: &mut AppState, chat_id: &str)
    ensures
        final(state)@ == (AppStateView {
            private_chats_with_both_users: old(state)@.private_chats_with_both_users.insert(
                chat_id@,
            ),
            ..old(state)@
        }),
{
    let ghost before = state.private_chats_with_both_users;
    if find_name(&state.private_chats_with_both_users, chat_id).is_none() {
        let id = String::from_str(chat_id);
        state.private_chats_with_both_users.push(id);
        proof {
            lemma_deep_push(before, state.private_chats_with_both_users, id);
            before.deep_view().lemma_push_to_set_commute(chat_id@);
        }
    } else {
        assert(before.deep_view().to_set().insert(chat_id@) =~= before.deep_view().to_set());
    }
}

impl AppState {
    /// Notes that `username` has come into the chat `chat_id`, and says
    /// whether that changed the membership. It does not where the chat has no
    /// membership or `username` is inside already. A private chat that is
    /// full thereby is recorded as having had both members inside.
    pub fn join(&mut self, chat_id: &str, username: &str) -> (changed: bool)
        ensures
            changed == join_changes(old(self)@, chat_id@, username@),
            final(self)@ == after_join(old(self)@, chat_id@, username@),
    {
        match find_chat(&self.chat_tracking, chat_id) {
            Some(i) => {
                proof {
                    lemma_first_index(self.chat_tracking@[i as int]@.users_in_chat, username@);
                }
                if find_name(&self.chat_tracking[i].users_in_chat, username).is_none() {
                    let ghost before = self.chat_tracking;
                    let ghost inside = self.chat_tracking@[i as int].users_in_chat;
                    let name = String::from_str(username);
                    self.chat_tracking[i].users_in_chat.push(name);
                    let in_chat_count = self.chat_tracking[i].users_in_chat.len();
                    self.chat_tracking[i].in_chat_count = in_chat_count;
                    let is_private_full = self.chat_tracking[i].invited_count == 2
                        && in_chat_count == 2;
                    proof {
                        let entry = self.chat_tracking@[i as int];
                        lemma_deep_push(inside, entry.users_in_chat, name);
                        assert(self.chat_tracking@ =~= before@.update(i as int, entry));
                        lemma_deep_update(before, self.chat_tracking, i as int, entry);
                        lemma_tracking_update(before.deep_view(), i as int, entry@);
                    }
                    if is_private_full {
                        mark_seen_both(self, chat_id);
                    }
                    true
                } else {
                    false
                }
            },
            None => false,
        }
    }
}

/// Notes that `username` has come into the chat `chat_id`, and tells the
/// invited users the new membership. Nothing changes and nothing is sent
/// where the chat has no membership or `username` is inside already.
pub fn add_user_to_chat_tracking(
    state: &mut AppState,
    chat_id: &str,
    username: &str,
) -> (out: Vec<Delivery>)
    ensures
        final(state)@ == after_join(old(state)@, chat_id@, username@),
        out.deep_view() == join_deliveries(old(state)@, chat_id@, username@),
{
    if state.join(chat_id, username) {
        broadcast_chat_users_count(state, chat_id)
    } else {
        Vec::new()
    }
}

/// The membership `m` once `name`, who was inside, has gone out.
pub open spec fn left(m: ChatUsersCountView, name: Text) -> ChatUsersCountView {
    ChatUsersCountView {
        users_in_chat: m.users_in_chat.remove(first_index(m.users_in_chat, name).unwrap()),
        in_chat_count: (m.users_in_chat.len() - 1) as nat,
        ..m
    }
}

/// Whether `name` going out of the chat `chat_id` changes anything: the chat
/// has a membership and `name` is inside.
pub open spec fn leave_changes(s: AppStateView, chat_id: Text, name: Text) -> bool {
    s.chat_tracking.contains_key(chat_id) && s.chat_tracking[chat_id].users_in_chat.contains(name)
}

/// The state after `name` has gone out of the chat `chat_id`.
pub open spec fn after_leave(s: AppStateView, chat_id: Text, name: Text) -> AppStateView {
    if leave_changes(s, chat_id, name) {
        with_membership(s, chat_id, left(s.chat_tracking[chat_id], name))
    } else {
        s
    }
}

/// Whether the chat `chat_id`, as it stands after someone has gone out, was
/// abandoned: it is a private chat with one member left inside, and it has had
/// both inside before.
pub open spec fn is_abandonment(s: AppStateView, chat_id: Text) -> bool {
    &&& s.chat_tracking.contains_key(chat_id)
    &&& s.chat_tracking[chat_id].invited_count == 2
    &&& s.chat_tracking[chat_id].in_chat_count == 1
    &&& s.private_chats_with_both_users.contains(chat_id)
}

/// What the one who stayed is told.
pub open spec fn abandoned_text(abandoned_by: Text) -> Text {
    abandoned_by + " ha abbandonato la chat definitivamente e non potrà rientrare"@
}

/// The frame that tells `remaining_user` that `abandoned_by` has left the
/// private chat `chat_id` for good.
pub open spec fn abandoned_message(
    chat_id: Text,
    abandoned_by: Text,
    remaining_user: Text,
) -> WebSocketMessageView {
    WebSocketMessageView {
        message_type: MessageType::ChatAbandoned,
        data: PayloadView::ChatAbandoned(
            ChatAbandonedNotificationView {
                chat_id,
                abandoned_by,
                remaining_user,
                message: abandoned_text(abandoned_by),
                is_private_chat: true,
            },
        ),
    }
}

/// The abandonment notice, queued for `remaining_user` alone.
pub open spec fn abandoned_deliveries(
    users: Seq<ConnectedUserView>,
    chat_id: Text,
    abandoned_by: Text,
    remaining_user: Text,
) -> Seq<DeliveryView> {
    to_session(users, remaining_user, abandoned_message(chat_id, abandoned_by, remaining_user))
}

/// The one who is left behind in the abandoned chat `chat_id`, where `s` is
/// the state after somebody has gone out of it: the first one still inside,
/// if the stored count of one is borne out by the list. `None` where the chat
/// was not abandoned.
pub open spec fn remaining_user(s: AppStateView, chat_id: Text) -> Option<Text> {
    if is_abandonment(s, chat_id) && s.chat_tracking[chat_id].users_in_chat.len() > 0 {
        Some(s.chat_tracking[chat_id].users_in_chat[0])
    } else {
        None
    }
}

/// The abandonment notice that follows `name` going out of the chat
/// `chat_id`, where `s` is the state after that: the one who is left behind
/// is told.
pub open spec fn abandonment_deliveries(
    s: AppStateView,
    chat_id: Text,
    name: Text,
) -> Seq<DeliveryView> {
    match remaining_user(s, chat_id) {
        Some(r) => abandoned_deliveries(s.connected_users, chat_id, name, r),
        None => Seq::empty(),
    }
}

/// What is sent when `name` goes out of the chat `chat_id`: the new
/// membership to the invited users, then the abandonment notice where one is
/// due; nothing if `name` was not inside.
pub open spec fn leave_deliveries(s: AppStateView, chat_id: Text, name: Text) -> Seq<DeliveryView> {
    if leave_changes(s, chat_id, name) {
        let t = after_leave(s, chat_id, name);
        users_count_deliveries(t, chat_id) + abandonment_deliveries(t, chat_id, name)
    } else {
        Seq::empty()
    }
}

/// Tells `remaining_user`, if registered, that `abandoned_by` has left the
/// private chat `chat_id` for good.
pub fn send_chat_abandoned_notification(
    state: &AppState,
    chat_id: &str,
    abandoned_by: &str,
    remaining_user: &str,
) -> (out: Vec<Delivery>)
    ensures
        out.deep_view() == abandoned_deliveries(
            state@.connected_users,
            chat_id@,
            abandoned_by@,
            remaining_user@,
        ),
{
    let mut message = String::from_str(abandoned_by);
    message.append(" ha abbandonato la chat definitivamente e non potrà rientrare");
    let abandoned_notification = ChatAbandonedNotification {
        chat_id: String::from_str(chat_id),
        abandoned_by: String::from_str(abandoned_by),
        remaining_user: String::from_str(remaining_user),
        message,
        is_private_chat: true,
    };
    let message = WebSocketMessage {
        message_type: MessageType::ChatAbandoned,
        data: Payload::ChatAbandoned(abandoned_notification),
    };
    let mut out: Vec<Delivery> = Vec::new();
    send_to(&state.connected_users, remaining_user, &message, &mut out);
    out
}

/// What somebody going out of a chat came to.
#[derive(Debug, PartialEq, Eq)]
pub struct LeaveOutcome {
    /// Whether the membership changed.
    pub changed: bool,
    /// Whether an established private chat was abandoned thereby.
    pub is_abandonment: bool,
    /// The one who is left behind in an abandoned chat.
    pub remaining_user: Option<String>,
}

impl AppState {
    /// Notes that `username` has gone out of the chat `chat_id`. Nothing
    /// changes where the chat has no membership or `username` is not inside.
    /// A private chat is abandoned where one member is left inside and the
    /// chat has had both inside before; a chat that never had both is not,
    /// whoever goes.
    pub fn leave(&mut self, chat_id: &str, username: &str) -> (r: LeaveOutcome)
        ensures
            final(self)@ == after_leave(old(self)@, chat_id@, username@),
            r.changed == leave_changes(old(self)@, chat_id@, username@),
            r.is_abandonment == (r.changed && is_abandonment(final(self)@, chat_id@)),
            r.remaining_user.deep_view() == (if r.changed {
                remaining_user(final(self)@, chat_id@)
            } else {
                None
            }),
    {
        match find_chat(&self.chat_tracking, chat_id) {
            Some(i) => {
                proof {
                    lemma_first_index(self.chat_tracking@[i as int]@.users_in_chat, username@);
                }
                match find_name(&self.chat_tracking[i].users_in_chat, username) {
                    Some(pos) => {
                        let ghost before = self.chat_tracking;
                        let ghost inside = self.chat_tracking@[i as int].users_in_chat;
                        self.chat_tracking[i].users_in_chat.remove(pos);
                        let in_chat_count = self.chat_tracking[i].users_in_chat.len();
                        self.chat_tracking[i].in_chat_count = in_chat_count;
                        proof {
                            let entry = self.chat_tracking@[i as int];
                            lemma_deep_remove(inside, entry.users_in_chat, pos as int);
                            assert(self.chat_tracking@ =~= before@.update(i as int, entry));
                            lemma_deep_update(before, self.chat_tracking, i as int, entry);
                            lemma_tracking_update(before.deep_view(), i as int, entry@);
                            lemma_first_index(
                                self.private_chats_with_both_users.deep_view(),
                                chat_id@,
                            );
                        }
                        let is_private = self.chat_tracking[i].invited_count == 2;
                        let has_one_left = in_chat_count == 1;
                        let had_both_users = find_name(
                            &self.private_chats_with_both_users,
                            chat_id,
                        ).is_some();
                        let is_abandonment = is_private && has_one_left && had_both_users;
                        let remaining_user = if is_abandonment
                            && self.chat_tracking[i].users_in_chat.len() > 0 {
                            Some(self.chat_tracking[i].users_in_chat[0].clone())
                        } else {
                            None
                        };
                        LeaveOutcome { changed: true, is_abandonment, remaining_user }
                    },
                    None => LeaveOutcome {
                        changed: false,
                        is_abandonment: false,
                        remaining_user: None,
                    },
                }
            },
            None => LeaveOutcome { changed: false, is_abandonment: false, remaining_user: None },
        }
    }
}

/// Notes that `username` has gone out of the chat `chat_id`, tells the
/// invited users the new membership and, where a private chat that has had
/// both members inside is left with one, tells that one of the abandonment.
/// Nothing changes and nothing is sent where the chat has no membership or
/// `username` is not inside.
pub fn remove_user_from_chat_tracking(
    state: &mut AppState,
    chat_id: &str,
    username: &str,
) -> (out: Vec<Delivery>)
    ensures
        final(state)@ == after_leave(old(state)@, chat_id@, username@),
        out.deep_view() == leave_deliveries(old(state)@, chat_id@, username@),
{
    let outcome = state.leave(chat_id, username);
    if outcome.changed {
        let mut out = broadcast_chat_users_count(state, chat_id);
        if let Some(remaining_user_name) = outcome.remaining_user {
            let notice = send_chat_abandoned_notification(
                state,
                chat_id,
                username,
                remaining_user_name.as_str(),
            );
            extend(&mut out, notice);
        }
        out
    } else {
        Vec::new()
    }
}

/// `names` without any occurrence of `name`, the rest in order.
pub open spec fn without(names: Seq<Text>, name: Text) -> Seq<Text>
    decreases names.len(),
{
    if names.len() == 0 {
        Seq::empty()
    } else if names.last() == name {
        without(names.drop_last(), name)
    } else {
        without(names.drop_last(), name).push(names.last())
    }
}

/// The membership `m` with `name` struck from both lists.
pub open spec fn struck(m: ChatUsersCountView, name: Text) -> ChatUsersCountView {
    ChatUsersCountView {
        invited_users: without(m.invited_users, name),
        users_in_chat: without(m.users_in_chat, name),
        invited_count: without(m.invited_users, name).len(),
        in_chat_count: without(m.users_in_chat, name).len(),
        ..m
    }
}

/// The state after `name` has been struck from the chat `chat_id`.
pub open spec fn after_strike(s: AppStateView, chat_id: Text, name: Text) -> AppStateView {
    if s.chat_tracking.contains_key(chat_id) {
        with_membership(s, chat_id, struck(s.chat_tracking[chat_id], name))
    } else {
        s
    }
}

/// A copy of `names` without any occurrence of `name`.
pub fn remove_name(names: &Vec<String>, name: &str) -> (r: Vec<String>)
    ensures
        r.deep_view() == without(names.deep_view(), name@),
{
    let mut r: Vec<String> = Vec::new();
    let mut i: usize = 0;
    while i < names.len()
        invariant
            i <= names.len(),
            r.deep_view() == without(names.deep_view().take(i as int), name@),
        decreases names.len() - i,
    {
        let ghost next = names.deep_view().take(i + 1);
        proof {
            assert(next.drop_last() =~= names.deep_view().take(i as int));
        }
        if !str_eq(names[i].as_str(), name) {
            let kept = names[i].clone();
            r.push(kept);
        }
        i = i + 1;
    }
    assert(names.deep_view().take(names.len() as int) =~= names.deep_view());
    r
}

/// Strikes `username` from the chat `chat_id`, from the invited as from those
/// inside, as after a declined invitation. Which private chats have had both
/// members inside stays as it is.
pub fn remove_user_from_invited(state: &mut AppState, chat_id: &str, username: &str)
    ensures
        final(state)@ == after_strike(old(state)@, chat_id@, username@),
{
    if let Some(i) = find_chat(&state.chat_tracking, chat_id) {
        let ghost before = state.chat_tracking;
        let invited_users = remove_name(&state.chat_tracking[i].invited_users, username);
        let users_in_chat = remove_name(&state.chat_tracking[i].users_in_chat, username);
        state.chat_tracking[i].invited_count = invited_users.len();
        state.chat_tracking[i].in_chat_count = users_in_chat.len();
        state.chat_tracking[i].invited_users = invited_users;
        state.chat_tracking[i].users_in_chat = users_in_chat;
        proof {
            let entry = state.chat_tracking@[i as int];
            assert(state.chat_tracking@ =~= before@.update(i as int, entry));
            lemma_deep_update(before, state.chat_tracking, i as int, entry);
            lemma_tracking_update(before.deep_view(), i as int, entry@);
        }
    }
}

/// The user names of the sessions whose presence record names the chat
/// `chat_id`, in order.
pub open spec fn in_chat_names(users: Seq<ConnectedUserView>, chat_id: Text) -> Seq<Text>
    decreases users.len(),
{
    if users.len() == 0 {
        Seq::empty()
    } else if users.last().user.chat_id == Some(chat_id) {
        in_chat_names(users.drop_last(), chat_id).push(users.last().user.username)
    } else {
        in_chat_names(users.drop_last(), chat_id)
    }
}

/// What a member of a chat is told about being alone in it.
pub open spec fn alone_text(is_alone: bool) -> Text {
    if is_alone {
        "Sei solo in questa chat. I tuoi messaggi non arriveranno a nessuno."@
    } else {
        " Altri utenti sono presenti nella chat."@
    }
}

/// The frame that tells a member of the chat `chat_id` whether it is alone.
pub open spec fn alone_message(chat_id: Text, is_alone: bool) -> WebSocketMessageView {
    WebSocketMessageView {
        message_type: MessageType::AloneInChat,
        data: PayloadView::AloneInChat(
            AloneInChatNotificationView { chat_id, message: alone_text(is_alone), is_alone },
        ),
    }
}

/// What the members of the chat `chat_id` are told: with one session in the
/// chat, that one is told it is alone; with more, each is told it is not;
/// with none, nothing is sent.
pub open spec fn alone_deliveries(
    users: Seq<ConnectedUserView>,
    chat_id: Text,
) -> Seq<DeliveryView> {
    let names = in_chat_names(users, chat_id);
    if names.len() == 0 {
        Seq::empty()
    } else {
        to_names(users, names, alone_message(chat_id, names.len() == 1))
    }
}

/// The user names of the sessions whose presence record names the chat
/// `chat_id`.
pub fn users_in_chat(state: &AppState, chat_id: &str) -> (names: Vec<String>)
    ensures
        names.deep_view() == in_chat_names(state@.connected_users, chat_id@),
{
    let mut names: Vec<String> = Vec::new();
    let mut i: usize = 0;
    while i < state.connected_users.len()
        invariant
            i <= state.connected_users.len(),
            names.deep_view() == in_chat_names(state@.connected_users.take(i as int), chat_id@),
        decreases state.connected_users.len() - i,
    {
        let ghost next = state@.connected_users.take(i + 1);
        proof {
            assert(next.drop_last() =~= state@.connected_users.take(i as int));
        }
        if opt_is(&state.connected_users[i].user.chat_id, chat_id) {
            let name = state.connected_users[i].user.username.clone();
            names.push(name);
        }
        i = i + 1;
    }
    assert(state@.connected_users.take(state.connected_users.len() as int)
        =~= state@.connected_users);
    names
}

/// Tells the members of the chat `chat_id` whether one of them is alone in
/// it, going by the presence records as they stand now.
pub fn check_and_notify_alone_in_chat(state: &AppState, chat_id: &str) -> (out: Vec<Delivery>)
    ensures
        out.deep_view() == alone_deliveries(state@.connected_users, chat_id@),
{
    let users_in_chat = users_in_chat(state, chat_id);
    let count = users_in_chat.len();
    let mut out: Vec<Delivery> = Vec::new();
    if count == 1 {
        let alone_notification = AloneInChatNotification {
            chat_id: String::from_str(chat_id),
            message: String::from_str(
                "Sei solo in questa chat. I tuoi messaggi non arriveranno a nessuno.",
            ),
            is_alone: true,
        };
        let message = WebSocketMessage {
            message_type: MessageType::AloneInChat,
            data: Payload::AloneInChat(alone_notification),
        };
        send_to_names(&state.connected_users, &users_in_chat, &message, &mut out);
    } else if count > 1 {
        let not_alone_notification = AloneInChatNotification {
            chat_id: String::from_str(chat_id),
            message: String::from_str(" Altri utenti sono presenti nella chat."),
            is_alone: false,
        };
        let message = WebSocketMessage {
            message_type: MessageType::AloneInChat,
            data: Payload::AloneInChat(not_alone_notification),
        };
        send_to_names(&state.connected_users, &users_in_chat, &message, &mut out);
    }
    out
}

} // verus!
