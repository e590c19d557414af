//! Laws of chat membership: coming in twice, full private chats, and when
//! an abandonment is told.

use crate::chat::{left_chat_text, system_message, user_left_deliveries};
use crate::laws_delivery::{
    lemma_alone_kind, lemma_chat_message_carry, lemma_to_names_carry, none_of_kind,
};
use crate::laws_registry::{is_run, step};
use crate::presence::{
    entered_chat, patched_user, status_patch_deliveries, vacated_chat, with_user, StatusPatchView,
};
use crate::state::{lookup, names_of, without_session, AppStateView, ConnectedUserView};
use crate::tracking::{
    abandoned_message, after_join, after_leave, after_strike, is_private_full, join_changes,
    join_deliveries, leave_changes, leave_deliveries, left, new_membership, struck,
    users_count_deliveries, users_count_message, with_membership, without,
};
use crate::types::{ChatUsersCountView, DeliveryView, MessageType, Timestamp, WebSocketMessageView};
use crate::views::{first_index, lemma_first_index, Text};
use crate::websocket::{after_disconnect, disconnect_deliveries, frame_handled};
use vstd::prelude::*;

verus! {

/// Leaving out every occurrence of a name keeps the rest in order: what
/// remains holds no name twice if the list held none twice, and holds
/// exactly the other names of the list.
pub proof fn lemma_without(names: Seq<Text>, name: Text)
    ensures
        !without(names, name).contains(name),
        forall|n: Text|
            n != name ==> (#[trigger] without(names, name).contains(n) <==> names.contains(n)),
        names.no_duplicates() ==> without(names, name).no_duplicates(),
        without(names, name).len() <= names.len(),
    decreases names.len(),
{
    if names.len() > 0 {
        let rest = names.drop_last();
        let last = names.last();
        lemma_without(rest, name);
        let kept = without(rest, name);
        let out = without(names, name);
        assert forall|n: Text| n != name implies (out.contains(n) <==> names.contains(n)) by {
            if names.contains(n) {
                let i = choose|i: int| 0 <= i < names.len() && names[i] == n;
                if i < rest.len() {
                    assert(rest[i] == n);
                    assert(without(rest, name).contains(n));
                    let k = choose|k: int| 0 <= k < kept.len() && kept[k] == n;
                    assert(out[k] == n);
                } else {
                    assert(out[out.len() - 1] == n);
                }
            }
            if out.contains(n) {
                let k = choose|k: int| 0 <= k < out.len() && out[k] == n;
                if k < kept.len() {
                    assert(without(rest, name).contains(n));
                }
            }
        }
        if names.no_duplicates() {
            if last != name {
                assert forall|a: int, b: int|
                    0 <= a < out.len() && 0 <= b < out.len() && a != b implies out[a]
                    != out[b] by {
                    if a == kept.len() || b == kept.len() {
                        let other = if a == kept.len() {
                            b
                        } else {
                            a
                        };
                        if kept[other] == last {
                            assert(without(rest, name).contains(last));
                        }
                    }
                }
            }
        }
    }
}

/// A membership stays well formed when somebody who was inside goes out.
pub proof fn lemma_left_wf(m: ChatUsersCountView, name: Text)
    requires
        m.wf(),
        m.users_in_chat.contains(name),
    ensures
        left(m, name).wf(),
        left(m, name).chat_id == m.chat_id,
        !left(m, name).users_in_chat.contains(name),
{
    lemma_first_index(m.users_in_chat, name);
}

/// A membership stays well formed when somebody is struck from it.
pub proof fn lemma_struck_wf(m: ChatUsersCountView, name: Text)
    requires
        m.wf(),
    ensures
        struck(m, name).wf(),
        struck(m, name).chat_id == m.chat_id,
{
    lemma_without(m.users_in_chat, name);
}

/// Starting the membership of a chat afresh keeps the state well formed.
pub proof fn lemma_init_wf(s: AppStateView, chat_id: Text, invited: Seq<Text>)
    requires
        s.wf(),
    ensures
        with_membership(s, chat_id, new_membership(chat_id, invited)).wf(),
{
}

/// Coming into a chat keeps the state well formed.
pub proof fn lemma_join_wf(s: AppStateView, chat_id: Text, name: Text)
    requires
        s.wf(),
    ensures
        after_join(s, chat_id, name).wf(),
        after_join(s, chat_id, name).connected_users == s.connected_users,
{
}

/// Going out of a chat keeps the state well formed.
pub proof fn lemma_leave_wf(s: AppStateView, chat_id: Text, name: Text)
    requires
        s.wf(),
    ensures
        after_leave(s, chat_id, name).wf(),
        after_leave(s, chat_id, name).connected_users == s.connected_users,
{
    if leave_changes(s, chat_id, name) {
        lemma_left_wf(s.chat_tracking[chat_id], name);
    }
}

/// Striking somebody from a chat keeps the state well formed.
pub proof fn lemma_strike_wf(s: AppStateView, chat_id: Text, name: Text)
    requires
        s.wf(),
    ensures
        after_strike(s, chat_id, name).wf(),
{
    if s.chat_tracking.contains_key(chat_id) {
        lemma_struck_wf(s.chat_tracking[chat_id], name);
    }
}

/// Somebody who is inside a chat and comes into it again changes nothing and
/// has nothing sent: the membership lists nobody twice, and a private chat
/// that is full is not announced as full a second time.
pub proof fn lemma_join_again_is_idle(s: AppStateView, chat_id: Text, name: Text)
    requires
        s.chat_tracking.contains_key(chat_id),
        s.chat_tracking[chat_id].users_in_chat.contains(name),
    ensures
        after_join(s, chat_id, name) == s,
        join_deliveries(s, chat_id, name) == Seq::<DeliveryView>::empty(),
{
}

/// Coming into a chat twice is the same as coming into it once, and the
/// second time nothing is sent.
pub proof fn lemma_join_idempotent(s: AppStateView, chat_id: Text, name: Text)
    ensures
        after_join(after_join(s, chat_id, name), chat_id, name) == after_join(s, chat_id, name),
        join_deliveries(after_join(s, chat_id, name), chat_id, name) == Seq::<
            DeliveryView,
        >::empty(),
{
    let t = after_join(s, chat_id, name);
    if join_changes(s, chat_id, name) {
        let inside = t.chat_tracking[chat_id].users_in_chat;
        assert(inside[inside.len() - 1] == name);
    }
}

/// A private chat with both members inside stays exactly as it is, and
/// nothing is sent, however often either of them comes into it again.
pub proof fn lemma_private_full_stays(s: AppStateView, chat_id: Text, name: Text)
    requires
        is_private_full(s, chat_id),
        s.chat_tracking[chat_id].users_in_chat.contains(name),
    ensures
        is_private_full(after_join(s, chat_id, name), chat_id),
        after_join(s, chat_id, name) == s,
        join_deliveries(s, chat_id, name) == Seq::<DeliveryView>::empty(),
{
}

/// A chat is recorded as having had both members inside only by somebody
/// coming into it who makes it a full private chat; coming in never takes a
/// record away.
pub proof fn lemma_join_records_full_chats(s: AppStateView, chat_id: Text, name: Text, k: Text)
    ensures
        s.private_chats_with_both_users.contains(k) ==> after_join(
            s,
            chat_id,
            name,
        ).private_chats_with_both_users.contains(k),
        after_join(s, chat_id, name).private_chats_with_both_users.contains(k)
            && !s.private_chats_with_both_users.contains(k) ==> k == chat_id && is_private_full(
            after_join(s, chat_id, name),
            chat_id,
        ),
{
}

/// Handling a frame never takes away the record that a private chat has had
/// both members inside, and adds one only for a chat that is a full private
/// chat after it.
pub proof fn lemma_frame_records_full_chats(
    pre: AppStateView,
    tx: u64,
    msg: WebSocketMessageView,
    name_before: Option<Text>,
    post: AppStateView,
    name_after: Option<Text>,
    out: Seq<DeliveryView>,
    k: Text,
)
    requires
        frame_handled(pre, tx, msg, name_before, post, name_after, out),
    ensures
        pre.private_chats_with_both_users.contains(k)
            ==> post.private_chats_with_both_users.contains(k),
        post.private_chats_with_both_users.contains(k)
            && !pre.private_chats_with_both_users.contains(k) ==> is_private_full(post, k),
{
}

/// Cleaning up after a connection leaves the record of the private chats
/// that have had both members inside as it is.
pub proof fn lemma_disconnect_keeps_records(s: AppStateView, username: Option<Text>)
    ensures
        after_disconnect(s, username).private_chats_with_both_users
            == s.private_chats_with_both_users,
{
}

/// Where a private chat has never had both members inside, nobody is told of
/// an abandonment when somebody goes out of it: the new membership is all
/// that is sent.
pub proof fn lemma_no_abandonment_before_both(s: AppStateView, chat_id: Text, name: Text)
    requires
        !s.private_chats_with_both_users.contains(chat_id),
    ensures
        none_of_kind(leave_deliveries(s, chat_id, name), MessageType::ChatAbandoned),
        leave_deliveries(s, chat_id, name) == if leave_changes(s, chat_id, name) {
            users_count_deliveries(after_leave(s, chat_id, name), chat_id)
        } else {
            Seq::<DeliveryView>::empty()
        },
{
    if leave_changes(s, chat_id, name) {
        let t = after_leave(s, chat_id, name);
        let m = t.chat_tracking[chat_id];
        lemma_to_names_carry(s.connected_users, m.invited_users, users_count_message(m));
    }
}

/// Where a private chat has had both members inside and one of the two goes
/// out, the one who stays is told of the abandonment, once, with the one who
/// went named as the abandoner. It follows the new membership that goes to
/// the invited users.
pub proof fn lemma_abandonment_notice(
    s: AppStateView,
    chat_id: Text,
    leaver: Text,
    stayer: Text,
    session: ConnectedUserView,
)
    requires
        s.chat_tracking.contains_key(chat_id),
        s.chat_tracking[chat_id].invited_count == 2,
        s.chat_tracking[chat_id].in_chat_count == 2,
        s.chat_tracking[chat_id].wf(),
        s.chat_tracking[chat_id].users_in_chat.contains(leaver),
        s.chat_tracking[chat_id].users_in_chat.contains(stayer),
        leaver != stayer,
        s.private_chats_with_both_users.contains(chat_id),
        lookup(s.connected_users, stayer) == Some(session),
    ensures
        leave_deliveries(s, chat_id, leaver) == users_count_deliveries(
            after_leave(s, chat_id, leaver),
            chat_id,
        ).push(
            DeliveryView {
                sender: session.sender,
                message: abandoned_message(chat_id, leaver, stayer),
            },
        ),
        none_of_kind(
            users_count_deliveries(after_leave(s, chat_id, leaver), chat_id),
            MessageType::ChatAbandoned,
        ),
{
    let m = s.chat_tracking[chat_id];
    let t = after_leave(s, chat_id, leaver);
    let n = t.chat_tracking[chat_id];
    lemma_first_index(m.users_in_chat, leaver);
    lemma_to_names_carry(s.connected_users, n.invited_users, users_count_message(n));
}

/// Where the chat that a user was in has never had both members inside,
/// nobody is told of an abandonment when the user has gone.
pub proof fn lemma_user_left_without_abandonment(
    s: AppStateView,
    name: Text,
    chat_id: Option<Text>,
    id: uuid::Uuid,
    timestamp: Timestamp,
)
    requires
        chat_id matches Some(c) ==> !s.private_chats_with_both_users.contains(c),
    ensures
        none_of_kind(
            user_left_deliveries(s, name, chat_id, id, timestamp),
            MessageType::ChatAbandoned,
        ),
{
    let kind = MessageType::ChatAbandoned;
    let users = s.connected_users;
    if let Some(c) = chat_id {
        let msg = system_message(id, Some(c), left_chat_text(name), timestamp);
        lemma_chat_message_carry(users, "Sistema"@, msg);
        lemma_no_abandonment_before_both(s, c, name);
        lemma_alone_kind(users, c, kind);
    }
}

/// Where the chat that a user is in has never had both members inside,
/// nobody is told of an abandonment when the user's connection closes.
pub proof fn lemma_disconnect_without_abandonment(
    s: AppStateView,
    name: Text,
    id: uuid::Uuid,
    timestamp: Timestamp,
)
    requires
        lookup(s.connected_users, name) matches Some(session) ==> (
        session.user.chat_id matches Some(c) ==> !s.private_chats_with_both_users.contains(c)),
    ensures
        none_of_kind(
            disconnect_deliveries(s, Some(name), id, timestamp),
            MessageType::ChatAbandoned,
        ),
{
    if let Some(i) = first_index(names_of(s.connected_users), name) {
        let t = without_session(s, i);
        let user = s.connected_users[i].user;
        lemma_user_left_without_abandonment(t, name, user.chat_id, id, timestamp);
    }
}

/// Where the chat that a status patch takes a user out of has never had both
/// members inside, nobody is told of an abandonment.
pub proof fn lemma_status_patch_without_abandonment(
    s: AppStateView,
    name: Text,
    patch: StatusPatchView,
)
    requires
        lookup(s.connected_users, name) matches Some(session) ==> (vacated_chat(
            session.user,
            patch,
        ) matches Some(c) ==> !s.private_chats_with_both_users.contains(c)),
    ensures
        none_of_kind(status_patch_deliveries(s, name, patch), MessageType::ChatAbandoned),
{
    let kind = MessageType::ChatAbandoned;
    if let Some(i) = first_index(names_of(s.connected_users), name) {
        let user = s.connected_users[i].user;
        let t = with_user(s, i, patched_user(user, patch));
        let users = t.connected_users;
        match vacated_chat(user, patch) {
            Some(c) => {
                lemma_no_abandonment_before_both(t, c, name);
                lemma_alone_kind(users, c, kind);
            },
            None => match entered_chat(user, patch) {
                Some(c) => {
                    if join_changes(t, c, name) {
                        let u = after_join(t, c, name);
                        let m = u.chat_tracking[c];
                        lemma_to_names_carry(
                            u.connected_users,
                            m.invited_users,
                            users_count_message(m),
                        );
                    }
                    lemma_alone_kind(users, c, kind);
                },
                None => {},
            },
        }
    }
}

/// One step never takes away the record that a private chat has had both
/// members inside, and adds one only for a chat that is a full private chat
/// after it.
pub proof fn lemma_step_records_full_chats(pre: AppStateView, post: AppStateView, k: Text)
    requires
        step(pre, post),
    ensures
        pre.private_chats_with_both_users.contains(k)
            ==> post.private_chats_with_both_users.contains(k),
        post.private_chats_with_both_users.contains(k)
            && !pre.private_chats_with_both_users.contains(k) ==> is_private_full(post, k),
{
    if exists|
        tx: u64,
        msg: WebSocketMessageView,
        name_before: Option<Text>,
        name_after: Option<Text>,
        out: Seq<DeliveryView>,
    | frame_handled(pre, tx, msg, name_before, post, name_after, out) {
        let (tx, msg, name_before, name_after, out) = choose|
            tx: u64,
            msg: WebSocketMessageView,
            name_before: Option<Text>,
            name_after: Option<Text>,
            out: Seq<DeliveryView>,
        | frame_handled(pre, tx, msg, name_before, post, name_after, out);
        lemma_frame_records_full_chats(pre, tx, msg, name_before, post, name_after, out, k);
    } else if exists|username: Option<Text>| post == after_disconnect(pre, username) {
        let username = choose|username: Option<Text>| post == after_disconnect(pre, username);
        lemma_disconnect_keeps_records(pre, username);
    }
}

/// A private chat that is on record as having had both members inside was
/// a full private chat at some time before, if the server started out with
/// no such record. So where a chat never was one, nobody is ever told that
/// it was abandoned.
pub proof fn lemma_record_has_a_cause(trace: Seq<AppStateView>, i: int, k: Text)
    requires
        is_run(trace),
        0 <= i < trace.len(),
        !trace[0].private_chats_with_both_users.contains(k),
        trace[i].private_chats_with_both_users.contains(k),
    ensures
        exists|j: int| 0 < j <= i && is_private_full(#[trigger] trace[j], k),
    decreases i,
{
    assert(step(trace[i - 1], trace[i - 1 + 1]));
    lemma_step_records_full_chats(trace[i - 1], trace[i], k);
    if trace[i - 1].private_chats_with_both_users.contains(k) {
        lemma_record_has_a_cause(trace, i - 1, k);
        let j = choose|j: int| 0 < j <= i - 1 && is_private_full(#[trigger] trace[j], k);
        assert(0 < j <= i && is_private_full(trace[j], k));
    } else {
        assert(is_private_full(trace[i], k));
    }
}

/// A record that a private chat has had both members inside is never taken
/// away.
pub proof fn lemma_records_stay(trace: Seq<AppStateView>, i: int, j: int, k: Text)
    requires
        is_run(trace),
        0 <= i <= j < trace.len(),
        trace[i].private_chats_with_both_users.contains(k),
    ensures
        trace[j].private_chats_with_both_users.contains(k),
    decreases j - i,
{
    if i < j {
        lemma_records_stay(trace, i, j - 1, k);
        assert(step(trace[j - 1], trace[j - 1 + 1]));
        lemma_step_records_full_chats(trace[j - 1], trace[j], k);
    }
}

/// Where the chat that a user is in has at no time been a full private
/// chat, nobody is told of an abandonment when the user's connection closes,
/// whatever the server went through before.
pub proof fn lemma_never_full_never_abandoned(
    trace: Seq<AppStateView>,
    i: int,
    name: Text,
    chat_id: Text,
    id: uuid::Uuid,
    timestamp: Timestamp,
)
    requires
        is_run(trace),
        0 <= i < trace.len(),
        !trace[0].private_chats_with_both_users.contains(chat_id),
        forall|j: int| 0 <= j <= i ==> !is_private_full(#[trigger] trace[j], chat_id),
        lookup(trace[i].connected_users, name) matches Some(session) ==> (
        session.user.chat_id matches Some(c) ==> c == chat_id),
    ensures
        none_of_kind(
            disconnect_deliveries(trace[i], Some(name), id, timestamp),
            MessageType::ChatAbandoned,
        ),
{
    if trace[i].private_chats_with_both_users.contains(chat_id) {
        lemma_record_has_a_cause(trace, i, chat_id);
    }
    lemma_disconnect_without_abandonment(trace[i], name, id, timestamp);
}

} // verus!
